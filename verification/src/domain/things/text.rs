//! Validation rules shared by the text value objects.
//!
//! A text is acceptable when it is not blank, holds at most
//! [`MAX_GRAPHEMES`] user-perceived characters and contains none of the
//! forbidden characters. All three rules look at the raw text as it was
//! handed in: nothing is trimmed away before the length is measured or the
//! characters are scanned.

use unicode_segmentation::UnicodeSegmentation;
use vstd::prelude::*;

verus! {

/// Largest number of extended grapheme clusters an acceptable text may hold.
pub const MAX_GRAPHEMES: usize = 256;

/// The rule that a rejected text broke.
#[derive(Clone, Copy, Debug, PartialEq, Eq, Structural)]
pub enum TextViolation {
    /// The text is empty or holds nothing but whitespace.
    Blank,
    /// The text holds more than [`MAX_GRAPHEMES`] extended grapheme clusters.
    TooLong,
    /// The text holds one of the forbidden characters.
    ForbiddenCharacter,
}

/// The code points that carry the Unicode `White_Space` property.
pub open spec fn is_white_space(c: char) -> bool {
    let u = c as u32;
    ||| 0x0009 <= u <= 0x000D
    ||| u == 0x0020
    ||| u == 0x0085
    ||| u == 0x00A0
    ||| u == 0x1680
    ||| 0x2000 <= u <= 0x200A
    ||| u == 0x2028
    ||| u == 0x2029
    ||| u == 0x202F
    ||| u == 0x205F
    ||| u == 0x3000
}

/// The characters that no acceptable text may hold: `/ ( ) " < > \ { }`.
pub open spec fn is_forbidden(c: char) -> bool {
    ||| c == '/'
    ||| c == '('
    ||| c == ')'
    ||| c == '"'
    ||| c == '<'
    ||| c == '>'
    ||| c == '\\'
    ||| c == '{'
    ||| c == '}'
}

/// A text is blank when trimming whitespace off both ends leaves nothing,
/// that is, when every character of it is whitespace.
pub open spec fn is_blank(s: Seq<char>) -> bool {
    forall|i: int| 0 <= i < s.len() ==> is_white_space(#[trigger] s[i])
}

/// Some character of the text is forbidden.
pub open spec fn has_forbidden(s: Seq<char>) -> bool {
    exists|i: int| 0 <= i < s.len() && is_forbidden(#[trigger] s[i])
}

/// The number of extended grapheme clusters into which Unicode text
/// segmentation splits the text.
pub uninterp spec fn extended_grapheme_count(s: Seq<char>) -> nat;

/// The text holds more user-perceived characters than are allowed.
pub open spec fn is_too_long(s: Seq<char>) -> bool {
    extended_grapheme_count(s) > MAX_GRAPHEMES
}

/// The first rule that a text of `graphemes` extended grapheme clusters
/// breaks, in the order blank, too long, forbidden character; `None` where
/// it breaks none.
pub open spec fn violation_with(s: Seq<char>, graphemes: nat) -> Option<TextViolation> {
    if is_blank(s) {
        Some(TextViolation::Blank)
    } else if graphemes > MAX_GRAPHEMES {
        Some(TextViolation::TooLong)
    } else if has_forbidden(s) {
        Some(TextViolation::ForbiddenCharacter)
    } else {
        None
    }
}

/// The first rule that the text breaks; `None` for an acceptable text.
pub open spec fn violation(s: Seq<char>) -> Option<TextViolation> {
    violation_with(s, extended_grapheme_count(s))
}

/// The text breaks none of the rules.
pub open spec fn is_acceptable(s: Seq<char>) -> bool {
    violation(s) is None
}

/// Tells whether a character carries the `White_Space` property.
pub fn is_white_space_char(c: char) -> (b: bool)
    ensures
        b == is_white_space(c),
{
    let u: u32 = c as u32;
    (0x0009 <= u && u <= 0x000D) || u == 0x0020 || u == 0x0085 || u == 0x00A0 || u == 0x1680 || (
    0x2000 <= u && u <= 0x200A) || u == 0x2028 || u == 0x2029 || u == 0x202F || u == 0x205F || u
        == 0x3000
}

/// Tells whether a character is one of the forbidden ones.
pub fn is_forbidden_char(c: char) -> (b: bool)
    ensures
        b == is_forbidden(c),
{
    c == '/' || c == '(' || c == ')' || c == '"' || c == '<' || c == '>' || c == '\\' || c == '{'
        || c == '}'
}

/// Tells whether the text is empty or made of whitespace only.
pub fn is_blank_text(s: &str) -> (b: bool)
    ensures
        b == is_blank(s@),
{
    let mut blank = true;
    for c in it: s.chars()
        invariant
            it.seq() == s@,
            blank == (forall|i: int| 0 <= i < it.index() ==> is_white_space(#[trigger] s@[i])),
    {
        if !is_white_space_char(c) {
            blank = false;
        }
    }
    blank
}

/// Tells whether the text holds a forbidden character anywhere.
pub fn contains_forbidden(s: &str) -> (b: bool)
    ensures
        b == has_forbidden(s@),
{
    let mut found = false;
    for c in it: s.chars()
        invariant
            it.seq() == s@,
            found == (exists|i: int| 0 <= i < it.index() && is_forbidden(#[trigger] s@[i])),
    {
        if is_forbidden_char(c) {
            found = true;
        }
    }
    found
}

/// Counts the extended grapheme clusters of the text with
/// `UnicodeSegmentation::graphemes(s, true)`.
///
/// Trusted: the result is the cluster count that Unicode text segmentation
/// gives for this text. The clusters are consecutive, non-empty pieces of the
/// text, so there are never more of them than characters.
#[verifier::external_body]
fn count_extended_graphemes(s: &str) -> (n: usize)
    ensures
        n == extended_grapheme_count(s@),
        n <= s@.len(),
{
    s.graphemes(true).count()
}

/// Validates a text whose extended grapheme clusters were counted
/// beforehand: reports the first rule it breaks, or `None` when it breaks
/// none.
pub fn validate_counted(s: &str, graphemes: usize) -> (r: Option<TextViolation>)
    ensures
        r == violation_with(s@, graphemes as nat),
{
    if is_blank_text(s) {
        Some(TextViolation::Blank)
    } else if graphemes > MAX_GRAPHEMES {
        Some(TextViolation::TooLong)
    } else if contains_forbidden(s) {
        Some(TextViolation::ForbiddenCharacter)
    } else {
        None
    }
}

/// Validates the text: reports the first rule it breaks, or `None` when the
/// text is acceptable. The call also shows that the text has no more
/// grapheme clusters than characters.
pub fn validate(s: &str) -> (r: Option<TextViolation>)
    ensures
        r == violation(s@),
        extended_grapheme_count(s@) <= s@.len(),
{
    let graphemes = count_extended_graphemes(s);
    validate_counted(s, graphemes)
}

/// The text without the whitespace at its start.
pub open spec fn trimmed_start(s: Seq<char>) -> Seq<char>
    decreases s.len(),
{
    if s.len() > 0 && is_white_space(s.first()) {
        trimmed_start(s.drop_first())
    } else {
        s
    }
}

/// The text without the whitespace at its end.
pub open spec fn trimmed_end(s: Seq<char>) -> Seq<char>
    decreases s.len(),
{
    if s.len() > 0 && is_white_space(s.last()) {
        trimmed_end(s.drop_last())
    } else {
        s
    }
}

/// The text without the whitespace at its two ends.
pub open spec fn trimmed(s: Seq<char>) -> Seq<char> {
    trimmed_end(trimmed_start(s))
}

/// Trimming the start of a text leaves nothing exactly when the text is
/// blank, and never leaves a text that starts with whitespace.
pub proof fn lemma_trimmed_start(s: Seq<char>)
    ensures
        trimmed_start(s).len() == 0 <==> is_blank(s),
        trimmed_start(s).len() > 0 ==> !is_white_space(trimmed_start(s).first()),
    decreases s.len(),
{
    if s.len() > 0 && is_white_space(s.first()) {
        let rest = s.drop_first();
        lemma_trimmed_start(rest);
        if is_blank(rest) {
            assert forall|i: int| 0 <= i < s.len() implies is_white_space(#[trigger] s[i]) by {
                if i > 0 {
                    assert(s[i] == rest[i - 1]);
                }
            }
        } else {
            let j = choose|j: int| 0 <= j < rest.len() && !is_white_space(#[trigger] rest[j]);
            assert(s[j + 1] == rest[j]);
        }
    } else if s.len() > 0 {
        assert(!is_white_space(s[0]));
    }
}

/// Trimming the end of a text leaves nothing exactly when the text is blank.
pub proof fn lemma_trimmed_end(s: Seq<char>)
    ensures
        trimmed_end(s).len() == 0 <==> is_blank(s),
    decreases s.len(),
{
    if s.len() > 0 && is_white_space(s.last()) {
        let rest = s.drop_last();
        lemma_trimmed_end(rest);
        if is_blank(rest) {
            assert forall|i: int| 0 <= i < s.len() implies is_white_space(#[trigger] s[i]) by {
                if i < rest.len() {
                    assert(s[i] == rest[i]);
                }
            }
        } else {
            let j = choose|j: int| 0 <= j < rest.len() && !is_white_space(#[trigger] rest[j]);
            assert(s[j] == rest[j]);
        }
    } else if s.len() > 0 {
        assert(!is_white_space(s[s.len() - 1]));
    }
}

/// A text is blank exactly when trimming the whitespace off its two ends
/// leaves nothing. The empty text and every text made of whitespace alone
/// are blank, however long they are.
pub proof fn lemma_blank_iff_trimmed_empty(s: Seq<char>)
    ensures
        is_blank(s) <==> trimmed(s).len() == 0,
        s.len() == 0 ==> is_blank(s),
{
    lemma_trimmed_start(s);
    lemma_trimmed_end(trimmed_start(s));
    let t = trimmed_start(s);
    if t.len() > 0 {
        assert(!is_white_space(t[0]));
    }
}

/// A blank text is rejected as blank, whatever else holds of it.
pub proof fn lemma_blank_is_rejected(s: Seq<char>)
    requires
        is_blank(s),
    ensures
        violation(s) == Some(TextViolation::Blank),
{
}

/// The length rule counts extended grapheme clusters and nothing else.
///
/// A text of at most [`MAX_GRAPHEMES`] clusters that is not blank and holds
/// no forbidden character is acceptable, however many characters its
/// clusters are made of. A text of more clusters is never acceptable, and
/// unless it is blank it is rejected as too long.
pub proof fn lemma_grapheme_boundary(s: Seq<char>)
    ensures
        extended_grapheme_count(s) <= MAX_GRAPHEMES && !is_blank(s) && !has_forbidden(s)
            ==> is_acceptable(s),
        extended_grapheme_count(s) > MAX_GRAPHEMES ==> !is_acceptable(s),
        extended_grapheme_count(s) > MAX_GRAPHEMES && !is_blank(s) ==> violation(s) == Some(
            TextViolation::TooLong,
        ),
{
}

/// A forbidden character spoils the text it stands in, wherever it stands.
///
/// Such a text is never acceptable and never blank. Unless it is too long,
/// it is rejected for the forbidden character.
pub proof fn lemma_forbidden_character_is_rejected(s: Seq<char>, at: int)
    requires
        0 <= at < s.len(),
        is_forbidden(s[at]),
    ensures
        !is_acceptable(s),
        !is_blank(s),
        !is_too_long(s) ==> violation(s) == Some(TextViolation::ForbiddenCharacter),
{
    assert(!is_white_space(s[at]));
}

/// An acceptable text breaks none of the three rules.
pub proof fn lemma_acceptable_text(s: Seq<char>)
    ensures
        is_acceptable(s) <==> !is_blank(s) && !is_too_long(s) && !has_forbidden(s),
        is_acceptable(s) ==> trimmed(s).len() > 0,
{
    lemma_blank_iff_trimmed_empty(s);
}

} // verus!
