//! Which log output goes with which environment.

use crate::configuration::Environment;
use vstd::prelude::*;

verus! {

/// The layers of log output, each switched on or off.
#[derive(Clone, Copy, Debug, PartialEq, Eq, Structural)]
pub struct LogLayers {
    /// Records laid out for a person who reads the console.
    pub pretty: bool,
    /// Records as lines of JSON for a log collector.
    pub bunyan: bool,
}

/// Picks the layers for an environment: pretty records in development,
/// JSON records in production, and neither while testing.
pub fn log_layers(environment: Environment) -> (layers: LogLayers)
    ensures
        layers.pretty == (environment == Environment::Development),
        layers.bunyan == (environment == Environment::Production),
{
    match environment {
        Environment::Development => LogLayers { pretty: true, bunyan: false },
        Environment::Testing => LogLayers { pretty: false, bunyan: false },
        Environment::Production => LogLayers { pretty: false, bunyan: true },
    }
}

} // verus!
