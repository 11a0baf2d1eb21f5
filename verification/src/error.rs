use vstd::prelude::*;

verus! {

/// Why a property was refused by an event.
#[derive(Clone, Copy, Debug, PartialEq, Eq, Structural)]
pub enum PropertyFault {
    /// The key is the empty text.
    EmptyKey,
    /// The key is one of the names that the envelope itself carries.
    ReservedKey,
    /// The event already holds a property under this key.
    DuplicateKey,
}

/// Why the configuration could not be used.
#[derive(Clone, Copy, Debug, PartialEq, Eq, Structural)]
pub enum ConfigFault {
    /// No API key was given.
    MissingApiKey,
    /// The request timeout is not a decimal number of milliseconds.
    InvalidTimeout,
    /// The retry delay is not a decimal number of seconds.
    InvalidRetryDelay,
}

/// Why a submission attempt counts as failed.
#[derive(Clone, Copy, Debug, PartialEq, Eq, Structural)]
pub enum DeliveryFault {
    /// The endpoint could not be reached.
    Network,
    /// The endpoint did not answer within the request timeout.
    Timeout,
    /// The endpoint answered with a status outside 200..=299.
    Status(u16),
    /// The endpoint answered with success, but its body is not JSON.
    MalformedResponse,
}

/// The errors of this library.
#[derive(Clone, Copy, Debug, PartialEq, Eq, Structural)]
pub enum Error {
    /// Missing or invalid configuration at startup.
    ConfigError(ConfigFault),
    /// A property could not be added to an event; the event is unchanged.
    InvalidProperty(PropertyFault),
    /// A submission attempt failed.
    DeliveryError(DeliveryFault),
}

} // verus!
