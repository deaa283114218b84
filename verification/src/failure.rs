//! What can go wrong, and how much it matters.

use vstd::prelude::*;

verus! {

/// An operation that can fail.
#[derive(Clone, Copy, Debug, PartialEq, Eq, Structural)]
pub enum Failure {
    /// The radio controller could not be initialised.
    RadioInit,
    /// The network stack could not be built.
    StackConstruction,
    /// The gateway address is malformed.
    GatewayParse,
    /// The packet pump between the radio and the network stack stopped.
    NetworkRunner,
    /// The access point configuration was refused.
    AccessPointConfig,
    /// The access point did not start.
    AccessPointStart,
    /// No peer was accepted.
    Accept,
    /// A read from the socket failed.
    Read,
    /// A write to the socket failed.
    Write,
    /// A flush of the socket failed.
    Flush,
    /// A task could not be spawned.
    TaskSpawn,
}

/// How much a failure matters.
#[derive(Clone, Copy, Debug, PartialEq, Eq, Structural)]
pub enum Severity {
    /// There is no way to go on: the start-up is abandoned.
    Fatal,
    /// To be expected while stations come and go: it is logged and the loop
    /// in which it happened goes on.
    Recoverable,
    /// The device was put together wrongly: it is logged and not tried again.
    Misconfiguration,
}

/// How much `failure` matters.
pub open spec fn severity_of(failure: Failure) -> Severity {
    match failure {
        Failure::RadioInit
        | Failure::StackConstruction
        | Failure::GatewayParse
        | Failure::NetworkRunner => Severity::Fatal,
        Failure::TaskSpawn => Severity::Misconfiguration,
        _ => Severity::Recoverable,
    }
}

impl Failure {
    /// How much this failure matters.
    pub fn severity(&self) -> (severity: Severity)
        ensures
            severity == severity_of(*self),
    {
        match self {
            Failure::RadioInit => Severity::Fatal,
            Failure::StackConstruction => Severity::Fatal,
            Failure::GatewayParse => Severity::Fatal,
            Failure::NetworkRunner => Severity::Fatal,
            Failure::AccessPointConfig => Severity::Recoverable,
            Failure::AccessPointStart => Severity::Recoverable,
            Failure::Accept => Severity::Recoverable,
            Failure::Read => Severity::Recoverable,
            Failure::Write => Severity::Recoverable,
            Failure::Flush => Severity::Recoverable,
            Failure::TaskSpawn => Severity::Misconfiguration,
        }
    }

    /// Whether the task in which this failure happened goes on.
    pub fn is_survivable(&self) -> (survivable: bool)
        ensures
            survivable == !(severity_of(*self) is Fatal),
    {
        match self.severity() {
            Severity::Fatal => false,
            _ => true,
        }
    }
}

} // verus!
