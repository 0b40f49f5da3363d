//! The ways in which a request can fail.

use vstd::prelude::*;

verus! {

/// Every failure that the core reports.
#[derive(Clone, Copy, Debug, PartialEq, Eq, Structural)]
pub enum VpnError {
    /// A custom configuration file was given without a protocol.
    MissingProtocol,
    /// Neither a provider nor a custom configuration file was given.
    MissingProvider,
    /// A provider was given without a server.
    MissingServer,
    /// The custom provider was named without a configuration file.
    MissingCustomConfig,
    /// The provider does not offer WireGuard.
    Unsupported,
    /// No entry of the server list matches the alias.
    NoMatchingServer,
    /// A string names no OpenVPN transport.
    UnknownProtocol,
    /// The server list is not well-formed CSV of the expected shape.
    MalformedServerList,
    /// The credentials file has no first line.
    NoUsername,
    /// The credentials file has no second line.
    NoPassword,
    /// The user kept entering malformed credentials.
    CredentialsInvalid,
    /// No host interface is up with a default route.
    NoActiveInterface,
    /// The kernel namespace exists but no lockfile claims it.
    NamespaceExists,
    /// Every /24 of the range is taken.
    NoFreeSubnet,
    /// The application would run as root without that being allowed.
    RootRefused,
    /// The process lacks the capabilities to change the network.
    PrivilegeError,
    /// The provider's files are absent.
    ConfigMissing,
    /// The tunnel did not come up in time.
    TunnelNotReady,
    /// The tunnel's process ended while it was waited for.
    TunnelDied,
    /// A firewall rule of somebody else blocks one of ours.
    RuleCollision,
    /// The application could not be started.
    ChildSpawn,
}

/// How a failure ends the process.
#[derive(Clone, Copy, Debug, PartialEq, Eq, Structural)]
pub enum ErrorClass {
    /// The command line was wrong.
    Argument,
    /// Setting up the namespace failed.
    Setup,
}

impl VpnError {
    /// The class of this failure.
    pub open spec fn spec_class(self) -> ErrorClass {
        match self {
            VpnError::MissingProtocol
            | VpnError::MissingProvider
            | VpnError::MissingServer
            | VpnError::MissingCustomConfig => ErrorClass::Argument,
            _ => ErrorClass::Setup,
        }
    }

    /// The class of this failure.
    pub fn class(&self) -> (c: ErrorClass)
        ensures
            c == self.spec_class(),
    {
        match self {
            VpnError::MissingProtocol
            | VpnError::MissingProvider
            | VpnError::MissingServer
            | VpnError::MissingCustomConfig => ErrorClass::Argument,
            _ => ErrorClass::Setup,
        }
    }

    /// How often what failed is tried again before the failure is final:
    /// once after fetching a provider's missing files, once for a rule that
    /// collides, three times for malformed credentials, never otherwise.
    pub open spec fn spec_retries(self) -> u8 {
        match self {
            VpnError::ConfigMissing => 1,
            VpnError::RuleCollision => 1,
            VpnError::CredentialsInvalid => 3,
            _ => 0,
        }
    }

    /// How often what failed is tried again before the failure is final.
    pub fn retries(&self) -> (n: u8)
        ensures
            n == self.spec_retries(),
    {
        match self {
            VpnError::ConfigMissing => 1,
            VpnError::RuleCollision => 1,
            VpnError::CredentialsInvalid => 3,
            _ => 0,
        }
    }

    /// Whether to try again after this failure, given how often that was done
    /// already.
    pub fn may_retry(&self, retried: u8) -> (r: bool)
        ensures
            r == (retried < self.spec_retries()),
    {
        retried < self.retries()
    }

    /// The exit code of the process: 2 for a wrong command line, 1 for a
    /// failed setup.
    pub fn exit_code(&self) -> (code: u8)
        ensures
            code == (if self.spec_class() == ErrorClass::Argument { 2u8 } else { 1u8 }),
    {
        match self.class() {
            ErrorClass::Argument => 2,
            ErrorClass::Setup => 1,
        }
    }
}

} // verus!
