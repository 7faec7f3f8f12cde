use vstd::prelude::*;

verus! {

/// Everything that can go wrong while resolving an address, provisioning a
/// relay, or recovering a lost channel/relay pair.
#[derive(Clone, Copy, Debug, PartialEq, Eq, Structural)]
pub enum FlowError {
    /// The routing address is malformed, or holds a segment that cannot be
    /// mapped onto a transport hop.
    InvalidAddress,
    /// The address names a project but no cloud directory address was given.
    MissingCloudAddress,
    /// The directory answered with a failure status, or the project it
    /// described carries no identity.
    DirectoryResolutionFailed,
    /// The gateway could not create the requested secure channel.
    ChannelCreationFailed,
    /// The gateway could not delete the previous secure channel.  Never
    /// fatal: replacement goes on regardless.
    ChannelDeletionFailed,
    /// The relay protocol refused to provision the relay.
    RelayProvisioningFailed,
    /// A recovery attempt ran past its hard deadline.
    Timeout,
}

impl FlowError {
    /// A short, fixed description of the error.
    pub fn describe(&self) -> (r: &'static str)
        ensures
            r@ == self.describe_spec(),
    {
        match self {
            FlowError::InvalidAddress => "invalid address",
            FlowError::MissingCloudAddress => "request has no cloud address",
            FlowError::DirectoryResolutionFailed => "failed to get project info",
            FlowError::ChannelCreationFailed => "error creating secure channel",
            FlowError::ChannelDeletionFailed => "error deleting secure channel",
            FlowError::RelayProvisioningFailed => "failed to create forwarding relay",
            FlowError::Timeout => "timeout",
        }
    }

    pub open spec fn describe_spec(&self) -> Seq<char> {
        match self {
            FlowError::InvalidAddress => "invalid address"@,
            FlowError::MissingCloudAddress => "request has no cloud address"@,
            FlowError::DirectoryResolutionFailed => "failed to get project info"@,
            FlowError::ChannelCreationFailed => "error creating secure channel"@,
            FlowError::ChannelDeletionFailed => "error deleting secure channel"@,
            FlowError::RelayProvisioningFailed => "failed to create forwarding relay"@,
            FlowError::Timeout => "timeout"@,
        }
    }
}

} // verus!
