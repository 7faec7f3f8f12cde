use vstd::prelude::*;

verus! {

/// Hard deadline on one whole recovery attempt, in milliseconds.
pub const MAX_RECOVERY_MS: u64 = 10000;

/// Deadline attached to the channel-creation request sent while replacing a
/// secure channel, in milliseconds.
pub const MAX_CONNECT_MS: u64 = 5000;

/// The reserved key under which a session stores the authorized identity
/// captured when the session was created.
pub open spec fn identity_key() -> Seq<char> {
    "authorized_identity"@
}

/// Executable form of [`identity_key`].
pub fn identity_key_str() -> (r: &'static str)
    ensures
        r@ == identity_key(),
{
    "authorized_identity"
}

/// The well-known local service a `secure` segment routes to.
pub open spec fn secure_service() -> Seq<char> {
    "secure"@
}

/// Executable form of [`secure_service`].
pub fn secure_service_str() -> (r: &'static str)
    ensures
        r@ == secure_service(),
{
    "secure"
}

} // verus!
