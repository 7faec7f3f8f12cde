use vstd::prelude::*;

use crate::addr::{
    class_of, has_project, AddrClass, RoutingAddr, SegV, Segment,
};
use crate::error::FlowError;
use crate::identity::{dup_opt_identity, opt_identity_view, IdentityRef};
use crate::route::{lemma_secure_pattern_has_route, resolve_route, route_of, Route};

verus! {

/// How credentials are exchanged over a new secure channel.
#[derive(Clone, Copy, Debug, PartialEq, Eq, Structural)]
pub enum ExchangeMode {
    /// Only one side presents credentials.
    Oneway,
    /// Both sides present credentials.
    Mutual,
}

/// Everything the secure-channel gateway needs to create one channel.
#[derive(Debug)]
pub struct ChannelRequest {
    /// The transport route to the remote channel listener.
    pub route: Route,
    /// The identity allowed to complete the handshake, if restricted.
    pub authorized: Option<IdentityRef>,
    /// How credentials are exchanged.
    pub mode: ExchangeMode,
}

/// The first move of address resolution: what `connect` asks for before any
/// collaborator has answered.
#[derive(Debug)]
pub enum ConnectStart {
    /// The address names a project: ask the directory for it, then carry on
    /// with the segments after the project reference.
    LookupProject { name: String, cloud: RoutingAddr, remaining: Vec<Segment> },
    /// The address matches the secure pattern: ask the gateway for a channel
    /// over the address's own route.
    CreateChannel { request: ChannelRequest },
    /// Anything else: the address is the result, untouched.
    Passthrough { addr: RoutingAddr },
}

/// Classifies an address and decides how resolution starts.
///
/// An address that neither names a project nor matches the secure pattern is
/// returned unchanged and no channel is negotiated.  A project-prefixed
/// address fails with `MissingCloudAddress` exactly when no cloud address
/// was supplied, whatever the rest of the address holds.
pub fn connect_start(
    addr: &RoutingAddr,
    authorized: &Option<IdentityRef>,
    cloud: &Option<RoutingAddr>,
) -> (r: Result<ConnectStart, FlowError>)
    ensures
        ({
            match r {
                Err(e) => {
                    &&& class_of(addr@) == AddrClass::Project
                    &&& cloud is None
                    &&& e == FlowError::MissingCloudAddress
                },
                Ok(start) => match start {
                    ConnectStart::LookupProject { name, cloud: cl, remaining } => {
                        &&& class_of(addr@) == AddrClass::Project
                        &&& addr@[0] == SegV::Project(name@)
                        &&& cloud matches Some(c) && cl@ == c@
                        &&& remaining@.map_values(|s: Segment| s@) == addr@.skip(1)
                    },
                    ConnectStart::CreateChannel { request } => {
                        &&& class_of(addr@) == AddrClass::SecurePattern
                        &&& Some(request.route@) == route_of(addr@)
                        &&& opt_identity_view(request.authorized) == opt_identity_view(
                            *authorized,
                        )
                        &&& request.mode == ExchangeMode::Oneway
                    },
                    ConnectStart::Passthrough { addr: out } => {
                        &&& class_of(addr@) == AddrClass::Passthrough
                        &&& out@ == addr@
                    },
                },
            }
        }),
{
    match crate::addr::classify(addr) {
        AddrClass::Project => {
            let name = match addr.leading_project() {
                Some(n) => n.clone(),
                None => { proof { assert(false); } return Err(FlowError::InvalidAddress) },
            };
            match cloud {
                None => Err(FlowError::MissingCloudAddress),
                Some(c) => Ok(
                    ConnectStart::LookupProject {
                        name,
                        cloud: c.dup(),
                        remaining: addr.tail(),
                    },
                ),
            }
        },
        AddrClass::SecurePattern => {
            let rt = match resolve_route(addr) {
                Some(rt) => rt,
                None => {
                    proof {
                        lemma_secure_pattern_has_route(addr@);
                        assert(false);
                    }
                    return Err(FlowError::InvalidAddress)
                },
            };
            Ok(
                ConnectStart::CreateChannel {
                    request: ChannelRequest {
                        route: rt,
                        authorized: dup_opt_identity(authorized),
                        mode: ExchangeMode::Oneway,
                    },
                },
            )
        },
        AddrClass::Passthrough => Ok(ConnectStart::Passthrough { addr: addr.dup() }),
    }
}

/// A directory's answer about a project, once its transport envelope has
/// been stripped: the response status, the project's access route (when its
/// text could be parsed into an address), and the project's identity (when
/// the record carries one).
#[derive(Debug)]
pub struct DirectoryReply {
    pub status_ok: bool,
    pub access_route: Option<RoutingAddr>,
    pub identity: Option<IdentityRef>,
}

/// Extracts the project's access route and authorised identity from a
/// directory reply, failing on a non-OK status, an unusable route, or a
/// project that carries no identity.
pub fn project_data(reply: DirectoryReply) -> (r: Result<(RoutingAddr, IdentityRef), FlowError>)
    ensures
        !reply.status_ok ==> r == Err::<(RoutingAddr, IdentityRef), FlowError>(
            FlowError::DirectoryResolutionFailed,
        ),
        reply.status_ok && reply.access_route is None ==> r == Err::<
            (RoutingAddr, IdentityRef),
            FlowError,
        >(FlowError::InvalidAddress),
        reply.status_ok && reply.access_route is Some && reply.identity is None ==> r == Err::<
            (RoutingAddr, IdentityRef),
            FlowError,
        >(FlowError::DirectoryResolutionFailed),
        ({
            match r {
                Ok((ra, ri)) => {
                    &&& reply.status_ok
                    &&& reply.access_route matches Some(a) && ra@ == a@
                    &&& reply.identity matches Some(id) && ri@ == id@
                },
                Err(_) => !(reply.status_ok && reply.access_route is Some && reply.identity
                    is Some),
            }
        }),
{
    if !reply.status_ok {
        return Err(FlowError::DirectoryResolutionFailed);
    }
    let a = match reply.access_route {
        Some(a) => a,
        None => return Err(FlowError::InvalidAddress),
    };
    let id = match reply.identity {
        Some(id) => id,
        None => return Err(FlowError::DirectoryResolutionFailed),
    };
    Ok((a, id))
}

/// Carries project resolution on once the directory has answered: extends
/// the project's access route with the segments that followed the project
/// reference, derives the transport route, and shapes the channel request
/// with the project's identity as the only authorized one.
pub fn connect_after_directory(
    dir_route: RoutingAddr,
    dir_identity: IdentityRef,
    remaining: Vec<Segment>,
) -> (r: Result<ChannelRequest, FlowError>)
    ensures
        ({
            let remv = remaining@.map_values(|s: Segment| s@);
            let ext = dir_route@ + remv;
            match r {
                Err(e) => e == FlowError::InvalidAddress && (has_project(remv) || route_of(ext)
                    is None),
                Ok(request) => !has_project(remv) && Some(request.route@) == route_of(ext)
                    && opt_identity_view(request.authorized) == Some(dir_identity@)
                    && request.mode == ExchangeMode::Oneway,
            }
        }),
{
    let mut target = dir_route;
    match target.try_extend(remaining) {
        Ok(()) => (),
        Err(e) => return Err(e),
    }
    match resolve_route(&target) {
        None => Err(FlowError::InvalidAddress),
        Some(rt) => Ok(
            ChannelRequest {
                route: rt,
                authorized: Some(dir_identity),
                mode: ExchangeMode::Oneway,
            },
        ),
    }
}

/// A successful channel resolution never hands back the input address: the
/// result names the new channel's local endpoint, and no address that
/// resolution would negotiate a channel for has that shape.
pub proof fn lemma_resolved_differs(a: Seq<SegV>, local: Seq<char>)
    requires
        class_of(a) != AddrClass::Passthrough,
    ensures
        seq![SegV::Service(local)] != a,
{
    if seq![SegV::Service(local)] == a {
        assert(a.len() == 1);
        assert(a[0] == SegV::Service(local));
        assert(false);
    }
}

} // verus!
