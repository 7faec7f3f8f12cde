use vstd::prelude::*;

use vstd::pervasive::unreached;
use vstd::string::StringExecFns;

use crate::addr::{class_of, has_project, AddrClass, RoutingAddr, SegV, Segment};
use crate::config::{identity_key, identity_key_str};
use crate::error::FlowError;
use crate::identity::{opt_identity_view, IdentityRef};
use crate::relay::{relay_kind_of, relay_request, RelayDescriptor, RelayKind};
use crate::resolve::{
    connect_after_directory, connect_start, lemma_resolved_differs, project_data, ChannelRequest,
    ConnectStart, DirectoryReply, ExchangeMode,
};
use crate::route::{lemma_service_has_route, resolve_route, route_of, HopV, Route};
use crate::session::{
    dup_opt_string, enable_recovery, opt_addr_view, opt_string_view, ReplacementV, Session,
};

verus! {

/// One relay-provisioning request, as the outer dispatch hands it over.
#[derive(Debug)]
pub struct ProvisionRequest {
    /// The routing address the relay should be provisioned over.
    pub address: RoutingAddr,
    /// The alias to register the relay under, if any.
    pub alias: Option<String>,
    /// True when this node is reachable without a channel: the relay is
    /// provisioned directly and recovery is never armed.
    pub reachable_without_channel: bool,
    /// The identity the caller allows on a channel, if restricted.
    pub authorized: Option<IdentityRef>,
    /// The cloud directory's address, if the caller supplied one.
    pub cloud: Option<RoutingAddr>,
}

/// Where one provisioning request stands between two collaborator calls.
#[derive(Debug)]
pub enum ProvisionState {
    /// Waiting for the directory's answer about the named project.
    AwaitingDirectory { req: ProvisionRequest, remaining: Vec<Segment> },
    /// Waiting for the gateway to create the secure channel.
    AwaitingChannel { req: ProvisionRequest },
    /// Waiting for the relay protocol, with the fully resolved address.
    AwaitingRelay { req: ProvisionRequest, resolved: RoutingAddr },
    /// The request has been answered.
    Finished,
}

/// The collaborator call a provisioning step asks the driver to make.  The
/// provisioning path owns the managing component, so these are direct
/// calls.
#[derive(Debug)]
pub enum ProvisionAction {
    /// Ask the directory for a project's route and identity.
    LookupProject { name: String, cloud: RoutingAddr },
    /// Ask the gateway for a secure channel.
    CreateChannel { request: ChannelRequest },
    /// Ask the relay protocol to provision a relay over a route.
    CreateRelay { kind: RelayKind, route: Route },
}

/// The structured answer the caller receives.
#[derive(Debug)]
pub enum ProvisionResponse {
    /// Status OK, the relay descriptor as body.
    Accepted { body: RelayDescriptor },
    /// Status InternalServerError, the failure's description as body.
    ServerError { message: String },
}

/// Starts one provisioning request: resolves how the address is to be
/// reached and asks for the first collaborator call.  Resolution failures
/// here are hard errors; a project-prefixed address without a cloud address
/// fails with `MissingCloudAddress`; a passthrough address that maps onto no
/// route fails with `InvalidAddress`.
pub fn provision_start(req: ProvisionRequest) -> (r: Result<
    (ProvisionState, ProvisionAction),
    FlowError,
>)
    ensures
        ({
            let a = req.address@;
            match r {
                Err(e) => {
                    ||| {
                        &&& class_of(a) == AddrClass::Project
                        &&& req.cloud is None
                        &&& e == FlowError::MissingCloudAddress
                    }
                    ||| {
                        &&& class_of(a) == AddrClass::Passthrough
                        &&& route_of(a) is None
                        &&& e == FlowError::InvalidAddress
                    }
                },
                Ok((st, act)) => match st {
                    ProvisionState::AwaitingDirectory { req: req2, remaining } => {
                        &&& class_of(a) == AddrClass::Project
                        &&& req2 == req
                        &&& act matches ProvisionAction::LookupProject { name, cloud } && a[0]
                            == SegV::Project(name@) && (req.cloud matches Some(c) && cloud@ == c@)
                        &&& remaining@.map_values(|s: Segment| s@) == a.skip(1)
                    },
                    ProvisionState::AwaitingChannel { req: req2 } => {
                        &&& class_of(a) == AddrClass::SecurePattern
                        &&& req2 == req
                        &&& act matches ProvisionAction::CreateChannel { request } && Some(
                            request.route@,
                        ) == route_of(a) && opt_identity_view(request.authorized)
                            == opt_identity_view(req.authorized) && request.mode
                            == ExchangeMode::Oneway
                    },
                    ProvisionState::AwaitingRelay { req: req2, resolved } => {
                        &&& class_of(a) == AddrClass::Passthrough
                        &&& req2 == req
                        &&& resolved@ == a
                        &&& act matches ProvisionAction::CreateRelay { kind, route } && kind@
                            == relay_kind_of(
                            req.reachable_without_channel,
                            opt_string_view(req.alias),
                        ) && Some(route@) == route_of(a)
                    },
                    ProvisionState::Finished => false,
                },
            }
        }),
{
    match connect_start(&req.address, &req.authorized, &req.cloud) {
        Err(e) => Err(e),
        Ok(ConnectStart::LookupProject { name, cloud, remaining }) => Ok(
            (
                ProvisionState::AwaitingDirectory { req, remaining },
                ProvisionAction::LookupProject { name, cloud },
            ),
        ),
        Ok(ConnectStart::CreateChannel { request }) => Ok(
            (
                ProvisionState::AwaitingChannel { req },
                ProvisionAction::CreateChannel { request },
            ),
        ),
        Ok(ConnectStart::Passthrough { addr: resolved }) => {
            match resolve_route(&resolved) {
                None => Err(FlowError::InvalidAddress),
                Some(rt) => {
                    let kind = relay_request(
                        req.reachable_without_channel,
                        dup_opt_string(&req.alias),
                    );
                    Ok(
                        (
                            ProvisionState::AwaitingRelay { req, resolved },
                            ProvisionAction::CreateRelay { kind, route: rt },
                        ),
                    )
                },
            }
        },
    }
}

/// Carries provisioning on once the directory has answered: shapes the
/// channel request for the project's access point, extended with the
/// segments after the project reference and restricted to the project's
/// identity.  Every failure is a hard error.
pub fn provision_on_directory(state: ProvisionState, reply: DirectoryReply) -> (r: Result<
    (ProvisionState, ProvisionAction),
    FlowError,
>)
    requires
        state is AwaitingDirectory,
    ensures
        ({
            let req = state->AwaitingDirectory_req;
            let remv = state->AwaitingDirectory_remaining@.map_values(|s: Segment| s@);
            match r {
                Err(e) => {
                    ||| {
                        &&& !reply.status_ok
                        &&& e == FlowError::DirectoryResolutionFailed
                    }
                    ||| {
                        &&& reply.status_ok
                        &&& reply.access_route is None
                        &&& e == FlowError::InvalidAddress
                    }
                    ||| {
                        &&& reply.status_ok
                        &&& reply.access_route is Some
                        &&& reply.identity is None
                        &&& e == FlowError::DirectoryResolutionFailed
                    }
                    ||| {
                        &&& reply.status_ok
                        &&& reply.access_route matches Some(ar) && reply.identity is Some && (
                        has_project(remv) || route_of(ar@ + remv) is None)
                        &&& e == FlowError::InvalidAddress
                    }
                },
                Ok((st, act)) => {
                    &&& reply.status_ok
                    &&& st matches ProvisionState::AwaitingChannel { req: req2 } && req2 == req
                    &&& reply.access_route matches Some(ar) && reply.identity matches Some(id)
                        && !has_project(remv) && (act matches ProvisionAction::CreateChannel {
                        request,
                    } && Some(request.route@) == route_of(ar@ + remv) && opt_identity_view(
                        request.authorized,
                    ) == Some(id@) && request.mode == ExchangeMode::Oneway)
                },
            }
        }),
{
    match state {
        ProvisionState::AwaitingDirectory { req, remaining } => {
            let (ar, id) = match project_data(reply) {
                Err(e) => return Err(e),
                Ok(p) => p,
            };
            match connect_after_directory(ar, id, remaining) {
                Err(e) => Err(e),
                Ok(request) => Ok(
                    (
                        ProvisionState::AwaitingChannel { req },
                        ProvisionAction::CreateChannel { request },
                    ),
                ),
            }
        },
        _ => unreached(),
    }
}

/// Carries provisioning on once the gateway has answered: the new channel's
/// local address becomes the resolved address, and the relay is asked for
/// over it.  A gateway failure propagates as a hard error.  The resolved
/// address always differs from the requested one here: it names the channel
/// endpoint, never the original transport tuple.
pub fn provision_on_channel(state: ProvisionState, result: Result<String, FlowError>) -> (r:
    Result<(ProvisionState, ProvisionAction), FlowError>)
    requires
        state is AwaitingChannel,
    ensures
        ({
            let req = state->AwaitingChannel_req;
            match r {
                Err(e) => result matches Err(e2) && e == e2,
                Ok((st, act)) => {
                    &&& result matches Ok(local)
                    &&& st matches ProvisionState::AwaitingRelay { req: req2, resolved } && req2
                        == req && resolved@ == seq![SegV::Service(local@)] && (class_of(
                        req.address@,
                    ) != AddrClass::Passthrough ==> resolved@ != req.address@)
                    &&& act matches ProvisionAction::CreateRelay { kind, route } && kind@
                        == relay_kind_of(
                        req.reachable_without_channel,
                        opt_string_view(req.alias),
                    ) && route@ == seq![HopV::Local { name: local@ }]
                },
            }
        }),
{
    match state {
        ProvisionState::AwaitingChannel { req } => {
            match result {
                Err(e) => Err(e),
                Ok(local) => {
                    let ghost lv = local@;
                    let resolved = RoutingAddr::from_local_service(local);
                    proof {
                        lemma_service_has_route(lv);
                        if class_of(req.address@) != AddrClass::Passthrough {
                            lemma_resolved_differs(req.address@, lv);
                        }
                    }
                    let route = match resolve_route(&resolved) {
                        Some(rt) => rt,
                        None => {
                            proof {
                                assert(false);
                            }
                            return Err(FlowError::InvalidAddress)
                        },
                    };
                    let kind = relay_request(
                        req.reachable_without_channel,
                        dup_opt_string(&req.alias),
                    );
                    Ok(
                        (
                            ProvisionState::AwaitingRelay { req, resolved },
                            ProvisionAction::CreateRelay { kind, route },
                        ),
                    )
                },
            }
        },
        _ => unreached(),
    }
}

/// Ends one provisioning request once the relay protocol has answered.  A
/// relay failure is not a hard error: it becomes a well-formed error
/// response.  A recovery session is handed back exactly when provisioning
/// succeeded and the node was not reachable without a channel; the session
/// is keyed by the requested address, stores the caller's authorized
/// identity under the reserved key, and is armed with the requested
/// address, cloud address, alias and that identity, all captured by value.
pub fn provision_on_relay(
    state: ProvisionState,
    result: Result<RelayDescriptor, String>,
    manager: String,
) -> (r: (ProvisionState, ProvisionResponse, Option<Session>))
    requires
        state is AwaitingRelay,
    ensures
        r.0 is Finished,
        ({
            match result {
                Ok(d) => r.1 matches ProvisionResponse::Accepted { body } && body == d,
                Err(m) => r.1 matches ProvisionResponse::ServerError { message } && message == m,
            }
        }),
        ({
            let req = state->AwaitingRelay_req;
            (r.2 is Some) <==> (result is Ok && !req.reachable_without_channel)
        }),
        ({
            let req = state->AwaitingRelay_req;
            match r.2 {
                Some(s) => {
                    &&& s@.key == req.address@
                    &&& s@.store == (match req.authorized {
                        Some(id) => seq![(identity_key(), id@)],
                        None => Seq::<(Seq<char>, Seq<u8>)>::empty(),
                    })
                    &&& s@.replacement == Some(
                        ReplacementV {
                            manager: manager@,
                            addr: req.address@,
                            cloud: opt_addr_view(req.cloud),
                            alias: opt_string_view(req.alias),
                            auth: opt_identity_view(req.authorized),
                        },
                    )
                },
                None => true,
            }
        }),
{
    match state {
        ProvisionState::AwaitingRelay { req, resolved: _ } => {
            match result {
                Ok(d) => {
                    let ProvisionRequest {
                        address,
                        alias,
                        reachable_without_channel,
                        authorized,
                        cloud,
                    } = req;
                    let session = if !reachable_without_channel {
                        let mut s = Session::new(address.dup());
                        match &authorized {
                            Some(id) => {
                                s.put(String::from_str(identity_key_str()), id.dup());
                                proof {
                                    assert(s@.store =~= seq![(identity_key(), id@)]);
                                }
                            },
                            None => (),
                        }
                        proof {
                            match authorized {
                                Some(id) => {
                                    assert(crate::session::store_lookup(
                                        seq![(identity_key(), id@)],
                                        identity_key(),
                                    ) == Some(id@));
                                },
                                None => {
                                    assert(crate::session::store_lookup(
                                        Seq::<(Seq<char>, Seq<u8>)>::empty(),
                                        identity_key(),
                                    ) is None);
                                },
                            }
                        }
                        enable_recovery(&mut s, manager, address, cloud, alias);
                        Some(s)
                    } else {
                        None
                    };
                    (
                        ProvisionState::Finished,
                        ProvisionResponse::Accepted { body: d },
                        session,
                    )
                },
                Err(m) => (
                    ProvisionState::Finished,
                    ProvisionResponse::ServerError { message: m },
                    None,
                ),
            }
        },
        _ => unreached(),
    }
}

} // verus!
