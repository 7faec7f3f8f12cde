use vstd::prelude::*;

use vstd::pervasive::unreached;

use crate::addr::{class_of, has_project, AddrClass, RoutingAddr, SegV};
use crate::config::{identity_key, MAX_CONNECT_MS, MAX_RECOVERY_MS};
use crate::error::FlowError;
use crate::identity::{dup_opt_identity, opt_identity_view, IdentityRef};
use crate::relay::{recovery_relay_kind, recovery_relay_request, RelayKind, RelayKindV};
use crate::resolve::{project_data, DirectoryReply, ExchangeMode};
use crate::route::{lemma_service_has_route, resolve_route, route_of, HopV, Route};
use crate::session::{
    dup_opt_string, opt_addr_view, opt_string_view, store_lookup, Replacement, ReplacementV,
};

verus! {

/// Where one recovery attempt stands between two messages.
#[derive(Debug)]
pub enum RecoveryState {
    /// Waiting for the managing component to answer the project lookup.
    AwaitDirectory { prev: RoutingAddr },
    /// Waiting for the delete of the previous channel to be answered.
    AwaitDelete { target: RoutingAddr, auth: Option<IdentityRef> },
    /// Waiting for the creation of the new channel to be answered.
    AwaitCreate,
    /// Waiting for the relay protocol to answer re-provisioning.
    AwaitRelay { resolved: RoutingAddr },
    /// The attempt ended, successfully or not.
    Finished { outcome: Result<RoutingAddr, FlowError> },
}

/// Mathematical shape of a [`RecoveryState`].
pub enum RecoveryStateV {
    AwaitDirectory { prev: Seq<SegV> },
    AwaitDelete { target: Seq<SegV>, auth: Option<Seq<u8>> },
    AwaitCreate,
    AwaitRelay { resolved: Seq<SegV> },
    Finished { outcome: Result<Seq<SegV>, FlowError> },
}

impl View for RecoveryState {
    type V = RecoveryStateV;

    open spec fn view(&self) -> RecoveryStateV {
        match self {
            RecoveryState::AwaitDirectory { prev } => RecoveryStateV::AwaitDirectory {
                prev: prev@,
            },
            RecoveryState::AwaitDelete { target, auth } => RecoveryStateV::AwaitDelete {
                target: target@,
                auth: opt_identity_view(*auth),
            },
            RecoveryState::AwaitCreate => RecoveryStateV::AwaitCreate,
            RecoveryState::AwaitRelay { resolved } => RecoveryStateV::AwaitRelay {
                resolved: resolved@,
            },
            RecoveryState::Finished { outcome } => RecoveryStateV::Finished {
                outcome: match outcome {
                    Ok(a) => Ok(a@),
                    Err(e) => Err(*e),
                },
            },
        }
    }
}

/// What a recovery step asks the driver to do next.  The recovery path does
/// not own the managing component, so channel work and project lookups are
/// request/response messages sent to its address.
#[derive(Debug)]
pub enum RecoveryAction {
    /// Send a project-lookup request to the managing component.
    RequestLookup { manager: String, name: String, cloud: RoutingAddr },
    /// Send a delete request for the previous channel's local address.
    RequestDelete { manager: String, previous: String },
    /// Send a create request for a channel to the target address, with the
    /// channel-creation deadline attached to the request itself.
    RequestCreate {
        manager: String,
        target: RoutingAddr,
        authorized: Option<IdentityRef>,
        mode: ExchangeMode,
        timeout_ms: u64,
    },
    /// Re-provision the relay over the given route.
    CreateRelay { kind: RelayKind, route: Route },
    /// Report the attempt's outcome to the failure detector that invoked
    /// it.
    Report { outcome: Result<RoutingAddr, FlowError> },
}

/// Mathematical shape of a [`RecoveryAction`].
pub enum RecoveryActionV {
    RequestLookup { manager: Seq<char>, name: Seq<char>, cloud: Seq<SegV> },
    RequestDelete { manager: Seq<char>, previous: Seq<char> },
    RequestCreate {
        manager: Seq<char>,
        target: Seq<SegV>,
        authorized: Option<Seq<u8>>,
        mode: ExchangeMode,
        timeout_ms: u64,
    },
    CreateRelay { kind: RelayKindV, route: Seq<HopV> },
    Report { outcome: Result<Seq<SegV>, FlowError> },
}

impl View for RecoveryAction {
    type V = RecoveryActionV;

    open spec fn view(&self) -> RecoveryActionV {
        match self {
            RecoveryAction::RequestLookup { manager, name, cloud } => {
                RecoveryActionV::RequestLookup {
                    manager: manager@,
                    name: name@,
                    cloud: cloud@,
                }
            },
            RecoveryAction::RequestDelete { manager, previous } => {
                RecoveryActionV::RequestDelete { manager: manager@, previous: previous@ }
            },
            RecoveryAction::RequestCreate { manager, target, authorized, mode, timeout_ms } => {
                RecoveryActionV::RequestCreate {
                    manager: manager@,
                    target: target@,
                    authorized: opt_identity_view(*authorized),
                    mode: *mode,
                    timeout_ms: *timeout_ms,
                }
            },
            RecoveryAction::CreateRelay { kind, route } => RecoveryActionV::CreateRelay {
                kind: kind@,
                route: route@,
            },
            RecoveryAction::Report { outcome } => RecoveryActionV::Report {
                outcome: match outcome {
                    Ok(a) => Ok(a@),
                    Err(e) => Err(*e),
                },
            },
        }
    }
}

/// What the driver feeds back into a waiting recovery attempt.
#[derive(Debug)]
pub enum RecoveryEvent {
    /// The managing component answered the project lookup.
    Directory { reply: DirectoryReply },
    /// The delete request was answered; whether it succeeded is noted and
    /// nothing more.
    Deleted { ok: bool },
    /// The create request was answered: the new channel's local address on
    /// success, nothing on failure.
    Created { outcome: Option<String> },
    /// The relay protocol answered re-provisioning.
    Relayed { ok: bool },
}

/// Mathematical shape of a [`RecoveryEvent`].
pub enum RecoveryEventV {
    Directory { status_ok: bool, access_route: Option<Seq<SegV>>, identity: Option<Seq<u8>> },
    Deleted { ok: bool },
    Created { outcome: Option<Seq<char>> },
    Relayed { ok: bool },
}

impl View for RecoveryEvent {
    type V = RecoveryEventV;

    open spec fn view(&self) -> RecoveryEventV {
        match self {
            RecoveryEvent::Directory { reply } => RecoveryEventV::Directory {
                status_ok: reply.status_ok,
                access_route: opt_addr_view(reply.access_route),
                identity: opt_identity_view(reply.identity),
            },
            RecoveryEvent::Deleted { ok } => RecoveryEventV::Deleted { ok: *ok },
            RecoveryEvent::Created { outcome } => RecoveryEventV::Created {
                outcome: opt_string_view(*outcome),
            },
            RecoveryEvent::Relayed { ok } => RecoveryEventV::Relayed { ok: *ok },
        }
    }
}

/// The pair every failed attempt ends in: a final state and a report.
pub open spec fn recovery_failure(e: FlowError) -> (RecoveryStateV, RecoveryActionV) {
    (
        RecoveryStateV::Finished { outcome: Err(e) },
        RecoveryActionV::Report { outcome: Err(e) },
    )
}

/// How a recovery attempt starts, as a function of the captured session
/// values and the previously resolved address: the same three-way
/// classification resolution uses, but over messages.
pub open spec fn recovery_start_spec(cap: ReplacementV, prev: Seq<SegV>) -> (
    RecoveryStateV,
    RecoveryActionV,
) {
    match class_of(cap.addr) {
        AddrClass::Project => match cap.cloud {
            None => recovery_failure(FlowError::MissingCloudAddress),
            Some(c) => (
                RecoveryStateV::AwaitDirectory { prev },
                RecoveryActionV::RequestLookup {
                    manager: cap.manager,
                    name: cap.addr[0]->Project_0,
                    cloud: c,
                },
            ),
        },
        AddrClass::SecurePattern => if prev.len() == 1 && prev[0] is Service {
            (
                RecoveryStateV::AwaitDelete { target: cap.addr, auth: cap.auth },
                RecoveryActionV::RequestDelete {
                    manager: cap.manager,
                    previous: prev[0]->Service_0,
                },
            )
        } else {
            recovery_failure(FlowError::InvalidAddress)
        },
        AddrClass::Passthrough => match route_of(cap.addr) {
            None => recovery_failure(FlowError::InvalidAddress),
            Some(rt) => (
                RecoveryStateV::AwaitRelay { resolved: cap.addr },
                RecoveryActionV::CreateRelay {
                    kind: recovery_relay_kind(cap.alias),
                    route: rt,
                },
            ),
        },
    }
}

/// How a waiting recovery attempt moves when an answer arrives `now_ms`
/// milliseconds into the attempt.  At or past the hard deadline the attempt
/// reports `Timeout` whatever arrived; otherwise each answer either carries
/// the attempt one step further or ends it with the step's error.
pub open spec fn recovery_step_spec(
    cap: ReplacementV,
    st: RecoveryStateV,
    ev: RecoveryEventV,
    now_ms: u64,
) -> (RecoveryStateV, RecoveryActionV) {
    if now_ms >= MAX_RECOVERY_MS {
        recovery_failure(FlowError::Timeout)
    } else {
        match st {
            RecoveryStateV::AwaitDirectory { prev } => match ev {
                RecoveryEventV::Directory { status_ok, access_route, identity } => {
                    if !status_ok {
                        recovery_failure(FlowError::DirectoryResolutionFailed)
                    } else {
                        match access_route {
                            None => recovery_failure(FlowError::InvalidAddress),
                            Some(ar) => match identity {
                                None => recovery_failure(FlowError::DirectoryResolutionFailed),
                                Some(id) => {
                                    let remv = cap.addr.skip(1);
                                    if has_project(remv) {
                                        recovery_failure(FlowError::InvalidAddress)
                                    } else if !(prev.len() == 1 && prev[0] is Service) {
                                        recovery_failure(FlowError::InvalidAddress)
                                    } else {
                                        (
                                            RecoveryStateV::AwaitDelete {
                                                target: ar + remv,
                                                auth: Some(id),
                                            },
                                            RecoveryActionV::RequestDelete {
                                                manager: cap.manager,
                                                previous: prev[0]->Service_0,
                                            },
                                        )
                                    }
                                },
                            },
                        }
                    }
                },
                _ => recovery_failure(FlowError::InvalidAddress),
            },
            RecoveryStateV::AwaitDelete { target, auth } => match ev {
                RecoveryEventV::Deleted { .. } => (
                    RecoveryStateV::AwaitCreate,
                    RecoveryActionV::RequestCreate {
                        manager: cap.manager,
                        target,
                        authorized: auth,
                        mode: ExchangeMode::Oneway,
                        timeout_ms: MAX_CONNECT_MS,
                    },
                ),
                _ => recovery_failure(FlowError::InvalidAddress),
            },
            RecoveryStateV::AwaitCreate => match ev {
                RecoveryEventV::Created { outcome } => match outcome {
                    None => recovery_failure(FlowError::ChannelCreationFailed),
                    Some(local) => (
                        RecoveryStateV::AwaitRelay { resolved: seq![SegV::Service(local)] },
                        RecoveryActionV::CreateRelay {
                            kind: recovery_relay_kind(cap.alias),
                            route: seq![HopV::Local { name: local }],
                        },
                    ),
                },
                _ => recovery_failure(FlowError::InvalidAddress),
            },
            RecoveryStateV::AwaitRelay { resolved } => match ev {
                RecoveryEventV::Relayed { ok } => if ok {
                    (
                        RecoveryStateV::Finished { outcome: Ok(resolved) },
                        RecoveryActionV::Report { outcome: Ok(resolved) },
                    )
                } else {
                    recovery_failure(FlowError::RelayProvisioningFailed)
                },
                _ => recovery_failure(FlowError::InvalidAddress),
            },
            RecoveryStateV::Finished { outcome } => (
                RecoveryStateV::Finished { outcome },
                RecoveryActionV::Report { outcome },
            ),
        }
    }
}

/// The answers a waiting state can be fed: one event kind per state.
pub open spec fn event_fits(st: RecoveryStateV, ev: RecoveryEventV) -> bool {
    match st {
        RecoveryStateV::AwaitDirectory { .. } => ev is Directory,
        RecoveryStateV::AwaitDelete { .. } => ev is Deleted,
        RecoveryStateV::AwaitCreate => ev is Created,
        RecoveryStateV::AwaitRelay { .. } => ev is Relayed,
        RecoveryStateV::Finished { .. } => false,
    }
}

/// What ties a state to the session it recovers: a directory wait exists
/// only for a project-prefixed capture.
pub open spec fn recovery_inv(cap: ReplacementV, st: RecoveryStateV) -> bool {
    st is AwaitDirectory ==> class_of(cap.addr) == AddrClass::Project
}

/// Starts one recovery attempt from the captured session values and the
/// previously resolved address.
pub fn recovery_start(cap: &Replacement, prev: RoutingAddr) -> (r: (
    RecoveryState,
    RecoveryAction,
))
    ensures
        (r.0@, r.1@) == recovery_start_spec(cap@, prev@),
        recovery_inv(cap@, r.0@),
{
    match crate::addr::classify(&cap.addr) {
        AddrClass::Project => {
            match &cap.cloud {
                None => (
                    RecoveryState::Finished { outcome: Err(FlowError::MissingCloudAddress) },
                    RecoveryAction::Report { outcome: Err(FlowError::MissingCloudAddress) },
                ),
                Some(c) => {
                    let name = match cap.addr.leading_project() {
                        Some(n) => n.clone(),
                        None => {
                            proof {
                                assert(false);
                            }
                            unreached()
                        },
                    };
                    (
                        RecoveryState::AwaitDirectory { prev },
                        RecoveryAction::RequestLookup {
                            manager: cap.manager.clone(),
                            name,
                            cloud: c.dup(),
                        },
                    )
                },
            }
        },
        AddrClass::SecurePattern => {
            match prev.as_local_service() {
                Some(name) => {
                    let previous = name.clone();
                    (
                        RecoveryState::AwaitDelete {
                            target: cap.addr.dup(),
                            auth: dup_opt_identity(&cap.auth),
                        },
                        RecoveryAction::RequestDelete {
                            manager: cap.manager.clone(),
                            previous,
                        },
                    )
                },
                None => (
                    RecoveryState::Finished { outcome: Err(FlowError::InvalidAddress) },
                    RecoveryAction::Report { outcome: Err(FlowError::InvalidAddress) },
                ),
            }
        },
        AddrClass::Passthrough => {
            match resolve_route(&cap.addr) {
                None => (
                    RecoveryState::Finished { outcome: Err(FlowError::InvalidAddress) },
                    RecoveryAction::Report { outcome: Err(FlowError::InvalidAddress) },
                ),
                Some(rt) => (
                    RecoveryState::AwaitRelay { resolved: cap.addr.dup() },
                    RecoveryAction::CreateRelay {
                        kind: recovery_relay_request(dup_opt_string(&cap.alias)),
                        route: rt,
                    },
                ),
            }
        },
    }
}

/// Moves one waiting recovery attempt when an answer arrives `now_ms`
/// milliseconds into the attempt.
pub fn recovery_step(
    cap: &Replacement,
    state: RecoveryState,
    event: RecoveryEvent,
    now_ms: u64,
) -> (r: (RecoveryState, RecoveryAction))
    requires
        event_fits(state@, event@),
        recovery_inv(cap@, state@),
    ensures
        (r.0@, r.1@) == recovery_step_spec(cap@, state@, event@, now_ms),
        recovery_inv(cap@, r.0@),
{
    if now_ms >= MAX_RECOVERY_MS {
        return (
            RecoveryState::Finished { outcome: Err(FlowError::Timeout) },
            RecoveryAction::Report { outcome: Err(FlowError::Timeout) },
        );
    }
    match state {
        RecoveryState::AwaitDirectory { prev } => {
            let reply = match event {
                RecoveryEvent::Directory { reply } => reply,
                _ => unreached(),
            };
            let (ar, id) = match project_data(reply) {
                Err(e) => return (
                    RecoveryState::Finished { outcome: Err(e) },
                    RecoveryAction::Report { outcome: Err(e) },
                ),
                Ok(p) => p,
            };
            let remaining = cap.addr.tail();
            let mut target = ar;
            match target.try_extend(remaining) {
                Err(e) => return (
                    RecoveryState::Finished { outcome: Err(e) },
                    RecoveryAction::Report { outcome: Err(e) },
                ),
                Ok(()) => (),
            }
            match prev.as_local_service() {
                None => (
                    RecoveryState::Finished { outcome: Err(FlowError::InvalidAddress) },
                    RecoveryAction::Report { outcome: Err(FlowError::InvalidAddress) },
                ),
                Some(name) => {
                    let previous = name.clone();
                    (
                        RecoveryState::AwaitDelete { target, auth: Some(id) },
                        RecoveryAction::RequestDelete {
                            manager: cap.manager.clone(),
                            previous,
                        },
                    )
                },
            }
        },
        RecoveryState::AwaitDelete { target, auth } => {
            match event {
                RecoveryEvent::Deleted { ok: _ } => (
                    RecoveryState::AwaitCreate,
                    RecoveryAction::RequestCreate {
                        manager: cap.manager.clone(),
                        target,
                        authorized: auth,
                        mode: ExchangeMode::Oneway,
                        timeout_ms: MAX_CONNECT_MS,
                    },
                ),
                _ => unreached(),
            }
        },
        RecoveryState::AwaitCreate => {
            let outcome = match event {
                RecoveryEvent::Created { outcome } => outcome,
                _ => unreached(),
            };
            match outcome {
                None => (
                    RecoveryState::Finished { outcome: Err(FlowError::ChannelCreationFailed) },
                    RecoveryAction::Report { outcome: Err(FlowError::ChannelCreationFailed) },
                ),
                Some(local) => {
                    let ghost lv = local@;
                    let resolved = RoutingAddr::from_local_service(local);
                    proof {
                        lemma_service_has_route(lv);
                    }
                    let route = match resolve_route(&resolved) {
                        Some(rt) => rt,
                        None => {
                            proof {
                                assert(false);
                            }
                            unreached()
                        },
                    };
                    (
                        RecoveryState::AwaitRelay { resolved },
                        RecoveryAction::CreateRelay {
                            kind: recovery_relay_request(dup_opt_string(&cap.alias)),
                            route,
                        },
                    )
                },
            }
        },
        RecoveryState::AwaitRelay { resolved } => {
            let ok = match event {
                RecoveryEvent::Relayed { ok } => ok,
                _ => unreached(),
            };
            if ok {
                let report = resolved.dup();
                (
                    RecoveryState::Finished { outcome: Ok(resolved) },
                    RecoveryAction::Report { outcome: Ok(report) },
                )
            } else {
                (
                    RecoveryState::Finished { outcome: Err(FlowError::RelayProvisioningFailed) },
                    RecoveryAction::Report { outcome: Err(FlowError::RelayProvisioningFailed) },
                )
            }
        },
        RecoveryState::Finished { .. } => unreached(),
    }
}

/// At or past the hard recovery deadline every step reports `Timeout` and
/// asks for nothing further — in particular, no relay is provisioned and no
/// channel work is requested once the deadline has passed, whatever answer
/// arrived.
pub proof fn lemma_deadline_reports_timeout(
    cap: ReplacementV,
    st: RecoveryStateV,
    ev: RecoveryEventV,
    now_ms: u64,
)
    requires
        now_ms >= MAX_RECOVERY_MS,
    ensures
        recovery_step_spec(cap, st, ev, now_ms) == recovery_failure(FlowError::Timeout),
{
}

/// Replacing a secure channel always goes on to ask for the new channel,
/// whether or not deleting the old one succeeded: the delete's answer never
/// changes what is created, for whom, or under which deadline.
pub proof fn lemma_replacement_always_creates(
    cap: ReplacementV,
    target: Seq<SegV>,
    auth: Option<Seq<u8>>,
    ok: bool,
    now_ms: u64,
)
    requires
        now_ms < MAX_RECOVERY_MS,
    ensures
        recovery_step_spec(
            cap,
            RecoveryStateV::AwaitDelete { target, auth },
            RecoveryEventV::Deleted { ok },
            now_ms,
        ) == (
            (
                RecoveryStateV::AwaitCreate,
                RecoveryActionV::RequestCreate {
                    manager: cap.manager,
                    target,
                    authorized: auth,
                    mode: ExchangeMode::Oneway,
                    timeout_ms: MAX_CONNECT_MS,
                },
            )
        ),
{
}

/// In the secure-pattern case, the identity handed to channel creation on
/// any recovery attempt is exactly the one looked up under the reserved key
/// when recovery was armed — whatever the attempt's previous address, the
/// delete's answer or its timing.  Together with `enable_recovery`'s
/// contract this pins every attempt's allowlist to the identity the session
/// stored at creation: recovery never re-derives it.
pub proof fn lemma_captured_identity_stable(
    cap: ReplacementV,
    store: Seq<(Seq<char>, Seq<u8>)>,
    prev: Seq<SegV>,
    ok: bool,
    now_ms: u64,
)
    requires
        cap.auth == store_lookup(store, identity_key()),
        class_of(cap.addr) == AddrClass::SecurePattern,
        prev.len() == 1 && prev[0] is Service,
        now_ms < MAX_RECOVERY_MS,
    ensures
        ({
            let st = recovery_start_spec(cap, prev).0;
            let act = recovery_step_spec(cap, st, RecoveryEventV::Deleted { ok }, now_ms).1;
            act matches RecoveryActionV::RequestCreate { authorized, .. } && authorized
                == store_lookup(store, identity_key())
        }),
{
}

/// A whole secure-pattern recovery attempt that stays inside the deadline
/// and whose create and relay requests succeed ends by reporting the new
/// channel's address — authorized for exactly the captured identity, relayed
/// over the new endpoint's route, and never the address the session was
/// created for.
pub proof fn lemma_pattern_recovery_succeeds(
    cap: ReplacementV,
    prev: Seq<SegV>,
    del_ok: bool,
    local: Seq<char>,
    t1: u64,
    t2: u64,
    t3: u64,
)
    requires
        class_of(cap.addr) == AddrClass::SecurePattern,
        prev.len() == 1 && prev[0] is Service,
        t1 < MAX_RECOVERY_MS,
        t2 < MAX_RECOVERY_MS,
        t3 < MAX_RECOVERY_MS,
    ensures
        ({
            let s0 = recovery_start_spec(cap, prev).0;
            let s1 = recovery_step_spec(cap, s0, RecoveryEventV::Deleted { ok: del_ok }, t1).0;
            let step2 = recovery_step_spec(
                cap,
                s1,
                RecoveryEventV::Created { outcome: Some(local) },
                t2,
            );
            let step3 = recovery_step_spec(
                cap,
                step2.0,
                RecoveryEventV::Relayed { ok: true },
                t3,
            );
            &&& step2.1 == (RecoveryActionV::CreateRelay {
                kind: recovery_relay_kind(cap.alias),
                route: seq![HopV::Local { name: local }],
            })
            &&& step3.1 == (RecoveryActionV::Report { outcome: Ok(seq![SegV::Service(local)]) })
            &&& seq![SegV::Service(local)] != cap.addr
        }),
{
    crate::resolve::lemma_resolved_differs(cap.addr, local);
}

/// Recovering a passthrough session re-provisions the relay over the
/// captured address and reports that address unchanged: no channel work is
/// ever requested for it.
pub proof fn lemma_passthrough_recovery_unchanged(
    cap: ReplacementV,
    prev: Seq<SegV>,
    now_ms: u64,
)
    requires
        class_of(cap.addr) == AddrClass::Passthrough,
        route_of(cap.addr) is Some,
        now_ms < MAX_RECOVERY_MS,
    ensures
        ({
            let start = recovery_start_spec(cap, prev);
            let finish = recovery_step_spec(
                cap,
                start.0,
                RecoveryEventV::Relayed { ok: true },
                now_ms,
            );
            &&& start.1 == (RecoveryActionV::CreateRelay {
                kind: recovery_relay_kind(cap.alias),
                route: route_of(cap.addr)->Some_0,
            })
            &&& finish.1 == (RecoveryActionV::Report { outcome: Ok(cap.addr) })
        }),
{
}

} // verus!
