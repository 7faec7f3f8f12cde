use relay_recovery::addr::{HostAddr, RoutingAddr, Segment};
use relay_recovery::config::{MAX_CONNECT_MS, MAX_RECOVERY_MS};
use relay_recovery::error::FlowError;
use relay_recovery::identity::IdentityRef;
use relay_recovery::recovery::{
    recovery_start, recovery_step, RecoveryAction, RecoveryEvent, RecoveryState,
};
use relay_recovery::relay::RelayKind;
use relay_recovery::resolve::{DirectoryReply, ExchangeMode};
use relay_recovery::route::Hop;
use relay_recovery::config::identity_key_str;
use relay_recovery::session::{enable_recovery, Replacement, Session};

fn dns(name: &str) -> Segment {
    Segment::Host(HostAddr::Dns(String::from(name)))
}

fn addr_of(segments: Vec<Segment>) -> RoutingAddr {
    RoutingAddr::new(segments).expect("well-formed address")
}

fn secure_capture(auth: Option<IdentityRef>) -> Replacement {
    Replacement {
        manager: String::from("app"),
        addr: addr_of(vec![dns("example.org"), Segment::Tcp(4000), Segment::Secure]),
        cloud: None,
        alias: None,
        auth,
    }
}

fn project_capture() -> Replacement {
    Replacement {
        manager: String::from("app"),
        addr: addr_of(vec![Segment::Project(String::from("acme")), Segment::Tcp(9000)]),
        cloud: Some(addr_of(vec![dns("cloud-a"), Segment::Tcp(4000)])),
        alias: None,
        auth: None,
    }
}

#[test]
fn dropped_channel_is_rebuilt_and_relay_reprovisioned() {
    // The session of the secure-pattern scenario, after the remote side
    // dropped the channel: delete the old endpoint (failure tolerated),
    // create a fresh one, re-provision the relay, report the new address.
    let cap = secure_capture(None);
    let prev = RoutingAddr::from_local_service(String::from("ch-1"));
    let (state, action) = recovery_start(&cap, prev);
    match &action {
        RecoveryAction::RequestDelete { manager, previous } => {
            assert_eq!(manager, "app");
            assert_eq!(previous, "ch-1");
        }
        other => panic!("expected delete request, got {:?}", other),
    }

    let (state, action) = recovery_step(&cap, state, RecoveryEvent::Deleted { ok: false }, 1000);
    match &action {
        RecoveryAction::RequestCreate { target, authorized, mode, timeout_ms, .. } => {
            assert_eq!(*target, cap.addr);
            assert_eq!(*authorized, None);
            assert_eq!(*mode, ExchangeMode::Oneway);
            assert_eq!(*timeout_ms, MAX_CONNECT_MS);
        }
        other => panic!("expected create request, got {:?}", other),
    }

    let created = RecoveryEvent::Created { outcome: Some(String::from("ch-3")) };
    let (state, action) = recovery_step(&cap, state, created, 4000);
    match &action {
        RecoveryAction::CreateRelay { kind, route } => {
            assert!(matches!(kind, RelayKind::Ephemeral));
            assert_eq!(*route.hop_at(0), Hop::Local { name: String::from("ch-3") });
        }
        other => panic!("expected relay creation, got {:?}", other),
    }

    let (state, action) = recovery_step(&cap, state, RecoveryEvent::Relayed { ok: true }, 8000);
    let fresh = RoutingAddr::from_local_service(String::from("ch-3"));
    match action {
        RecoveryAction::Report { outcome } => assert_eq!(outcome, Ok(fresh.clone())),
        other => panic!("expected report, got {:?}", other),
    }
    match state {
        RecoveryState::Finished { outcome } => assert_eq!(outcome, Ok(fresh)),
        other => panic!("expected finished, got {:?}", other),
    }
}

#[test]
fn slow_directory_then_slow_channel_times_out() {
    // The directory answers six seconds into a ten-second budget; channel
    // creation takes five more.  The attempt reports Timeout and no relay is
    // re-provisioned.
    let cap = project_capture();
    let prev = RoutingAddr::from_local_service(String::from("ch-2"));
    let (state, action) = recovery_start(&cap, prev);
    match &action {
        RecoveryAction::RequestLookup { manager, name, cloud } => {
            assert_eq!(manager, "app");
            assert_eq!(name, "acme");
            assert_eq!(*cloud, addr_of(vec![dns("cloud-a"), Segment::Tcp(4000)]));
        }
        other => panic!("expected lookup request, got {:?}", other),
    }

    let reply = DirectoryReply {
        status_ok: true,
        access_route: Some(addr_of(vec![dns("gw.acme")])),
        identity: Some(IdentityRef::new(vec![9])),
    };
    let (state, action) = recovery_step(&cap, state, RecoveryEvent::Directory { reply }, 6000);
    match &action {
        RecoveryAction::RequestDelete { previous, .. } => assert_eq!(previous, "ch-2"),
        other => panic!("expected delete request, got {:?}", other),
    }

    let (state, action) = recovery_step(&cap, state, RecoveryEvent::Deleted { ok: true }, 6100);
    match &action {
        RecoveryAction::RequestCreate { target, authorized, .. } => {
            assert_eq!(*target, addr_of(vec![dns("gw.acme"), Segment::Tcp(9000)]));
            assert_eq!(*authorized, Some(IdentityRef::new(vec![9])));
        }
        other => panic!("expected create request, got {:?}", other),
    }

    let created = RecoveryEvent::Created { outcome: Some(String::from("ch-4")) };
    let (state, action) = recovery_step(&cap, state, created, 11100);
    assert!(matches!(
        state,
        RecoveryState::Finished { outcome: Err(FlowError::Timeout) }
    ));
    match action {
        RecoveryAction::Report { outcome } => assert_eq!(outcome, Err(FlowError::Timeout)),
        other => panic!("expected timeout report, got {:?}", other),
    }
}

#[test]
fn deadline_cuts_off_every_state() {
    let cap = secure_capture(None);
    let prev = RoutingAddr::from_local_service(String::from("ch-1"));
    let (state, _) = recovery_start(&cap, prev);
    let (state, action) = recovery_step(
        &cap,
        state,
        RecoveryEvent::Deleted { ok: true },
        MAX_RECOVERY_MS,
    );
    assert!(matches!(
        state,
        RecoveryState::Finished { outcome: Err(FlowError::Timeout) }
    ));
    assert!(matches!(
        action,
        RecoveryAction::Report { outcome: Err(FlowError::Timeout) }
    ));
}

#[test]
fn channel_is_created_even_when_deletion_fails() {
    let cap = secure_capture(Some(IdentityRef::new(vec![7, 7])));
    for delete_ok in [false, true] {
        let prev = RoutingAddr::from_local_service(String::from("ch-1"));
        let (state, _) = recovery_start(&cap, prev);
        let (_, action) = recovery_step(
            &cap,
            state,
            RecoveryEvent::Deleted { ok: delete_ok },
            2000,
        );
        match action {
            RecoveryAction::RequestCreate { target, authorized, .. } => {
                assert_eq!(target, cap.addr);
                assert_eq!(authorized, Some(IdentityRef::new(vec![7, 7])));
            }
            other => panic!("expected create request, got {:?}", other),
        }
    }
}

#[test]
fn captured_identity_is_reused_across_attempts() {
    // Two independent attempts for the same session, different previous
    // addresses and timings: channel creation is authorized for the same
    // captured bytes both times.
    let id = IdentityRef::new(vec![1, 2, 3]);
    let cap = secure_capture(Some(id.clone()));
    let attempts: Vec<(&str, u64)> = vec![("ch-1", 500), ("ch-5", 9000)];
    for (prev_name, at) in attempts {
        let prev = RoutingAddr::from_local_service(String::from(prev_name));
        let (state, _) = recovery_start(&cap, prev);
        let (_, action) = recovery_step(&cap, state, RecoveryEvent::Deleted { ok: true }, at);
        match action {
            RecoveryAction::RequestCreate { authorized, .. } => {
                assert_eq!(authorized, Some(id.clone()))
            }
            other => panic!("expected create request, got {:?}", other),
        }
    }
}

#[test]
fn passthrough_session_recovers_to_unchanged_address() {
    let cap = Replacement {
        manager: String::from("app"),
        addr: addr_of(vec![dns("10.0.0.5"), Segment::Tcp(3000)]),
        cloud: None,
        alias: Some(String::from("alias-1")),
        auth: None,
    };
    let prev = cap.addr.clone();
    let (state, action) = recovery_start(&cap, prev);
    match &action {
        RecoveryAction::CreateRelay { kind, .. } => match kind {
            RelayKind::Static { alias } => assert_eq!(alias, "alias-1"),
            other => panic!("expected aliased relay, got {:?}", other),
        },
        other => panic!("expected relay creation, got {:?}", other),
    }
    let (state, action) = recovery_step(&cap, state, RecoveryEvent::Relayed { ok: true }, 100);
    assert!(matches!(state, RecoveryState::Finished { .. }));
    match action {
        RecoveryAction::Report { outcome } => assert_eq!(outcome, Ok(cap.addr.clone())),
        other => panic!("expected report, got {:?}", other),
    }
}

#[test]
fn recovery_error_paths_report_their_errors() {
    // Project capture without a cloud address.
    let mut cap = project_capture();
    cap.cloud = None;
    let (_, action) = recovery_start(&cap, RoutingAddr::from_local_service(String::from("p")));
    assert!(matches!(
        action,
        RecoveryAction::Report { outcome: Err(FlowError::MissingCloudAddress) }
    ));

    // Secure pattern whose previous address maps onto no local endpoint.
    let cap = secure_capture(None);
    let (_, action) = recovery_start(&cap, addr_of(vec![dns("h"), Segment::Tcp(1)]));
    assert!(matches!(
        action,
        RecoveryAction::Report { outcome: Err(FlowError::InvalidAddress) }
    ));

    // Passthrough capture whose address maps onto no route.
    let cap = Replacement {
        manager: String::from("app"),
        addr: addr_of(vec![Segment::Tcp(80)]),
        cloud: None,
        alias: None,
        auth: None,
    };
    let (_, action) = recovery_start(&cap, RoutingAddr::empty());
    assert!(matches!(
        action,
        RecoveryAction::Report { outcome: Err(FlowError::InvalidAddress) }
    ));

    // Directory failures.
    let cap = project_capture();
    let prev = RoutingAddr::from_local_service(String::from("ch-2"));
    let (state, _) = recovery_start(&cap, prev);
    let reply = DirectoryReply { status_ok: false, access_route: None, identity: None };
    let (_, action) = recovery_step(&cap, state, RecoveryEvent::Directory { reply }, 100);
    assert!(matches!(
        action,
        RecoveryAction::Report { outcome: Err(FlowError::DirectoryResolutionFailed) }
    ));

    let (state, _) = recovery_start(&cap, RoutingAddr::from_local_service(String::from("ch-2")));
    let reply = DirectoryReply {
        status_ok: true,
        access_route: Some(addr_of(vec![dns("gw.acme")])),
        identity: None,
    };
    let (_, action) = recovery_step(&cap, state, RecoveryEvent::Directory { reply }, 100);
    assert!(matches!(
        action,
        RecoveryAction::Report { outcome: Err(FlowError::DirectoryResolutionFailed) }
    ));

    // Channel creation refused.
    let cap = secure_capture(None);
    let (state, _) = recovery_start(&cap, RoutingAddr::from_local_service(String::from("ch-1")));
    let (state, _) = recovery_step(&cap, state, RecoveryEvent::Deleted { ok: true }, 200);
    let (_, action) = recovery_step(&cap, state, RecoveryEvent::Created { outcome: None }, 300);
    assert!(matches!(
        action,
        RecoveryAction::Report { outcome: Err(FlowError::ChannelCreationFailed) }
    ));

    // Relay re-provisioning refused.
    let (state, _) = recovery_start(&cap, RoutingAddr::from_local_service(String::from("ch-1")));
    let (state, _) = recovery_step(&cap, state, RecoveryEvent::Deleted { ok: true }, 200);
    let created = RecoveryEvent::Created { outcome: Some(String::from("ch-6")) };
    let (state, _) = recovery_step(&cap, state, created, 300);
    let (_, action) = recovery_step(&cap, state, RecoveryEvent::Relayed { ok: false }, 400);
    assert!(matches!(
        action,
        RecoveryAction::Report { outcome: Err(FlowError::RelayProvisioningFailed) }
    ));
}

#[test]
fn arming_a_session_captures_its_stored_identity() {
    let input = addr_of(vec![dns("example.org"), Segment::Tcp(4000), Segment::Secure]);
    let mut s = Session::new(input.clone());
    s.put(String::from(identity_key_str()), IdentityRef::new(vec![5, 6]));
    enable_recovery(
        &mut s,
        String::from("app"),
        input.clone(),
        None,
        Some(String::from("alias-2")),
    );
    let rep = s.replacement().as_ref().expect("armed");
    assert_eq!(rep.auth, Some(IdentityRef::new(vec![5, 6])));
    assert_eq!(rep.addr, input);
    assert_eq!(rep.alias, Some(String::from("alias-2")));
    assert_eq!(rep.cloud, None);
}
