use relay_recovery::addr::{HostAddr, RoutingAddr, Segment};
use relay_recovery::config::identity_key_str;
use relay_recovery::error::FlowError;
use relay_recovery::identity::IdentityRef;
use relay_recovery::relay::{relay_request, RelayDescriptor, RelayKind};
use relay_recovery::resolve::{
    connect_after_directory, connect_start, project_data, ConnectStart, DirectoryReply,
    ExchangeMode,
};
use relay_recovery::route::{resolve_route, Hop};
use relay_recovery::provision::{
    provision_on_channel, provision_on_directory, provision_on_relay, provision_start,
    ProvisionAction, ProvisionRequest, ProvisionResponse, ProvisionState,
};

fn dns(name: &str) -> Segment {
    Segment::Host(HostAddr::Dns(String::from(name)))
}

fn addr_of(segments: Vec<Segment>) -> RoutingAddr {
    RoutingAddr::new(segments).expect("well-formed address")
}

fn descriptor() -> RelayDescriptor {
    RelayDescriptor {
        forwarding_route: resolve_route(&RoutingAddr::empty()).expect("empty route"),
        remote_address: String::from("forwarder_0"),
        alias: None,
    }
}

#[test]
fn connect_leaves_plain_addresses_untouched() {
    let plain = addr_of(vec![dns("10.0.0.5"), Segment::Tcp(3000)]);
    match connect_start(&plain, &None, &None).expect("resolves") {
        ConnectStart::Passthrough { addr } => assert_eq!(addr, plain),
        other => panic!("expected passthrough, got {:?}", other),
    }
    match connect_start(&RoutingAddr::empty(), &None, &None).expect("resolves") {
        ConnectStart::Passthrough { addr } => assert_eq!(addr, RoutingAddr::empty()),
        other => panic!("expected passthrough, got {:?}", other),
    }
}

#[test]
fn connect_requires_cloud_address_for_projects() {
    let a = addr_of(vec![Segment::Project(String::from("acme")), Segment::Tcp(9000)]);
    assert!(matches!(
        connect_start(&a, &None, &None),
        Err(FlowError::MissingCloudAddress)
    ));
    let lone = addr_of(vec![Segment::Project(String::from("acme"))]);
    assert!(matches!(
        connect_start(&lone, &None, &None),
        Err(FlowError::MissingCloudAddress)
    ));
    let cloud = addr_of(vec![dns("cloud-a"), Segment::Tcp(4000)]);
    match connect_start(&a, &None, &Some(cloud.clone())).expect("resolves") {
        ConnectStart::LookupProject { name, cloud: cl, remaining } => {
            assert_eq!(name, "acme");
            assert_eq!(cl, cloud);
            assert_eq!(remaining, vec![Segment::Tcp(9000)]);
        }
        other => panic!("expected project lookup, got {:?}", other),
    }
}

#[test]
fn connect_builds_channel_request_for_secure_pattern() {
    let a = addr_of(vec![dns("example.org"), Segment::Tcp(4000), Segment::Secure]);
    let id = IdentityRef::new(vec![9]);
    match connect_start(&a, &Some(id.clone()), &None).expect("resolves") {
        ConnectStart::CreateChannel { request } => {
            assert_eq!(request.mode, ExchangeMode::Oneway);
            assert_eq!(request.authorized, Some(id));
            assert_eq!(request.route.len(), 2);
        }
        other => panic!("expected channel creation, got {:?}", other),
    }
}

#[test]
fn project_data_requires_ok_status_route_and_identity() {
    let route = addr_of(vec![dns("gw.acme")]);
    let id = IdentityRef::new(vec![9]);
    let full = DirectoryReply {
        status_ok: true,
        access_route: Some(route.clone()),
        identity: Some(id.clone()),
    };
    assert_eq!(project_data(full), Ok((route.clone(), id.clone())));
    let bad_status = DirectoryReply {
        status_ok: false,
        access_route: Some(route.clone()),
        identity: Some(id.clone()),
    };
    assert_eq!(project_data(bad_status), Err(FlowError::DirectoryResolutionFailed));
    let no_route = DirectoryReply { status_ok: true, access_route: None, identity: Some(id) };
    assert_eq!(project_data(no_route), Err(FlowError::InvalidAddress));
    let no_identity = DirectoryReply {
        status_ok: true,
        access_route: Some(route),
        identity: None,
    };
    assert_eq!(project_data(no_identity), Err(FlowError::DirectoryResolutionFailed));
}

#[test]
fn directory_route_is_extended_with_remaining_segments() {
    let req = connect_after_directory(
        addr_of(vec![dns("gw.acme")]),
        IdentityRef::new(vec![9]),
        vec![Segment::Tcp(9000)],
    )
    .expect("resolves");
    assert_eq!(req.route.len(), 1);
    assert_eq!(
        *req.route.hop_at(0),
        Hop::Tcp { host: HostAddr::Dns(String::from("gw.acme")), port: 9000 },
    );
    assert_eq!(req.authorized, Some(IdentityRef::new(vec![9])));
    let unroutable = connect_after_directory(
        addr_of(vec![dns("gw.acme")]),
        IdentityRef::new(vec![9]),
        vec![],
    );
    assert!(matches!(unroutable, Err(FlowError::InvalidAddress)));
}

#[test]
fn relay_kind_follows_flag_and_alias() {
    assert!(matches!(relay_request(false, None), RelayKind::Ephemeral));
    assert!(matches!(relay_request(true, None), RelayKind::Ephemeral));
    assert!(matches!(
        relay_request(false, Some(String::from("n"))),
        RelayKind::Static { .. }
    ));
    assert!(matches!(
        relay_request(true, Some(String::from("n"))),
        RelayKind::StaticWithoutHeartbeats { .. }
    ));
}

#[test]
fn secure_input_provisions_plain_relay_and_arms_session() {
    // A secure-pattern address, no alias, flag unset: a channel is created,
    // the relay is plain, and a session is registered for the requested
    // address with no captured identity.
    let input = addr_of(vec![dns("example.org"), Segment::Tcp(4000), Segment::Secure]);
    let req = ProvisionRequest {
        address: input.clone(),
        alias: None,
        reachable_without_channel: false,
        authorized: None,
        cloud: None,
    };
    let (state, action) = provision_start(req).expect("resolves");
    assert!(matches!(state, ProvisionState::AwaitingChannel { .. }));
    assert!(matches!(action, ProvisionAction::CreateChannel { .. }));

    let (state, action) = provision_on_channel(state, Ok(String::from("ch-1"))).expect("channel");
    match &state {
        ProvisionState::AwaitingRelay { resolved, .. } => {
            assert_eq!(*resolved, RoutingAddr::from_local_service(String::from("ch-1")));
            assert_ne!(*resolved, input);
        }
        other => panic!("expected relay wait, got {:?}", other),
    }
    match &action {
        ProvisionAction::CreateRelay { kind, route } => {
            assert!(matches!(kind, RelayKind::Ephemeral));
            assert_eq!(route.len(), 1);
            assert_eq!(*route.hop_at(0), Hop::Local { name: String::from("ch-1") });
        }
        other => panic!("expected relay creation, got {:?}", other),
    }

    let (state, response, session) = provision_on_relay(state, Ok(descriptor()), String::from("app"));
    assert!(matches!(state, ProvisionState::Finished));
    assert!(matches!(response, ProvisionResponse::Accepted { .. }));
    let session = session.expect("session armed");
    assert_eq!(session.key_addr(), &input);
    assert!(session.get(&String::from(identity_key_str())).is_none());
    let rep = session.replacement().as_ref().expect("armed");
    assert_eq!(rep.addr, input);
    assert_eq!(rep.alias, None);
    assert_eq!(rep.auth, None);
    assert_eq!(rep.manager, "app");
}

#[test]
fn project_input_resolves_through_directory() {
    // A project-prefixed address with a cloud address: the directory answers
    // with a route and an identity, the route is extended with the trailing
    // port, and the channel is restricted to that identity.
    let input = addr_of(vec![Segment::Project(String::from("acme")), Segment::Tcp(9000)]);
    let cloud = addr_of(vec![dns("cloud-a"), Segment::Tcp(4000)]);
    let id9 = IdentityRef::new(vec![9]);
    let req = ProvisionRequest {
        address: input.clone(),
        alias: None,
        reachable_without_channel: false,
        authorized: Some(id9.clone()),
        cloud: Some(cloud.clone()),
    };
    let (state, action) = provision_start(req).expect("resolves");
    match &action {
        ProvisionAction::LookupProject { name, cloud: cl } => {
            assert_eq!(name, "acme");
            assert_eq!(*cl, cloud);
        }
        other => panic!("expected project lookup, got {:?}", other),
    }

    let reply = DirectoryReply {
        status_ok: true,
        access_route: Some(addr_of(vec![dns("gw.acme")])),
        identity: Some(id9.clone()),
    };
    let (state, action) = provision_on_directory(state, reply).expect("directory");
    match &action {
        ProvisionAction::CreateChannel { request } => {
            assert_eq!(request.mode, ExchangeMode::Oneway);
            assert_eq!(request.authorized, Some(id9.clone()));
            assert_eq!(
                *request.route.hop_at(0),
                Hop::Tcp { host: HostAddr::Dns(String::from("gw.acme")), port: 9000 },
            );
        }
        other => panic!("expected channel creation, got {:?}", other),
    }

    let (state, _) = provision_on_channel(state, Ok(String::from("ch-2"))).expect("channel");
    let (_, response, session) = provision_on_relay(state, Ok(descriptor()), String::from("app"));
    assert!(matches!(response, ProvisionResponse::Accepted { .. }));
    let session = session.expect("session armed");
    assert_eq!(
        session.get(&String::from(identity_key_str())),
        Some(&id9),
    );
    let rep = session.replacement().as_ref().expect("armed");
    assert_eq!(rep.auth, Some(id9));
    assert_eq!(rep.cloud, Some(cloud));
}

#[test]
fn plain_address_passes_through_and_still_arms_session() {
    // No secure marker: the pattern does not match, the relay is provisioned
    // directly over the address, and — the flag being unset — a session is
    // still registered, armed with the unchanged address.
    let input = addr_of(vec![dns("10.0.0.5"), Segment::Tcp(3000)]);
    let req = ProvisionRequest {
        address: input.clone(),
        alias: None,
        reachable_without_channel: false,
        authorized: None,
        cloud: None,
    };
    let (state, action) = provision_start(req).expect("resolves");
    match &state {
        ProvisionState::AwaitingRelay { resolved, .. } => assert_eq!(*resolved, input),
        other => panic!("expected relay wait, got {:?}", other),
    }
    match &action {
        ProvisionAction::CreateRelay { kind, route } => {
            assert!(matches!(kind, RelayKind::Ephemeral));
            assert_eq!(
                *route.hop_at(0),
                Hop::Tcp { host: HostAddr::Dns(String::from("10.0.0.5")), port: 3000 },
            );
        }
        other => panic!("expected relay creation, got {:?}", other),
    }
    let (_, _, session) = provision_on_relay(state, Ok(descriptor()), String::from("app"));
    let session = session.expect("session armed even for passthrough");
    assert_eq!(session.replacement().as_ref().expect("armed").addr, input);
}

#[test]
fn session_exists_iff_relay_ok_and_flag_unset() {
    let input = addr_of(vec![dns("10.0.0.5"), Segment::Tcp(3000)]);
    let cases: Vec<(bool, bool)> = vec![(false, true), (false, false), (true, true), (true, false)];
    for (flag, relay_ok) in cases {
        let req = ProvisionRequest {
            address: input.clone(),
            alias: Some(String::from("alias-1")),
            reachable_without_channel: flag,
            authorized: None,
            cloud: None,
        };
        let (state, action) = provision_start(req).expect("resolves");
        match &action {
            ProvisionAction::CreateRelay { kind, .. } => {
                if flag {
                    assert!(matches!(kind, RelayKind::StaticWithoutHeartbeats { .. }));
                } else {
                    assert!(matches!(kind, RelayKind::Static { .. }));
                }
            }
            other => panic!("expected relay creation, got {:?}", other),
        }
        let result = if relay_ok {
            Ok(descriptor())
        } else {
            Err(String::from("relay refused"))
        };
        let (_, response, session) = provision_on_relay(state, result, String::from("app"));
        assert_eq!(session.is_some(), relay_ok && !flag);
        if relay_ok {
            assert!(matches!(response, ProvisionResponse::Accepted { .. }));
        } else {
            match response {
                ProvisionResponse::ServerError { message } => {
                    assert_eq!(message, "relay refused")
                }
                other => panic!("expected error response, got {:?}", other),
            }
        }
    }
}

#[test]
fn channel_failure_is_a_hard_error() {
    let input = addr_of(vec![dns("example.org"), Segment::Tcp(4000), Segment::Secure]);
    let req = ProvisionRequest {
        address: input,
        alias: None,
        reachable_without_channel: false,
        authorized: None,
        cloud: None,
    };
    let (state, _) = provision_start(req).expect("resolves");
    let r = provision_on_channel(state, Err(FlowError::ChannelCreationFailed));
    assert!(matches!(r, Err(FlowError::ChannelCreationFailed)));
}
