use vstd::prelude::*;

use crate::route::Route;
use crate::session::opt_string_view;

verus! {

/// The kind of relay asked of the relay protocol.
#[derive(Debug)]
pub enum RelayKind {
    /// An aliased relay with no periodic liveness pings, for a node that is
    /// reachable without a channel.
    StaticWithoutHeartbeats { alias: String },
    /// An aliased relay backed by heartbeats.
    Static { alias: String },
    /// A plain, heartbeat-backed relay under a fresh name.
    Ephemeral,
}

/// Mathematical shape of a [`RelayKind`].
pub enum RelayKindV {
    StaticWithoutHeartbeats { alias: Seq<char> },
    Static { alias: Seq<char> },
    Ephemeral,
}

impl View for RelayKind {
    type V = RelayKindV;

    open spec fn view(&self) -> RelayKindV {
        match self {
            RelayKind::StaticWithoutHeartbeats { alias } => RelayKindV::StaticWithoutHeartbeats {
                alias: alias@,
            },
            RelayKind::Static { alias } => RelayKindV::Static { alias: alias@ },
            RelayKind::Ephemeral => RelayKindV::Ephemeral,
        }
    }
}

/// The relay kind the first provisioning asks for: aliased without
/// heartbeats when the node is reachable without a channel and an alias was
/// given; aliased with heartbeats when only an alias was given; plain
/// otherwise.
pub open spec fn relay_kind_of(at_rust_node: bool, alias: Option<Seq<char>>) -> RelayKindV {
    match alias {
        Some(a) => if at_rust_node {
            RelayKindV::StaticWithoutHeartbeats { alias: a }
        } else {
            RelayKindV::Static { alias: a }
        },
        None => RelayKindV::Ephemeral,
    }
}

/// The relay kind recovery asks for: aliased when an alias was captured,
/// plain otherwise — recovery never skips heartbeats.
pub open spec fn recovery_relay_kind(alias: Option<Seq<char>>) -> RelayKindV {
    match alias {
        Some(a) => RelayKindV::Static { alias: a },
        None => RelayKindV::Ephemeral,
    }
}

/// Decides which relay to ask for at first provisioning.
pub fn relay_request(at_rust_node: bool, alias: Option<String>) -> (r: RelayKind)
    ensures
        r@ == relay_kind_of(at_rust_node, opt_string_view(alias)),
{
    match alias {
        Some(a) => if at_rust_node {
            RelayKind::StaticWithoutHeartbeats { alias: a }
        } else {
            RelayKind::Static { alias: a }
        },
        None => RelayKind::Ephemeral,
    }
}

/// Decides which relay recovery asks for.
pub fn recovery_relay_request(alias: Option<String>) -> (r: RelayKind)
    ensures
        r@ == recovery_relay_kind(opt_string_view(alias)),
{
    match alias {
        Some(a) => RelayKind::Static { alias: a },
        None => RelayKind::Ephemeral,
    }
}

/// What successful provisioning hands back: the route remote peers forward
/// over, this node's remote-facing address, and the alias if one was asked
/// for.  Produced by the relay protocol and passed through to the caller.
#[derive(Debug)]
pub struct RelayDescriptor {
    pub forwarding_route: Route,
    pub remote_address: String,
    pub alias: Option<String>,
}

} // verus!
