use vstd::prelude::*;

use crate::addr::{matches_secure_pattern, HostAddr, HostV, RoutingAddr, SegV, Segment};
use crate::config::secure_service;
use vstd::string::StringExecFns;

verus! {

/// One hop of a transport route.
#[derive(Clone, Debug, PartialEq, Eq)]
pub enum Hop {
    /// A TCP connection to a host and port.
    Tcp { host: HostAddr, port: u16 },
    /// A local worker or service, addressed by name.
    Local { name: String },
}

/// Mathematical shape of a [`Hop`].
pub enum HopV {
    Tcp { host: HostV, port: u16 },
    Local { name: Seq<char> },
}

impl View for Hop {
    type V = HopV;

    open spec fn view(&self) -> HopV {
        match self {
            Hop::Tcp { host, port } => HopV::Tcp { host: host@, port: *port },
            Hop::Local { name } => HopV::Local { name: name@ },
        }
    }
}

/// A transport-level route: the ordered hops a message travels.
#[derive(Clone, Debug, PartialEq, Eq)]
pub struct Route {
    hops: Vec<Hop>,
}

impl View for Route {
    type V = Seq<HopV>;

    closed spec fn view(&self) -> Seq<HopV> {
        self.hops@.map_values(|h: Hop| h@)
    }
}

impl Route {
    /// How many hops the route has.
    pub fn len(&self) -> (n: usize)
        ensures
            n == self@.len(),
    {
        self.hops.len()
    }

    /// The hop at a given position.
    pub fn hop_at(&self, i: usize) -> (h: &Hop)
        requires
            i < self@.len(),
        ensures
            h@ == self@[i as int],
    {
        &self.hops[i]
    }
}

/// The route an address maps onto, if every segment can be mapped: a host
/// followed by a TCP port makes one TCP hop; a secure marker routes to the
/// well-known secure-channel listener; a service segment routes to that local
/// service.  A project reference, a port with no preceding host, or a host
/// with no following port cannot be mapped.
pub open spec fn route_of(a: Seq<SegV>) -> Option<Seq<HopV>>
    decreases a.len(),
{
    if a.len() == 0 {
        Some(Seq::empty())
    } else {
        match a[0] {
            SegV::Host(h) => if a.len() >= 2 && a[1] is Tcp {
                match route_of(a.skip(2)) {
                    Some(rest) => Some(seq![HopV::Tcp { host: h, port: a[1]->Tcp_0 }] + rest),
                    None => None,
                }
            } else {
                None
            },
            SegV::Tcp(_) => None,
            SegV::Secure => match route_of(a.skip(1)) {
                Some(rest) => Some(seq![HopV::Local { name: secure_service() }] + rest),
                None => None,
            },
            SegV::Project(_) => None,
            SegV::Service(s) => match route_of(a.skip(1)) {
                Some(rest) => Some(seq![HopV::Local { name: s }] + rest),
                None => None,
            },
        }
    }
}

/// Inserting a hop at the front of a route prepends its shape to the
/// route's view.
proof fn lemma_prepend_view(hops: Seq<Hop>, old_hops: Seq<Hop>, hop: Hop)
    requires
        hops == old_hops.insert(0, hop),
    ensures
        hops.map_values(|h: Hop| h@) == seq![hop@] + old_hops.map_values(|h: Hop| h@),
{
    assert(hops =~= seq![hop] + old_hops);
    assert(hops.map_values(|h: Hop| h@) =~= seq![hop@] + old_hops.map_values(|h: Hop| h@));
}

/// Derives the transport route for the tail of `a` that starts at `i`.
fn route_from(a: &RoutingAddr, i: usize) -> (r: Option<Route>)
    requires
        i <= a@.len(),
    ensures
        match r {
            Some(rt) => route_of(a@.skip(i as int)) == Some(rt@),
            None => route_of(a@.skip(i as int)) is None,
        },
    decreases a@.len() - i,
{
    let ghost s = a@.skip(i as int);
    if i == a.len() {
        proof {
            assert(s =~= Seq::<SegV>::empty());
        }
        let rt = Route { hops: Vec::new() };
        proof {
            assert(rt@ =~= Seq::<HopV>::empty());
        }
        return Some(rt);
    }
    proof {
        assert(s[0] == a@[i as int]);
    }
    match a.seg_at(i) {
        Segment::Host(h) => {
            if i + 1 < a.len() {
                if let Segment::Tcp(p) = a.seg_at(i + 1) {
                    proof {
                        assert(s[1] == a@[i + 1]);
                        assert(s.skip(2) =~= a@.skip(i + 2));
                    }
                    match route_from(a, i + 2) {
                        Some(rest) => {
                            let hop = Hop::Tcp { host: h.dup(), port: *p };
                            let ghost old_hops = rest.hops@;
                            let mut rt = rest;
                            rt.hops.insert(0, hop);
                            proof {
                                lemma_prepend_view(rt.hops@, old_hops, hop);
                            }
                            Some(rt)
                        },
                        None => None,
                    }
                } else {
                    proof {
                        assert(s[1] == a@[i + 1]);
                    }
                    None
                }
            } else {
                None
            }
        },
        Segment::Tcp(_) => None,
        Segment::Project(_) => None,
        Segment::Secure => {
            proof {
                assert(s.skip(1) =~= a@.skip(i + 1));
            }
            match route_from(a, i + 1) {
                Some(rest) => {
                    let hop = Hop::Local { name: String::from_str(crate::config::secure_service_str()) };
                    let ghost old_hops = rest.hops@;
                    let mut rt = rest;
                    rt.hops.insert(0, hop);
                    proof {
                        lemma_prepend_view(rt.hops@, old_hops, hop);
                    }
                    Some(rt)
                },
                None => None,
            }
        },
        Segment::Service(name) => {
            proof {
                assert(s.skip(1) =~= a@.skip(i + 1));
            }
            match route_from(a, i + 1) {
                Some(rest) => {
                    let hop = Hop::Local { name: name.clone() };
                    let ghost old_hops = rest.hops@;
                    let mut rt = rest;
                    rt.hops.insert(0, hop);
                    proof {
                        lemma_prepend_view(rt.hops@, old_hops, hop);
                    }
                    Some(rt)
                },
                None => None,
            }
        },
    }
}

/// Derives the transport route for a whole address, failing exactly when
/// some segment cannot be mapped onto a hop.
pub fn resolve_route(a: &RoutingAddr) -> (r: Option<Route>)
    ensures
        match r {
            Some(rt) => route_of(a@) == Some(rt@),
            None => route_of(a@) is None,
        },
{
    proof {
        assert(a@.skip(0) =~= a@);
    }
    route_from(a, 0)
}

/// An address of the exact `[host, tcp, secure]` shape always maps onto a
/// route: the TCP hop, then the secure-channel listener.
pub proof fn lemma_secure_pattern_has_route(a: Seq<SegV>)
    requires
        matches_secure_pattern(a),
    ensures
        route_of(a) matches Some(r) && r == seq![
            HopV::Tcp { host: a[0]->Host_0, port: a[1]->Tcp_0 },
            HopV::Local { name: secure_service() },
        ],
{
    reveal_with_fuel(route_of, 3);
    assert(a.skip(2) =~= seq![a[2]]);
    assert(a.skip(2).skip(1) =~= Seq::<SegV>::empty());
    assert(a.skip(2)[0] == a[2]);
    assert(route_of(a.skip(2)) == Some(seq![HopV::Local { name: secure_service() }]
        + Seq::<HopV>::empty()));
    assert(seq![HopV::Local { name: secure_service() }] + Seq::<HopV>::empty() =~= seq![
        HopV::Local { name: secure_service() },
    ]);
    assert(seq![HopV::Tcp { host: a[0]->Host_0, port: a[1]->Tcp_0 }] + seq![
        HopV::Local { name: secure_service() },
    ] =~= seq![
        HopV::Tcp { host: a[0]->Host_0, port: a[1]->Tcp_0 },
        HopV::Local { name: secure_service() },
    ]);
}

/// An address naming a single local service always maps onto a route: the
/// one local hop.
pub proof fn lemma_service_has_route(name: Seq<char>)
    ensures
        route_of(seq![SegV::Service(name)]) == Some(seq![HopV::Local { name: name }]),
{
    reveal_with_fuel(route_of, 2);
    let a = seq![SegV::Service(name)];
    assert(a.skip(1) =~= Seq::<SegV>::empty());
    assert(seq![HopV::Local { name: name }] + Seq::<HopV>::empty() =~= seq![
        HopV::Local { name: name },
    ]);
}

} // verus!
