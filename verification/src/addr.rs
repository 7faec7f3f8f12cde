use vstd::prelude::*;

use crate::error::FlowError;

verus! {

/// A transport host: a DNS name or a literal IP address.
#[derive(Clone, Debug, PartialEq, Eq)]
pub enum HostAddr {
    Dns(String),
    Ip4(u32),
    Ip6(u128),
}

/// Mathematical shape of a [`HostAddr`].
pub enum HostV {
    Dns(Seq<char>),
    Ip4(u32),
    Ip6(u128),
}

impl View for HostAddr {
    type V = HostV;

    open spec fn view(&self) -> HostV {
        match self {
            HostAddr::Dns(s) => HostV::Dns(s@),
            HostAddr::Ip4(n) => HostV::Ip4(*n),
            HostAddr::Ip6(n) => HostV::Ip6(*n),
        }
    }
}

impl HostAddr {
    /// An owned copy with the same value.
    pub fn dup(&self) -> (r: HostAddr)
        ensures
            r == *self,
    {
        match self {
            HostAddr::Dns(s) => HostAddr::Dns(s.clone()),
            HostAddr::Ip4(n) => HostAddr::Ip4(*n),
            HostAddr::Ip6(n) => HostAddr::Ip6(*n),
        }
    }
}

/// One typed segment of a routing address.
#[derive(Clone, Debug, PartialEq, Eq)]
pub enum Segment {
    /// A transport host, expected to be followed by a TCP port.
    Host(HostAddr),
    /// A TCP port on the preceding host.
    Tcp(u16),
    /// Marks the remote secure-channel listener.
    Secure,
    /// A named cloud-hosted project, to be resolved through the directory.
    Project(String),
    /// A local service, such as the local endpoint of a secure channel.
    Service(String),
}

/// Mathematical shape of a [`Segment`].
pub enum SegV {
    Host(HostV),
    Tcp(u16),
    Secure,
    Project(Seq<char>),
    Service(Seq<char>),
}

impl View for Segment {
    type V = SegV;

    open spec fn view(&self) -> SegV {
        match self {
            Segment::Host(h) => SegV::Host(h@),
            Segment::Tcp(p) => SegV::Tcp(*p),
            Segment::Secure => SegV::Secure,
            Segment::Project(s) => SegV::Project(s@),
            Segment::Service(s) => SegV::Service(s@),
        }
    }
}

impl Segment {
    /// An owned copy with the same value.
    pub fn dup(&self) -> (r: Segment)
        ensures
            r == *self,
    {
        match self {
            Segment::Host(h) => Segment::Host(h.dup()),
            Segment::Tcp(p) => Segment::Tcp(*p),
            Segment::Secure => Segment::Secure,
            Segment::Project(s) => Segment::Project(s.clone()),
            Segment::Service(s) => Segment::Service(s.clone()),
        }
    }
}

/// True where some segment names a project.
pub open spec fn has_project(a: Seq<SegV>) -> bool {
    exists|i: int| 0 <= i < a.len() && (#[trigger] a[i]) is Project
}

/// A well-formed address names a project only as its leading segment: the
/// resolver treats a project reference purely as a leading indirection, so an
/// address with a project buried inside it maps to nothing.
pub open spec fn addr_wf(a: Seq<SegV>) -> bool {
    forall|i: int| 1 <= i < a.len() ==> !(#[trigger] a[i] is Project)
}

/// An ordered, immutable sequence of typed address segments.
#[derive(Clone, Debug, PartialEq, Eq)]
pub struct RoutingAddr {
    segments: Vec<Segment>,
}

impl View for RoutingAddr {
    type V = Seq<SegV>;

    closed spec fn view(&self) -> Seq<SegV> {
        self.segments@.map_values(|s: Segment| s@)
    }
}

impl RoutingAddr {
    /// The address with no segments.
    pub fn empty() -> (r: RoutingAddr)
        ensures
            r@ == Seq::<SegV>::empty(),
    {
        let r = RoutingAddr { segments: Vec::new() };
        proof {
            assert(r@ =~= Seq::<SegV>::empty());
        }
        r
    }

    /// Builds an address from segments; fails if the result would be
    /// malformed.
    pub fn new(segments: Vec<Segment>) -> (r: Result<RoutingAddr, FlowError>)
        ensures
            match r {
                Ok(a) => a@ == segments@.map_values(|s: Segment| s@) && addr_wf(a@),
                Err(e) => e == FlowError::InvalidAddress && !addr_wf(
                    segments@.map_values(|s: Segment| s@),
                ),
            },
    {
        let ghost v = segments@.map_values(|s: Segment| s@);
        let mut i: usize = 1;
        while i < segments.len()
            invariant
                1 <= i,
                v == segments@.map_values(|s: Segment| s@),
                forall|j: int| 1 <= j < i ==> !(#[trigger] v[j] is Project),
            decreases segments.len() - i,
        {
            if let Segment::Project(_) = &segments[i] {
                proof {
                    assert(v[i as int] is Project);
                }
                return Err(FlowError::InvalidAddress);
            }
            i += 1;
        }
        Ok(RoutingAddr { segments })
    }

    /// How many segments the address has.
    pub fn len(&self) -> (n: usize)
        ensures
            n == self@.len(),
    {
        self.segments.len()
    }

    /// The segment at a given position.
    pub fn seg_at(&self, i: usize) -> (s: &Segment)
        requires
            i < self@.len(),
        ensures
            s@ == self@[i as int],
    {
        &self.segments[i]
    }

    /// An owned copy with the same value.
    pub fn dup(&self) -> (r: RoutingAddr)
        ensures
            r@ == self@,
    {
        let mut out: Vec<Segment> = Vec::new();
        let mut i: usize = 0;
        while i < self.segments.len()
            invariant
                i <= self.segments.len(),
                out@.len() == i,
                forall|k: int| 0 <= k < i ==> #[trigger] out@[k] == self.segments@[k],
            decreases self.segments.len() - i,
        {
            out.push(self.segments[i].dup());
            i += 1;
        }
        proof {
            assert(out@ =~= self.segments@);
        }
        RoutingAddr { segments: out }
    }

    /// The name of the leading project segment, if the address starts with
    /// one.
    pub fn leading_project(&self) -> (r: Option<&String>)
        ensures
            match r {
                Some(name) => self@.len() > 0 && self@[0] == SegV::Project(name@),
                Option::None => self@.len() == 0 || !(self@[0] is Project),
            },
    {
        if self.segments.len() == 0 {
            return Option::None;
        }
        match &self.segments[0] {
            Segment::Project(name) => Some(name),
            _ => Option::None,
        }
    }

    /// An owned copy of every segment after the first.
    pub fn tail(&self) -> (r: Vec<Segment>)
        requires
            self@.len() > 0,
        ensures
            r@.map_values(|s: Segment| s@) == self@.skip(1),
    {
        let mut out: Vec<Segment> = Vec::new();
        let mut i: usize = 1;
        while i < self.segments.len()
            invariant
                1 <= i <= self.segments.len(),
                out@.len() == i - 1,
                forall|k: int| 0 <= k < i - 1 ==> #[trigger] out@[k] == self.segments@[k + 1],
            decreases self.segments.len() - i,
        {
            out.push(self.segments[i].dup());
            i += 1;
        }
        proof {
            assert(out@ =~= self.segments@.skip(1));
            assert forall|k: int|
                0 <= k < out@.len() implies out@.map_values(|s: Segment| s@)[k] == self@.skip(1)[k] by {
                assert(out@[k] == self.segments@[k + 1]);
            }
            assert(out@.map_values(|s: Segment| s@) =~= self@.skip(1));
        }
        out
    }

    /// Appends further segments.  Fails, leaving the address unchanged, if
    /// the extension would bury a project segment inside the address.
    pub fn try_extend(&mut self, tail: Vec<Segment>) -> (r: Result<(), FlowError>)
        ensures
            match r {
                Ok(()) => final(self)@ == old(self)@ + tail@.map_values(|s: Segment| s@)
                    && !has_project(tail@.map_values(|s: Segment| s@))
                    && addr_wf(old(self)@ + tail@.map_values(|s: Segment| s@))
                    == addr_wf(old(self)@),
                Err(e) => e == FlowError::InvalidAddress && final(self)@ == old(self)@
                    && has_project(tail@.map_values(|s: Segment| s@)),
            },
    {
        let ghost tv = tail@.map_values(|s: Segment| s@);
        let mut i: usize = 0;
        while i < tail.len()
            invariant
                i <= tail.len(),
                tv == tail@.map_values(|s: Segment| s@),
                *self == *old(self),
                forall|j: int| 0 <= j < i ==> !(#[trigger] tv[j] is Project),
            decreases tail.len() - i,
        {
            if let Segment::Project(_) = &tail[i] {
                proof {
                    assert(tv[i as int] is Project);
                }
                return Err(FlowError::InvalidAddress);
            }
            i += 1;
        }
        let ghost before = self@;
        let ghost before_s = self.segments@;
        let rest = tail;
        let mut j: usize = 0;
        let n = rest.len();
        while j < n
            invariant
                j <= n,
                n == rest@.len(),
                tv == rest@.map_values(|s: Segment| s@),
                self.segments@.len() == before_s.len() + j,
                forall|k: int| 0 <= k < before_s.len() ==> #[trigger] self.segments@[k]
                    == before_s[k],
                forall|k: int|
                    before_s.len() <= k < before_s.len() + j ==> #[trigger] self.segments@[k]
                        == rest@[k - before_s.len()],
            decreases n - j,
        {
            let s = rest[j].dup();
            self.segments.push(s);
            j += 1;
        }
        proof {
            assert(self.segments@ =~= before_s + rest@);
            assert forall|k: int|
                0 <= k < self@.len() implies #[trigger] self@[k] == (before + tv)[k] by {
                if k < before_s.len() {
                    assert(self.segments@[k] == before_s[k]);
                } else {
                    assert(self.segments@[k] == rest@[k - before_s.len()]);
                    assert(tv[k - before_s.len()] == rest@[k - before_s.len()]@);
                }
            }
            assert(self@ =~= before + tv);
            assert(addr_wf(before + tv) == addr_wf(before)) by {
                if addr_wf(before) {
                    assert forall|k: int| 1 <= k < (before + tv).len() implies !(#[trigger] (before
                        + tv)[k] is Project) by {
                        if k < before.len() {
                            assert((before + tv)[k] == before[k]);
                        } else {
                            assert((before + tv)[k] == tv[k - before.len()]);
                        }
                    }
                } else {
                    let bad = choose|k: int|
                        1 <= k < before.len() && (#[trigger] before[k] is Project);
                    assert((before + tv)[bad] == before[bad]);
                }
            }
        }
        Ok(())
    }

    /// The address naming a single local service: how a secure channel's
    /// local endpoint is spoken of as an address.
    pub fn from_local_service(name: String) -> (r: RoutingAddr)
        ensures
            r@ == seq![SegV::Service(name@)],
    {
        let ghost nv = name@;
        let mut segments: Vec<Segment> = Vec::new();
        segments.push(Segment::Service(name));
        let r = RoutingAddr { segments };
        proof {
            assert(r@ =~= seq![SegV::Service(nv)]);
        }
        r
    }

    /// The local service name, when the address is exactly one service
    /// segment; how an address is mapped back onto a local endpoint.
    pub fn as_local_service(&self) -> (r: Option<&String>)
        ensures
            match r {
                Some(name) => self@ == seq![SegV::Service(name@)],
                Option::None => !(self@.len() == 1 && self@[0] is Service),
            },
    {
        if self.segments.len() != 1 {
            return Option::None;
        }
        match &self.segments[0] {
            Segment::Service(name) => {
                proof {
                    assert(self@ =~= seq![SegV::Service(name@)]);
                }
                Some(name)
            },
            _ => Option::None,
        }
    }
}

/// True of addresses whose first segment names a project.
pub open spec fn is_project_prefixed(a: Seq<SegV>) -> bool {
    a.len() > 0 && a[0] is Project
}

/// True of addresses of the exact positional shape
/// `[host, tcp-port, secure-marker]`.
pub open spec fn matches_secure_pattern(a: Seq<SegV>) -> bool {
    a.len() == 3 && a[0] is Host && a[1] is Tcp && a[2] is Secure
}

/// How the resolver sees an address: the three-way classification that every
/// resolution and every recovery attempt starts from.
#[derive(Clone, Copy, Debug, PartialEq, Eq, Structural)]
pub enum AddrClass {
    /// Leading project segment: resolve through the cloud directory.
    Project,
    /// The `[host, tcp, secure]` pattern: negotiate a secure channel.
    SecurePattern,
    /// Anything else passes through untouched.
    Passthrough,
}

/// The classification as a function of the address alone.
pub open spec fn class_of(a: Seq<SegV>) -> AddrClass {
    if is_project_prefixed(a) {
        AddrClass::Project
    } else if matches_secure_pattern(a) {
        AddrClass::SecurePattern
    } else {
        AddrClass::Passthrough
    }
}

/// Classifies an address, first match first: project prefix, then the secure
/// pattern, then passthrough.
pub fn classify(a: &RoutingAddr) -> (c: AddrClass)
    ensures
        c == class_of(a@),
{
    if a.len() > 0 {
        if let Segment::Project(_) = a.seg_at(0) {
            return AddrClass::Project;
        }
    }
    if a.len() == 3 {
        let h = matches!(a.seg_at(0), Segment::Host(_));
        let t = matches!(a.seg_at(1), Segment::Tcp(_));
        let s = matches!(a.seg_at(2), Segment::Secure);
        if h && t && s {
            return AddrClass::SecurePattern;
        }
    }
    AddrClass::Passthrough
}

} // verus!
