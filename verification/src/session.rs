use vstd::prelude::*;

use crate::addr::{RoutingAddr, SegV};
use crate::config::{identity_key, identity_key_str};
use crate::identity::{dup_opt_identity, opt_identity_view, IdentityRef};
use vstd::string::StringExecFns;

verus! {

/// The bytes of an optional routing address.
pub open spec fn opt_addr_view(o: Option<RoutingAddr>) -> Option<Seq<SegV>> {
    match o {
        Some(a) => Some(a@),
        None => None,
    }
}

/// The characters of an optional string.
pub open spec fn opt_string_view(o: Option<String>) -> Option<Seq<char>> {
    match o {
        Some(s) => Some(s@),
        None => None,
    }
}

/// An owned copy of an optional routing address.
pub fn dup_opt_addr(o: &Option<RoutingAddr>) -> (r: Option<RoutingAddr>)
    ensures
        opt_addr_view(r) == opt_addr_view(*o),
{
    match o {
        Some(a) => Some(a.dup()),
        None => None,
    }
}

/// An owned copy of an optional string.
pub fn dup_opt_string(o: &Option<String>) -> (r: Option<String>)
    ensures
        opt_string_view(r) == opt_string_view(*o),
{
    match o {
        Some(s) => Some(s.clone()),
        None => None,
    }
}

/// One entry of a session's auxiliary key-value store.
#[derive(Clone, Debug, PartialEq, Eq)]
pub struct StoreEntry {
    pub key: String,
    pub value: IdentityRef,
}

/// The values a session's replacement procedure owns: captured when recovery
/// is armed, so that the procedure outlives the call that armed it.
#[derive(Debug)]
pub struct Replacement {
    /// Address of the managing component, reached by request/response
    /// messages only.
    pub manager: String,
    /// The routing address the relay was originally asked for.
    pub addr: RoutingAddr,
    /// The cloud directory address, when one was supplied.
    pub cloud: Option<RoutingAddr>,
    /// The relay alias, when one was supplied.
    pub alias: Option<String>,
    /// The authorized identity captured at session creation.
    pub auth: Option<IdentityRef>,
}

/// Mathematical shape of a [`Replacement`].
pub struct ReplacementV {
    pub manager: Seq<char>,
    pub addr: Seq<SegV>,
    pub cloud: Option<Seq<SegV>>,
    pub alias: Option<Seq<char>>,
    pub auth: Option<Seq<u8>>,
}

impl View for Replacement {
    type V = ReplacementV;

    open spec fn view(&self) -> ReplacementV {
        ReplacementV {
            manager: self.manager@,
            addr: self.addr@,
            cloud: opt_addr_view(self.cloud),
            alias: opt_string_view(self.alias),
            auth: opt_identity_view(self.auth),
        }
    }
}

/// Looks a key up in an auxiliary store, last insertion first.
pub open spec fn store_lookup(entries: Seq<(Seq<char>, Seq<u8>)>, key: Seq<char>) -> Option<
    Seq<u8>,
>
    decreases entries.len(),
{
    if entries.len() == 0 {
        None
    } else if entries.last().0 == key {
        Some(entries.last().1)
    } else {
        store_lookup(entries.drop_last(), key)
    }
}

/// Mathematical shape of a [`Session`].
pub struct SessionV {
    /// The address the session was created for.
    pub key: Seq<SegV>,
    /// The auxiliary store, as (key, value) pairs in insertion order.
    pub store: Seq<(Seq<char>, Seq<u8>)>,
    /// The armed replacement procedure, if any.
    pub replacement: Option<ReplacementV>,
}

/// A recovery session: the state needed to rebuild a channel/relay pair
/// after the remote side tears it down, keyed by the address it was created
/// for.
#[derive(Debug)]
pub struct Session {
    key_addr: RoutingAddr,
    entries: Vec<StoreEntry>,
    replacement: Option<Replacement>,
}

impl View for Session {
    type V = SessionV;

    closed spec fn view(&self) -> SessionV {
        SessionV {
            key: self.key_addr@,
            store: self.entries@.map_values(|e: StoreEntry| (e.key@, e.value@)),
            replacement: match self.replacement {
                Some(r) => Some(r@),
                None => None,
            },
        }
    }
}

impl Session {
    /// A fresh session for an address: empty store, nothing armed.
    pub fn new(addr: RoutingAddr) -> (r: Session)
        ensures
            r@.key == addr@,
            r@.store == Seq::<(Seq<char>, Seq<u8>)>::empty(),
            r@.replacement is None,
    {
        let r = Session { key_addr: addr, entries: Vec::new(), replacement: None };
        proof {
            assert(r@.store =~= Seq::<(Seq<char>, Seq<u8>)>::empty());
        }
        r
    }

    /// The address the session was created for.
    pub fn key_addr(&self) -> (r: &RoutingAddr)
        ensures
            r@ == self@.key,
    {
        &self.key_addr
    }

    /// The armed replacement procedure, if any.
    pub fn replacement(&self) -> (r: &Option<Replacement>)
        ensures
            match r {
                Some(rep) => self@.replacement == Some(rep@),
                None => self@.replacement is None,
            },
    {
        &self.replacement
    }

    /// Stores a value in the auxiliary store.
    pub fn put(&mut self, key: String, value: IdentityRef)
        ensures
            final(self)@.store == old(self)@.store.push((key@, value@)),
            final(self)@.key == old(self)@.key,
            final(self)@.replacement == old(self)@.replacement,
    {
        let ghost old_store = self@.store;
        self.entries.push(StoreEntry { key, value });
        proof {
            assert(self@.store =~= old_store.push(
                (self.entries@.last().key@, self.entries@.last().value@),
            ));
        }
    }

    /// Reads the value stored under a key, the last insertion winning.
    pub fn get(&self, key: &String) -> (r: Option<&IdentityRef>)
        ensures
            match r {
                Some(v) => store_lookup(self@.store, key@) == Some(v@),
                None => store_lookup(self@.store, key@) is None,
            },
    {
        let ghost k = key@;
        let mut i: usize = self.entries.len();
        proof {
            assert(self@.store.take(i as int) =~= self@.store);
        }
        while i > 0
            invariant
                i <= self.entries.len(),
                store_lookup(self@.store, k) == store_lookup(
                    self@.store.take(i as int),
                    k,
                ),
                k == key@,
            decreases i,
        {
            let e = &self.entries[i - 1];
            proof {
                assert(self@.store[i - 1] == (e.key@, e.value@));
                assert(self@.store.take(i as int).last() == self@.store[i - 1]);
                assert(self@.store.take(i as int).drop_last() =~= self@.store.take(i - 1));
            }
            if e.key == *key {
                return Some(&e.value);
            }
            i -= 1;
        }
        proof {
            assert(self@.store.take(0) =~= Seq::<(Seq<char>, Seq<u8>)>::empty());
        }
        None
    }

    /// Arms (or replaces) the session's replacement procedure.
    pub fn set_replacement(&mut self, r: Replacement)
        ensures
            final(self)@.replacement == Some(r@),
            final(self)@.key == old(self)@.key,
            final(self)@.store == old(self)@.store,
    {
        self.replacement = Some(r);
    }
}

/// Arms a session for automatic recovery: captures, by value, everything a
/// later recovery attempt needs — the managing component's address, the
/// original routing address, the optional cloud address and alias, and the
/// authorized identity the session stored at creation time.
pub fn enable_recovery(
    session: &mut Session,
    manager: String,
    addr: RoutingAddr,
    cloud: Option<RoutingAddr>,
    alias: Option<String>,
)
    ensures
        final(session)@.replacement == Some(
            ReplacementV {
                manager: manager@,
                addr: addr@,
                cloud: opt_addr_view(cloud),
                alias: opt_string_view(alias),
                auth: store_lookup(old(session)@.store, identity_key()),
            },
        ),
        final(session)@.key == old(session)@.key,
        final(session)@.store == old(session)@.store,
{
    let key = String::from_str(identity_key_str());
    let auth = match session.get(&key) {
        Some(v) => Some(v.dup()),
        None => None,
    };
    session.set_replacement(Replacement { manager, addr, cloud, alias, auth });
}

/// The shared registry recovery sessions are inserted into.  This layer only
/// ever inserts; expiry and removal belong to its owner, as does the lock
/// that guards it.
#[derive(Debug)]
pub struct SessionRegistry {
    sessions: Vec<Session>,
}

impl View for SessionRegistry {
    type V = Seq<SessionV>;

    closed spec fn view(&self) -> Seq<SessionV> {
        self.sessions@.map_values(|s: Session| s@)
    }
}

impl SessionRegistry {
    /// An empty registry.
    pub fn new() -> (r: SessionRegistry)
        ensures
            r@ == Seq::<SessionV>::empty(),
    {
        let r = SessionRegistry { sessions: Vec::new() };
        proof {
            assert(r@ =~= Seq::<SessionV>::empty());
        }
        r
    }

    /// How many sessions are registered.
    pub fn len(&self) -> (n: usize)
        ensures
            n == self@.len(),
    {
        self.sessions.len()
    }

    /// The session at a given position, in insertion order.
    pub fn session_at(&self, i: usize) -> (s: &Session)
        requires
            i < self@.len(),
        ensures
            s@ == self@[i as int],
    {
        &self.sessions[i]
    }

    /// Inserts a session.
    pub fn add(&mut self, s: Session)
        ensures
            final(self)@ == old(self)@.push(s@),
    {
        let ghost old_view = self@;
        let ghost sv = s@;
        self.sessions.push(s);
        proof {
            assert(self@ =~= old_view.push(sv));
        }
    }
}

} // verus!
