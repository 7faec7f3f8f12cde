use vstd::prelude::*;

verus! {

/// An opaque reference naming a peer identity that is permitted to complete
/// a secure-channel handshake.  The bytes are never interpreted here, only
/// carried and compared.
#[derive(Clone, Debug, PartialEq, Eq)]
pub struct IdentityRef {
    bytes: Vec<u8>,
}

impl View for IdentityRef {
    type V = Seq<u8>;

    closed spec fn view(&self) -> Seq<u8> {
        self.bytes@
    }
}

impl IdentityRef {
    /// Wraps raw identity bytes.
    pub fn new(bytes: Vec<u8>) -> (r: IdentityRef)
        ensures
            r@ == bytes@,
    {
        IdentityRef { bytes }
    }

    /// An owned copy with the same bytes.
    pub fn dup(&self) -> (r: IdentityRef)
        ensures
            r@ == self@,
    {
        let mut out: Vec<u8> = Vec::new();
        let mut i: usize = 0;
        while i < self.bytes.len()
            invariant
                i <= self.bytes.len(),
                out@.len() == i,
                forall|k: int| 0 <= k < i ==> #[trigger] out@[k] == self.bytes@[k],
            decreases self.bytes.len() - i,
        {
            out.push(self.bytes[i]);
            i += 1;
        }
        proof {
            assert(out@ =~= self.bytes@);
        }
        IdentityRef { bytes: out }
    }
}

/// The bytes under an optional identity reference.
pub open spec fn opt_identity_view(o: Option<IdentityRef>) -> Option<Seq<u8>> {
    match o {
        Some(i) => Some(i@),
        None => None,
    }
}

/// An owned copy of an optional identity reference.
pub fn dup_opt_identity(o: &Option<IdentityRef>) -> (r: Option<IdentityRef>)
    ensures
        opt_identity_view(r) == opt_identity_view(*o),
{
    match o {
        Some(i) => Some(i.dup()),
        None => None,
    }
}

} // verus!
