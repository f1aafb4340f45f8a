use vstd::prelude::*;

verus! {

/// Number of bytes in a storage address (and in an identity).
pub const ADDRESS_BYTES: usize = 32;

/// A durable storage address: 32 bytes naming a record or an identity.
/// The runtime's public-key type is carried through the library as these
/// plain bytes, which is all the core logic ever reads of it.
#[derive(Debug)]
pub struct Address {
    pub bytes: Vec<u8>,
}

impl View for Address {
    type V = Seq<u8>;

    open spec fn view(&self) -> Seq<u8> {
        self.bytes@
    }
}

impl Address {
    /// A well-formed address holds exactly 32 bytes.
    pub open spec fn wf(self) -> bool {
        self@.len() == ADDRESS_BYTES
    }

    /// Wraps raw bytes as an address.
    pub fn new(bytes: Vec<u8>) -> (r: Address)
        requires
            bytes@.len() == ADDRESS_BYTES,
        ensures
            r.wf(),
            r@ == bytes@,
    {
        Address { bytes }
    }

    /// Byte-for-byte equality of two addresses.
    pub fn eq_addr(&self, other: &Address) -> (r: bool)
        ensures
            r <==> self@ == other@,
    {
        if self.bytes.len() != other.bytes.len() {
            return false;
        }
        let mut i: usize = 0;
        while i < self.bytes.len()
            invariant
                0 <= i <= self.bytes@.len(),
                self.bytes@.len() == other.bytes@.len(),
                forall|j: int| 0 <= j < i ==> self.bytes@[j] == other.bytes@[j],
            decreases self.bytes@.len() - i,
        {
            if self.bytes[i] != other.bytes[i] {
                return false;
            }
            i += 1;
        }
        proof {
            assert(self.bytes@ =~= other.bytes@);
        }
        true
    }

    /// An owned copy of this address.
    pub fn dup(&self) -> (r: Address)
        ensures
            r@ == self@,
    {
        Address { bytes: vstd::slice::slice_to_vec(self.bytes.as_slice()) }
    }
}

} // verus!
