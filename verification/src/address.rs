//! Account addresses: 32 bytes that name an account, a participant, a token
//! type or a program.

use vstd::prelude::*;

verus! {

/// The address of an account. Two addresses are the same address exactly when
/// their bytes agree.
#[derive(Clone, Copy, Debug)]
pub struct Address {
    pub bytes: [u8; 32],
}

impl View for Address {
    type V = Seq<u8>;

    open spec fn view(&self) -> Seq<u8> {
        self.bytes@
    }
}

/// The bytes of an address that may be missing.
pub open spec fn address_bytes(address: Option<Address>) -> Option<Seq<u8>> {
    match address {
        Some(found) => Some(found@),
        None => None,
    }
}

/// `==` on addresses compares the bytes: see `eq_spec` below.
impl PartialEq for Address {
    fn eq(&self, other: &Address) -> (same: bool) {
        let mut i: usize = 0;
        while i < 32
            invariant
                i <= 32,
                forall|k: int| 0 <= k < i ==> self.bytes[k] == other.bytes[k],
            decreases 32 - i,
        {
            if self.bytes[i] != other.bytes[i] {
                return false;
            }
            i += 1;
        }
        proof {
            assert(self.bytes@ =~= other.bytes@);
        }
        true
    }
}

impl Eq for Address {

}

impl vstd::std_specs::cmp::PartialEqSpecImpl for Address {
    open spec fn obeys_eq_spec() -> bool {
        true
    }

    open spec fn eq_spec(&self, other: &Address) -> bool {
        self@ == other@
    }
}

impl Address {
    /// The address with the given bytes.
    pub fn new(bytes: [u8; 32]) -> (address: Address)
        ensures
            address.bytes == bytes,
    {
        Address { bytes }
    }

    /// The bytes of the address as a seed for deriving other addresses.
    pub fn to_seed(&self) -> (seed: Vec<u8>)
        ensures
            seed@ == self@,
    {
        let mut seed: Vec<u8> = Vec::new();
        let mut i: usize = 0;
        while i < 32
            invariant
                i <= 32,
                seed@ == self@.subrange(0, i as int),
            decreases 32 - i,
        {
            seed.push(self.bytes[i]);
            i += 1;
        }
        seed
    }

    /// Addresses with the same bytes are equal, and only those.
    pub proof fn lemma_same_bytes(self, other: Address)
        ensures
            self@ == other@ <==> self == other,
    {
        if self@ == other@ {
            assert(self.bytes =~= other.bytes);
        }
    }
}

} // verus!
