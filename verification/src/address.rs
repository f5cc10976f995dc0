//! Ledger account addresses: opaque 32-byte identities.

use vstd::prelude::*;

verus! {

/// Number of bytes in a ledger address.
pub const ADDRESS_LEN: usize = 32;

/// An account address on the ledger. Collections, assets, payers, owners and
/// the oracle validator are all identified by a value of this type.
#[derive(Clone, Copy, Debug)]
pub struct Address {
    pub bytes: [u8; 32],
}

impl View for Address {
    type V = Seq<u8>;

    open spec fn view(&self) -> Seq<u8> {
        self.bytes@
    }
}

impl Address {
    /// Builds an address from its 32 raw bytes.
    pub fn new(bytes: [u8; 32]) -> (a: Address)
        ensures
            a@ == bytes@,
    {
        Address { bytes }
    }
}

/// Byte-for-byte address equality.
pub fn addr_eq(a: &Address, b: &Address) -> (r: bool)
    ensures
        r <==> a@ == b@,
{
    let mut i: usize = 0;
    while i < 32
        invariant
            0 <= i <= 32,
            forall|j: int| 0 <= j < i ==> a.bytes@[j] == b.bytes@[j],
        decreases 32 - i,
    {
        if a.bytes[i] != b.bytes[i] {
            proof {
                assert(a@[i as int] != b@[i as int]);
            }
            return false;
        }
        i = i + 1;
    }
    proof {
        assert(a@ =~= b@);
    }
    true
}

/// The fixed, pre-deployed oracle validator address that every collection
/// binds its transfer check to.
pub fn oracle_address() -> (a: Address)
    ensures
        a@ == oracle_address_spec(),
{
    let bytes: [u8; 32] = [
        147u8, 167, 232, 113, 113, 41, 118, 30, 93, 131, 215, 128, 28, 61, 109, 56, 156, 179, 113,
        98, 64, 6, 21, 91, 114, 207, 12, 205, 213, 222, 14, 51,
    ];
    let a = Address { bytes };
    proof {
        assert(a@ =~= oracle_address_spec());
    }
    a
}

/// The oracle validator's address as a byte sequence.
pub open spec fn oracle_address_spec() -> Seq<u8> {
    seq![
        147u8, 167, 232, 113, 113, 41, 118, 30, 93, 131, 215, 128, 28, 61, 109, 56, 156, 179, 113,
        98, 64, 6, 21, 91, 114, 207, 12, 205, 213, 222, 14, 51,
    ]
}

} // verus!
