//! Thirty-two byte identities of accounts, players and operators.

use vstd::prelude::*;
use vstd::std_specs::cmp::PartialEqSpecImpl;

use crate::math::bytes::slices_equal;

verus! {

/// The identity of an account: thirty-two bytes, compared byte by byte.
#[derive(Clone, Copy, Debug)]
pub struct Pubkey {
    bytes: [u8; 32],
}

impl View for Pubkey {
    type V = Seq<u8>;

    closed spec fn view(&self) -> Seq<u8> {
        self.bytes@
    }
}

impl Pubkey {
    /// The key made of the given bytes.
    pub fn new_from_array(bytes: [u8; 32]) -> (key: Pubkey)
        ensures
            key@ == bytes@,
    {
        Pubkey { bytes }
    }

    /// The bytes of the key.
    pub fn to_bytes(&self) -> (bytes: [u8; 32])
        ensures
            bytes@ == self@,
    {
        self.bytes
    }

    /// Two keys with the same bytes are the same key.
    pub proof fn lemma_view_injective(self, other: Pubkey)
        requires
            self@ == other@,
        ensures
            self == other,
    {
        assert(self.bytes =~= other.bytes);
    }

    /// Whether the key consists of exactly the bytes of `slice`.
    pub fn matches_slice(&self, slice: &[u8]) -> (same: bool)
        ensures
            same == (self@ == slice@),
    {
        slices_equal(self.bytes.as_slice(), slice)
    }

    /// The key made of the thirty-two bytes of `slice` that start at `at`.
    pub fn read(slice: &[u8], at: usize) -> (key: Pubkey)
        requires
            at + 32 <= slice.len(),
        ensures
            key@ == slice@.subrange(at as int, at + 32),
    {
        let mut bytes: [u8; 32] = [0u8; 32];
        let mut i: usize = 0;
        while i < 32
            invariant
                i <= 32,
                at + 32 <= slice.len(),
                forall|j: int| 0 <= j < i ==> bytes@[j] == slice@[at + j],
            decreases 32 - i,
        {
            bytes[i] = slice[at + i];
            i += 1;
        }
        assert(bytes@ =~= slice@.subrange(at as int, at + 32));
        Pubkey { bytes }
    }
}

impl PartialEq for Pubkey {
    fn eq(&self, other: &Self) -> (same: bool) {
        self.matches_slice(other.bytes.as_slice())
    }
}

impl PartialEqSpecImpl for Pubkey {
    open spec fn obeys_eq_spec() -> bool {
        true
    }

    open spec fn eq_spec(&self, other: &Self) -> bool {
        self@ == other@
    }
}

impl Eq for Pubkey {}

} // verus!
