//! Account identities as plain 32-byte values.
use vstd::prelude::*;

verus! {

/// The 32-byte identity of an account, a mint or a program.
#[derive(Clone, Copy, Debug)]
pub struct AccountKey {
    pub bytes: [u8; 32],
}

impl View for AccountKey {
    type V = Seq<u8>;

    open spec fn view(&self) -> Seq<u8> {
        self.bytes@
    }
}

/// The all-zero key, which no real account holds.
pub open spec fn zero_key() -> Seq<u8> {
    Seq::new(32, |i: int| 0u8)
}

impl AccountKey {
    pub fn new(bytes: [u8; 32]) -> (r: AccountKey)
        ensures
            r@ == bytes@,
    {
        AccountKey { bytes }
    }

    /// The all-zero key.
    pub fn zero() -> (r: AccountKey)
        ensures
            r@ == zero_key(),
    {
        let r = AccountKey { bytes: [0u8; 32] };
        proof {
            assert(r@ =~= zero_key());
        }
        r
    }

    /// Byte-wise equality of two keys.
    pub fn same_as(&self, other: &AccountKey) -> (r: bool)
        ensures
            r == (self@ == other@),
    {
        let mut i: usize = 0;
        while i < 32
            invariant
                0 <= i <= 32,
                self@.len() == 32,
                other@.len() == 32,
                forall|j: int| 0 <= j < i ==> self@[j] == other@[j],
            decreases 32 - i,
        {
            if self.bytes[i] != other.bytes[i] {
                return false;
            }
            i = i + 1;
        }
        proof {
            assert(self@ =~= other@);
        }
        true
    }

    /// Whether this is the all-zero key.
    pub fn is_zero(&self) -> (r: bool)
        ensures
            r == (self@ == zero_key()),
    {
        let z = AccountKey::zero();
        self.same_as(&z)
    }
}

impl PartialEq for AccountKey {
    fn eq(&self, o: &AccountKey) -> (r: bool) {
        self.same_as(o)
    }
}

impl vstd::std_specs::cmp::PartialEqSpecImpl for AccountKey {
    open spec fn obeys_eq_spec() -> bool {
        true
    }

    open spec fn eq_spec(&self, o: &AccountKey) -> bool {
        self@ == o@
    }
}

impl Eq for AccountKey {

}

} // verus!
