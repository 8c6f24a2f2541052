//! Fixed-width account identifiers.

use vstd::prelude::*;

verus! {

broadcast use vstd::array::group_array_axioms;

/// A 20-byte identifier naming one key pair held by the secret store.
#[derive(Clone, Copy, Debug)]
pub struct Address(pub [u8; 20]);

impl PartialEq for Address {
    fn eq(&self, other: &Address) -> (r: bool) {
        proof {
            lemma_address_view_determines(*self, *other);
        }
        let mut i: usize = 0;
        while i < 20
            invariant
                i <= 20,
                forall|j: int| 0 <= j < i ==> self.0@[j] == other.0@[j],
            decreases 20 - i,
        {
            if self.0[i] != other.0[i] {
                return false;
            }
            i += 1;
        }
        proof {
            assert(self.0@ =~= other.0@);
        }
        true
    }
}

impl vstd::std_specs::cmp::PartialEqSpecImpl for Address {
    open spec fn obeys_eq_spec() -> bool {
        true
    }

    open spec fn eq_spec(&self, other: &Address) -> bool {
        *self == *other
    }
}

/// Two addresses whose byte sequences agree are the same address.
pub proof fn lemma_address_view_determines(x: Address, y: Address)
    ensures
        (x.0@ == y.0@) == (x == y),
{
    if x.0@ == y.0@ {
        assert(x.0 =~= y.0);
    }
}

} // verus!
