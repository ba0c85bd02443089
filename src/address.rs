use vstd::prelude::*;

verus! {

/// Who holds or moves tokens: a user account or a contract, each named by a
/// 32-byte hash.
#[derive(Clone, Copy, Debug)]
pub enum Address {
    Account([u8; 32]),
    Contract([u8; 32]),
}

impl Address {
    pub open spec fn hash_of(self) -> [u8; 32] {
        match self {
            Address::Account(h) => h,
            Address::Contract(h) => h,
        }
    }

    /// The sentinel "no owner" address: the contract hash made of zero bytes.
    pub open spec fn spec_is_zero(self) -> bool {
        &&& self is Contract
        &&& forall|i: int| 0 <= i < 32 ==> #[trigger] self.hash_of()[i] == 0
    }

    /// The zero address.
    pub closed spec fn spec_zero() -> Address {
        Address::Contract(vstd::array::spec_array_fill_for_copy_type::<u8, 32>(0u8))
    }

    pub proof fn lemma_zero_is_zero()
        ensures
            Address::spec_zero().spec_is_zero(),
            forall|a: Address| a.spec_is_zero() ==> a == Address::spec_zero(),
    {
        let z = Address::spec_zero();
        assert(z.hash_of()@ == Seq::new(32, |i: int| 0u8));
        assert forall|i: int| 0 <= i < 32 implies #[trigger] z.hash_of()[i] == 0 by {}
        assert forall|a: Address| a.spec_is_zero() implies a == Address::spec_zero() by {
            assert(a.hash_of() =~= z.hash_of());
        }
    }

    pub fn zero() -> (r: Address)
        ensures
            r == Address::spec_zero(),
            r.spec_is_zero(),
    {
        proof {
            Address::lemma_zero_is_zero();
        }
        Address::Contract([0u8; 32])
    }

    pub fn is_zero(&self) -> (r: bool)
        ensures
            r == self.spec_is_zero(),
    {
        match self {
            Address::Account(_) => false,
            Address::Contract(h) => {
                let mut i: usize = 0;
                while i < 32
                    invariant
                        0 <= i <= 32,
                        *self == Address::Contract(*h),
                        forall|j: int| 0 <= j < i ==> h[j] == 0,
                    decreases 32 - i,
                {
                    if h[i] != 0 {
                        assert(self.hash_of()[i as int] != 0);
                        return false;
                    }
                    i = i + 1;
                }
                true
            },
        }
    }

    /// Whether the address names a contract, which is asked to accept what it
    /// receives.
    pub fn is_contract(&self) -> (r: bool)
        ensures
            r == (*self is Contract),
    {
        match self {
            Address::Account(_) => false,
            Address::Contract(_) => true,
        }
    }
}

fn same_hash(a: &[u8; 32], b: &[u8; 32]) -> (r: bool)
    ensures
        r == (*a == *b),
{
    let mut i: usize = 0;
    while i < 32
        invariant
            0 <= i <= 32,
            forall|j: int| 0 <= j < i ==> a[j] == b[j],
        decreases 32 - i,
    {
        if a[i] != b[i] {
            return false;
        }
        i = i + 1;
    }
    assert(*a =~= *b);
    true
}

impl PartialEq for Address {
    fn eq(&self, other: &Address) -> (r: bool)
        ensures
            r == (*self == *other),
    {
        match (self, other) {
            (Address::Account(a), Address::Account(b)) => same_hash(a, b),
            (Address::Contract(a), Address::Contract(b)) => same_hash(a, b),
            _ => false,
        }
    }
}

impl vstd::std_specs::cmp::PartialEqSpecImpl for Address {
    open spec fn obeys_eq_spec() -> bool {
        true
    }

    open spec fn eq_spec(&self, other: &Address) -> bool {
        *self == *other
    }
}

impl Eq for Address {

}

} // verus!
