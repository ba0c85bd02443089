use vstd::prelude::*;

use crate::address::Address;
use crate::table::Table;
use crate::uint::{lemma_value_in_range, u256_bound, U256};

verus! {

/// The balance that a ledger model records for `(id, owner)`; zero where
/// nothing was ever written.
pub open spec fn balance_in(m: Map<(U256, Address), nat>, id: U256, owner: Address) -> nat {
    if m.contains_key((id, owner)) {
        m[(id, owner)]
    } else {
        0
    }
}

/// Whether every balance a ledger model records fits in 256 bits.
pub open spec fn ledger_bounded(m: Map<(U256, Address), nat>) -> bool {
    forall|k: (U256, Address)| #[trigger] m.contains_key(k) ==> m[k] < u256_bound()
}

/// The balance ledger: (token id, owner) to quantity.
pub struct Balances {
    table: Table<(U256, Address), U256>,
}

impl Balances {
    pub closed spec fn view(&self) -> Map<(U256, Address), nat> {
        Map::new(|k: (U256, Address)| self.table.view().contains_key(k), |k: (U256, Address)| self.table.view()[k]@)
    }

    pub closed spec fn wf(&self) -> bool {
        self.table.wf()
    }

    /// Every balance held is below 2^256.
    pub proof fn lemma_bounded(&self)
        ensures
            ledger_bounded(self.view()),
    {
        assert forall|k: (U256, Address)| #[trigger] self.view().contains_key(k) implies self.view()[k]
            < u256_bound() by {
            lemma_value_in_range(self.table.view()[k]);
        }
    }

    /// An empty ledger.
    pub fn init() -> (r: Balances)
        ensures
            r.wf(),
            r.view() == Map::<(U256, Address), nat>::empty(),
    {
        let r = Balances { table: Table::new() };
        assert(r.view() =~= Map::<(U256, Address), nat>::empty());
        r
    }

    /// The balance of `owner` in token `id`; zero for a pair never written.
    pub fn get(&self, id: &U256, owner: &Address) -> (r: U256)
        requires
            self.wf(),
        ensures
            r@ == balance_in(self.view(), *id, *owner),
    {
        match self.table.get(&(*id, *owner)) {
            Some(v) => v,
            None => U256::zero(),
        }
    }

    /// Overwrites the balance of `owner` in token `id`.
    pub fn set(&mut self, id: &U256, owner: &Address, value: U256)
        requires
            old(self).wf(),
        ensures
            final(self).wf(),
            final(self).view() == old(self).view().insert((*id, *owner), value@),
    {
        self.table.set((*id, *owner), value);
        assert(self.view() =~= old(self).view().insert((*id, *owner), value@));
    }

    /// A second ledger with the same balances.
    pub fn duplicate(&self) -> (r: Balances)
        requires
            self.wf(),
        ensures
            r.wf(),
            r.view() == self.view(),
    {
        let r = Balances { table: self.table.duplicate() };
        assert(r.view() =~= self.view());
        r
    }
}

/// Whether an approval model lets `operator` act for `owner`; false where
/// nothing was ever written.
pub open spec fn approved_in(m: Map<(Address, Address), bool>, owner: Address, operator: Address) -> bool {
    m.contains_key((owner, operator)) && m[(owner, operator)]
}

/// The operator registry: (owner, operator) to a delegation flag.
pub struct OperatorApprovals {
    table: Table<(Address, Address), bool>,
}

impl OperatorApprovals {
    pub closed spec fn view(&self) -> Map<(Address, Address), bool> {
        self.table.view()
    }

    pub closed spec fn wf(&self) -> bool {
        self.table.wf()
    }

    /// An empty registry.
    pub fn init() -> (r: OperatorApprovals)
        ensures
            r.wf(),
            r.view() == Map::<(Address, Address), bool>::empty(),
    {
        OperatorApprovals { table: Table::new() }
    }

    /// Whether `operator` may act for `account`.
    pub fn get(&self, account: &Address, operator: &Address) -> (r: bool)
        requires
            self.wf(),
        ensures
            r == approved_in(self.view(), *account, *operator),
    {
        match self.table.get(&(*account, *operator)) {
            Some(v) => v,
            None => false,
        }
    }

    /// Overwrites the flag for `(account, operator)`.
    pub fn set(&mut self, account: &Address, operator: &Address, value: bool)
        requires
            old(self).wf(),
        ensures
            final(self).wf(),
            final(self).view() == old(self).view().insert((*account, *operator), value),
    {
        self.table.set((*account, *operator), value);
    }
}

/// Whether a minter model grants `who` the right to mint.
pub open spec fn minter_in(m: Map<Address, bool>, who: Address) -> bool {
    m.contains_key(who) && m[who]
}

/// The addresses allowed to create new supply.
pub struct Minters {
    table: Table<Address, bool>,
}

impl Minters {
    pub closed spec fn view(&self) -> Map<Address, bool> {
        self.table.view()
    }

    pub closed spec fn wf(&self) -> bool {
        self.table.wf()
    }

    pub fn init() -> (r: Minters)
        ensures
            r.wf(),
            r.view() == Map::<Address, bool>::empty(),
    {
        Minters { table: Table::new() }
    }

    pub fn get(&self, who: &Address) -> (r: bool)
        requires
            self.wf(),
        ensures
            r == minter_in(self.view(), *who),
    {
        match self.table.get(who) {
            Some(v) => v,
            None => false,
        }
    }

    pub fn set(&mut self, who: &Address, value: bool)
        requires
            old(self).wf(),
        ensures
            final(self).wf(),
            final(self).view() == old(self).view().insert(*who, value),
    {
        self.table.set(*who, value);
    }
}

} // verus!
