use vstd::prelude::*;

use crate::address::Address;
use crate::balances::{
    approved_in, balance_in, ledger_bounded, minter_in, Balances, Minters, OperatorApprovals,
};
use crate::error::Error;
use crate::events::ERC1155Event;
use crate::moves::{move_all, move_all_exec, move_one, move_one_exec, Ledger};
use crate::text::{decimal, u256_to_string};
use crate::uint::U256;

verus! {

/// What a receiving contract answered when asked to accept tokens.
#[derive(Clone, Copy, Debug, PartialEq, Eq, Structural)]
pub enum ReceiverReply {
    Accepted,
    Rejected,
    /// The call itself failed.
    Failed,
}

/// The acceptance call that a transfer or mint into a contract owes: the
/// receiver's entry point is called with these arguments after the ledger has
/// been updated, and may still veto the whole operation.
#[derive(Debug)]
pub struct ReceiverCall {
    pub operator: Address,
    pub from: Address,
    pub to: Address,
    pub ids: Vec<U256>,
    pub amounts: Vec<U256>,
    pub data: Vec<u8>,
    /// Whether the batch entry point is the one to call.
    pub batch: bool,
}

impl ReceiverCall {
    /// Whether this is the call with these arguments.
    pub open spec fn describes(
        self,
        operator: Address,
        from: Address,
        to: Address,
        ids: Seq<U256>,
        amounts: Seq<U256>,
        data: Seq<u8>,
        batch: bool,
    ) -> bool {
        &&& self.operator == operator
        &&& self.from == from
        &&& self.to == to
        &&& self.ids@ == ids
        &&& self.amounts@ == amounts
        &&& self.data@ == data
        &&& self.batch == batch
    }

    /// The receiver's entry point that this call goes to.
    pub fn entry_point(&self) -> (r: &'static str)
        ensures
            r@ == (if self.batch {
                "on_erc1155_batch_received"@
            } else {
                "on_erc1155_received"@
            }),
    {
        if self.batch {
            "on_erc1155_batch_received"
        } else {
            "on_erc1155_received"
        }
    }

    /// The outcome of the operation once the receiver has answered: only an
    /// acceptance lets it stand.
    pub fn settle(&self, reply: ReceiverReply) -> (r: Result<(), Error>)
        ensures
            reply == ReceiverReply::Accepted ==> r is Ok,
            reply != ReceiverReply::Accepted ==> r == Err::<(), Error>(
                Error::TransferRejectedByReceiver,
            ),
    {
        match reply {
            ReceiverReply::Accepted => Ok(()),
            _ => Err(Error::TransferRejectedByReceiver),
        }
    }
}

fn copy_words(v: &Vec<U256>) -> (r: Vec<U256>)
    ensures
        r@ == v@,
{
    let mut r: Vec<U256> = Vec::new();
    let mut i: usize = 0;
    while i < v.len()
        invariant
            0 <= i <= v@.len(),
            r@ == v@.subrange(0, i as int),
        decreases v@.len() - i,
    {
        r.push(v[i]);
        i = i + 1;
    }
    assert(r@ =~= v@);
    r
}

/// The token contract's state: the ledger, the operator registry, the
/// minters, the event log and the contract's identity.
pub struct ERC1155 {
    balances: Balances,
    approvals: OperatorApprovals,
    minters: Minters,
    events: Vec<ERC1155Event>,
    owner: Address,
    name: String,
    symbol: String,
    uri: String,
    contract_hash: Address,
    package_hash: [u8; 32],
}

impl ERC1155 {
    pub closed spec fn wf(&self) -> bool {
        &&& self.balances.wf()
        &&& self.approvals.wf()
        &&& self.minters.wf()
    }

    pub closed spec fn ledger(&self) -> Ledger {
        self.balances.view()
    }

    pub closed spec fn approvals(&self) -> Map<(Address, Address), bool> {
        self.approvals.view()
    }

    pub closed spec fn minters(&self) -> Map<Address, bool> {
        self.minters.view()
    }

    pub closed spec fn log(&self) -> Seq<ERC1155Event> {
        self.events@
    }

    pub closed spec fn spec_owner(&self) -> Address {
        self.owner
    }

    pub closed spec fn spec_uri(&self) -> Seq<char> {
        self.uri@
    }

    pub closed spec fn spec_name(&self) -> Seq<char> {
        self.name@
    }

    pub closed spec fn spec_symbol(&self) -> Seq<char> {
        self.symbol@
    }

    pub closed spec fn spec_contract_hash(&self) -> Address {
        self.contract_hash
    }

    pub closed spec fn spec_package_hash(&self) -> [u8; 32] {
        self.package_hash
    }

    /// Every balance of a well-formed token fits in 256 bits.
    pub proof fn lemma_ledger_bounded(&self)
        requires
            self.wf(),
        ensures
            ledger_bounded(self.ledger()),
            forall|id: U256, owner: Address| #[trigger] self.balance(id, owner) < crate::uint::u256_bound(),
    {
        self.balances.lemma_bounded();
    }

    /// The balance of `owner` in token `id`.
    pub open spec fn balance(self, id: U256, owner: Address) -> nat {
        balance_in(self.ledger(), id, owner)
    }

    /// Whether `caller` may move the tokens of `owner`: it is the owner, or an
    /// operator the owner approved.
    pub open spec fn may_act_for(self, caller: Address, owner: Address) -> bool {
        caller == owner || approved_in(self.approvals(), owner, caller)
    }

    /// The contract's identity (owner, name, symbol, uri, hashes) is as in
    /// `self`.
    pub open spec fn same_identity(self, next: Self) -> bool {
        &&& next.spec_owner() == self.spec_owner()
        &&& next.spec_name() == self.spec_name()
        &&& next.spec_symbol() == self.spec_symbol()
        &&& next.spec_uri() == self.spec_uri()
        &&& next.spec_contract_hash() == self.spec_contract_hash()
        &&& next.spec_package_hash() == self.spec_package_hash()
    }

    /// All but the ledger and the log are as in `self`.
    pub open spec fn same_settings(self, next: Self) -> bool {
        &&& next.approvals() == self.approvals()
        &&& next.minters() == self.minters()
        &&& self.same_identity(next)
    }

    /// `next` holds the log of `self` and one record more.
    pub open spec fn one_more_record(self, next: Self) -> bool {
        &&& next.log().len() == self.log().len() + 1
        &&& next.log().take(self.log().len() as int) == self.log()
    }

    /// The ledger after `safe_transfer_from`, or the error it fails with.
    pub open spec fn transfer_outcome(
        self,
        caller: Address,
        from: Address,
        to: Address,
        id: U256,
        amount: U256,
    ) -> Result<Ledger, Error> {
        if !self.may_act_for(caller, from) {
            Err(Error::NotOwnerNorApproved)
        } else if to.spec_is_zero() {
            Err(Error::TransferToZeroAddress)
        } else {
            move_one(self.ledger(), Some(from), Some(to), id, amount@)
        }
    }

    /// The ledger after `safe_batch_transfer_from`, or the error it fails with.
    pub open spec fn batch_transfer_outcome(
        self,
        caller: Address,
        from: Address,
        to: Address,
        ids: Seq<U256>,
        amounts: Seq<U256>,
    ) -> Result<Ledger, Error> {
        if !self.may_act_for(caller, from) {
            Err(Error::NotOwnerNorApproved)
        } else if ids.len() != amounts.len() {
            Err(Error::MismatchedLengths)
        } else if to.spec_is_zero() {
            Err(Error::TransferToZeroAddress)
        } else {
            move_all(self.ledger(), Some(from), Some(to), ids, amounts)
        }
    }

    /// The ledger after `mint`, or the error it fails with.
    pub open spec fn mint_outcome(self, caller: Address, to: Address, id: U256, amount: U256) -> Result<
        Ledger,
        Error,
    > {
        if !minter_in(self.minters(), caller) {
            Err(Error::Unauthorized)
        } else if to.spec_is_zero() {
            Err(Error::MintToZeroAddress)
        } else {
            move_one(self.ledger(), None, Some(to), id, amount@)
        }
    }

    /// The ledger after `batch_mint`, or the error it fails with.
    pub open spec fn batch_mint_outcome(
        self,
        caller: Address,
        to: Address,
        ids: Seq<U256>,
        amounts: Seq<U256>,
    ) -> Result<Ledger, Error> {
        if !minter_in(self.minters(), caller) {
            Err(Error::Unauthorized)
        } else if to.spec_is_zero() {
            Err(Error::MintToZeroAddress)
        } else if ids.len() != amounts.len() {
            Err(Error::MismatchedLengths)
        } else {
            move_all(self.ledger(), None, Some(to), ids, amounts)
        }
    }

    /// The ledger after `burn`, or the error it fails with.
    pub open spec fn burn_outcome(self, caller: Address, from: Address, id: U256, amount: U256) -> Result<
        Ledger,
        Error,
    > {
        if from.spec_is_zero() {
            Err(Error::BurnFromZeroAddress)
        } else if !self.may_act_for(caller, from) {
            Err(Error::NotOwnerNorApproved)
        } else {
            move_one(self.ledger(), Some(from), None, id, amount@)
        }
    }

    /// The ledger after `burn_batch`, or the error it fails with.
    pub open spec fn burn_batch_outcome(
        self,
        caller: Address,
        from: Address,
        ids: Seq<U256>,
        amounts: Seq<U256>,
    ) -> Result<Ledger, Error> {
        if from.spec_is_zero() {
            Err(Error::BurnFromZeroAddress)
        } else if ids.len() != amounts.len() {
            Err(Error::MismatchedLengths)
        } else if !self.may_act_for(caller, from) {
            Err(Error::NotOwnerNorApproved)
        } else {
            move_all(self.ledger(), Some(from), None, ids, amounts)
        }
    }

    /// A new token contract deployed by `deployer`: empty ledger and registry,
    /// `deployer` its owner and first minter.
    pub fn init(
        deployer: Address,
        name: String,
        symbol: String,
        uri: String,
        contract_hash: Address,
        package_hash: [u8; 32],
    ) -> (r: ERC1155)
        ensures
            r.wf(),
            r.ledger() == Map::<(U256, Address), nat>::empty(),
            r.approvals() == Map::<(Address, Address), bool>::empty(),
            r.minters() == Map::<Address, bool>::empty().insert(deployer, true),
            r.log() == Seq::<ERC1155Event>::empty(),
            r.spec_owner() == deployer,
            r.spec_name() == name@,
            r.spec_symbol() == symbol@,
            r.spec_uri() == uri@,
            r.spec_contract_hash() == contract_hash,
            r.spec_package_hash() == package_hash,
    {
        let mut minters = Minters::init();
        minters.set(&deployer, true);
        ERC1155 {
            balances: Balances::init(),
            approvals: OperatorApprovals::init(),
            minters,
            events: Vec::new(),
            owner: deployer,
            name,
            symbol,
            uri,
            contract_hash,
            package_hash,
        }
    }

    /// A token contract over state held elsewhere (the host's storage): the
    /// given ledger, registry and minters, and an empty log.
    pub fn from_parts(
        balances: Balances,
        approvals: OperatorApprovals,
        minters: Minters,
        owner: Address,
        name: String,
        symbol: String,
        uri: String,
        contract_hash: Address,
        package_hash: [u8; 32],
    ) -> (r: ERC1155)
        requires
            balances.wf(),
            approvals.wf(),
            minters.wf(),
        ensures
            r.wf(),
            r.ledger() == balances.view(),
            r.approvals() == approvals.view(),
            r.minters() == minters.view(),
            r.log() == Seq::<ERC1155Event>::empty(),
            r.spec_owner() == owner,
            r.spec_name() == name@,
            r.spec_symbol() == symbol@,
            r.spec_uri() == uri@,
            r.spec_contract_hash() == contract_hash,
            r.spec_package_hash() == package_hash,
    {
        ERC1155 {
            balances,
            approvals,
            minters,
            events: Vec::new(),
            owner,
            name,
            symbol,
            uri,
            contract_hash,
            package_hash,
        }
    }

    pub fn uri(&self) -> (r: String)
        ensures
            r@ == self.spec_uri(),
    {
        self.uri.clone()
    }

    pub fn name(&self) -> (r: String)
        ensures
            r@ == self.spec_name(),
    {
        self.name.clone()
    }

    pub fn symbol(&self) -> (r: String)
        ensures
            r@ == self.spec_symbol(),
    {
        self.symbol.clone()
    }

    /// The uri of token `id`: the contract's uri followed by `id` in decimal.
    pub fn token_uri(&self, id: U256) -> (r: String)
        ensures
            r@ == self.spec_uri() + decimal(id@),
    {
        let mut r = self.uri.clone();
        let digits = u256_to_string(&id);
        r.append(digits.as_str());
        r
    }

    pub fn contract_owner(&self) -> (r: Address)
        ensures
            r == self.spec_owner(),
    {
        self.owner
    }

    pub fn is_owner(&self, who: Address) -> (r: bool)
        ensures
            r == (who == self.spec_owner()),
    {
        who == self.owner
    }

    pub fn contract_hash(&self) -> (r: Address)
        ensures
            r == self.spec_contract_hash(),
    {
        self.contract_hash
    }

    pub fn package_hash(&self) -> (r: [u8; 32])
        ensures
            r == self.spec_package_hash(),
    {
        self.package_hash
    }

    /// The records appended so far, oldest first.
    pub fn event_log(&self) -> (r: &Vec<ERC1155Event>)
        ensures
            r@ == self.log(),
    {
        &self.events
    }

    /// The balance of `account` in token `id`; the zero address has none to
    /// ask for.
    pub fn balance_of(&self, account: Address, id: U256) -> (r: Result<U256, Error>)
        requires
            self.wf(),
        ensures
            account.spec_is_zero() ==> r == Err::<U256, Error>(Error::InvalidOwner),
            !account.spec_is_zero() ==> (r matches Ok(b) && b@ == self.balance(id, account)),
    {
        if account.is_zero() {
            return Err(Error::InvalidOwner);
        }
        Ok(self.balances.get(&id, &account))
    }

    /// The balances of `accounts[i]` in `ids[i]`, pair by pair.
    pub fn balance_of_batch(&self, accounts: &Vec<Address>, ids: &Vec<U256>) -> (r: Result<
        Vec<U256>,
        Error,
    >)
        requires
            self.wf(),
        ensures
            accounts@.len() != ids@.len() ==> r == Err::<Vec<U256>, Error>(Error::MismatchedLengths),
            accounts@.len() == ids@.len() && (exists|i: int|
                0 <= i < accounts@.len() && #[trigger] accounts@[i].spec_is_zero()) ==> r == Err::<
                Vec<U256>,
                Error,
            >(Error::InvalidOwner),
            accounts@.len() == ids@.len() && (forall|i: int|
                0 <= i < accounts@.len() ==> !#[trigger] accounts@[i].spec_is_zero()) ==> (
            r matches Ok(v) && v@.len() == ids@.len() && forall|i: int|
                0 <= i < ids@.len() ==> #[trigger] v@[i]@ == self.balance(ids@[i], accounts@[i])),
    {
        if accounts.len() != ids.len() {
            return Err(Error::MismatchedLengths);
        }
        let mut out: Vec<U256> = Vec::new();
        let mut i: usize = 0;
        while i < ids.len()
            invariant
                0 <= i <= ids@.len(),
                accounts@.len() == ids@.len(),
                self.wf(),
                out@.len() == i,
                forall|j: int| 0 <= j < i ==> !#[trigger] accounts@[j].spec_is_zero(),
                forall|j: int|
                    0 <= j < i ==> #[trigger] out@[j]@ == self.balance(ids@[j], accounts@[j]),
            decreases ids@.len() - i,
        {
            match self.balance_of(accounts[i], ids[i]) {
                Ok(b) => out.push(b),
                Err(e) => {
                    return Err(e);
                },
            }
            i = i + 1;
        }
        Ok(out)
    }

    /// Whether `operator` may act for `account`.
    pub fn is_approved_for_all(&self, account: Address, operator: Address) -> (r: bool)
        requires
            self.wf(),
        ensures
            r == approved_in(self.approvals(), account, operator),
    {
        self.approvals.get(&account, &operator)
    }

    /// Lets `operator` act for `caller` on all its tokens, or withdraws that
    /// right; no one is its own operator.
    pub fn set_approval_for_all(&mut self, caller: Address, operator: Address, approved: bool) -> (r:
        Result<(), Error>)
        requires
            old(self).wf(),
        ensures
            final(self).wf(),
            operator == caller ==> r == Err::<(), Error>(Error::SettingApprovalForSelf)
                && *final(self) == *old(self),
            operator != caller ==> {
                &&& r is Ok
                &&& final(self).approvals() == old(self).approvals().insert(
                    (caller, operator),
                    approved,
                )
                &&& final(self).ledger() == old(self).ledger()
                &&& final(self).minters() == old(self).minters()
                &&& old(self).same_identity(*final(self))
                &&& final(self).log() == old(self).log().push(
                    ERC1155Event::ApprovalForAll { owner: caller, operator, approved },
                )
            },
    {
        if operator == caller {
            return Err(Error::SettingApprovalForSelf);
        }
        self.approvals.set(&caller, &operator, approved);
        self.events.push(ERC1155Event::ApprovalForAll { owner: caller, operator, approved });
        Ok(())
    }

    /// Moves `amount` of token `id` from `from` to `to` on behalf of `caller`.
    /// When `to` is a contract, the acceptance call it is owed comes back.
    pub fn safe_transfer_from(
        &mut self,
        caller: Address,
        from: Address,
        to: Address,
        id: U256,
        amount: U256,
        data: Vec<u8>,
    ) -> (r: Result<Option<ReceiverCall>, Error>)
        requires
            old(self).wf(),
        ensures
            final(self).wf(),
            match old(self).transfer_outcome(caller, from, to, id, amount) {
                Ok(m) => {
                    &&& r matches Ok(call)
                    &&& final(self).ledger() == m
                    &&& old(self).same_settings(*final(self))
                    &&& final(self).log() == old(self).log().push(
                        ERC1155Event::TransferSingle { operator: caller, from, to, id, amount },
                    )
                    &&& (call is Some <==> to is Contract)
                    &&& call matches Some(c) ==> c.describes(
                        caller,
                        from,
                        to,
                        seq![id],
                        seq![amount],
                        data@,
                        false,
                    )
                },
                Err(e) => r == Err::<Option<ReceiverCall>, Error>(e) && *final(self) == *old(self),
            },
    {
        if !(caller == from || self.approvals.get(&from, &caller)) {
            return Err(Error::NotOwnerNorApproved);
        }
        if to.is_zero() {
            return Err(Error::TransferToZeroAddress);
        }
        match move_one_exec(&mut self.balances, Some(from), Some(to), id, amount) {
            Ok(()) => {},
            Err(e) => {
                return Err(e);
            },
        }
        self.events.push(ERC1155Event::TransferSingle { operator: caller, from, to, id, amount });
        if to.is_contract() {
            let ids = vec![id];
            let amounts = vec![amount];
            assert(ids@ == seq![id]);
            assert(amounts@ == seq![amount]);
            Ok(Some(ReceiverCall { operator: caller, from, to, ids, amounts, data, batch: false }))
        } else {
            Ok(None)
        }
    }

    /// Moves `amounts[i]` of token `ids[i]` from `from` to `to`, pair by pair
    /// in order, on behalf of `caller`; if any pair fails, nothing moves.
    pub fn safe_batch_transfer_from(
        &mut self,
        caller: Address,
        from: Address,
        to: Address,
        ids: Vec<U256>,
        amounts: Vec<U256>,
        data: Vec<u8>,
    ) -> (r: Result<Option<ReceiverCall>, Error>)
        requires
            old(self).wf(),
        ensures
            final(self).wf(),
            match old(self).batch_transfer_outcome(caller, from, to, ids@, amounts@) {
                Ok(m) => {
                    &&& r matches Ok(call)
                    &&& final(self).ledger() == m
                    &&& old(self).same_settings(*final(self))
                    &&& old(self).one_more_record(*final(self))
                    &&& final(self).log().last().is_batch(caller, from, to, ids@, amounts@)
                    &&& (call is Some <==> to is Contract)
                    &&& call matches Some(c) ==> c.describes(
                        caller,
                        from,
                        to,
                        ids@,
                        amounts@,
                        data@,
                        true,
                    )
                },
                Err(e) => r == Err::<Option<ReceiverCall>, Error>(e) && *final(self) == *old(self),
            },
    {
        if !(caller == from || self.approvals.get(&from, &caller)) {
            return Err(Error::NotOwnerNorApproved);
        }
        if ids.len() != amounts.len() {
            return Err(Error::MismatchedLengths);
        }
        if to.is_zero() {
            return Err(Error::TransferToZeroAddress);
        }
        match move_all_exec(&mut self.balances, Some(from), Some(to), &ids, &amounts) {
            Ok(()) => {},
            Err(e) => {
                return Err(e);
            },
        }
        self.record_batch(caller, from, to, &ids, &amounts);
        if to.is_contract() {
            Ok(Some(ReceiverCall { operator: caller, from, to, ids, amounts, data, batch: true }))
        } else {
            Ok(None)
        }
    }

    fn record_batch(
        &mut self,
        operator: Address,
        from: Address,
        to: Address,
        ids: &Vec<U256>,
        amounts: &Vec<U256>,
    )
        ensures
            *final(self) == (ERC1155 { events: final(self).events, ..*old(self) }),
            old(self).one_more_record(*final(self)),
            final(self).log().last().is_batch(operator, from, to, ids@, amounts@),
    {
        let ghost before = self.events@;
        self.events.push(
            ERC1155Event::TransferBatch {
                operator,
                from,
                to,
                ids: copy_words(ids),
                amounts: copy_words(amounts),
            },
        );
        assert(self.events@.take(before.len() as int) =~= before);
    }

    /// Creates `amount` of token `id` for `to`; only a minter may.
    pub fn mint(&mut self, caller: Address, to: Address, id: U256, amount: U256, data: Vec<u8>) -> (r:
        Result<Option<ReceiverCall>, Error>)
        requires
            old(self).wf(),
        ensures
            final(self).wf(),
            match old(self).mint_outcome(caller, to, id, amount) {
                Ok(m) => {
                    &&& r matches Ok(call)
                    &&& final(self).ledger() == m
                    &&& old(self).same_settings(*final(self))
                    &&& final(self).log() == old(self).log().push(
                        ERC1155Event::TransferSingle {
                            operator: caller,
                            from: Address::spec_zero(),
                            to,
                            id,
                            amount,
                        },
                    )
                    &&& (call is Some <==> to is Contract)
                    &&& call matches Some(c) ==> c.describes(
                        caller,
                        Address::spec_zero(),
                        to,
                        seq![id],
                        seq![amount],
                        data@,
                        false,
                    )
                },
                Err(e) => r == Err::<Option<ReceiverCall>, Error>(e) && *final(self) == *old(self),
            },
    {
        if !self.minters.get(&caller) {
            return Err(Error::Unauthorized);
        }
        if to.is_zero() {
            return Err(Error::MintToZeroAddress);
        }
        match move_one_exec(&mut self.balances, None, Some(to), id, amount) {
            Ok(()) => {},
            Err(e) => {
                return Err(e);
            },
        }
        let zero = Address::zero();
        self.events.push(
            ERC1155Event::TransferSingle { operator: caller, from: zero, to, id, amount },
        );
        if to.is_contract() {
            let ids = vec![id];
            let amounts = vec![amount];
            assert(ids@ == seq![id]);
            assert(amounts@ == seq![amount]);
            Ok(Some(ReceiverCall { operator: caller, from: zero, to, ids, amounts, data, batch: false }))
        } else {
            Ok(None)
        }
    }

    /// Creates `amounts[i]` of token `ids[i]` for `to`, pair by pair in order;
    /// only a minter may, and if any pair fails nothing is created.
    pub fn batch_mint(
        &mut self,
        caller: Address,
        to: Address,
        ids: Vec<U256>,
        amounts: Vec<U256>,
        data: Vec<u8>,
    ) -> (r: Result<Option<ReceiverCall>, Error>)
        requires
            old(self).wf(),
        ensures
            final(self).wf(),
            match old(self).batch_mint_outcome(caller, to, ids@, amounts@) {
                Ok(m) => {
                    &&& r matches Ok(call)
                    &&& final(self).ledger() == m
                    &&& old(self).same_settings(*final(self))
                    &&& old(self).one_more_record(*final(self))
                    &&& final(self).log().last().is_batch(
                        caller,
                        Address::spec_zero(),
                        to,
                        ids@,
                        amounts@,
                    )
                    &&& (call is Some <==> to is Contract)
                    &&& call matches Some(c) ==> c.describes(
                        caller,
                        Address::spec_zero(),
                        to,
                        ids@,
                        amounts@,
                        data@,
                        true,
                    )
                },
                Err(e) => r == Err::<Option<ReceiverCall>, Error>(e) && *final(self) == *old(self),
            },
    {
        if !self.minters.get(&caller) {
            return Err(Error::Unauthorized);
        }
        if to.is_zero() {
            return Err(Error::MintToZeroAddress);
        }
        if ids.len() != amounts.len() {
            return Err(Error::MismatchedLengths);
        }
        match move_all_exec(&mut self.balances, None, Some(to), &ids, &amounts) {
            Ok(()) => {},
            Err(e) => {
                return Err(e);
            },
        }
        let zero = Address::zero();
        self.record_batch(caller, zero, to, &ids, &amounts);
        if to.is_contract() {
            Ok(Some(ReceiverCall { operator: caller, from: zero, to, ids, amounts, data, batch: true }))
        } else {
            Ok(None)
        }
    }

    /// Destroys `amount` of token `id` held by `from`, on behalf of `caller`.
    pub fn burn(&mut self, caller: Address, from: Address, id: U256, amount: U256) -> (r: Result<
        (),
        Error,
    >)
        requires
            old(self).wf(),
        ensures
            final(self).wf(),
            match old(self).burn_outcome(caller, from, id, amount) {
                Ok(m) => {
                    &&& r is Ok
                    &&& final(self).ledger() == m
                    &&& old(self).same_settings(*final(self))
                    &&& final(self).log() == old(self).log().push(
                        ERC1155Event::TransferSingle {
                            operator: caller,
                            from,
                            to: Address::spec_zero(),
                            id,
                            amount,
                        },
                    )
                },
                Err(e) => r == Err::<(), Error>(e) && *final(self) == *old(self),
            },
    {
        if from.is_zero() {
            return Err(Error::BurnFromZeroAddress);
        }
        if !(caller == from || self.approvals.get(&from, &caller)) {
            return Err(Error::NotOwnerNorApproved);
        }
        match move_one_exec(&mut self.balances, Some(from), None, id, amount) {
            Ok(()) => {},
            Err(e) => {
                return Err(e);
            },
        }
        let zero = Address::zero();
        self.events.push(
            ERC1155Event::TransferSingle { operator: caller, from, to: zero, id, amount },
        );
        Ok(())
    }

    /// Destroys `amounts[i]` of token `ids[i]` held by `from`, pair by pair in
    /// order, on behalf of `caller`; if any pair fails, nothing is destroyed.
    pub fn burn_batch(&mut self, caller: Address, from: Address, ids: Vec<U256>, amounts: Vec<U256>) -> (r:
        Result<(), Error>)
        requires
            old(self).wf(),
        ensures
            final(self).wf(),
            match old(self).burn_batch_outcome(caller, from, ids@, amounts@) {
                Ok(m) => {
                    &&& r is Ok
                    &&& final(self).ledger() == m
                    &&& old(self).same_settings(*final(self))
                    &&& old(self).one_more_record(*final(self))
                    &&& final(self).log().last().is_batch(
                        caller,
                        from,
                        Address::spec_zero(),
                        ids@,
                        amounts@,
                    )
                },
                Err(e) => r == Err::<(), Error>(e) && *final(self) == *old(self),
            },
    {
        if from.is_zero() {
            return Err(Error::BurnFromZeroAddress);
        }
        if ids.len() != amounts.len() {
            return Err(Error::MismatchedLengths);
        }
        if !(caller == from || self.approvals.get(&from, &caller)) {
            return Err(Error::NotOwnerNorApproved);
        }
        match move_all_exec(&mut self.balances, Some(from), None, &ids, &amounts) {
            Ok(()) => {},
            Err(e) => {
                return Err(e);
            },
        }
        let zero = Address::zero();
        self.record_batch(caller, from, zero, &ids, &amounts);
        Ok(())
    }

    /// Whether `who` may mint.
    pub fn is_minter(&self, who: Address) -> (r: bool)
        requires
            self.wf(),
        ensures
            r == minter_in(self.minters(), who),
    {
        self.minters.get(&who)
    }

    /// Grants `minter` the right to mint; only the owner may.
    pub fn add_minter(&mut self, caller: Address, minter: Address) -> (r: Result<(), Error>)
        requires
            old(self).wf(),
        ensures
            final(self).wf(),
            caller != old(self).spec_owner() ==> r == Err::<(), Error>(Error::Unauthorized)
                && *final(self) == *old(self),
            caller == old(self).spec_owner() ==> {
                &&& r is Ok
                &&& final(self).minters() == old(self).minters().insert(minter, true)
                &&& final(self).ledger() == old(self).ledger()
                &&& final(self).approvals() == old(self).approvals()
                &&& final(self).log() == old(self).log()
                &&& old(self).same_identity(*final(self))
            },
    {
        if caller != self.owner {
            return Err(Error::Unauthorized);
        }
        self.minters.set(&minter, true);
        Ok(())
    }
}

} // verus!
