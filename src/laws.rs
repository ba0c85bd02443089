use vstd::prelude::*;

use crate::address::Address;
use crate::balances::{approved_in, balance_in, ledger_bounded, minter_in};
use crate::error::Error;
use crate::moves::{lemma_failure_is_final, move_all, move_one, Ledger};
use crate::token::ERC1155;
use crate::uint::{u256_bound, U256};

verus! {

/// A transfer between two distinct addresses leaves the sum of their balances
/// in the token unchanged, and every other balance as it was.
pub proof fn transfer_conserves_balances(
    e: ERC1155,
    caller: Address,
    from: Address,
    to: Address,
    id: U256,
    amount: U256,
)
    requires
        from != to,
    ensures
        e.transfer_outcome(caller, from, to, id, amount) matches Ok(m) ==> {
            &&& balance_in(m, id, from) + balance_in(m, id, to) == e.balance(id, from) + e.balance(
                id,
                to,
            )
            &&& forall|other: U256, owner: Address|
                (other, owner) != (id, from) && (other, owner) != (id, to) ==> #[trigger] balance_in(
                    m,
                    other,
                    owner,
                ) == e.balance(other, owner)
        },
{
}

/// A transfer from an address to itself leaves every balance as it was.
pub proof fn self_transfer_keeps_balances(e: ERC1155, caller: Address, holder: Address, id: U256, amount: U256)
    ensures
        e.transfer_outcome(caller, holder, holder, id, amount) matches Ok(m) ==> forall|other: U256, owner: Address|
            #[trigger] balance_in(m, other, owner) == e.balance(other, owner),
{
}

/// A self-transfer by the holder or its operator, of no more than the holder
/// has, succeeds and leaves every balance as it was.
pub proof fn self_transfer_succeeds(e: ERC1155, caller: Address, holder: Address, id: U256, amount: U256)
    requires
        e.wf(),
        e.may_act_for(caller, holder),
        !holder.spec_is_zero(),
        amount@ <= e.balance(id, holder),
    ensures
        e.transfer_outcome(caller, holder, holder, id, amount) matches Ok(m) && forall|
            other: U256,
            owner: Address,
        | #[trigger] balance_in(m, other, owner) == e.balance(other, owner),
{
    e.lemma_ledger_bounded();
}

proof fn lemma_batch_conserves(
    m: Ledger,
    from: Address,
    to: Address,
    ids: Seq<U256>,
    amounts: Seq<U256>,
)
    requires
        from != to,
    ensures
        move_all(m, Some(from), Some(to), ids, amounts) matches Ok(m2) ==> {
            &&& forall|id: U256|
                #[trigger] balance_in(m2, id, from) + balance_in(m2, id, to) == balance_in(
                    m,
                    id,
                    from,
                ) + balance_in(m, id, to)
            &&& forall|id: U256, owner: Address|
                owner != from && owner != to ==> #[trigger] balance_in(m2, id, owner) == balance_in(
                    m,
                    id,
                    owner,
                )
        },
    decreases ids.len(),
{
    if ids.len() > 0 {
        lemma_batch_conserves(m, from, to, ids.drop_last(), amounts.drop_last());
        match move_all(m, Some(from), Some(to), ids.drop_last(), amounts.drop_last()) {
            Ok(m1) => {
                if let Ok(m2) = move_one(m1, Some(from), Some(to), ids.last(), amounts.last()@) {
                    assert forall|id: U256|
                        #[trigger] balance_in(m2, id, from) + balance_in(m2, id, to) == balance_in(
                            m1,
                            id,
                            from,
                        ) + balance_in(m1, id, to) by {}
                    assert forall|id: U256, owner: Address|
                        owner != from && owner != to implies #[trigger] balance_in(m2, id, owner)
                        == balance_in(m1, id, owner) by {}
                    assert forall|id: U256|
                        #[trigger] balance_in(m2, id, from) + balance_in(m2, id, to) == balance_in(
                            m,
                            id,
                            from,
                        ) + balance_in(m, id, to) by {
                        assert(balance_in(m1, id, from) + balance_in(m1, id, to) == balance_in(
                            m,
                            id,
                            from,
                        ) + balance_in(m, id, to));
                    }
                    assert forall|id: U256, owner: Address|
                        owner != from && owner != to implies #[trigger] balance_in(m2, id, owner)
                        == balance_in(m, id, owner) by {
                        assert(balance_in(m1, id, owner) == balance_in(m, id, owner));
                    }
                }
            },
            Err(_) => {},
        }
    }
}

/// A batch transfer between two distinct addresses leaves, for every token,
/// the sum of their two balances unchanged, and every other holder's
/// balances as they were.
pub proof fn batch_transfer_conserves_balances(
    e: ERC1155,
    caller: Address,
    from: Address,
    to: Address,
    ids: Seq<U256>,
    amounts: Seq<U256>,
)
    requires
        from != to,
    ensures
        e.batch_transfer_outcome(caller, from, to, ids, amounts) matches Ok(m) ==> {
            &&& forall|id: U256|
                #[trigger] balance_in(m, id, from) + balance_in(m, id, to) == e.balance(id, from)
                    + e.balance(id, to)
            &&& forall|id: U256, owner: Address|
                owner != from && owner != to ==> #[trigger] balance_in(m, id, owner) == e.balance(
                    id,
                    owner,
                )
        },
{
    lemma_batch_conserves(e.ledger(), from, to, ids, amounts);
}

/// A mint adds exactly `amount` to the receiver's balance, so a mint of a
/// positive amount strictly increases it.
pub proof fn mint_adds_exactly(e: ERC1155, caller: Address, to: Address, id: U256, amount: U256)
    ensures
        e.mint_outcome(caller, to, id, amount) matches Ok(m) ==> {
            &&& balance_in(m, id, to) == e.balance(id, to) + amount@
            &&& amount@ > 0 ==> balance_in(m, id, to) > e.balance(id, to)
        },
{
}

/// A burn takes exactly `amount` from the holder's balance, which held at
/// least that much; a burn of more than the balance fails.
pub proof fn burn_removes_exactly(e: ERC1155, caller: Address, from: Address, id: U256, amount: U256)
    ensures
        e.burn_outcome(caller, from, id, amount) matches Ok(m) ==> {
            &&& amount@ <= e.balance(id, from)
            &&& balance_in(m, id, from) == e.balance(id, from) - amount@
            &&& amount@ > 0 ==> balance_in(m, id, from) < e.balance(id, from)
        },
        !from.spec_is_zero() && e.may_act_for(caller, from) && e.balance(id, from) < amount@
            ==> e.burn_outcome(caller, from, id, amount) == Err::<Ledger, Error>(
            Error::BurnAmountExceedsBalance,
        ),
{
}

/// If one pair of a batch fails on the ledger that the pairs before it left,
/// the whole batch fails (and the operations then change nothing).
pub proof fn failing_pair_fails_batch(
    m: Ledger,
    from: Option<Address>,
    to: Option<Address>,
    ids: Seq<U256>,
    amounts: Seq<U256>,
    k: int,
)
    requires
        ids.len() == amounts.len(),
        0 <= k < ids.len(),
        move_all(m, from, to, ids.take(k), amounts.take(k)) matches Ok(mk) && move_one(
            mk,
            from,
            to,
            ids[k],
            amounts[k]@,
        ) is Err,
    ensures
        move_all(m, from, to, ids, amounts) is Err,
{
    let pi = ids.take(k + 1);
    let pa = amounts.take(k + 1);
    assert(pi.drop_last() =~= ids.take(k));
    assert(pa.drop_last() =~= amounts.take(k));
    assert(ids.subrange(0, k + 1) == pi);
    assert(amounts.subrange(0, k + 1) == pa);
    lemma_failure_is_final(m, from, to, ids, amounts, k + 1);
}

/// A caller that is neither the owner nor an operator the owner approved
/// cannot transfer the owner's tokens, singly or in batches.
pub proof fn unauthorized_transfer_fails(
    e: ERC1155,
    caller: Address,
    from: Address,
    to: Address,
    id: U256,
    amount: U256,
    ids: Seq<U256>,
    amounts: Seq<U256>,
)
    requires
        caller != from,
        !approved_in(e.approvals(), from, caller),
    ensures
        e.transfer_outcome(caller, from, to, id, amount) == Err::<Ledger, Error>(
            Error::NotOwnerNorApproved,
        ),
        e.batch_transfer_outcome(caller, from, to, ids, amounts) == Err::<Ledger, Error>(
            Error::NotOwnerNorApproved,
        ),
{
}

/// The total amount of token `id` that a batch names, over the pairs whose
/// id is `id`.
pub open spec fn batch_sum(ids: Seq<U256>, amounts: Seq<U256>, id: U256) -> nat
    decreases ids.len(),
{
    if ids.len() == 0 {
        0
    } else {
        batch_sum(ids.drop_last(), amounts.drop_last(), id) + if ids.last() == id {
            amounts.last()@
        } else {
            0
        }
    }
}

/// What a whole batch does to the two parties: the sender loses, and the
/// receiver gains, the batch's total of each token; every balance stays
/// below 2^256.
proof fn lemma_batch_effect(
    m: Ledger,
    from: Option<Address>,
    to: Option<Address>,
    ids: Seq<U256>,
    amounts: Seq<U256>,
)
    requires
        ids.len() == amounts.len(),
        ledger_bounded(m),
        !(from is Some && from == to),
    ensures
        move_all(m, from, to, ids, amounts) matches Ok(m2) ==> {
            &&& ledger_bounded(m2)
            &&& forall|id: U256, f: Address|
                from == Some(f) ==> #[trigger] balance_in(m2, id, f) + batch_sum(ids, amounts, id)
                    == balance_in(m, id, f)
            &&& forall|id: U256, t: Address|
                to == Some(t) ==> #[trigger] balance_in(m2, id, t) == balance_in(m, id, t)
                    + batch_sum(ids, amounts, id)
        },
    decreases ids.len(),
{
    if ids.len() > 0 {
        let (pi, pa) = (ids.drop_last(), amounts.drop_last());
        lemma_batch_effect(m, from, to, pi, pa);
        if let Ok(m1) = move_all(m, from, to, pi, pa) {
            if let Ok(m2) = move_one(m1, from, to, ids.last(), amounts.last()@) {
                assert(ledger_bounded(m2));
                assert forall|id: U256, f: Address| from == Some(f) implies #[trigger] balance_in(
                    m2,
                    id,
                    f,
                ) + batch_sum(ids, amounts, id) == balance_in(m, id, f) by {
                    assert(balance_in(m1, id, f) + batch_sum(pi, pa, id) == balance_in(m, id, f));
                }
                assert forall|id: U256, t: Address| to == Some(t) implies #[trigger] balance_in(
                    m2,
                    id,
                    t,
                ) == balance_in(m, id, t) + batch_sum(ids, amounts, id) by {
                    assert(balance_in(m1, id, t) == balance_in(m, id, t) + batch_sum(pi, pa, id));
                }
            }
        }
    }
}

/// A batch that only burns fails only for want of balance; one that only
/// mints fails only for overflow.
proof fn lemma_batch_error_kind(
    m: Ledger,
    from: Option<Address>,
    to: Option<Address>,
    ids: Seq<U256>,
    amounts: Seq<U256>,
)
    ensures
        move_all(m, from, to, ids, amounts) matches Err(e) ==> {
            &&& to is None ==> e == Error::BurnAmountExceedsBalance
            &&& from is None ==> e == Error::Overflow
        },
    decreases ids.len(),
{
    if ids.len() > 0 {
        lemma_batch_error_kind(m, from, to, ids.drop_last(), amounts.drop_last());
    }
}

/// A batch transfer between distinct addresses that moves more of some token
/// than the sender holds fails (and then changes nothing).
pub proof fn batch_transfer_beyond_balance_fails(
    e: ERC1155,
    caller: Address,
    from: Address,
    to: Address,
    ids: Seq<U256>,
    amounts: Seq<U256>,
    id: U256,
)
    requires
        e.wf(),
        from != to,
        ids.len() == amounts.len(),
        batch_sum(ids, amounts, id) > e.balance(id, from),
    ensures
        e.batch_transfer_outcome(caller, from, to, ids, amounts) is Err,
{
    e.lemma_ledger_bounded();
    lemma_batch_effect(e.ledger(), Some(from), Some(to), ids, amounts);
    if let Ok(m2) = move_all(e.ledger(), Some(from), Some(to), ids, amounts) {
        assert(balance_in(m2, id, from) + batch_sum(ids, amounts, id) == e.balance(id, from));
    }
}

/// A batch mint that would take some token's balance past 2^256 - 1 fails
/// (and then changes nothing); for a minter and a non-zero receiver, with
/// `Overflow`.
pub proof fn batch_mint_beyond_max_fails(
    e: ERC1155,
    caller: Address,
    to: Address,
    ids: Seq<U256>,
    amounts: Seq<U256>,
    id: U256,
)
    requires
        e.wf(),
        ids.len() == amounts.len(),
        e.balance(id, to) + batch_sum(ids, amounts, id) >= u256_bound(),
    ensures
        e.batch_mint_outcome(caller, to, ids, amounts) is Err,
        minter_in(e.minters(), caller) && !to.spec_is_zero() ==> e.batch_mint_outcome(
            caller,
            to,
            ids,
            amounts,
        ) == Err::<Ledger, Error>(Error::Overflow),
{
    e.lemma_ledger_bounded();
    lemma_batch_effect(e.ledger(), None, Some(to), ids, amounts);
    lemma_batch_error_kind(e.ledger(), None, Some(to), ids, amounts);
    if let Ok(m2) = move_all(e.ledger(), None, Some(to), ids, amounts) {
        assert(balance_in(m2, id, to) == e.balance(id, to) + batch_sum(ids, amounts, id));
        if m2.contains_key((id, to)) {
            assert(balance_in(m2, id, to) < u256_bound());
        }
    }
}

/// A batch burn of more of some token than the holder has fails (and then
/// changes nothing); when the holder is not the zero address and the caller
/// may act for it, with `BurnAmountExceedsBalance`.
pub proof fn burn_batch_beyond_balance_fails(
    e: ERC1155,
    caller: Address,
    from: Address,
    ids: Seq<U256>,
    amounts: Seq<U256>,
    id: U256,
)
    requires
        e.wf(),
        ids.len() == amounts.len(),
        batch_sum(ids, amounts, id) > e.balance(id, from),
    ensures
        e.burn_batch_outcome(caller, from, ids, amounts) is Err,
        !from.spec_is_zero() && e.may_act_for(caller, from) ==> e.burn_batch_outcome(
            caller,
            from,
            ids,
            amounts,
        ) == Err::<Ledger, Error>(Error::BurnAmountExceedsBalance),
{
    e.lemma_ledger_bounded();
    lemma_batch_effect(e.ledger(), Some(from), None, ids, amounts);
    lemma_batch_error_kind(e.ledger(), Some(from), None, ids, amounts);
    if let Ok(m2) = move_all(e.ledger(), Some(from), None, ids, amounts) {
        assert(balance_in(m2, id, from) + batch_sum(ids, amounts, id) == e.balance(id, from));
    }
}

} // verus!
