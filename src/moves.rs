use vstd::prelude::*;

use crate::address::Address;
use crate::balances::{balance_in, Balances};
use crate::error::Error;
use crate::uint::{u256_bound, U256};

verus! {

/// A ledger model: (token id, owner) to quantity.
pub type Ledger = Map<(U256, Address), nat>;

/// Takes `amount` of `id` from `owner`, or fails with `shortfall` when the
/// owner holds less.
pub open spec fn debit(m: Ledger, id: U256, owner: Address, amount: nat, shortfall: Error) -> Result<
    Ledger,
    Error,
> {
    let b = balance_in(m, id, owner);
    if b < amount {
        Err(shortfall)
    } else {
        Ok(m.insert((id, owner), (b - amount) as nat))
    }
}

/// Gives `amount` of `id` to `owner`, or fails when the balance would not fit
/// in 256 bits.
pub open spec fn credit(m: Ledger, id: U256, owner: Address, amount: nat) -> Result<Ledger, Error> {
    let b = balance_in(m, id, owner);
    if b + amount >= u256_bound() {
        Err(Error::Overflow)
    } else {
        Ok(m.insert((id, owner), b + amount))
    }
}

/// Moves `amount` of `id` out of `from` (unless it is a mint, `None`) and
/// into `to` (unless it is a burn, `None`): first the debit, then the credit
/// on the ledger that the debit left.
pub open spec fn move_one(m: Ledger, from: Option<Address>, to: Option<Address>, id: U256, amount: nat) -> Result<
    Ledger,
    Error,
> {
    let shortfall = if to is Some {
        Error::InsufficientBalance
    } else {
        Error::BurnAmountExceedsBalance
    };
    let debited = match from {
        Some(f) => debit(m, id, f, amount, shortfall),
        None => Ok(m),
    };
    match debited {
        Ok(m1) => match to {
            Some(t) => credit(m1, id, t, amount),
            None => Ok(m1),
        },
        Err(e) => Err(e),
    }
}

/// Applies `move_one` to each pair of `ids` and `amounts` in order; the
/// first failure is the result.
pub open spec fn move_all(m: Ledger, from: Option<Address>, to: Option<Address>, ids: Seq<U256>, amounts: Seq<U256>) -> Result<
    Ledger,
    Error,
>
    decreases ids.len(),
{
    if ids.len() == 0 {
        Ok(m)
    } else {
        match move_all(m, from, to, ids.drop_last(), amounts.drop_last()) {
            Ok(m1) => move_one(m1, from, to, ids.last(), amounts.last()@),
            Err(e) => Err(e),
        }
    }
}

/// Performs `move_one` on a ledger; on failure the ledger is left as it was.
pub fn move_one_exec(b: &mut Balances, from: Option<Address>, to: Option<Address>, id: U256, amount: U256) -> (r: Result<(), Error>)
    requires
        old(b).wf(),
    ensures
        final(b).wf(),
        match move_one(old(b).view(), from, to, id, amount@) {
            Ok(m) => r is Ok && final(b).view() == m,
            Err(e) => r == Err::<(), Error>(e) && *final(b) == *old(b),
        },
{
    let shortfall = if to.is_some() {
        Error::InsufficientBalance
    } else {
        Error::BurnAmountExceedsBalance
    };
    // The balance of `from` after the debit, if there is a sender.
    let debited: Option<U256> = match from {
        Some(f) => {
            let have = b.get(&id, &f);
            match have.checked_sub(amount) {
                Some(left) => Some(left),
                None => {
                    return Err(shortfall);
                },
            }
        },
        None => None,
    };
    let credited: Option<U256> = match to {
        Some(t) => {
            let before = match (from, debited) {
                (Some(f), Some(left)) => {
                    if f == t {
                        left
                    } else {
                        b.get(&id, &t)
                    }
                },
                _ => b.get(&id, &t),
            };
            match before.checked_add(amount) {
                Some(after) => Some(after),
                None => {
                    return Err(Error::Overflow);
                },
            }
        },
        None => None,
    };
    match (from, debited) {
        (Some(f), Some(left)) => b.set(&id, &f, left),
        _ => {},
    }
    match (to, credited) {
        (Some(t), Some(after)) => b.set(&id, &t, after),
        _ => {},
    }
    Ok(())
}

/// Performs `move_all` on a ledger; on failure the ledger is left as it was.
pub fn move_all_exec(b: &mut Balances, from: Option<Address>, to: Option<Address>, ids: &Vec<U256>, amounts: &Vec<U256>) -> (r: Result<(), Error>)
    requires
        old(b).wf(),
        ids@.len() == amounts@.len(),
    ensures
        final(b).wf(),
        match move_all(old(b).view(), from, to, ids@, amounts@) {
            Ok(m) => r is Ok && final(b).view() == m,
            Err(e) => r == Err::<(), Error>(e) && *final(b) == *old(b),
        },
{
    let mut staged = b.duplicate();
    let mut i: usize = 0;
    while i < ids.len()
        invariant
            0 <= i <= ids@.len(),
            ids@.len() == amounts@.len(),
            staged.wf(),
            b.wf(),
            move_all(b.view(), from, to, ids@.subrange(0, i as int), amounts@.subrange(0, i as int))
                == Ok::<Ledger, Error>(staged.view()),
        decreases ids@.len() - i,
    {
        let ghost before = staged.view();
        let step = move_one_exec(&mut staged, from, to, ids[i], amounts[i]);
        proof {
            let pi = ids@.subrange(0, i + 1);
            let pa = amounts@.subrange(0, i + 1);
            assert(pi.drop_last() =~= ids@.subrange(0, i as int));
            assert(pa.drop_last() =~= amounts@.subrange(0, i as int));
            assert(pi.last() == ids@[i as int]);
            assert(pa.last() == amounts@[i as int]);
            if step is Err {
                lemma_failure_is_final(b.view(), from, to, ids@, amounts@, i + 1);
            }
        }
        match step {
            Ok(()) => {},
            Err(e) => {
                return Err(e);
            },
        }
        i = i + 1;
    }
    assert(ids@.subrange(0, ids@.len() as int) =~= ids@);
    assert(amounts@.subrange(0, amounts@.len() as int) =~= amounts@);
    *b = staged;
    Ok(())
}

/// Once a prefix of a batch fails, every longer prefix fails the same way.
pub(crate) proof fn lemma_failure_is_final(
    m: Ledger,
    from: Option<Address>,
    to: Option<Address>,
    ids: Seq<U256>,
    amounts: Seq<U256>,
    k: int,
)
    requires
        0 < k <= ids.len(),
        ids.len() == amounts.len(),
        move_all(m, from, to, ids.subrange(0, k), amounts.subrange(0, k)) is Err,
    ensures
        move_all(m, from, to, ids, amounts) == move_all(m, from, to, ids.subrange(0, k), amounts.subrange(0, k)),
    decreases ids.len() - k,
{
    if k < ids.len() {
        let pi = ids.subrange(0, k + 1);
        let pa = amounts.subrange(0, k + 1);
        assert(pi.drop_last() =~= ids.subrange(0, k));
        assert(pa.drop_last() =~= amounts.subrange(0, k));
        lemma_failure_is_final(m, from, to, ids, amounts, k + 1);
    } else {
        assert(ids.subrange(0, k) =~= ids);
        assert(amounts.subrange(0, k) =~= amounts);
    }
}

} // verus!
