use vstd::prelude::*;

verus! {

/// One more than the largest value a `U256` holds: 2^256.
pub open spec fn u256_bound() -> nat {
    0x1_0000_0000_0000_0000_0000_0000_0000_0000_0000_0000_0000_0000_0000_0000_0000_0000nat
}

/// The weight of the second word: 2^64.
pub open spec fn word_base() -> nat {
    0x1_0000_0000_0000_0000nat
}

/// The number that four little-endian 64-bit words stand for.
pub open spec fn words_value(w: [u64; 4]) -> nat {
    w[0] as nat + word_base() * (w[1] as nat + word_base() * (w[2] as nat + word_base()
        * w[3] as nat))
}

/// An unsigned 256-bit integer, held as four little-endian 64-bit words.
#[derive(Clone, Copy, Debug, PartialEq, Eq)]
pub struct U256(pub [u64; 4]);

impl View for U256 {
    type V = nat;

    open spec fn view(&self) -> nat {
        words_value(self.0)
    }
}

/// Every `U256` is below 2^256.
pub proof fn lemma_value_in_range(x: U256)
    ensures
        x@ < u256_bound(),
{
    let w = x.0;
    assert(w[2] as nat + word_base() * w[3] as nat <= 0xffff_ffff_ffff_ffff_ffff_ffff_ffff_ffff)
        by (nonlinear_arith)
        requires
            w[2] as nat <= 0xffff_ffff_ffff_ffff,
            w[3] as nat <= 0xffff_ffff_ffff_ffff,
            word_base() == 0x1_0000_0000_0000_0000nat,
    ;
    assert(w[1] as nat + word_base() * (w[2] as nat + word_base() * w[3] as nat)
        <= 0xffff_ffff_ffff_ffff_ffff_ffff_ffff_ffff_ffff_ffff_ffff_ffff) by (nonlinear_arith)
        requires
            w[1] as nat <= 0xffff_ffff_ffff_ffff,
            w[2] as nat + word_base() * w[3] as nat <= 0xffff_ffff_ffff_ffff_ffff_ffff_ffff_ffff,
            word_base() == 0x1_0000_0000_0000_0000nat,
    ;
    assert(x@ < u256_bound()) by (nonlinear_arith)
        requires
            w[0] as nat <= 0xffff_ffff_ffff_ffff,
            w[1] as nat + word_base() * (w[2] as nat + word_base() * w[3] as nat)
                <= 0xffff_ffff_ffff_ffff_ffff_ffff_ffff_ffff_ffff_ffff_ffff_ffff,
            word_base() == 0x1_0000_0000_0000_0000nat,
            x@ == w[0] as nat + word_base() * (w[1] as nat + word_base() * (w[2] as nat
                + word_base() * w[3] as nat)),
            u256_bound() == 0x1_0000_0000_0000_0000_0000_0000_0000_0000_0000_0000_0000_0000_0000_0000_0000_0000nat,
    ;
}

proof fn lemma_low_word_unique(a0: nat, a1: nat, b0: nat, b1: nat)
    requires
        a0 < word_base(),
        b0 < word_base(),
        a0 + word_base() * a1 == b0 + word_base() * b1,
    ensures
        a0 == b0,
        a1 == b1,
{
    assert(a0 == b0 && a1 == b1) by (nonlinear_arith)
        requires
            a0 < word_base(),
            b0 < word_base(),
            a0 + word_base() * a1 == b0 + word_base() * b1,
            word_base() > 0,
    {
        if a1 > b1 {
            assert(word_base() * a1 >= word_base() * (b1 + 1));
        } else if a1 < b1 {
            assert(word_base() * b1 >= word_base() * (a1 + 1));
        }
    }
}

/// Two `U256` with the same value are the same: the words are determined by
/// the number.
pub proof fn lemma_value_determines_words(a: U256, b: U256)
    requires
        a@ == b@,
    ensures
        a == b,
{
    let (x, y) = (a.0, b.0);
    lemma_low_word_unique(
        x[0] as nat,
        x[1] as nat + word_base() * (x[2] as nat + word_base() * x[3] as nat),
        y[0] as nat,
        y[1] as nat + word_base() * (y[2] as nat + word_base() * y[3] as nat),
    );
    lemma_low_word_unique(
        x[1] as nat,
        x[2] as nat + word_base() * x[3] as nat,
        y[1] as nat,
        y[2] as nat + word_base() * y[3] as nat,
    );
    lemma_low_word_unique(x[2] as nat, x[3] as nat, y[2] as nat, y[3] as nat);
    assert(x =~= y);
}

impl U256 {
    pub fn zero() -> (r: U256)
        ensures
            r@ == 0,
    {
        U256([0, 0, 0, 0])
    }

    pub fn from_u64(v: u64) -> (r: U256)
        ensures
            r@ == v,
    {
        U256([v, 0, 0, 0])
    }

    /// The largest value, 2^256 - 1.
    pub fn max_value() -> (r: U256)
        ensures
            r@ == u256_bound() - 1,
    {
        let m: u64 = 0xffff_ffff_ffff_ffff;
        let r = U256([m, m, m, m]);
        assert(r.0[0] == m && r.0[1] == m && r.0[2] == m && r.0[3] == m);
        assert(r@ == u256_bound() - 1) by (nonlinear_arith)
            requires
                r@ == m as nat + word_base() * (m as nat + word_base() * (m as nat + word_base()
                    * m as nat)),
                m == 0xffff_ffff_ffff_ffff,
                word_base() == 0x1_0000_0000_0000_0000nat,
                u256_bound()
                    == 0x1_0000_0000_0000_0000_0000_0000_0000_0000_0000_0000_0000_0000_0000_0000_0000_0000nat,
        ;
        r
    }

    pub fn is_zero(&self) -> (r: bool)
        ensures
            r == (self@ == 0),
    {
        let w = self.0;
        proof {
            assert(self@ == 0 ==> w[0] == 0 && w[1] == 0 && w[2] == 0 && w[3] == 0)
                by (nonlinear_arith)
                requires
                    self@ == w[0] as nat + word_base() * (w[1] as nat + word_base() * (w[2] as nat
                        + word_base() * w[3] as nat)),
                    word_base() > 0,
            ;
        }
        w[0] == 0 && w[1] == 0 && w[2] == 0 && w[3] == 0
    }

    /// Relies on uint's `checked_add` (through casper-types' `U256`): the sum,
    /// or `None` when it does not fit in 256 bits.
    #[verifier::external_body]
    pub(crate) fn checked_add(self, other: U256) -> (r: Option<U256>)
        ensures
            r is Some <==> self@ + other@ < u256_bound(),
            r matches Some(s) ==> s@ == self@ + other@,
    {
        casper_types::U256(self.0).checked_add(casper_types::U256(other.0)).map(|s| U256(s.0))
    }

    /// Relies on uint's `checked_sub` (through casper-types' `U256`): the
    /// difference, or `None` when `other` is the larger.
    #[verifier::external_body]
    pub(crate) fn checked_sub(self, other: U256) -> (r: Option<U256>)
        ensures
            r is Some <==> other@ <= self@,
            r matches Some(d) ==> d@ == self@ - other@,
    {
        casper_types::U256(self.0).checked_sub(casper_types::U256(other.0)).map(|d| U256(d.0))
    }
}

impl U256 {
    /// Whether the two hold the same words, that is the same number.
    pub fn same(&self, other: &U256) -> (r: bool)
        ensures
            r == (*self == *other),
            r == (self@ == other@),
    {
        proof {
            if self@ == other@ {
                lemma_value_determines_words(*self, *other);
            }
        }
        same_words(&self.0, &other.0)
    }
}

fn same_words(a: &[u64; 4], b: &[u64; 4]) -> (r: bool)
    ensures
        r == (*a == *b),
{
    if a[0] == b[0] && a[1] == b[1] && a[2] == b[2] && a[3] == b[3] {
        assert(*a =~= *b);
        true
    } else {
        false
    }
}

} // verus!
