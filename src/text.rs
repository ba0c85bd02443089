use vstd::prelude::*;

use crate::address::Address;
use crate::uint::U256;

verus! {

/// The lower-case hexadecimal digit for `n` (below 16).
pub open spec fn hex_digit(n: int) -> char {
    seq!['0', '1', '2', '3', '4', '5', '6', '7', '8', '9', 'a', 'b', 'c', 'd', 'e', 'f'][n]
}

/// Two lower-case hexadecimal digits per byte, high nibble first.
pub open spec fn hex_lower(b: Seq<u8>) -> Seq<char>
    decreases b.len(),
{
    if b.len() == 0 {
        Seq::empty()
    } else {
        seq![hex_digit(b[0] as int / 16), hex_digit(b[0] as int % 16)] + hex_lower(b.drop_first())
    }
}

/// The decimal digits of `n`, without leading zeros ("0" for zero).
pub open spec fn decimal(n: nat) -> Seq<char>
    decreases n,
{
    if n < 10 {
        seq![hex_digit(n as int)]
    } else {
        decimal(n / 10).push(hex_digit((n % 10) as int))
    }
}

/// How an address is written in event records: the host's rendering of its
/// key.
pub open spec fn address_text(a: Address) -> Seq<char> {
    match a {
        Address::Account(h) => "Key::Account("@ + hex_lower(h@) + ")"@,
        Address::Contract(h) => "Key::Hash("@ + hex_lower(h@) + ")"@,
    }
}

/// Relies on casper-types' `Display` for `Key`: "Key::Account(<hex>)" for an
/// account hash and "Key::Hash(<hex>)" for a contract hash, the bytes in
/// lower-case base16.
#[verifier::external_body]
pub(crate) fn address_to_string(a: &Address) -> (r: String)
    ensures
        r@ == address_text(*a),
{
    let key = match a {
        Address::Account(h) => casper_types::Key::Account(casper_types::account::AccountHash::new(*h)),
        Address::Contract(h) => casper_types::Key::Hash(*h),
    };
    key.to_string()
}

/// Relies on casper-types' `Display` for `ContractPackageHash`: the 32 bytes
/// in lower-case base16.
#[verifier::external_body]
pub(crate) fn package_hash_to_string(h: &[u8; 32]) -> (r: String)
    ensures
        r@ == hex_lower(h@),
{
    casper_types::ContractPackageHash::new(*h).to_string()
}

/// Relies on uint's `Display` (through casper-types' `U256`): the value in
/// decimal, without leading zeros.
#[verifier::external_body]
pub(crate) fn u256_to_string(x: &U256) -> (r: String)
    ensures
        r@ == decimal(x@),
{
    casper_types::U256(x.0).to_string()
}

/// The decimal renderings of the values, one after another with nothing
/// between them.
pub open spec fn decimals_joined(v: Seq<U256>) -> Seq<char>
    decreases v.len(),
{
    if v.len() == 0 {
        Seq::empty()
    } else {
        decimals_joined(v.drop_last()) + decimal(v.last()@)
    }
}

/// Writes the values in decimal, one after another.
pub fn vec_to_str(v: &Vec<U256>) -> (r: String)
    ensures
        r@ == decimals_joined(v@),
{
    let mut s = String::new();
    let mut i: usize = 0;
    while i < v.len()
        invariant
            0 <= i <= v@.len(),
            s@ == decimals_joined(v@.take(i as int)),
        decreases v@.len() - i,
    {
        let digits = u256_to_string(&v[i]);
        s.append(digits.as_str());
        assert(v@.take(i + 1).drop_last() =~= v@.take(i as int));
        i = i + 1;
    }
    assert(v@.take(v@.len() as int) =~= v@);
    s
}

pub open spec fn bool_text(b: bool) -> Seq<char> {
    if b {
        "true"@
    } else {
        "false"@
    }
}

/// "true" or "false".
pub fn bool_to_string(b: bool) -> (r: String)
    ensures
        r@ == bool_text(b),
{
    if b {
        String::from_str("true")
    } else {
        String::from_str("false")
    }
}

} // verus!
