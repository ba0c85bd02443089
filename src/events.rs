use vstd::prelude::*;

use crate::address::Address;
use crate::text::{
    address_text, address_to_string, bool_text, bool_to_string, decimal, decimals_joined, hex_lower,
    package_hash_to_string, u256_to_string, vec_to_str,
};
use crate::uint::U256;

verus! {

/// A record that a successful operation appends to the log, for off-chain
/// indexers.
#[derive(Debug)]
pub enum ERC1155Event {
    TransferBatch {
        operator: Address,
        from: Address,
        to: Address,
        ids: Vec<U256>,
        amounts: Vec<U256>,
    },
    TransferSingle { operator: Address, from: Address, to: Address, id: U256, amount: U256 },
    ApprovalForAll { owner: Address, operator: Address, approved: bool },
}

impl ERC1155Event {
    /// Whether this is the batch record with these fields.
    pub open spec fn is_batch(
        self,
        operator: Address,
        from: Address,
        to: Address,
        ids: Seq<U256>,
        amounts: Seq<U256>,
    ) -> bool {
        &&& self matches ERC1155Event::TransferBatch { operator: o, from: f, to: t, ids: i, amounts: a }
        &&& o == operator
        &&& f == from
        &&& t == to
        &&& i@ == ids
        &&& a@ == amounts
    }

    pub open spec fn spec_event_type(self) -> Seq<char> {
        match self {
            ERC1155Event::TransferBatch { .. } => "TransferBatch"@,
            ERC1155Event::TransferSingle { .. } => "TransferSingle"@,
            ERC1155Event::ApprovalForAll { .. } => "ApprovalForAll"@,
        }
    }

    /// The name under which indexers file the record.
    pub fn event_type(&self) -> (r: String)
        ensures
            r@ == self.spec_event_type(),
    {
        match self {
            ERC1155Event::TransferBatch { .. } => String::from_str("TransferBatch"),
            ERC1155Event::TransferSingle { .. } => String::from_str("TransferSingle"),
            ERC1155Event::ApprovalForAll { .. } => String::from_str("ApprovalForAll"),
        }
    }

    /// The record as the indexers read it: (key, value) pairs, in order,
    /// for the contract whose package hash is `package`.
    pub open spec fn spec_fields(self, package: [u8; 32]) -> Seq<(Seq<char>, Seq<char>)> {
        let head = seq![
            ("contract_package_hash"@, hex_lower(package@)),
            ("event_type"@, self.spec_event_type()),
        ];
        match self {
            ERC1155Event::TransferBatch { operator, from, to, ids, amounts } => head + seq![
                ("operator"@, address_text(operator)),
                ("from"@, address_text(from)),
                ("to"@, address_text(to)),
                ("ids"@, decimals_joined(ids@)),
                ("amounts"@, decimals_joined(amounts@)),
            ],
            ERC1155Event::TransferSingle { operator, from, to, id, amount } => head + seq![
                ("operator"@, address_text(operator)),
                ("from"@, address_text(from)),
                ("to"@, address_text(to)),
                ("id"@, decimal(id@)),
                ("amount"@, decimal(amount@)),
            ],
            ERC1155Event::ApprovalForAll { owner, operator, approved } => head + seq![
                ("owner"@, address_text(owner)),
                ("operator"@, address_text(operator)),
                ("approved"@, bool_text(approved)),
            ],
        }
    }

    /// Builds the record of this event for the contract whose package hash is
    /// `package`.
    pub fn fields(&self, package: &[u8; 32]) -> (r: Vec<(String, String)>)
        ensures
            texts_match(r@, self.spec_fields(*package)),
    {
        let mut out: Vec<(String, String)> = Vec::new();
        push_field(&mut out, "contract_package_hash", package_hash_to_string(package));
        push_field(&mut out, "event_type", self.event_type());
        match self {
            ERC1155Event::TransferBatch { operator, from, to, ids, amounts } => {
                push_field(&mut out, "operator", address_to_string(operator));
                push_field(&mut out, "from", address_to_string(from));
                push_field(&mut out, "to", address_to_string(to));
                push_field(&mut out, "ids", vec_to_str(ids));
                push_field(&mut out, "amounts", vec_to_str(amounts));
            },
            ERC1155Event::TransferSingle { operator, from, to, id, amount } => {
                push_field(&mut out, "operator", address_to_string(operator));
                push_field(&mut out, "from", address_to_string(from));
                push_field(&mut out, "to", address_to_string(to));
                push_field(&mut out, "id", u256_to_string(id));
                push_field(&mut out, "amount", u256_to_string(amount));
            },
            ERC1155Event::ApprovalForAll { owner, operator, approved } => {
                push_field(&mut out, "owner", address_to_string(owner));
                push_field(&mut out, "operator", address_to_string(operator));
                push_field(&mut out, "approved", bool_to_string(*approved));
            },
        }
        assert(texts_match(out@, self.spec_fields(*package)));
        out
    }
}

/// Whether the pairs of strings hold these texts, pair by pair.
pub open spec fn texts_match(v: Seq<(String, String)>, t: Seq<(Seq<char>, Seq<char>)>) -> bool {
    &&& v.len() == t.len()
    &&& forall|i: int| 0 <= i < v.len() ==> (#[trigger] v[i]).0@ == t[i].0 && v[i].1@ == t[i].1
}

fn push_field(out: &mut Vec<(String, String)>, key: &str, value: String)
    ensures
        final(out)@.len() == old(out)@.len() + 1,
        final(out)@.take(old(out)@.len() as int) == old(out)@,
        final(out)@.last().0@ == key@,
        final(out)@.last().1@ == value@,
{
    let ghost before = out@;
    out.push((String::from_str(key), value));
    assert(out@.take(before.len() as int) =~= before);
}

} // verus!
