//! A multi-token ledger in the style of ERC-1155: per-(token, owner) balances,
//! operator approvals, batch mint / burn / transfer, and the receiver
//! acceptance step that guards transfers into contracts.
//!
//! The host (storage, caller authentication, rollback of a failed call, the
//! call into a receiving contract) stays outside: every operation takes the
//! caller as an argument, and a failed operation leaves the state unchanged.

mod address;
mod balances;
mod error;
mod events;
pub mod laws;
mod moves;
mod table;
mod text;
mod token;
mod uint;

pub use address::Address;
pub use balances::{approved_in, balance_in, ledger_bounded, minter_in, Balances, Minters, OperatorApprovals};
pub use error::Error;
pub use events::{texts_match, ERC1155Event};
pub use moves::{credit, debit, move_all, move_one, Ledger};
pub use table::{KeyEq, Table};
pub use text::{
    address_text, bool_text, decimal, decimals_joined, hex_digit, hex_lower, vec_to_str,
};
pub use token::{ReceiverCall, ReceiverReply, ERC1155};
pub use uint::{lemma_value_determines_words, lemma_value_in_range, u256_bound, U256};
