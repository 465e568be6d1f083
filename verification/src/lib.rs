//! A minimal ledger account model: each account record holds an
//! initialization flag, an owning identity and an unsigned balance, and two
//! operations are supported, account initialization and balance transfer.
//! The processor validates a requested state transition against the current
//! serialized state of the records involved and, if it is legal, computes and
//! re-serializes the new state.

pub mod account;
pub mod codec;
pub mod instruction;
pub mod processor;
