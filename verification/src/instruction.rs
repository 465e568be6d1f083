//! The instruction type the processor dispatches on, and the error taxonomy
//! every rejected transition is reported through.

use vstd::prelude::*;

verus! {

/// A decoded instruction: the two operations the processor supports.
#[derive(Clone, Copy, Debug, PartialEq, Eq, Structural)]
pub enum BaldcoinInstruction {
    InitializeAccount,
    Transfer { amount: u64 },
}

/// Every way a requested state transition can be refused. Each error is
/// terminal: the processor writes nothing unless every check passes.
#[derive(Clone, Copy, Debug, PartialEq, Eq, Structural)]
pub enum LedgerError {
    /// The instruction payload failed to decode.
    MalformedInstruction,
    /// Fewer context slots were supplied than the procedure requires.
    MissingAccount,
    /// A record's controlling namespace does not match the processor's own.
    IncorrectNamespace,
    /// Initialization targeted a record that is already initialized.
    AlreadyInitialized,
    /// The claimed owner slot lacks a runtime-attested signature.
    MissingSignature,
    /// The claimed owner identity does not match the source record's owner.
    IllegalOwner,
    /// The debit amount exceeds the source balance.
    InsufficientFunds,
    /// The raw bytes at a slot do not parse as a valid account record.
    RecordDecodeError,
    /// The destination record of a transfer is not initialized; crediting
    /// dead storage is refused.
    UninitializedDestination,
    /// Crediting the destination would exceed the integer width of a balance.
    BalanceOverflow,
}

} // verus!
