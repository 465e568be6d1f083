//! The instruction processor: dispatch and the two state-transition
//! procedures, each a validate-then-commit function over context slots.
//!
//! Every check is local and immediate, and no slot is written until every
//! precondition of the enclosing procedure has passed, so a rejected
//! instruction is side-effect-free. Two checks go beyond the bare minimum and
//! are deliberate choices: a transfer refuses an uninitialized destination
//! (`UninitializedDestination`), and a credit that would exceed the integer
//! width of a balance is refused (`BalanceOverflow`) rather than wrapped.

use crate::account::{BaldcoinAccount, Identity, RecordModel};
use crate::codec::{
    decode_account, decode_instruction, encode_account, spec_decode_instruction,
    spec_decode_record, spec_encode_record,
};
use crate::instruction::{BaldcoinInstruction, LedgerError};
use vstd::prelude::*;

verus! {

/// One record-bearing context slot, as the external runtime supplies it: the
/// raw bytes of the record, the namespace that controls the storage, the
/// identity nominally at the slot, and whether the runtime attests that this
/// identity cryptographically signed the current call.
pub struct ContextSlot {
    pub data: Vec<u8>,
    pub namespace: Identity,
    pub identity: Identity,
    pub is_signer: bool,
}

/// The mathematical model of one context slot.
#[verifier::ext_equal]
pub ghost struct SlotModel {
    pub data: Seq<u8>,
    pub namespace: Seq<u8>,
    pub identity: Seq<u8>,
    pub is_signer: bool,
}

impl View for ContextSlot {
    type V = SlotModel;

    open spec fn view(&self) -> SlotModel {
        SlotModel {
            data: self.data@,
            namespace: self.namespace@,
            identity: self.identity@,
            is_signer: self.is_signer,
        }
    }
}

impl ContextSlot {
    /// A slot is well formed when its two identities are.
    pub open spec fn wf(&self) -> bool {
        self.namespace.wf() && self.identity.wf()
    }
}

/// All slots of a sequence are well formed.
pub open spec fn slots_wf(s: Seq<ContextSlot>) -> bool {
    forall|i: int| 0 <= i < s.len() ==> (#[trigger] s[i]).wf()
}

/// The models of a sequence of slots.
pub open spec fn slot_views(s: Seq<ContextSlot>) -> Seq<SlotModel> {
    Seq::new(s.len(), |i: int| s[i]@)
}

/// What account initialization does to the supplied slots: either the error
/// it is refused with, or the slots with the target record re-encoded as
/// initialized, owned by the identity at the second slot, with balance zero.
pub open spec fn spec_initialize_outcome(program_id: Seq<u8>, slots: Seq<SlotModel>) -> Result<
    Seq<SlotModel>,
    LedgerError,
> {
    if slots.len() < 2 {
        Err(LedgerError::MissingAccount)
    } else if slots[0].namespace != program_id {
        Err(LedgerError::IncorrectNamespace)
    } else {
        match spec_decode_record(slots[0].data) {
            None => Err(LedgerError::RecordDecodeError),
            Some(rec) => if rec.is_initialized {
                Err(LedgerError::AlreadyInitialized)
            } else {
                Ok(
                    slots.update(
                        0,
                        SlotModel {
                            data: spec_encode_record(
                                RecordModel {
                                    is_initialized: true,
                                    owner: slots[1].identity,
                                    balance: 0,
                                },
                            ),
                            ..slots[0]
                        },
                    ),
                )
            },
        }
    }
}

/// What a transfer of `amount` does to the supplied slots: either the error
/// it is refused with, or the slots with the source record debited and the
/// destination record credited, both re-encoded.
pub open spec fn spec_transfer_outcome(
    program_id: Seq<u8>,
    slots: Seq<SlotModel>,
    amount: u64,
) -> Result<Seq<SlotModel>, LedgerError> {
    if slots.len() < 3 {
        Err(LedgerError::MissingAccount)
    } else if slots[0].namespace != program_id || slots[1].namespace != program_id {
        Err(LedgerError::IncorrectNamespace)
    } else if !slots[2].is_signer {
        Err(LedgerError::MissingSignature)
    } else {
        match spec_decode_record(slots[0].data) {
            None => Err(LedgerError::RecordDecodeError),
            Some(from_rec) => match spec_decode_record(slots[1].data) {
                None => Err(LedgerError::RecordDecodeError),
                Some(to_rec) => if from_rec.owner != slots[2].identity {
                    Err(LedgerError::IllegalOwner)
                } else if from_rec.balance < amount {
                    Err(LedgerError::InsufficientFunds)
                } else if !to_rec.is_initialized {
                    Err(LedgerError::UninitializedDestination)
                } else if to_rec.balance + amount > u64::MAX {
                    Err(LedgerError::BalanceOverflow)
                } else {
                    Ok(
                        slots.update(
                            0,
                            SlotModel {
                                data: spec_encode_record(
                                    RecordModel {
                                        is_initialized: from_rec.is_initialized,
                                        owner: from_rec.owner,
                                        balance: (from_rec.balance - amount) as u64,
                                    },
                                ),
                                ..slots[0]
                            },
                        ).update(
                            1,
                            SlotModel {
                                data: spec_encode_record(
                                    RecordModel {
                                        is_initialized: to_rec.is_initialized,
                                        owner: to_rec.owner,
                                        balance: (to_rec.balance + amount) as u64,
                                    },
                                ),
                                ..slots[1]
                            },
                        ),
                    )
                },
            },
        }
    }
}

/// What processing a raw instruction payload does: a payload that does not
/// decode is refused before any slot is read, and a decoded instruction acts
/// as its procedure says.
pub open spec fn spec_instruction_outcome(
    program_id: Seq<u8>,
    slots: Seq<SlotModel>,
    payload: Seq<u8>,
) -> Result<Seq<SlotModel>, LedgerError> {
    match spec_decode_instruction(payload) {
        None => Err(LedgerError::MalformedInstruction),
        Some(BaldcoinInstruction::InitializeAccount) => spec_initialize_outcome(
            program_id,
            slots,
        ),
        Some(BaldcoinInstruction::Transfer { amount }) => spec_transfer_outcome(
            program_id,
            slots,
            amount,
        ),
    }
}

/// Initializes the record at the first slot, installing the identity at the
/// second slot as its owner and a balance of zero. The record must be
/// controlled by the processor's own namespace and must not already be
/// initialized; on any refusal no slot changes.
pub fn process_initialize_account(program_id: &Identity, accounts: &mut Vec<ContextSlot>) -> (r:
    Result<(), LedgerError>)
    requires
        program_id.wf(),
        slots_wf(old(accounts)@),
    ensures
        slots_wf(final(accounts)@),
        match spec_initialize_outcome(program_id@, slot_views(old(accounts)@)) {
            Ok(s) => r is Ok && slot_views(final(accounts)@) == s,
            Err(e) => r == Err::<(), LedgerError>(e) && final(accounts)@ == old(accounts)@,
        },
{
    if accounts.len() < 2 {
        return Err(LedgerError::MissingAccount);
    }
    let ns_ok = accounts[0].namespace.equals(program_id);
    if !ns_ok {
        return Err(LedgerError::IncorrectNamespace);
    }
    let account_data = match decode_account(&accounts[0].data) {
        Ok(a) => a,
        Err(e) => {
            return Err(e);
        },
    };
    if account_data.is_initialized {
        return Err(LedgerError::AlreadyInitialized);
    }
    let new_account = BaldcoinAccount {
        is_initialized: true,
        owner: accounts[1].identity.duplicate(),
        balance: 0,
    };
    let new_data = encode_account(&new_account);
    let ghost slots0 = slot_views(accounts@);
    let slot = &mut accounts[0];
    slot.data = new_data;
    proof {
        let expected = spec_initialize_outcome(program_id@, slots0).unwrap();
        assert(slot_views(accounts@) =~~= expected);
    }
    Ok(())
}

/// Debits `amount` from the record at the first slot and credits it to the
/// record at the second, when both records are controlled by the processor's
/// own namespace, the identity at the third slot carries an attested
/// signature and matches the source record's owner, the source balance
/// covers the amount, and the destination is an initialized record whose
/// balance can take the credit; on any refusal no slot changes.
pub fn process_transfer(
    program_id: &Identity,
    accounts: &mut Vec<ContextSlot>,
    amount: u64,
) -> (r: Result<(), LedgerError>)
    requires
        program_id.wf(),
        slots_wf(old(accounts)@),
    ensures
        slots_wf(final(accounts)@),
        match spec_transfer_outcome(program_id@, slot_views(old(accounts)@), amount) {
            Ok(s) => r is Ok && slot_views(final(accounts)@) == s,
            Err(e) => r == Err::<(), LedgerError>(e) && final(accounts)@ == old(accounts)@,
        },
{
    if accounts.len() < 3 {
        return Err(LedgerError::MissingAccount);
    }
    let from_ns_ok = accounts[0].namespace.equals(program_id);
    let to_ns_ok = accounts[1].namespace.equals(program_id);
    if !from_ns_ok || !to_ns_ok {
        return Err(LedgerError::IncorrectNamespace);
    }
    if !accounts[2].is_signer {
        return Err(LedgerError::MissingSignature);
    }
    let from_data = match decode_account(&accounts[0].data) {
        Ok(a) => a,
        Err(e) => {
            return Err(e);
        },
    };
    let to_data = match decode_account(&accounts[1].data) {
        Ok(a) => a,
        Err(e) => {
            return Err(e);
        },
    };
    let owner_ok = from_data.owner.equals(&accounts[2].identity);
    if !owner_ok {
        return Err(LedgerError::IllegalOwner);
    }
    if from_data.balance < amount {
        return Err(LedgerError::InsufficientFunds);
    }
    if !to_data.is_initialized {
        return Err(LedgerError::UninitializedDestination);
    }
    if to_data.balance > u64::MAX - amount {
        return Err(LedgerError::BalanceOverflow);
    }
    let new_from = BaldcoinAccount {
        is_initialized: from_data.is_initialized,
        owner: from_data.owner,
        balance: from_data.balance - amount,
    };
    let new_to = BaldcoinAccount {
        is_initialized: to_data.is_initialized,
        owner: to_data.owner,
        balance: to_data.balance + amount,
    };
    let new_from_data = encode_account(&new_from);
    let new_to_data = encode_account(&new_to);
    let ghost slots0 = slot_views(accounts@);
    let from_slot = &mut accounts[0];
    from_slot.data = new_from_data;
    let to_slot = &mut accounts[1];
    to_slot.data = new_to_data;
    proof {
        let expected = spec_transfer_outcome(program_id@, slots0, amount).unwrap();
        assert(slot_views(accounts@) =~~= expected);
    }
    Ok(())
}

/// Decodes a raw instruction payload and executes the procedure it names.
/// A payload that does not decode fails with `MalformedInstruction` before
/// any slot is touched.
pub fn process_instruction(
    program_id: &Identity,
    accounts: &mut Vec<ContextSlot>,
    instruction_data: &[u8],
) -> (r: Result<(), LedgerError>)
    requires
        program_id.wf(),
        slots_wf(old(accounts)@),
    ensures
        slots_wf(final(accounts)@),
        match spec_instruction_outcome(program_id@, slot_views(old(accounts)@), instruction_data@) {
            Ok(s) => r is Ok && slot_views(final(accounts)@) == s,
            Err(e) => r == Err::<(), LedgerError>(e) && final(accounts)@ == old(accounts)@,
        },
{
    let instruction = match decode_instruction(instruction_data) {
        Ok(ins) => ins,
        Err(e) => {
            return Err(e);
        },
    };
    match instruction {
        BaldcoinInstruction::InitializeAccount => process_initialize_account(program_id, accounts),
        BaldcoinInstruction::Transfer { amount } => process_transfer(program_id, accounts, amount),
    }
}

/// An initialization aimed at a record that already carries the initialized
/// flag is always refused with `AlreadyInitialized`, whatever owner identity
/// is offered at the second slot; the processor's contract then guarantees
/// that no slot's bytes change.
pub proof fn lemma_initialize_rejects_initialized(program_id: Seq<u8>, slots: Seq<SlotModel>)
    requires
        slots.len() >= 2,
        slots[0].namespace == program_id,
        spec_decode_record(slots[0].data) matches Some(rec) && rec.is_initialized,
    ensures
        spec_initialize_outcome(program_id, slots) == Err::<Seq<SlotModel>, LedgerError>(
            LedgerError::AlreadyInitialized,
        ),
{
}

/// A successful transfer debits the source record by exactly the amount,
/// credits the destination record by exactly the amount, conserves the sum
/// of the two balances, and changes neither record's owner nor its
/// initialization flag.
pub proof fn lemma_transfer_conserves_balances(
    program_id: Seq<u8>,
    slots: Seq<SlotModel>,
    amount: u64,
)
    requires
        spec_transfer_outcome(program_id, slots, amount) is Ok,
    ensures
        ({
            let s2 = spec_transfer_outcome(program_id, slots, amount).unwrap();
            let from0 = spec_decode_record(slots[0].data).unwrap();
            let to0 = spec_decode_record(slots[1].data).unwrap();
            let from1 = spec_decode_record(s2[0].data).unwrap();
            let to1 = spec_decode_record(s2[1].data).unwrap();
            &&& s2.len() == slots.len()
            &&& from1.balance == from0.balance - amount
            &&& to1.balance == to0.balance + amount
            &&& from1.balance + to1.balance == from0.balance + to0.balance
            &&& from1.is_initialized == from0.is_initialized
            &&& from1.owner == from0.owner
            &&& to1.is_initialized == to0.is_initialized
            &&& to1.owner == to0.owner
        }),
{
    let from0 = spec_decode_record(slots[0].data).unwrap();
    let to0 = spec_decode_record(slots[1].data).unwrap();
    crate::codec::lemma_record_round_trip(
        RecordModel {
            is_initialized: from0.is_initialized,
            owner: from0.owner,
            balance: (from0.balance - amount) as u64,
        },
    );
    crate::codec::lemma_record_round_trip(
        RecordModel {
            is_initialized: to0.is_initialized,
            owner: to0.owner,
            balance: (to0.balance + amount) as u64,
        },
    );
}

/// A transfer whose amount exceeds the source balance is refused with
/// `InsufficientFunds`, for every transfer that passes the checks that come
/// before the balance check; the processor's contract then guarantees that
/// neither record's bytes change.
pub proof fn lemma_transfer_rejects_insufficient_funds(
    program_id: Seq<u8>,
    slots: Seq<SlotModel>,
    amount: u64,
)
    requires
        slots.len() >= 3,
        slots[0].namespace == program_id,
        slots[1].namespace == program_id,
        slots[2].is_signer,
        spec_decode_record(slots[1].data) is Some,
        spec_decode_record(slots[0].data) matches Some(from_rec) && from_rec.owner
            == slots[2].identity && from_rec.balance < amount,
    ensures
        spec_transfer_outcome(program_id, slots, amount) == Err::<Seq<SlotModel>, LedgerError>(
            LedgerError::InsufficientFunds,
        ),
{
}

/// A transfer whose owner slot carries an identity other than the source
/// record's recorded owner is refused with `IllegalOwner`: a signature alone
/// never authorizes a debit. (An unsigned owner slot is refused earlier, with
/// `MissingSignature`, so the signature is assumed here.)
pub proof fn lemma_transfer_rejects_illegal_owner(
    program_id: Seq<u8>,
    slots: Seq<SlotModel>,
    amount: u64,
)
    requires
        slots.len() >= 3,
        slots[0].namespace == program_id,
        slots[1].namespace == program_id,
        slots[2].is_signer,
        spec_decode_record(slots[1].data) is Some,
        spec_decode_record(slots[0].data) matches Some(from_rec) && from_rec.owner
            != slots[2].identity,
    ensures
        spec_transfer_outcome(program_id, slots, amount) == Err::<Seq<SlotModel>, LedgerError>(
            LedgerError::IllegalOwner,
        ),
{
}

/// A transfer whose owner slot lacks an attested signature is refused with
/// `MissingSignature`, even when that slot's identity matches the source
/// record's owner — nothing of the record bytes is even read.
pub proof fn lemma_transfer_rejects_missing_signature(
    program_id: Seq<u8>,
    slots: Seq<SlotModel>,
    amount: u64,
)
    requires
        slots.len() >= 3,
        slots[0].namespace == program_id,
        slots[1].namespace == program_id,
        !slots[2].is_signer,
    ensures
        spec_transfer_outcome(program_id, slots, amount) == Err::<Seq<SlotModel>, LedgerError>(
            LedgerError::MissingSignature,
        ),
{
}

} // verus!
