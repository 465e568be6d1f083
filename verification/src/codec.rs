//! The fixed-width serialization codec: a record is exactly 41 bytes (one
//! initialization flag byte, 32 owner bytes, an 8-byte little-endian
//! balance), and an instruction is a one-byte tag followed by its payload.

use crate::account::{BaldcoinAccount, Identity, RecordModel, IDENTITY_LEN};
use crate::instruction::{BaldcoinInstruction, LedgerError};
use vstd::prelude::*;

verus! {

/// The fixed width of an encoded record.
pub const RECORD_LEN: usize = 41;

/// The little-endian bytes of a 64-bit unsigned integer.
pub open spec fn spec_u64_le_bytes(v: u64) -> Seq<u8> {
    seq![
        (v & 0xff) as u8,
        ((v >> 8) & 0xff) as u8,
        ((v >> 16) & 0xff) as u8,
        ((v >> 24) & 0xff) as u8,
        ((v >> 32) & 0xff) as u8,
        ((v >> 40) & 0xff) as u8,
        ((v >> 48) & 0xff) as u8,
        ((v >> 56) & 0xff) as u8,
    ]
}

/// The 64-bit unsigned integer denoted by eight little-endian bytes.
pub open spec fn spec_u64_from_le_bytes(b: Seq<u8>) -> u64
    recommends
        b.len() == 8,
{
    ((b[0] as u64) | ((b[1] as u64) << 8) | ((b[2] as u64) << 16) | ((b[3] as u64) << 24) | ((
    b[4] as u64) << 32) | ((b[5] as u64) << 40) | ((b[6] as u64) << 48) | ((b[7] as u64) << 56))
}

/// Reading back the little-endian bytes of an integer yields that integer.
pub proof fn lemma_u64_le_round_trip(v: u64)
    ensures
        spec_u64_from_le_bytes(spec_u64_le_bytes(v)) == v,
{
    let b = spec_u64_le_bytes(v);
    let b0 = (v & 0xff) as u8;
    let b1 = ((v >> 8) & 0xff) as u8;
    let b2 = ((v >> 16) & 0xff) as u8;
    let b3 = ((v >> 24) & 0xff) as u8;
    let b4 = ((v >> 32) & 0xff) as u8;
    let b5 = ((v >> 40) & 0xff) as u8;
    let b6 = ((v >> 48) & 0xff) as u8;
    let b7 = ((v >> 56) & 0xff) as u8;
    assert((b0 as u64 | (b1 as u64) << 8 | (b2 as u64) << 16 | (b3 as u64) << 24 | (b4 as u64)
        << 32 | (b5 as u64) << 40 | (b6 as u64) << 48 | (b7 as u64) << 56) == v) by (bit_vector)
        requires
            b0 == (v & 0xff) as u8,
            b1 == ((v >> 8) & 0xff) as u8,
            b2 == ((v >> 16) & 0xff) as u8,
            b3 == ((v >> 24) & 0xff) as u8,
            b4 == ((v >> 32) & 0xff) as u8,
            b5 == ((v >> 40) & 0xff) as u8,
            b6 == ((v >> 48) & 0xff) as u8,
            b7 == ((v >> 56) & 0xff) as u8,
    ;
    assert(b[0] == b0 && b[1] == b1 && b[2] == b2 && b[3] == b3 && b[4] == b4 && b[5] == b5 && b[6]
        == b6 && b[7] == b7);
}

/// The encoded form of a record: flag byte, owner bytes, balance bytes.
pub open spec fn spec_encode_record(r: RecordModel) -> Seq<u8> {
    seq![if r.is_initialized { 1u8 } else { 0u8 }] + r.owner + spec_u64_le_bytes(r.balance)
}

/// The record denoted by a raw buffer, or nothing when the buffer is not
/// exactly 41 bytes or its flag byte is neither 0 nor 1.
pub open spec fn spec_decode_record(b: Seq<u8>) -> Option<RecordModel> {
    if b.len() == RECORD_LEN && (b[0] == 0u8 || b[0] == 1u8) {
        Some(
            RecordModel {
                is_initialized: b[0] == 1u8,
                owner: b.subrange(1, 33),
                balance: spec_u64_from_le_bytes(b.subrange(33, 41)),
            },
        )
    } else {
        None
    }
}

/// Decoding the encoding of a well-formed record reproduces the record:
/// the same flag, the same owner bytes, the same balance.
pub proof fn lemma_record_round_trip(r: RecordModel)
    requires
        r.owner.len() == IDENTITY_LEN,
    ensures
        spec_decode_record(spec_encode_record(r)) == Some(r),
{
    let b = spec_encode_record(r);
    assert(b.len() == RECORD_LEN);
    assert(b.subrange(1, 33) =~= r.owner);
    assert(b.subrange(33, 41) =~= spec_u64_le_bytes(r.balance));
    lemma_u64_le_round_trip(r.balance);
    let d = spec_decode_record(b).unwrap();
    assert(d =~= r);
}

/// A buffer shorter than the fixed record width never decodes.
pub proof fn lemma_short_buffer_rejected(b: Seq<u8>)
    requires
        b.len() < RECORD_LEN,
    ensures
        spec_decode_record(b) is None,
{
}

/// Serializes a record into its fixed 41-byte form.
pub fn encode_account(a: &BaldcoinAccount) -> (r: Vec<u8>)
    requires
        a.wf(),
    ensures
        r@ == spec_encode_record(a@),
{
    let mut r: Vec<u8> = Vec::new();
    if a.is_initialized {
        r.push(1u8);
    } else {
        r.push(0u8);
    }
    let mut i: usize = 0;
    while i < IDENTITY_LEN
        invariant
            a.wf(),
            i <= IDENTITY_LEN,
            r@ == seq![if a.is_initialized { 1u8 } else { 0u8 }] + a.owner@.subrange(0, i as int),
        decreases IDENTITY_LEN - i,
    {
        let byte = a.owner.bytes[i];
        r.push(byte);
        proof {
            assert(a.owner@.subrange(0, i + 1) =~= a.owner@.subrange(0, i as int).push(byte));
        }
        i = i + 1;
    }
    proof {
        assert(a.owner@.subrange(0, IDENTITY_LEN as int) =~= a.owner@);
    }
    let v = a.balance;
    r.push((v & 0xff) as u8);
    r.push(((v >> 8) & 0xff) as u8);
    r.push(((v >> 16) & 0xff) as u8);
    r.push(((v >> 24) & 0xff) as u8);
    r.push(((v >> 32) & 0xff) as u8);
    r.push(((v >> 40) & 0xff) as u8);
    r.push(((v >> 48) & 0xff) as u8);
    r.push(((v >> 56) & 0xff) as u8);
    proof {
        assert(r@ =~= spec_encode_record(a@));
    }
    r
}

/// Parses a raw buffer as a record, or reports `RecordDecodeError` exactly
/// when the buffer does not denote one.
pub fn decode_account(b: &Vec<u8>) -> (r: Result<BaldcoinAccount, LedgerError>)
    ensures
        match r {
            Ok(a) => spec_decode_record(b@) == Some(a@) && a.wf(),
            Err(e) => e == LedgerError::RecordDecodeError && spec_decode_record(b@) is None,
        },
{
    if b.len() != RECORD_LEN {
        return Err(LedgerError::RecordDecodeError);
    }
    let flag = b[0];
    if flag != 0u8 && flag != 1u8 {
        return Err(LedgerError::RecordDecodeError);
    }
    let mut owner_bytes: Vec<u8> = Vec::new();
    let mut i: usize = 1;
    while i < 33
        invariant
            b@.len() == RECORD_LEN,
            1 <= i <= 33,
            owner_bytes@ == b@.subrange(1, i as int),
        decreases 33 - i,
    {
        let byte = b[i];
        owner_bytes.push(byte);
        proof {
            assert(b@.subrange(1, i + 1) =~= b@.subrange(1, i as int).push(byte));
        }
        i = i + 1;
    }
    let balance: u64 = (b[33] as u64) | ((b[34] as u64) << 8u64) | ((b[35] as u64) << 16u64) | ((
    b[36] as u64) << 24u64) | ((b[37] as u64) << 32u64) | ((b[38] as u64) << 40u64) | ((
    b[39] as u64) << 48u64) | ((b[40] as u64) << 56u64);
    proof {
        let tail = b@.subrange(33, 41);
        assert(tail[0] == b@[33] && tail[1] == b@[34] && tail[2] == b@[35] && tail[3] == b@[36]
            && tail[4] == b@[37] && tail[5] == b@[38] && tail[6] == b@[39] && tail[7] == b@[40]);
    }
    let a = BaldcoinAccount { is_initialized: flag == 1u8, owner: Identity { bytes: owner_bytes }, balance };
    Ok(a)
}

/// The instruction denoted by a raw payload: tag 0 is `InitializeAccount`
/// with no payload, tag 1 is `Transfer` followed by an 8-byte little-endian
/// amount; any other tag or length does not decode.
pub open spec fn spec_decode_instruction(b: Seq<u8>) -> Option<BaldcoinInstruction> {
    if b.len() == 1 && b[0] == 0u8 {
        Some(BaldcoinInstruction::InitializeAccount)
    } else if b.len() == 9 && b[0] == 1u8 {
        Some(BaldcoinInstruction::Transfer { amount: spec_u64_from_le_bytes(b.subrange(1, 9)) })
    } else {
        None
    }
}

/// Parses an instruction payload, or reports `MalformedInstruction` exactly
/// when the payload does not denote an instruction.
pub fn decode_instruction(b: &[u8]) -> (r: Result<BaldcoinInstruction, LedgerError>)
    ensures
        match r {
            Ok(ins) => spec_decode_instruction(b@) == Some(ins),
            Err(e) => e == LedgerError::MalformedInstruction && spec_decode_instruction(b@) is None,
        },
{
    if b.len() == 1 && b[0] == 0u8 {
        Ok(BaldcoinInstruction::InitializeAccount)
    } else if b.len() == 9 && b[0] == 1u8 {
        let amount: u64 = (b[1] as u64) | ((b[2] as u64) << 8u64) | ((b[3] as u64) << 16u64) | ((
        b[4] as u64) << 24u64) | ((b[5] as u64) << 32u64) | ((b[6] as u64) << 40u64) | ((
        b[7] as u64) << 48u64) | ((b[8] as u64) << 56u64);
        proof {
            let tail = b@.subrange(1, 9);
            assert(tail[0] == b@[1] && tail[1] == b@[2] && tail[2] == b@[3] && tail[3] == b@[4]
                && tail[4] == b@[5] && tail[5] == b@[6] && tail[6] == b@[7] && tail[7] == b@[8]);
        }
        Ok(BaldcoinInstruction::Transfer { amount })
    } else {
        Err(LedgerError::MalformedInstruction)
    }
}

/// Serializes an instruction into its tagged payload form.
pub fn encode_instruction(ins: &BaldcoinInstruction) -> (r: Vec<u8>)
    ensures
        spec_decode_instruction(r@) == Some(*ins),
{
    match ins {
        BaldcoinInstruction::InitializeAccount => {
            let mut r: Vec<u8> = Vec::new();
            r.push(0u8);
            r
        },
        BaldcoinInstruction::Transfer { amount } => {
            let v = *amount;
            let mut r: Vec<u8> = Vec::new();
            r.push(1u8);
            r.push((v & 0xff) as u8);
            r.push(((v >> 8) & 0xff) as u8);
            r.push(((v >> 16) & 0xff) as u8);
            r.push(((v >> 24) & 0xff) as u8);
            r.push(((v >> 32) & 0xff) as u8);
            r.push(((v >> 40) & 0xff) as u8);
            r.push(((v >> 48) & 0xff) as u8);
            r.push(((v >> 56) & 0xff) as u8);
            proof {
                assert(r@.subrange(1, 9) =~= spec_u64_le_bytes(v));
                lemma_u64_le_round_trip(v);
            }
            r
        },
    }
}

} // verus!
