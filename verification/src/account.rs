//! The account record model: opaque fixed-size identities and the decoded
//! shape of one persistent ledger record.

use vstd::prelude::*;

verus! {

/// The number of bytes in an identity.
pub const IDENTITY_LEN: usize = 32;

/// An opaque fixed-size public identifier, used both as the owner recorded in
/// an account and as a potential signer or controlling namespace.
#[derive(Debug, PartialEq, Eq)]
pub struct Identity {
    pub bytes: Vec<u8>,
}

impl View for Identity {
    type V = Seq<u8>;

    open spec fn view(&self) -> Seq<u8> {
        self.bytes@
    }
}

impl Identity {
    /// An identity is well formed when it holds exactly `IDENTITY_LEN` bytes.
    pub open spec fn wf(&self) -> bool {
        self@.len() == IDENTITY_LEN
    }

    /// Builds an identity from its raw bytes.
    pub fn new(bytes: Vec<u8>) -> (r: Identity)
        requires
            bytes@.len() == IDENTITY_LEN,
        ensures
            r@ == bytes@,
            r.wf(),
    {
        Identity { bytes }
    }

    /// Copies an identity, byte for byte.
    pub fn duplicate(&self) -> (r: Identity)
        ensures
            r@ == self@,
    {
        let mut bytes: Vec<u8> = Vec::new();
        let mut i: usize = 0;
        let n = self.bytes.len();
        while i < n
            invariant
                n == self@.len(),
                i <= n,
                bytes@ == self@.subrange(0, i as int),
            decreases n - i,
        {
            let byte = self.bytes[i];
            bytes.push(byte);
            proof {
                assert(self@.subrange(0, i + 1) =~= self@.subrange(0, i as int).push(byte));
            }
            i = i + 1;
        }
        proof {
            assert(self@.subrange(0, n as int) =~= self@);
        }
        Identity { bytes }
    }

    /// Reports whether two identities hold the same bytes.
    pub fn equals(&self, other: &Identity) -> (r: bool)
        ensures
            r == (self@ == other@),
    {
        let r = self.bytes == other.bytes;
        proof {
            if r {
                assert(self@ =~= other@);
            } else {
                assert(self@ != other@);
            }
        }
        r
    }
}

/// The mathematical model of one record: the values its fields denote.
pub ghost struct RecordModel {
    pub is_initialized: bool,
    pub owner: Seq<u8>,
    pub balance: u64,
}

/// One decoded ledger account record. The owner field is meaningful only when
/// `is_initialized` is true; the balance is non-negative by construction and
/// bounded only by the integer width.
#[derive(Debug, PartialEq, Eq)]
pub struct BaldcoinAccount {
    pub is_initialized: bool,
    pub owner: Identity,
    pub balance: u64,
}

impl View for BaldcoinAccount {
    type V = RecordModel;

    open spec fn view(&self) -> RecordModel {
        RecordModel {
            is_initialized: self.is_initialized,
            owner: self.owner@,
            balance: self.balance,
        }
    }
}

impl BaldcoinAccount {
    /// The fixed width of an encoded record: one flag byte, the owner
    /// identity, and an eight-byte balance.
    pub const LEN: usize = 1 + 32 + 8;

    /// A record is well formed when its owner identity is.
    pub open spec fn wf(&self) -> bool {
        self.owner.wf()
    }
}

} // verus!
