//! The persisted record of one open offer.

use crate::address::{lemma_address_by_bytes, Address};
use vstd::bytes::{
    lemma_auto_spec_u64_to_from_le_bytes, spec_u64_to_le_bytes, u64_from_le_bytes,
    u64_to_le_bytes,
};
use vstd::prelude::*;
use vstd::slice::slice_subrange;

verus! {

/// The record of one open offer. It is written once, when the offer is
/// made, and never changed until it is destroyed.
#[derive(Clone, Copy, Debug, PartialEq, Eq)]
pub struct EscrowState {
    /// The asset that is offered and locked in the vault.
    pub token_mint_a: Address,
    /// The asset that is asked in return.
    pub token_mint_b: Address,
    /// The amount of the asked asset that the maker demands.
    pub token_b_ask_amount: u64,
    /// The index of the offer, from which its address is derived.
    pub index: u64,
    /// The proof that re-derives the record's address from the index.
    pub state_bump: u8,
}

/// An escrow record together with the address at which it lives.
#[derive(Clone, Copy, Debug, PartialEq, Eq)]
pub struct RecordAccount {
    pub address: Address,
    pub state: EscrowState,
}

/// The number of bytes that a persisted record takes.
pub const INIT_SPACE: usize = 81;

fn append(out: &mut Vec<u8>, part: &Vec<u8>)
    ensures
        final(out)@ == old(out)@ + part@,
{
    let mut i: usize = 0;
    while i < part.len()
        invariant
            i <= part@.len(),
            out@ == old(out)@ + part@.subrange(0, i as int),
        decreases part@.len() - i,
    {
        out.push(part[i]);
        assert(out@ =~= old(out)@ + part@.subrange(0, i + 1));
        i += 1;
    }
    assert(part@.subrange(0, part@.len() as int) =~= part@);
}

/// Two records that persist as the same bytes are the same record.
pub proof fn law_record_bytes_tell_records_apart(a: EscrowState, b: EscrowState)
    requires
        a.spec_to_bytes() == b.spec_to_bytes(),
    ensures
        a == b,
{
    lemma_auto_spec_u64_to_from_le_bytes();
    let x = a.spec_to_bytes();
    let y = b.spec_to_bytes();
    assert(x.subrange(0, 32) =~= a.token_mint_a@);
    assert(y.subrange(0, 32) =~= b.token_mint_a@);
    assert(x.subrange(32, 64) =~= a.token_mint_b@);
    assert(y.subrange(32, 64) =~= b.token_mint_b@);
    assert(x.subrange(64, 72) =~= spec_u64_to_le_bytes(a.token_b_ask_amount));
    assert(y.subrange(64, 72) =~= spec_u64_to_le_bytes(b.token_b_ask_amount));
    assert(x.subrange(72, 80) =~= spec_u64_to_le_bytes(a.index));
    assert(y.subrange(72, 80) =~= spec_u64_to_le_bytes(b.index));
    assert(x[80] == a.state_bump);
    assert(y[80] == b.state_bump);
    lemma_address_by_bytes(a.token_mint_a, b.token_mint_a);
    lemma_address_by_bytes(a.token_mint_b, b.token_mint_b);
}

impl EscrowState {
    /// The bytes as which a record persists: the two mints, the amount
    /// asked and the index as eight little-endian bytes each, and the
    /// proof, in this order.
    pub open spec fn spec_to_bytes(self) -> Seq<u8> {
        self.token_mint_a@ + self.token_mint_b@ + spec_u64_to_le_bytes(self.token_b_ask_amount)
            + spec_u64_to_le_bytes(self.index) + seq![self.state_bump]
    }

    /// The bytes as which the record persists.
    pub fn to_bytes(&self) -> (bytes: Vec<u8>)
        ensures
            bytes@ == self.spec_to_bytes(),
            bytes@.len() == INIT_SPACE,
    {
        let mut bytes: Vec<u8> = Vec::new();
        append(&mut bytes, &self.token_mint_a.to_vec());
        append(&mut bytes, &self.token_mint_b.to_vec());
        append(&mut bytes, &u64_to_le_bytes(self.token_b_ask_amount));
        append(&mut bytes, &u64_to_le_bytes(self.index));
        bytes.push(self.state_bump);
        assert(bytes@ =~= self.spec_to_bytes());
        bytes
    }

    /// The record that persists as `bytes`: there is one exactly where the
    /// bytes are as many as a record takes.
    pub fn from_bytes(bytes: &[u8]) -> (record: Option<EscrowState>)
        ensures
            record is Some <==> bytes@.len() == INIT_SPACE,
            record matches Some(r) ==> r.spec_to_bytes() == bytes@,
    {
        if bytes.len() != INIT_SPACE {
            return None;
        }
        let token_mint_a = match Address::from_slice(slice_subrange(bytes, 0, 32)) {
            Some(address) => address,
            None => {
                return None;
            },
        };
        let token_mint_b = match Address::from_slice(slice_subrange(bytes, 32, 64)) {
            Some(address) => address,
            None => {
                return None;
            },
        };
        let token_b_ask_amount = u64_from_le_bytes(slice_subrange(bytes, 64, 72));
        let index = u64_from_le_bytes(slice_subrange(bytes, 72, 80));
        let record = EscrowState {
            token_mint_a,
            token_mint_b,
            token_b_ask_amount,
            index,
            state_bump: bytes[80],
        };
        proof {
            lemma_auto_spec_u64_to_from_le_bytes();
            assert(spec_u64_to_le_bytes(token_b_ask_amount) == bytes@.subrange(64, 72));
            assert(spec_u64_to_le_bytes(index) == bytes@.subrange(72, 80));
            assert(record.spec_to_bytes() =~= bytes@);
        }
        Some(record)
    }

    /// The content of a record that has been allocated and not yet written.
    pub open spec fn spec_blank() -> EscrowState {
        EscrowState {
            token_mint_a: Address::spec_zero(),
            token_mint_b: Address::spec_zero(),
            token_b_ask_amount: 0,
            index: 0,
            state_bump: 0,
        }
    }

    /// The content of a record that has been allocated and not yet written.
    pub fn blank() -> (record: EscrowState)
        ensures
            record == Self::spec_blank(),
    {
        EscrowState {
            token_mint_a: Address::zero(),
            token_mint_b: Address::zero(),
            token_b_ask_amount: 0,
            index: 0,
            state_bump: 0,
        }
    }
}

} // verus!
