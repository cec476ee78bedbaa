//! Token accounts, mints and the instructions of the asset-transfer service.

use crate::address::{escrow_namespace, rederive, spec_escrow_namespace, spec_rederive, Address};
use vstd::prelude::*;

verus! {

/// An asset type and its precision.
#[derive(Clone, Copy, Debug, PartialEq, Eq)]
pub struct Mint {
    pub address: Address,
    pub decimals: u8,
}

/// A token account: a balance of one asset that belongs to one owner.
#[derive(Clone, Copy, Debug, PartialEq, Eq)]
pub struct TokenAccount {
    pub address: Address,
    pub mint: Address,
    pub owner: Address,
    pub amount: u64,
}

/// The authority of an escrow: the address derived from the offer's index,
/// with what re-derives it. It signs by its proof, never by a key.
#[derive(Clone, Copy, Debug, PartialEq, Eq)]
pub struct DerivedAuthority {
    pub address: Address,
    pub index: u64,
    pub proof: u8,
}

impl DerivedAuthority {
    /// Whether the index and the proof re-derive the address.
    pub open spec fn genuine(self) -> bool {
        spec_rederive(spec_escrow_namespace(), self.index, self.proof) == Some(self.address)
    }

    /// Whether the index and the proof re-derive the address.
    pub fn is_genuine(&self) -> (genuine: bool)
        ensures
            genuine == self.genuine(),
    {
        match rederive(escrow_namespace(), self.index, self.proof) {
            Some(address) => address == self.address,
            None => false,
        }
    }
}

/// Who authorises an instruction.
#[derive(Clone, Copy, Debug, PartialEq, Eq)]
pub enum Signer {
    /// A wallet, by its signature on the transaction.
    Wallet(Address),
    /// An escrow's derived authority, by its proof.
    Escrow(DerivedAuthority),
}

impl Signer {
    /// The address that authorises.
    pub open spec fn spec_address(self) -> Address {
        match self {
            Signer::Wallet(wallet) => wallet,
            Signer::Escrow(authority) => authority.address,
        }
    }

    /// The address that authorises.
    pub fn address(&self) -> (address: Address)
        ensures
            address == self.spec_address(),
    {
        match self {
            Signer::Wallet(wallet) => *wallet,
            Signer::Escrow(authority) => authority.address,
        }
    }

    /// Whether the authorisation holds in a transaction signed by `payer`:
    /// a wallet must be the one that signed, a derived authority must be
    /// re-derived by its proof.
    pub open spec fn authorised(self, payer: Address) -> bool {
        match self {
            Signer::Wallet(wallet) => wallet == payer,
            Signer::Escrow(authority) => authority.genuine(),
        }
    }

    /// Whether the authorisation holds in a transaction signed by `payer`.
    pub fn is_authorised(&self, payer: &Address) -> (authorised: bool)
        ensures
            authorised == self.authorised(*payer),
    {
        match self {
            Signer::Wallet(wallet) => *wallet == *payer,
            Signer::Escrow(authority) => authority.is_genuine(),
        }
    }
}

/// An instruction to move an amount of one asset between two token
/// accounts, naming the asset and its precision.
#[derive(Clone, Copy, Debug, PartialEq, Eq)]
pub struct TransferChecked {
    pub from: Address,
    pub to: Address,
    pub mint: Address,
    pub authority: Signer,
    pub amount: u64,
    pub decimals: u8,
}

/// An instruction to close an empty token account and hand its collateral
/// to `destination`.
#[derive(Clone, Copy, Debug, PartialEq, Eq)]
pub struct CloseAccount {
    pub account: Address,
    pub destination: Address,
    pub authority: Signer,
}

/// An instruction to destroy an escrow record and hand its collateral to
/// `beneficiary`.
#[derive(Clone, Copy, Debug, PartialEq, Eq)]
pub struct CloseRecord {
    pub record: Address,
    pub beneficiary: Address,
}

} // verus!
