//! Making an offer: the maker's asset is locked in a new vault and the
//! record of the offer is written.

use crate::address::{
    associated_token_address, derive_address, escrow_namespace, spec_associated_token_address,
    spec_derive_address, spec_escrow_namespace, spec_rederive, Address,
};
use crate::errors::{AccountError, EscrowError};
use crate::ledger::{Ledger, LedgerState};
use crate::states::{EscrowState, RecordAccount};
use crate::token::{Mint, Signer, TokenAccount, TransferChecked};
use vstd::prelude::*;

verus! {

/// The addresses that a call to make an offer names.
#[derive(Clone, Copy, Debug, PartialEq, Eq)]
pub struct InitializeKeys {
    /// The maker, who signs.
    pub user: Address,
    /// Where the record of the offer is to live.
    pub escrow_state: Address,
    /// Where the vault is to live.
    pub token_a_vault: Address,
    /// The maker's account of the offered asset.
    pub initializer_token_account_a: Address,
    /// The offered asset.
    pub token_mint_a: Address,
    /// The asked asset.
    pub token_mint_b: Address,
    /// The token program that keeps the accounts.
    pub token_program: Address,
}

/// The accounts on which an offer is made, as resolved from the ledger.
#[derive(Clone, Copy, Debug, PartialEq, Eq)]
pub struct InitializeEscrow {
    pub user: Address,
    pub escrow_state: RecordAccount,
    pub token_a_vault: TokenAccount,
    pub initializer_token_account_a: TokenAccount,
    pub token_mint_a: Mint,
    pub token_mint_b: Mint,
    pub token_program: Address,
}

impl InitializeEscrow {
    /// What resolving the accounts of an offer with the given index gives:
    /// the ledger with the empty vault opened, the accounts, and the proof
    /// of the record's address; or the first check that fails. The record
    /// must live at the address derived from the index, where no record
    /// lives yet; the vault must be the associated account of the record
    /// for the offered asset and not exist yet; the maker's account must be
    /// the associated account of the maker for the offered asset. The proof
    /// must re-derive the address, as a proof that comes out of a
    /// derivation always does.
    pub open spec fn spec_resolve(state: LedgerState, keys: InitializeKeys, index: u64) -> Result<
        (LedgerState, InitializeEscrow, u8),
        AccountError,
    > {
        if keys.token_program != state.token_program {
            Err(AccountError::InvalidProgram)
        } else if !state.mints.contains_key(keys.token_mint_a) || !state.mints.contains_key(
            keys.token_mint_b,
        ) {
            Err(AccountError::MintMissing)
        } else {
            match spec_derive_address(spec_escrow_namespace(), index) {
                None => Err(AccountError::Underivable),
                Some((address, proof)) => if spec_rederive(spec_escrow_namespace(), index, proof)
                    != Some(address) {
                    Err(AccountError::Underivable)
                } else if keys.escrow_state != address {
                    Err(AccountError::SeedsMismatch)
                } else if state.records.contains_key(address) {
                    Err(AccountError::RecordExists)
                } else if spec_associated_token_address(
                    address,
                    keys.token_mint_a,
                    state.token_program,
                ) != Some(keys.token_a_vault) {
                    Err(AccountError::NotAssociated)
                } else if state.tokens.contains_key(keys.token_a_vault) {
                    Err(AccountError::AccountExists)
                } else {
                    match state.associated_account(
                        keys.initializer_token_account_a,
                        keys.user,
                        keys.token_mint_a,
                    ) {
                        Err(e) => Err(e),
                        Ok(account) => Ok(
                            (
                                state.open_account(keys.token_a_vault, address, keys.token_mint_a),
                                InitializeEscrow {
                                    user: keys.user,
                                    escrow_state: RecordAccount {
                                        address,
                                        state: EscrowState::spec_blank(),
                                    },
                                    token_a_vault: TokenAccount {
                                        address: keys.token_a_vault,
                                        mint: keys.token_mint_a,
                                        owner: address,
                                        amount: 0,
                                    },
                                    initializer_token_account_a: account,
                                    token_mint_a: Mint {
                                        address: keys.token_mint_a,
                                        decimals: state.mints[keys.token_mint_a],
                                    },
                                    token_mint_b: Mint {
                                        address: keys.token_mint_b,
                                        decimals: state.mints[keys.token_mint_b],
                                    },
                                    token_program: keys.token_program,
                                },
                                proof,
                            ),
                        ),
                    }
                },
            }
        }
    }

    /// Resolves the accounts of an offer with the given index and opens its
    /// empty vault. Where a check fails the ledger is left as it was.
    pub fn resolve(ledger: &mut Ledger, keys: &InitializeKeys, index: u64) -> (resolved: Result<
        (InitializeEscrow, u8),
        AccountError,
    >)
        ensures
            match resolved {
                Ok((accounts, proof)) => Self::spec_resolve(old(ledger)@, *keys, index) == Ok::<
                    (LedgerState, InitializeEscrow, u8),
                    AccountError,
                >((final(ledger)@, accounts, proof)),
                Err(e) => Self::spec_resolve(old(ledger)@, *keys, index) == Err::<
                    (LedgerState, InitializeEscrow, u8),
                    AccountError,
                >(e) && final(ledger)@ == old(ledger)@,
            },
            old(ledger)@.consistent() ==> final(ledger)@.consistent(),
    {
        let token_program = ledger.token_program();
        if keys.token_program != token_program {
            return Err(AccountError::InvalidProgram);
        }
        let token_mint_a = match ledger.known_mint(&keys.token_mint_a) {
            Ok(mint) => mint,
            Err(e) => {
                return Err(e);
            },
        };
        let token_mint_b = match ledger.known_mint(&keys.token_mint_b) {
            Ok(mint) => mint,
            Err(e) => {
                return Err(e);
            },
        };
        let (address, proof) = match derive_address(escrow_namespace(), index) {
            Some(derived) => derived,
            None => {
                return Err(AccountError::Underivable);
            },
        };
        if keys.escrow_state != address {
            return Err(AccountError::SeedsMismatch);
        }
        if ledger.record(&address).is_some() {
            return Err(AccountError::RecordExists);
        }
        match associated_token_address(&address, &keys.token_mint_a, &token_program) {
            Some(vault) => {
                if vault != keys.token_a_vault {
                    return Err(AccountError::NotAssociated);
                }
            },
            None => {
                return Err(AccountError::NotAssociated);
            },
        }
        if ledger.token_account(&keys.token_a_vault).is_some() {
            return Err(AccountError::AccountExists);
        }
        let initializer_token_account_a = match ledger.associated_account(
            &keys.initializer_token_account_a,
            &keys.user,
            &keys.token_mint_a,
        ) {
            Ok(account) => account,
            Err(e) => {
                return Err(e);
            },
        };
        let ghost before = ledger@;
        ledger.open_account(keys.token_a_vault, address, keys.token_mint_a);
        proof {
            if before.consistent() {
                assert forall|record: Address| #[trigger]
                    ledger@.records.contains_key(record) implies ledger@.open_offer(record) by {
                    assert(before.records.contains_key(record));
                    assert(before.open_offer(record));
                }
            }
        }
        Ok(
            (
                InitializeEscrow {
                    user: keys.user,
                    escrow_state: RecordAccount { address, state: EscrowState::blank() },
                    token_a_vault: TokenAccount {
                        address: keys.token_a_vault,
                        mint: keys.token_mint_a,
                        owner: address,
                        amount: 0,
                    },
                    initializer_token_account_a,
                    token_mint_a,
                    token_mint_b,
                    token_program: keys.token_program,
                },
                proof,
            ),
        )
    }

    /// The transfer that locks `amount` of the offered asset in the vault,
    /// signed by the maker.
    pub open spec fn deposit(self, amount: u64) -> TransferChecked {
        TransferChecked {
            from: self.initializer_token_account_a.address,
            to: self.token_a_vault.address,
            mint: self.token_mint_a.address,
            authority: Signer::Wallet(self.user),
            amount,
            decimals: self.token_mint_a.decimals,
        }
    }

    /// What making an offer decides: the accounts with the record written
    /// and the transfer that locks the offered amount, or the first rule
    /// that is broken. Both amounts must be positive, the two assets must
    /// differ, and the maker must hold more than the amount offered.
    pub open spec fn spec_create_offer(
        self,
        index: u64,
        token_a_mint: Address,
        token_b_mint: Address,
        token_a_offered_amount: u64,
        token_b_ask_amount: u64,
        escrow_state_bump: u8,
    ) -> Result<(InitializeEscrow, TransferChecked), EscrowError> {
        if token_a_offered_amount == 0 || token_b_ask_amount == 0 {
            Err(EscrowError::InvalidAmount)
        } else if self.token_mint_a.address == self.token_mint_b.address {
            Err(EscrowError::InvalidTokenMint)
        } else if self.initializer_token_account_a.amount <= token_a_offered_amount {
            Err(EscrowError::InsufficientInitiatorBalance)
        } else {
            Ok(
                (
                    InitializeEscrow {
                        escrow_state: RecordAccount {
                            address: self.escrow_state.address,
                            state: EscrowState {
                                token_mint_a: token_a_mint,
                                token_mint_b: token_b_mint,
                                token_b_ask_amount,
                                index,
                                state_bump: escrow_state_bump,
                            },
                        },
                        ..self
                    },
                    self.deposit(token_a_offered_amount),
                ),
            )
        }
    }

    /// Checks the rules of an offer, writes its record and returns the
    /// transfer that locks the offered amount in the vault. Where a rule is
    /// broken nothing is written and no transfer is returned.
    pub fn create_offer(
        &mut self,
        index: u64,
        token_a_mint: Address,
        token_b_mint: Address,
        token_a_offered_amount: u64,
        token_b_ask_amount: u64,
        escrow_state_bump: u8,
    ) -> (offer: Result<TransferChecked, EscrowError>)
        ensures
            match offer {
                Ok(transfer) => old(self).spec_create_offer(
                    index,
                    token_a_mint,
                    token_b_mint,
                    token_a_offered_amount,
                    token_b_ask_amount,
                    escrow_state_bump,
                ) == Ok::<(InitializeEscrow, TransferChecked), EscrowError>(
                    (*final(self), transfer),
                ),
                Err(e) => old(self).spec_create_offer(
                    index,
                    token_a_mint,
                    token_b_mint,
                    token_a_offered_amount,
                    token_b_ask_amount,
                    escrow_state_bump,
                ) == Err::<(InitializeEscrow, TransferChecked), EscrowError>(e) && *final(self)
                    == *old(self),
            },
            token_a_offered_amount == 0 || token_b_ask_amount == 0 ==> offer == Err::<
                TransferChecked,
                EscrowError,
            >(EscrowError::InvalidAmount),
            token_a_offered_amount > 0 && token_b_ask_amount > 0 && old(self).token_mint_a.address
                == old(self).token_mint_b.address ==> offer == Err::<TransferChecked, EscrowError>(
                EscrowError::InvalidTokenMint,
            ),
            old(self).initializer_token_account_a.amount == token_a_offered_amount ==> offer is Err,
    {
        if token_a_offered_amount == 0 || token_b_ask_amount == 0 {
            return Err(EscrowError::InvalidAmount);
        }
        if self.token_mint_a.address == self.token_mint_b.address {
            return Err(EscrowError::InvalidTokenMint);
        }
        if self.initializer_token_account_a.amount <= token_a_offered_amount {
            return Err(EscrowError::InsufficientInitiatorBalance);
        }
        let transfer = TransferChecked {
            from: self.initializer_token_account_a.address,
            to: self.token_a_vault.address,
            mint: self.token_mint_a.address,
            authority: Signer::Wallet(self.user),
            amount: token_a_offered_amount,
            decimals: self.token_mint_a.decimals,
        };
        self.escrow_state.state.token_mint_a = token_a_mint;
        self.escrow_state.state.token_mint_b = token_b_mint;
        self.escrow_state.state.token_b_ask_amount = token_b_ask_amount;
        self.escrow_state.state.state_bump = escrow_state_bump;
        self.escrow_state.state.index = index;
        Ok(transfer)
    }
}

} // verus!
