//! Cancelling an offer: what the vault holds goes back to the caller;
//! vault and record are destroyed.

use crate::address::{escrow_namespace, rederive, spec_escrow_namespace, spec_rederive, Address};
use crate::errors::AccountError;
use crate::ledger::{Ledger, LedgerState};
use crate::states::RecordAccount;
use crate::token::{
    CloseAccount, CloseRecord, DerivedAuthority, Mint, Signer, TokenAccount, TransferChecked,
};
use vstd::prelude::*;

verus! {

/// The addresses that a call to cancel an offer names.
#[derive(Clone, Copy, Debug, PartialEq, Eq)]
pub struct RefundKeys {
    /// The caller, who signs. Nothing binds the caller to the maker of the
    /// offer.
    pub user: Address,
    /// The record of the offer.
    pub escrow_state: Address,
    /// The vault of the offer.
    pub token_a_vault: Address,
    /// The caller's account of the offered asset.
    pub initializer_token_account_a: Address,
    /// The offered asset.
    pub token_mint_a: Address,
    /// The token program that keeps the accounts.
    pub token_program: Address,
}

/// The accounts on which an offer is cancelled, as resolved from the
/// ledger.
#[derive(Clone, Copy, Debug, PartialEq, Eq)]
pub struct RefundOffer {
    pub user: Address,
    pub escrow_state: RecordAccount,
    pub token_a_vault: TokenAccount,
    pub initializer_token_account_a: TokenAccount,
    pub token_mint_a: Mint,
    pub token_program: Address,
}

/// The three legs of a cancellation, in the order in which they apply.
/// They apply together or not at all.
#[derive(Clone, Copy, Debug, PartialEq, Eq)]
pub struct Refund {
    /// The vault's whole balance goes to the caller, by the derived
    /// authority.
    pub release: TransferChecked,
    /// The vault closes; its collateral goes to the caller.
    pub close_vault: CloseAccount,
    /// The record closes; its collateral goes to the caller.
    pub close_record: CloseRecord,
}

impl RefundOffer {
    /// What resolving the accounts of a cancellation gives: the accounts,
    /// or the first check that fails. The record must exist and its index
    /// and proof must re-derive its address; the mint must be the offered
    /// asset that the record names; the vault must be the associated
    /// account of the record for it, and the caller's account that of the
    /// caller.
    pub open spec fn spec_resolve(state: LedgerState, keys: RefundKeys) -> Result<
        RefundOffer,
        AccountError,
    > {
        if !state.records.contains_key(keys.escrow_state) {
            Err(AccountError::RecordMissing)
        } else if spec_rederive(
            spec_escrow_namespace(),
            state.records[keys.escrow_state].index,
            state.records[keys.escrow_state].state_bump,
        ) != Some(keys.escrow_state) {
            Err(AccountError::SeedsMismatch)
        } else if keys.token_program != state.token_program {
            Err(AccountError::InvalidProgram)
        } else if !state.mints.contains_key(keys.token_mint_a) {
            Err(AccountError::MintMissing)
        } else if keys.token_mint_a != state.records[keys.escrow_state].token_mint_a {
            Err(AccountError::MintMismatch)
        } else {
            match state.associated_account(
                keys.token_a_vault,
                keys.escrow_state,
                keys.token_mint_a,
            ) {
                Err(e) => Err(e),
                Ok(token_a_vault) => match state.associated_account(
                    keys.initializer_token_account_a,
                    keys.user,
                    keys.token_mint_a,
                ) {
                    Err(e) => Err(e),
                    Ok(initializer_token_account_a) => Ok(
                        RefundOffer {
                            user: keys.user,
                            escrow_state: RecordAccount {
                                address: keys.escrow_state,
                                state: state.records[keys.escrow_state],
                            },
                            token_a_vault,
                            initializer_token_account_a,
                            token_mint_a: Mint {
                                address: keys.token_mint_a,
                                decimals: state.mints[keys.token_mint_a],
                            },
                            token_program: keys.token_program,
                        },
                    ),
                },
            }
        }
    }

    /// Resolves the accounts of a cancellation.
    pub fn resolve(ledger: &Ledger, keys: &RefundKeys) -> (resolved: Result<
        RefundOffer,
        AccountError,
    >)
        ensures
            resolved == Self::spec_resolve(ledger@, *keys),
    {
        let state = match ledger.record(&keys.escrow_state) {
            Some(state) => state,
            None => {
                return Err(AccountError::RecordMissing);
            },
        };
        match rederive(escrow_namespace(), state.index, state.state_bump) {
            Some(address) => {
                if address != keys.escrow_state {
                    return Err(AccountError::SeedsMismatch);
                }
            },
            None => {
                return Err(AccountError::SeedsMismatch);
            },
        }
        if keys.token_program != ledger.token_program() {
            return Err(AccountError::InvalidProgram);
        }
        let token_mint_a = match ledger.known_mint(&keys.token_mint_a) {
            Ok(mint) => mint,
            Err(e) => {
                return Err(e);
            },
        };
        if keys.token_mint_a != state.token_mint_a {
            return Err(AccountError::MintMismatch);
        }
        let token_a_vault = match ledger.associated_account(
            &keys.token_a_vault,
            &keys.escrow_state,
            &keys.token_mint_a,
        ) {
            Ok(account) => account,
            Err(e) => {
                return Err(e);
            },
        };
        let initializer_token_account_a = match ledger.associated_account(
            &keys.initializer_token_account_a,
            &keys.user,
            &keys.token_mint_a,
        ) {
            Ok(account) => account,
            Err(e) => {
                return Err(e);
            },
        };
        Ok(
            RefundOffer {
                user: keys.user,
                escrow_state: RecordAccount { address: keys.escrow_state, state },
                token_a_vault,
                initializer_token_account_a,
                token_mint_a,
                token_program: keys.token_program,
            },
        )
    }

    /// The derived authority of the offer, which controls the vault.
    pub open spec fn authority(self) -> DerivedAuthority {
        DerivedAuthority {
            address: self.escrow_state.address,
            index: self.escrow_state.state.index,
            proof: self.escrow_state.state.state_bump,
        }
    }

    /// The three legs that cancel the offer on these accounts.
    pub open spec fn spec_refund(self) -> Refund {
        Refund {
            release: TransferChecked {
                from: self.token_a_vault.address,
                to: self.initializer_token_account_a.address,
                mint: self.token_mint_a.address,
                authority: Signer::Escrow(self.authority()),
                amount: self.token_a_vault.amount,
                decimals: self.token_mint_a.decimals,
            },
            close_vault: CloseAccount {
                account: self.token_a_vault.address,
                destination: self.user,
                authority: Signer::Escrow(self.authority()),
            },
            close_record: CloseRecord {
                record: self.escrow_state.address,
                beneficiary: self.user,
            },
        }
    }

    /// Returns the three legs of the cancellation: the vault's whole
    /// balance to the caller, and the closing of vault and record in favour
    /// of the caller.
    pub fn refund(&self) -> (plan: Refund)
        ensures
            plan == self.spec_refund(),
    {
        let authority = Signer::Escrow(
            DerivedAuthority {
                address: self.escrow_state.address,
                index: self.escrow_state.state.index,
                proof: self.escrow_state.state.state_bump,
            },
        );
        Refund {
            release: TransferChecked {
                from: self.token_a_vault.address,
                to: self.initializer_token_account_a.address,
                mint: self.token_mint_a.address,
                authority,
                amount: self.token_a_vault.amount,
                decimals: self.token_mint_a.decimals,
            },
            close_vault: CloseAccount {
                account: self.token_a_vault.address,
                destination: self.user,
                authority,
            },
            close_record: CloseRecord {
                record: self.escrow_state.address,
                beneficiary: self.user,
            },
        }
    }
}

} // verus!
