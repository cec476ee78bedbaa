//! Completing an offer: the taker pays the price and receives what the
//! vault holds; vault and record are destroyed.

use crate::address::{escrow_namespace, rederive, spec_escrow_namespace, spec_rederive, Address};
use crate::errors::{AccountError, EscrowError};
use crate::ledger::{Ledger, LedgerState};
use crate::states::RecordAccount;
use crate::token::{
    CloseAccount, CloseRecord, DerivedAuthority, Mint, Signer, TokenAccount, TransferChecked,
};
use vstd::prelude::*;

verus! {

/// The addresses that a call to complete an offer names.
#[derive(Clone, Copy, Debug, PartialEq, Eq)]
pub struct CompleteKeys {
    /// The taker, who signs.
    pub taker: Address,
    /// The maker, who is paid and receives the collateral.
    pub maker: Address,
    /// The record of the offer.
    pub escrow_state: Address,
    /// The vault of the offer.
    pub token_a_vault: Address,
    /// The maker's account of the asked asset.
    pub initializer_token_account_b: Address,
    /// The taker's account of the offered asset, opened if it does not
    /// exist.
    pub taker_token_account_a: Address,
    /// The taker's account of the asked asset.
    pub taker_token_account_b: Address,
    /// The offered asset.
    pub token_mint_a: Address,
    /// The asked asset.
    pub token_mint_b: Address,
    /// The token program that keeps the accounts.
    pub token_program: Address,
}

/// The accounts on which an offer is completed, as resolved from the
/// ledger.
#[derive(Clone, Copy, Debug, PartialEq, Eq)]
pub struct CompleteEscrow {
    pub taker: Address,
    pub maker: Address,
    pub escrow_state: RecordAccount,
    pub token_a_vault: TokenAccount,
    pub initializer_token_account_b: TokenAccount,
    pub taker_token_account_a: TokenAccount,
    pub taker_token_account_b: TokenAccount,
    pub token_mint_a: Mint,
    pub token_mint_b: Mint,
    pub token_program: Address,
}

/// The four legs of a completion, in the order in which they apply. They
/// apply together or not at all.
#[derive(Clone, Copy, Debug, PartialEq, Eq)]
pub struct Settlement {
    /// The vault's whole balance goes to the taker, by the derived
    /// authority.
    pub release: TransferChecked,
    /// The price goes from the taker to the maker, by the taker's
    /// signature.
    pub payment: TransferChecked,
    /// The vault closes; its collateral goes to the maker.
    pub close_vault: CloseAccount,
    /// The record closes; its collateral goes to the maker.
    pub close_record: CloseRecord,
}

impl CompleteEscrow {
    /// What resolving the accounts of a completion gives: the ledger, with
    /// the taker's account of the offered asset opened where it did not
    /// exist, and the accounts; or the first check that fails. The record
    /// must exist and its index and proof must re-derive its address; the
    /// two mints must be those that the record names; the vault must be
    /// the associated account of the record for the offered asset, and the
    /// other accounts those of the maker and the taker for their assets.
    pub open spec fn spec_resolve(state: LedgerState, keys: CompleteKeys) -> Result<
        (LedgerState, CompleteEscrow),
        AccountError,
    > {
        if !state.records.contains_key(keys.escrow_state) {
            Err(AccountError::RecordMissing)
        } else if spec_rederive(
            spec_escrow_namespace(),
            state.records[keys.escrow_state].index,
            state.records[keys.escrow_state].state_bump,
        ) != Some(keys.escrow_state) {
            Err(AccountError::SeedsMismatch)
        } else if keys.token_program != state.token_program {
            Err(AccountError::InvalidProgram)
        } else if !state.mints.contains_key(keys.token_mint_a) || !state.mints.contains_key(
            keys.token_mint_b,
        ) {
            Err(AccountError::MintMissing)
        } else if keys.token_mint_a != state.records[keys.escrow_state].token_mint_a
            || keys.token_mint_b != state.records[keys.escrow_state].token_mint_b {
            Err(AccountError::MintMismatch)
        } else {
            match state.associated_account(
                keys.token_a_vault,
                keys.escrow_state,
                keys.token_mint_a,
            ) {
                Err(e) => Err(e),
                Ok(token_a_vault) => match state.associated_account(
                    keys.initializer_token_account_b,
                    keys.maker,
                    keys.token_mint_b,
                ) {
                    Err(e) => Err(e),
                    Ok(initializer_token_account_b) => match state.associated_account_or_open(
                        keys.taker_token_account_a,
                        keys.taker,
                        keys.token_mint_a,
                    ) {
                        Err(e) => Err(e),
                        Ok((opened, taker_token_account_a)) => match opened.associated_account(
                            keys.taker_token_account_b,
                            keys.taker,
                            keys.token_mint_b,
                        ) {
                            Err(e) => Err(e),
                            Ok(taker_token_account_b) => Ok(
                                (
                                    opened,
                                    CompleteEscrow {
                                        taker: keys.taker,
                                        maker: keys.maker,
                                        escrow_state: RecordAccount {
                                            address: keys.escrow_state,
                                            state: state.records[keys.escrow_state],
                                        },
                                        token_a_vault,
                                        initializer_token_account_b,
                                        taker_token_account_a,
                                        taker_token_account_b,
                                        token_mint_a: Mint {
                                            address: keys.token_mint_a,
                                            decimals: state.mints[keys.token_mint_a],
                                        },
                                        token_mint_b: Mint {
                                            address: keys.token_mint_b,
                                            decimals: state.mints[keys.token_mint_b],
                                        },
                                        token_program: keys.token_program,
                                    },
                                ),
                            ),
                        },
                    },
                },
            }
        }
    }

    /// Resolves the accounts of a completion, and opens the taker's
    /// account of the offered asset where it does not exist. Where a check
    /// fails the ledger is left as it was.
    pub fn resolve(ledger: &mut Ledger, keys: &CompleteKeys) -> (resolved: Result<
        CompleteEscrow,
        AccountError,
    >)
        ensures
            match resolved {
                Ok(accounts) => Self::spec_resolve(old(ledger)@, *keys) == Ok::<
                    (LedgerState, CompleteEscrow),
                    AccountError,
                >((final(ledger)@, accounts)),
                Err(e) => Self::spec_resolve(old(ledger)@, *keys) == Err::<
                    (LedgerState, CompleteEscrow),
                    AccountError,
                >(e) && final(ledger)@ == old(ledger)@,
            },
            old(ledger)@.consistent() ==> final(ledger)@.consistent(),
    {
        let state = match ledger.record(&keys.escrow_state) {
            Some(state) => state,
            None => {
                return Err(AccountError::RecordMissing);
            },
        };
        match rederive(escrow_namespace(), state.index, state.state_bump) {
            Some(address) => {
                if address != keys.escrow_state {
                    return Err(AccountError::SeedsMismatch);
                }
            },
            None => {
                return Err(AccountError::SeedsMismatch);
            },
        }
        if keys.token_program != ledger.token_program() {
            return Err(AccountError::InvalidProgram);
        }
        let token_mint_a = match ledger.known_mint(&keys.token_mint_a) {
            Ok(mint) => mint,
            Err(e) => {
                return Err(e);
            },
        };
        let token_mint_b = match ledger.known_mint(&keys.token_mint_b) {
            Ok(mint) => mint,
            Err(e) => {
                return Err(e);
            },
        };
        if keys.token_mint_a != state.token_mint_a || keys.token_mint_b != state.token_mint_b {
            return Err(AccountError::MintMismatch);
        }
        let token_a_vault = match ledger.associated_account(
            &keys.token_a_vault,
            &keys.escrow_state,
            &keys.token_mint_a,
        ) {
            Ok(account) => account,
            Err(e) => {
                return Err(e);
            },
        };
        let initializer_token_account_b = match ledger.associated_account(
            &keys.initializer_token_account_b,
            &keys.maker,
            &keys.token_mint_b,
        ) {
            Ok(account) => account,
            Err(e) => {
                return Err(e);
            },
        };
        let mut opened = ledger.snapshot();
        let taker_token_account_a = match opened.associated_account_or_open(
            &keys.taker_token_account_a,
            &keys.taker,
            &keys.token_mint_a,
        ) {
            Ok(account) => account,
            Err(e) => {
                return Err(e);
            },
        };
        let taker_token_account_b = match opened.associated_account(
            &keys.taker_token_account_b,
            &keys.taker,
            &keys.token_mint_b,
        ) {
            Ok(account) => account,
            Err(e) => {
                return Err(e);
            },
        };
        proof {
            if ledger@.consistent() {
                assert forall|record: Address| #[trigger]
                    opened@.records.contains_key(record) implies opened@.open_offer(record) by {
                    assert(ledger@.records.contains_key(record));
                    assert(ledger@.open_offer(record));
                }
            }
        }
        *ledger = opened;
        Ok(
            CompleteEscrow {
                taker: keys.taker,
                maker: keys.maker,
                escrow_state: RecordAccount { address: keys.escrow_state, state },
                token_a_vault,
                initializer_token_account_b,
                taker_token_account_a,
                taker_token_account_b,
                token_mint_a,
                token_mint_b,
                token_program: keys.token_program,
            },
        )
    }

    /// The derived authority of the offer, which controls the vault.
    pub open spec fn authority(self) -> DerivedAuthority {
        DerivedAuthority {
            address: self.escrow_state.address,
            index: self.escrow_state.state.index,
            proof: self.escrow_state.state.state_bump,
        }
    }

    /// The four legs that complete the offer on these accounts.
    pub open spec fn settlement(self) -> Settlement {
        Settlement {
            release: TransferChecked {
                from: self.token_a_vault.address,
                to: self.taker_token_account_a.address,
                mint: self.token_mint_a.address,
                authority: Signer::Escrow(self.authority()),
                amount: self.token_a_vault.amount,
                decimals: self.token_mint_a.decimals,
            },
            payment: TransferChecked {
                from: self.taker_token_account_b.address,
                to: self.initializer_token_account_b.address,
                mint: self.token_mint_b.address,
                authority: Signer::Wallet(self.taker),
                amount: self.escrow_state.state.token_b_ask_amount,
                decimals: self.token_mint_b.decimals,
            },
            close_vault: CloseAccount {
                account: self.token_a_vault.address,
                destination: self.maker,
                authority: Signer::Escrow(self.authority()),
            },
            close_record: CloseRecord {
                record: self.escrow_state.address,
                beneficiary: self.maker,
            },
        }
    }

    /// What completing the offer decides: its four legs where the taker
    /// holds at least the price, else the error.
    pub open spec fn spec_execute_offer(self) -> Result<Settlement, EscrowError> {
        if self.taker_token_account_b.amount >= self.escrow_state.state.token_b_ask_amount {
            Ok(self.settlement())
        } else {
            Err(EscrowError::InsufficientTakerBalance)
        }
    }

    /// Checks that the taker holds the price and returns the four legs of
    /// the completion: the vault's whole balance to the taker, the price
    /// to the maker, and the closing of vault and record in favour of the
    /// maker.
    pub fn execute_offer(&self) -> (offer: Result<Settlement, EscrowError>)
        ensures
            offer == self.spec_execute_offer(),
            offer is Ok <==> self.taker_token_account_b.amount
                >= self.escrow_state.state.token_b_ask_amount,
    {
        if self.taker_token_account_b.amount < self.escrow_state.state.token_b_ask_amount {
            return Err(EscrowError::InsufficientTakerBalance);
        }
        let authority = Signer::Escrow(
            DerivedAuthority {
                address: self.escrow_state.address,
                index: self.escrow_state.state.index,
                proof: self.escrow_state.state.state_bump,
            },
        );
        Ok(
            Settlement {
                release: TransferChecked {
                    from: self.token_a_vault.address,
                    to: self.taker_token_account_a.address,
                    mint: self.token_mint_a.address,
                    authority,
                    amount: self.token_a_vault.amount,
                    decimals: self.token_mint_a.decimals,
                },
                payment: TransferChecked {
                    from: self.taker_token_account_b.address,
                    to: self.initializer_token_account_b.address,
                    mint: self.token_mint_b.address,
                    authority: Signer::Wallet(self.taker),
                    amount: self.escrow_state.state.token_b_ask_amount,
                    decimals: self.token_mint_b.decimals,
                },
                close_vault: CloseAccount {
                    account: self.token_a_vault.address,
                    destination: self.maker,
                    authority,
                },
                close_record: CloseRecord {
                    record: self.escrow_state.address,
                    beneficiary: self.maker,
                },
            },
        )
    }
}

} // verus!
