//! The entry points of the escrow. Each runs as one unit on the ledger: it
//! applies in full, or it fails and leaves the ledger as it was.

use crate::errors::Failure;
use crate::instructions::complete_escrow::{CompleteEscrow, CompleteKeys};
use crate::instructions::initialize_escrow::{InitializeEscrow, InitializeKeys};
use crate::instructions::refund_offer::{RefundKeys, RefundOffer};
use crate::laws::{
    balance_or_zero, law_complete_keeps_offers_open, law_initialize_keeps_offers_open,
    law_refund_keeps_offers_open,
};
use crate::ledger::{Ledger, LedgerState};
use vstd::prelude::*;

verus! {

/// The ledger after an offer is made, or why it cannot be made: the
/// accounts are resolved and the vault opened, the rules of the offer are
/// checked, the offered amount moves from the maker to the vault, and the
/// record is written.
pub open spec fn spec_initialize(
    state: LedgerState,
    keys: InitializeKeys,
    index: u64,
    token_a_offered_amount: u64,
    token_b_ask_amount: u64,
) -> Result<LedgerState, Failure> {
    match InitializeEscrow::spec_resolve(state, keys, index) {
        Err(e) => Err(Failure::Account(e)),
        Ok((opened, accounts, proof)) => match accounts.spec_create_offer(
            index,
            keys.token_mint_a,
            keys.token_mint_b,
            token_a_offered_amount,
            token_b_ask_amount,
            proof,
        ) {
            Err(e) => Err(Failure::Escrow(e)),
            Ok((written, deposit)) => match opened.transfer(deposit, keys.user) {
                Err(e) => Err(Failure::Transfer(e)),
                Ok(funded) => Ok(
                    LedgerState {
                        records: funded.records.insert(
                            written.escrow_state.address,
                            written.escrow_state.state,
                        ),
                        ..funded
                    },
                ),
            },
        },
    }
}

/// The ledger after an offer is completed, or why it cannot be: the
/// accounts are resolved, the taker's balance is checked against the
/// price, and the four legs of the settlement apply in their order.
pub open spec fn spec_complete_escrow(state: LedgerState, keys: CompleteKeys) -> Result<
    LedgerState,
    Failure,
> {
    match CompleteEscrow::spec_resolve(state, keys) {
        Err(e) => Err(Failure::Account(e)),
        Ok((opened, accounts)) => match accounts.spec_execute_offer() {
            Err(e) => Err(Failure::Escrow(e)),
            Ok(plan) => match opened.transfer(plan.release, keys.taker) {
                Err(e) => Err(Failure::Transfer(e)),
                Ok(released) => match released.transfer(plan.payment, keys.taker) {
                    Err(e) => Err(Failure::Transfer(e)),
                    Ok(paid) => match paid.close(plan.close_vault, keys.taker) {
                        Err(e) => Err(Failure::Transfer(e)),
                        Ok(closed) => match closed.close_record(plan.close_record) {
                            Err(e) => Err(Failure::Account(e)),
                            Ok(done) => Ok(done),
                        },
                    },
                },
            },
        },
    }
}

/// The ledger after an offer is cancelled, or why it cannot be: the
/// accounts are resolved and the three legs of the refund apply in their
/// order.
pub open spec fn spec_refund(state: LedgerState, keys: RefundKeys) -> Result<LedgerState, Failure> {
    match RefundOffer::spec_resolve(state, keys) {
        Err(e) => Err(Failure::Account(e)),
        Ok(accounts) => match state.transfer(accounts.spec_refund().release, keys.user) {
            Err(e) => Err(Failure::Transfer(e)),
            Ok(released) => match released.close(accounts.spec_refund().close_vault, keys.user) {
                Err(e) => Err(Failure::Transfer(e)),
                Ok(closed) => match closed.close_record(accounts.spec_refund().close_record) {
                    Err(e) => Err(Failure::Account(e)),
                    Ok(done) => Ok(done),
                },
            },
        },
    }
}

/// Makes an offer: locks `token_a_offered_amount` of the offered asset in a
/// new vault and records that `token_b_ask_amount` of the asked asset is
/// demanded for it.
pub fn initialize(
    ledger: &mut Ledger,
    keys: &InitializeKeys,
    index: u64,
    token_a_offered_amount: u64,
    token_b_ask_amount: u64,
) -> (done: Result<(), Failure>)
    ensures
        match done {
            Ok(()) => spec_initialize(
                old(ledger)@,
                *keys,
                index,
                token_a_offered_amount,
                token_b_ask_amount,
            ) == Ok::<LedgerState, Failure>(final(ledger)@),
            Err(e) => spec_initialize(
                old(ledger)@,
                *keys,
                index,
                token_a_offered_amount,
                token_b_ask_amount,
            ) == Err::<LedgerState, Failure>(e) && final(ledger)@ == old(ledger)@,
        },
        token_a_offered_amount == 0 || token_b_ask_amount == 0 ==> done is Err,
        keys.token_mint_a == keys.token_mint_b ==> done is Err,
        balance_or_zero(old(ledger)@, keys.initializer_token_account_a) <= token_a_offered_amount
            ==> done is Err,
        old(ledger)@.consistent() ==> final(ledger)@.consistent(),
{
    let mut work = ledger.snapshot();
    let (mut accounts, proof) = match InitializeEscrow::resolve(&mut work, keys, index) {
        Ok(resolved) => resolved,
        Err(e) => {
            return Err(Failure::Account(e));
        },
    };
    let deposit = match accounts.create_offer(
        index,
        keys.token_mint_a,
        keys.token_mint_b,
        token_a_offered_amount,
        token_b_ask_amount,
        proof,
    ) {
        Ok(deposit) => deposit,
        Err(e) => {
            return Err(Failure::Escrow(e));
        },
    };
    match work.apply_transfer(&deposit, &keys.user) {
        Ok(()) => {},
        Err(e) => {
            return Err(Failure::Transfer(e));
        },
    }
    work.write_record(accounts.escrow_state.address, accounts.escrow_state.state);
    proof {
        if ledger@.consistent() {
            law_initialize_keeps_offers_open(
                ledger@,
                *keys,
                index,
                token_a_offered_amount,
                token_b_ask_amount,
            );
        }
    }
    *ledger = work;
    Ok(())
}

/// Cancels an offer: what its vault holds goes to the caller's account,
/// and vault and record are destroyed in favour of the caller.
pub fn refund(ledger: &mut Ledger, keys: &RefundKeys) -> (done: Result<(), Failure>)
    ensures
        match done {
            Ok(()) => spec_refund(old(ledger)@, *keys) == Ok::<LedgerState, Failure>(final(ledger)@),
            Err(e) => spec_refund(old(ledger)@, *keys) == Err::<LedgerState, Failure>(e)
                && final(ledger)@ == old(ledger)@,
        },
        old(ledger)@.consistent() ==> final(ledger)@.consistent(),
{
    let accounts = match RefundOffer::resolve(ledger, keys) {
        Ok(accounts) => accounts,
        Err(e) => {
            return Err(Failure::Account(e));
        },
    };
    let plan = accounts.refund();
    let mut work = ledger.snapshot();
    match work.apply_transfer(&plan.release, &keys.user) {
        Ok(()) => {},
        Err(e) => {
            return Err(Failure::Transfer(e));
        },
    }
    match work.close_account(&plan.close_vault, &keys.user) {
        Ok(()) => {},
        Err(e) => {
            return Err(Failure::Transfer(e));
        },
    }
    match work.close_record(&plan.close_record) {
        Ok(()) => {},
        Err(e) => {
            return Err(Failure::Account(e));
        },
    }
    proof {
        if ledger@.consistent() {
            law_refund_keeps_offers_open(ledger@, *keys);
        }
    }
    *ledger = work;
    Ok(())
}

/// Completes an offer: what its vault holds goes to the taker, the price
/// goes from the taker to the maker, and vault and record are destroyed in
/// favour of the maker.
pub fn complete_escrow(ledger: &mut Ledger, keys: &CompleteKeys) -> (done: Result<(), Failure>)
    ensures
        match done {
            Ok(()) => spec_complete_escrow(old(ledger)@, *keys) == Ok::<LedgerState, Failure>(
                final(ledger)@,
            ),
            Err(e) => spec_complete_escrow(old(ledger)@, *keys) == Err::<LedgerState, Failure>(e)
                && final(ledger)@ == old(ledger)@,
        },
        old(ledger)@.records.contains_key(keys.escrow_state) && balance_or_zero(
            old(ledger)@,
            keys.taker_token_account_b,
        ) < old(ledger)@.records[keys.escrow_state].token_b_ask_amount ==> done is Err,
        old(ledger)@.consistent() ==> final(ledger)@.consistent(),
{
    let mut work = ledger.snapshot();
    let accounts = match CompleteEscrow::resolve(&mut work, keys) {
        Ok(accounts) => accounts,
        Err(e) => {
            return Err(Failure::Account(e));
        },
    };
    let plan = match accounts.execute_offer() {
        Ok(plan) => plan,
        Err(e) => {
            return Err(Failure::Escrow(e));
        },
    };
    match work.apply_transfer(&plan.release, &keys.taker) {
        Ok(()) => {},
        Err(e) => {
            return Err(Failure::Transfer(e));
        },
    }
    match work.apply_transfer(&plan.payment, &keys.taker) {
        Ok(()) => {},
        Err(e) => {
            return Err(Failure::Transfer(e));
        },
    }
    match work.close_account(&plan.close_vault, &keys.taker) {
        Ok(()) => {},
        Err(e) => {
            return Err(Failure::Transfer(e));
        },
    }
    match work.close_record(&plan.close_record) {
        Ok(()) => {},
        Err(e) => {
            return Err(Failure::Account(e));
        },
    }
    proof {
        if ledger@.consistent() {
            law_complete_keeps_offers_open(ledger@, *keys);
        }
    }
    *ledger = work;
    Ok(())
}

} // verus!
