//! What holds of the three operations, proved from their definitions.

use crate::address::{
    spec_associated_token_address, spec_derive_address, spec_escrow_namespace, Address,
};
use crate::errors::{AccountError, EscrowError, Failure};
use crate::instructions::complete_escrow::{CompleteEscrow, CompleteKeys};
use crate::instructions::initialize_escrow::{InitializeEscrow, InitializeKeys};
use crate::instructions::refund_offer::{RefundKeys, RefundOffer};
use crate::ledger::LedgerState;
use crate::program::{spec_complete_escrow, spec_initialize, spec_refund};
use crate::states::EscrowState;
use crate::token::TransferChecked;
use vstd::prelude::*;

verus! {

/// The balance of the token account at `address`, zero where none lives
/// there.
pub open spec fn balance_or_zero(state: LedgerState, address: Address) -> int {
    if state.tokens.contains_key(address) {
        state.tokens[address].amount as int
    } else {
        0
    }
}

/// Making an offer succeeds whenever its accounts resolve, both amounts
/// are positive, the two assets differ and the maker holds more than the
/// amount offered. Afterwards the vault holds exactly the amount offered
/// for the record's authority, the maker holds that much less, the record
/// holds the arguments of the call, and nothing else has changed.
pub proof fn law_initialize_locks_offer(
    state: LedgerState,
    keys: InitializeKeys,
    index: u64,
    token_a_offered_amount: u64,
    token_b_ask_amount: u64,
)
    requires
        InitializeEscrow::spec_resolve(state, keys, index) is Ok,
        token_a_offered_amount > 0,
        token_b_ask_amount > 0,
        keys.token_mint_a != keys.token_mint_b,
        state.tokens[keys.initializer_token_account_a].amount > token_a_offered_amount,
    ensures
        spec_initialize(state, keys, index, token_a_offered_amount, token_b_ask_amount) matches Ok(
            after,
        ) && spec_derive_address(spec_escrow_namespace(), index) matches Some((address, proof)) && {
            &&& address == keys.escrow_state
            &&& after.tokens.contains_key(keys.token_a_vault)
            &&& after.tokens[keys.token_a_vault].amount == token_a_offered_amount
            &&& after.tokens[keys.token_a_vault].mint == keys.token_mint_a
            &&& after.tokens[keys.token_a_vault].owner == keys.escrow_state
            &&& after.tokens.contains_key(keys.initializer_token_account_a)
            &&& after.tokens[keys.initializer_token_account_a].amount
                == state.tokens[keys.initializer_token_account_a].amount - token_a_offered_amount
            &&& after.records.contains_key(keys.escrow_state)
            &&& after.records[keys.escrow_state] == (EscrowState {
                token_mint_a: keys.token_mint_a,
                token_mint_b: keys.token_mint_b,
                token_b_ask_amount,
                index,
                state_bump: proof,
            })
            &&& after.tokens.remove(keys.token_a_vault).remove(keys.initializer_token_account_a)
                == state.tokens.remove(keys.initializer_token_account_a)
            &&& after.records.remove(keys.escrow_state) == state.records
            &&& after.mints == state.mints
            &&& after.token_program == state.token_program
        },
{
    let resolved = InitializeEscrow::spec_resolve(state, keys, index)->Ok_0;
    let opened = resolved.0;
    let accounts = resolved.1;
    let offer = accounts.spec_create_offer(
        index,
        keys.token_mint_a,
        keys.token_mint_b,
        token_a_offered_amount,
        token_b_ask_amount,
        resolved.2,
    );
    assert(offer is Ok);
    let deposit = offer->Ok_0.1;
    assert(opened.transfer(deposit, keys.user) is Ok);
    let after = spec_initialize(
        state,
        keys,
        index,
        token_a_offered_amount,
        token_b_ask_amount,
    )->Ok_0;
    assert(after.tokens.remove(keys.token_a_vault).remove(keys.initializer_token_account_a)
        =~= state.tokens.remove(keys.initializer_token_account_a));
    assert(after.records.remove(keys.escrow_state) =~= state.records);
}

/// An offer of an asset for itself is never made, whatever else holds.
/// Where its accounts resolve and both amounts are positive, the error is
/// that of the mint's identity.
pub proof fn law_initialize_rejects_same_mint(
    state: LedgerState,
    keys: InitializeKeys,
    index: u64,
    token_a_offered_amount: u64,
    token_b_ask_amount: u64,
)
    requires
        keys.token_mint_a == keys.token_mint_b,
    ensures
        spec_initialize(state, keys, index, token_a_offered_amount, token_b_ask_amount) is Err,
        InitializeEscrow::spec_resolve(state, keys, index) is Ok && token_a_offered_amount > 0
            && token_b_ask_amount > 0 ==> spec_initialize(
            state,
            keys,
            index,
            token_a_offered_amount,
            token_b_ask_amount,
        ) == Err::<LedgerState, Failure>(Failure::Escrow(EscrowError::InvalidTokenMint)),
{
}

/// An offer of all that the maker holds, or of more, is never made: the
/// maker must hold more than the amount offered. Where the accounts
/// resolve, both amounts are positive and the assets differ, the error is
/// that of the maker's balance.
pub proof fn law_initialize_rejects_whole_balance(
    state: LedgerState,
    keys: InitializeKeys,
    index: u64,
    token_a_offered_amount: u64,
    token_b_ask_amount: u64,
)
    requires
        balance_or_zero(state, keys.initializer_token_account_a) <= token_a_offered_amount,
    ensures
        spec_initialize(state, keys, index, token_a_offered_amount, token_b_ask_amount) is Err,
        InitializeEscrow::spec_resolve(state, keys, index) is Ok && token_a_offered_amount > 0
            && token_b_ask_amount > 0 && keys.token_mint_a != keys.token_mint_b ==> spec_initialize(
            state,
            keys,
            index,
            token_a_offered_amount,
            token_b_ask_amount,
        ) == Err::<LedgerState, Failure>(
            Failure::Escrow(EscrowError::InsufficientInitiatorBalance),
        ),
{
}

/// A taker who holds less than the price never completes an offer. Where
/// the accounts resolve, the error is that of the taker's balance.
pub proof fn law_complete_rejects_underfunded_taker(state: LedgerState, keys: CompleteKeys)
    requires
        state.records.contains_key(keys.escrow_state),
        balance_or_zero(state, keys.taker_token_account_b)
            < state.records[keys.escrow_state].token_b_ask_amount,
    ensures
        spec_complete_escrow(state, keys) is Err,
        CompleteEscrow::spec_resolve(state, keys) is Ok ==> spec_complete_escrow(state, keys)
            == Err::<LedgerState, Failure>(Failure::Escrow(EscrowError::InsufficientTakerBalance)),
{
}

/// Completing an open offer succeeds whenever its accounts resolve, the
/// taker holds the price, maker, taker and the record's authority are three
/// parties, the two assets differ, and no balance outgrows what an account
/// can hold. Afterwards the taker holds more of the offered asset by what
/// the vault held, the maker holds more of the asked asset by the price,
/// the taker holds less of it by the price, and vault and record are gone.
pub proof fn law_complete_settles(state: LedgerState, keys: CompleteKeys)
    requires
        CompleteEscrow::spec_resolve(state, keys) is Ok,
        state.tokens[keys.taker_token_account_b].amount
            >= state.records[keys.escrow_state].token_b_ask_amount,
        keys.maker != keys.taker,
        keys.taker != keys.escrow_state,
        keys.token_mint_a != keys.token_mint_b,
        balance_or_zero(state, keys.taker_token_account_a) + state.tokens[keys.token_a_vault].amount
            <= u64::MAX,
        state.tokens[keys.initializer_token_account_b].amount
            + state.records[keys.escrow_state].token_b_ask_amount <= u64::MAX,
    ensures
        spec_complete_escrow(state, keys) matches Ok(after) && {
            &&& after.tokens.contains_key(keys.taker_token_account_a)
            &&& after.tokens[keys.taker_token_account_a].amount == balance_or_zero(
                state,
                keys.taker_token_account_a,
            ) + state.tokens[keys.token_a_vault].amount
            &&& after.tokens.contains_key(keys.initializer_token_account_b)
            &&& after.tokens[keys.initializer_token_account_b].amount
                == state.tokens[keys.initializer_token_account_b].amount
                + state.records[keys.escrow_state].token_b_ask_amount
            &&& after.tokens.contains_key(keys.taker_token_account_b)
            &&& after.tokens[keys.taker_token_account_b].amount
                == state.tokens[keys.taker_token_account_b].amount
                - state.records[keys.escrow_state].token_b_ask_amount
            &&& !after.tokens.contains_key(keys.token_a_vault)
            &&& !after.records.contains_key(keys.escrow_state)
            &&& after.records == state.records.remove(keys.escrow_state)
            &&& after.mints == state.mints
        },
{
    let resolved = CompleteEscrow::spec_resolve(state, keys)->Ok_0;
    let opened = resolved.0;
    let accounts = resolved.1;
    let plan = accounts.settlement();
    assert(accounts.spec_execute_offer() == Ok::<_, EscrowError>(plan));
    assert(opened.tokens[keys.token_a_vault] == state.tokens[keys.token_a_vault]);
    assert(opened.tokens[keys.taker_token_account_a].amount == balance_or_zero(
        state,
        keys.taker_token_account_a,
    ));
    assert(keys.token_a_vault != keys.taker_token_account_a);
    assert(opened.transfer(plan.release, keys.taker) is Ok);
    let released = opened.transfer(plan.release, keys.taker)->Ok_0;
    assert(released.tokens[keys.taker_token_account_b] == state.tokens[keys.taker_token_account_b]);
    assert(released.tokens[keys.initializer_token_account_b]
        == state.tokens[keys.initializer_token_account_b]);
    assert(released.transfer(plan.payment, keys.taker) is Ok);
    let paid = released.transfer(plan.payment, keys.taker)->Ok_0;
    assert(paid.close(plan.close_vault, keys.taker) is Ok);
}

/// Cancelling an open offer succeeds whenever its accounts resolve, the
/// caller is not the record's own authority, and the caller's balance does
/// not outgrow what an account can hold. Afterwards the caller holds more
/// of the offered asset by what the vault held, and vault and record are
/// gone. Nothing asks that the caller be the maker of the offer.
pub proof fn law_refund_returns_vault(state: LedgerState, keys: RefundKeys)
    requires
        RefundOffer::spec_resolve(state, keys) is Ok,
        keys.user != keys.escrow_state,
        state.tokens[keys.initializer_token_account_a].amount
            + state.tokens[keys.token_a_vault].amount <= u64::MAX,
    ensures
        spec_refund(state, keys) matches Ok(after) && {
            &&& after.tokens.contains_key(keys.initializer_token_account_a)
            &&& after.tokens[keys.initializer_token_account_a].amount
                == state.tokens[keys.initializer_token_account_a].amount
                + state.tokens[keys.token_a_vault].amount
            &&& !after.tokens.contains_key(keys.token_a_vault)
            &&& !after.records.contains_key(keys.escrow_state)
            &&& after.tokens.remove(keys.initializer_token_account_a) == state.tokens.remove(
                keys.token_a_vault,
            ).remove(keys.initializer_token_account_a)
            &&& after.records == state.records.remove(keys.escrow_state)
            &&& after.mints == state.mints
        },
{
    let accounts = RefundOffer::spec_resolve(state, keys)->Ok_0;
    let plan = accounts.spec_refund();
    assert(keys.token_a_vault != keys.initializer_token_account_a);
    assert(state.transfer(plan.release, keys.user) is Ok);
    let released = state.transfer(plan.release, keys.user)->Ok_0;
    assert(released.close(plan.close_vault, keys.user) is Ok);
    let after = spec_refund(state, keys)->Ok_0;
    assert(after.tokens.remove(keys.initializer_token_account_a) =~= state.tokens.remove(
        keys.token_a_vault,
    ).remove(keys.initializer_token_account_a));
}

/// Once an offer is completed it is gone: to complete it again, or to
/// cancel it, fails because no record lives at its address.
pub proof fn law_completed_offer_is_closed(
    state: LedgerState,
    keys: CompleteKeys,
    again: CompleteKeys,
    cancel: RefundKeys,
)
    requires
        spec_complete_escrow(state, keys) is Ok,
        again.escrow_state == keys.escrow_state,
        cancel.escrow_state == keys.escrow_state,
    ensures
        spec_complete_escrow(spec_complete_escrow(state, keys)->Ok_0, again) == Err::<
            LedgerState,
            Failure,
        >(Failure::Account(AccountError::RecordMissing)),
        spec_refund(spec_complete_escrow(state, keys)->Ok_0, cancel) == Err::<LedgerState, Failure>(
            Failure::Account(AccountError::RecordMissing),
        ),
{
}

/// Once an offer is cancelled it is gone: to cancel it again, or to
/// complete it, fails because no record lives at its address.
pub proof fn law_refunded_offer_is_closed(
    state: LedgerState,
    keys: RefundKeys,
    again: RefundKeys,
    complete: CompleteKeys,
)
    requires
        spec_refund(state, keys) is Ok,
        again.escrow_state == keys.escrow_state,
        complete.escrow_state == keys.escrow_state,
    ensures
        spec_refund(spec_refund(state, keys)->Ok_0, again) == Err::<LedgerState, Failure>(
            Failure::Account(AccountError::RecordMissing),
        ),
        spec_complete_escrow(spec_refund(state, keys)->Ok_0, complete) == Err::<
            LedgerState,
            Failure,
        >(Failure::Account(AccountError::RecordMissing)),
{
}

/// Making an offer keeps every record an open offer in good order, the
/// new one among them.
pub proof fn law_initialize_keeps_offers_open(
    state: LedgerState,
    keys: InitializeKeys,
    index: u64,
    token_a_offered_amount: u64,
    token_b_ask_amount: u64,
)
    requires
        state.consistent(),
        spec_initialize(state, keys, index, token_a_offered_amount, token_b_ask_amount) is Ok,
    ensures
        spec_initialize(
            state,
            keys,
            index,
            token_a_offered_amount,
            token_b_ask_amount,
        )->Ok_0.consistent(),
        spec_initialize(
            state,
            keys,
            index,
            token_a_offered_amount,
            token_b_ask_amount,
        )->Ok_0.records.contains_key(keys.escrow_state),
{
    let after = spec_initialize(
        state,
        keys,
        index,
        token_a_offered_amount,
        token_b_ask_amount,
    )->Ok_0;
    assert forall|address: Address| #[trigger]
        after.records.contains_key(address) implies after.open_offer(address) by {
        if address != keys.escrow_state {
            assert(state.records.contains_key(address));
            assert(state.open_offer(address));
        }
    }
}

/// Completing an offer keeps every other record an open offer in good
/// order.
pub proof fn law_complete_keeps_offers_open(state: LedgerState, keys: CompleteKeys)
    requires
        state.consistent(),
        spec_complete_escrow(state, keys) is Ok,
    ensures
        spec_complete_escrow(state, keys)->Ok_0.consistent(),
{
    let after = spec_complete_escrow(state, keys)->Ok_0;
    assert forall|address: Address| #[trigger]
        after.records.contains_key(address) implies after.open_offer(address) by {
        assert(state.records.contains_key(address));
        assert(state.open_offer(address));
    }
}

/// Cancelling an offer keeps every other record an open offer in good
/// order.
pub proof fn law_refund_keeps_offers_open(state: LedgerState, keys: RefundKeys)
    requires
        state.consistent(),
        spec_refund(state, keys) is Ok,
    ensures
        spec_refund(state, keys)->Ok_0.consistent(),
{
    let after = spec_refund(state, keys)->Ok_0;
    assert forall|address: Address| #[trigger]
        after.records.contains_key(address) implies after.open_offer(address) by {
        assert(state.records.contains_key(address));
        assert(state.open_offer(address));
    }
}

/// Whether every record that lives in both states is the same in both.
pub open spec fn records_kept(before: LedgerState, after: LedgerState) -> bool {
    forall|address: Address|
        before.records.contains_key(address) && #[trigger] after.records.contains_key(address)
            ==> after.records[address] == before.records[address]
}

/// Whether the vault of the open offer at `record` holds in `after` at
/// least what it holds in `before`.
pub open spec fn vault_not_drawn_on(before: LedgerState, after: LedgerState, record: Address) -> bool {
    let vault = spec_associated_token_address(
        record,
        before.records[record].token_mint_a,
        before.token_program,
    )->Some_0;
    after.tokens.contains_key(vault) && after.tokens[vault].amount >= before.tokens[vault].amount
}

/// A record is written once: no operation changes a record that stays.
pub proof fn law_records_are_never_rewritten(
    state: LedgerState,
    making: InitializeKeys,
    index: u64,
    token_a_offered_amount: u64,
    token_b_ask_amount: u64,
    completing: CompleteKeys,
    cancelling: RefundKeys,
)
    ensures
        spec_initialize(state, making, index, token_a_offered_amount, token_b_ask_amount) matches Ok(
            after,
        ) ==> records_kept(state, after),
        spec_complete_escrow(state, completing) matches Ok(after) ==> records_kept(state, after),
        spec_refund(state, cancelling) matches Ok(after) ==> records_kept(state, after),
{
}

/// Only the escrow draws on a vault: a transfer that a wallet submits
/// takes nothing from the vault of an open offer, unless the offer's own
/// address signed the transaction.
pub proof fn law_wallets_do_not_draw_on_vaults(
    state: LedgerState,
    t: TransferChecked,
    payer: Address,
    record: Address,
)
    requires
        state.consistent(),
        state.records.contains_key(record),
        payer != record,
        state.wallet_transfer(t, payer) is Ok,
    ensures
        vault_not_drawn_on(state, state.wallet_transfer(t, payer)->Ok_0, record),
{
    assert(state.open_offer(record));
}

/// Making an offer takes nothing from the vault of another open offer,
/// unless that offer's own address signed as the maker.
pub proof fn law_initialize_spares_other_vaults(
    state: LedgerState,
    keys: InitializeKeys,
    index: u64,
    token_a_offered_amount: u64,
    token_b_ask_amount: u64,
    record: Address,
)
    requires
        state.consistent(),
        state.records.contains_key(record),
        keys.user != record,
        spec_initialize(state, keys, index, token_a_offered_amount, token_b_ask_amount) is Ok,
    ensures
        vault_not_drawn_on(
            state,
            spec_initialize(state, keys, index, token_a_offered_amount, token_b_ask_amount)->Ok_0,
            record,
        ),
{
    assert(state.open_offer(record));
}

/// Completing an offer takes nothing from the vault of another open
/// offer, unless that offer's own address signed as the taker.
pub proof fn law_complete_spares_other_vaults(
    state: LedgerState,
    keys: CompleteKeys,
    record: Address,
)
    requires
        state.consistent(),
        state.records.contains_key(record),
        keys.escrow_state != record,
        keys.taker != record,
        spec_complete_escrow(state, keys) is Ok,
    ensures
        vault_not_drawn_on(state, spec_complete_escrow(state, keys)->Ok_0, record),
{
    assert(state.open_offer(record));
}

/// Cancelling an offer takes nothing from the vault of another open offer.
pub proof fn law_refund_spares_other_vaults(state: LedgerState, keys: RefundKeys, record: Address)
    requires
        state.consistent(),
        state.records.contains_key(record),
        keys.escrow_state != record,
        spec_refund(state, keys) is Ok,
    ensures
        vault_not_drawn_on(state, spec_refund(state, keys)->Ok_0, record),
{
    assert(state.open_offer(record));
}

} // verus!
