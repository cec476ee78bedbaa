use escrow::address::{associated_token_address, derive_address, escrow_namespace};
use escrow::{
    complete_escrow, initialize, refund, AccountError, Address, CompleteEscrow, CompleteKeys,
    EscrowError, EscrowState, Failure, InitializeEscrow, InitializeKeys, Ledger, Mint,
    RecordAccount, RefundKeys, RefundOffer, TokenAccount, TransferError,
};

fn wallet(tag: u8) -> Address {
    Address { bytes: [tag; 32] }
}

fn token_program() -> Address {
    Address { bytes: anchor_spl::token::ID.to_bytes() }
}

struct World {
    ledger: Ledger,
    maker: Address,
    taker: Address,
    mint_a: Address,
    mint_b: Address,
    maker_a: Address,
    maker_b: Address,
    taker_b: Address,
}

fn world(maker_holds_a: u64, taker_holds_b: u64) -> World {
    let mut ledger = Ledger::new(token_program());
    let maker = wallet(1);
    let taker = wallet(2);
    let mint_a = wallet(10);
    let mint_b = wallet(11);
    ledger.create_mint(mint_a, 6).unwrap();
    ledger.create_mint(mint_b, 9).unwrap();
    let maker_a = ledger.create_token_account(&maker, &mint_a).unwrap();
    let maker_b = ledger.create_token_account(&maker, &mint_b).unwrap();
    let taker_b = ledger.create_token_account(&taker, &mint_b).unwrap();
    ledger.mint_to(&maker_a, maker_holds_a).unwrap();
    ledger.mint_to(&taker_b, taker_holds_b).unwrap();
    World { ledger, maker, taker, mint_a, mint_b, maker_a, maker_b, taker_b }
}

fn record_address(index: u64) -> Address {
    derive_address(escrow_namespace(), index).unwrap().0
}

fn vault_address(w: &World, index: u64) -> Address {
    associated_token_address(&record_address(index), &w.mint_a, &token_program()).unwrap()
}

fn taker_a_address(w: &World) -> Address {
    associated_token_address(&w.taker, &w.mint_a, &token_program()).unwrap()
}

fn initialize_keys(w: &World, index: u64) -> InitializeKeys {
    InitializeKeys {
        user: w.maker,
        escrow_state: record_address(index),
        token_a_vault: vault_address(w, index),
        initializer_token_account_a: w.maker_a,
        token_mint_a: w.mint_a,
        token_mint_b: w.mint_b,
        token_program: token_program(),
    }
}

fn complete_keys(w: &World, index: u64) -> CompleteKeys {
    CompleteKeys {
        taker: w.taker,
        maker: w.maker,
        escrow_state: record_address(index),
        token_a_vault: vault_address(w, index),
        initializer_token_account_b: w.maker_b,
        taker_token_account_a: taker_a_address(w),
        taker_token_account_b: w.taker_b,
        token_mint_a: w.mint_a,
        token_mint_b: w.mint_b,
        token_program: token_program(),
    }
}

fn refund_keys(w: &World, index: u64) -> RefundKeys {
    RefundKeys {
        user: w.maker,
        escrow_state: record_address(index),
        token_a_vault: vault_address(w, index),
        initializer_token_account_a: w.maker_a,
        token_mint_a: w.mint_a,
        token_program: token_program(),
    }
}

fn initialize_at(w: &mut World, index: u64, offered: u64, asked: u64) -> Result<(), Failure> {
    let keys = initialize_keys(w, index);
    initialize(&mut w.ledger, &keys, index, offered, asked)
}

fn complete_at(w: &mut World, index: u64) -> Result<(), Failure> {
    let keys = complete_keys(w, index);
    complete_escrow(&mut w.ledger, &keys)
}

fn refund_at(w: &mut World, index: u64) -> Result<(), Failure> {
    let keys = refund_keys(w, index);
    refund(&mut w.ledger, &keys)
}

/// Every balance and record that the tests look at, to tell whether a
/// failed call changed anything.
fn picture(w: &World, index: u64) -> Vec<Option<u64>> {
    vec![
        w.ledger.balance(&w.maker_a),
        w.ledger.balance(&w.maker_b),
        w.ledger.balance(&w.taker_b),
        w.ledger.balance(&taker_a_address(w)),
        w.ledger.balance(&vault_address(w, index)),
        w.ledger.record(&record_address(index)).map(|r| r.token_b_ask_amount),
    ]
}

#[test]
fn lock_1000_ask_500_then_complete() {
    let mut w = world(5000, 800);
    let keys = initialize_keys(&w, 7);
    assert_eq!(initialize(&mut w.ledger, &keys, 7, 1000, 500), Ok(()));
    assert_eq!(w.ledger.balance(&keys.token_a_vault), Some(1000));
    assert_eq!(w.ledger.balance(&w.maker_a), Some(4000));

    let complete = complete_keys(&w, 7);
    assert_eq!(complete_escrow(&mut w.ledger, &complete), Ok(()));
    assert_eq!(w.ledger.balance(&complete.taker_token_account_a), Some(1000));
    assert_eq!(w.ledger.balance(&w.taker_b), Some(300));
    assert_eq!(w.ledger.balance(&w.maker_b), Some(500));
    assert_eq!(w.ledger.balance(&w.maker_a), Some(4000));
    assert_eq!(w.ledger.balance(&keys.token_a_vault), None);
    assert_eq!(w.ledger.token_account(&keys.token_a_vault), None);
    assert_eq!(w.ledger.record(&keys.escrow_state), None);

    assert_eq!(
        complete_escrow(&mut w.ledger, &complete),
        Err(Failure::Account(AccountError::RecordMissing))
    );
    let cancel = refund_keys(&w, 7);
    assert_eq!(refund(&mut w.ledger, &cancel), Err(Failure::Account(AccountError::RecordMissing)));
}

#[test]
fn complete_with_exactly_the_price() {
    let mut w = world(5000, 500);
    let keys = initialize_keys(&w, 7);
    initialize(&mut w.ledger, &keys, 7, 1000, 500).unwrap();
    assert_eq!(complete_at(&mut w, 7), Ok(()));
    assert_eq!(w.ledger.balance(&w.taker_b), Some(0));
    assert_eq!(w.ledger.balance(&w.maker_b), Some(500));
}

#[test]
fn initialize_writes_the_record_and_fills_the_vault() {
    let mut w = world(5000, 800);
    let keys = initialize_keys(&w, 3);
    assert_eq!(initialize(&mut w.ledger, &keys, 3, 1, 2), Ok(()));
    let (address, proof) = derive_address(escrow_namespace(), 3).unwrap();
    assert_eq!(address, keys.escrow_state);
    assert_eq!(
        w.ledger.record(&keys.escrow_state),
        Some(EscrowState {
            token_mint_a: w.mint_a,
            token_mint_b: w.mint_b,
            token_b_ask_amount: 2,
            index: 3,
            state_bump: proof,
        })
    );
    assert_eq!(
        w.ledger.token_account(&keys.token_a_vault),
        Some(TokenAccount {
            address: keys.token_a_vault,
            mint: w.mint_a,
            owner: keys.escrow_state,
            amount: 1,
        })
    );
    assert_eq!(w.ledger.balance(&w.maker_a), Some(4999));
    assert_eq!(w.ledger.balance(&w.maker_b), Some(0));
    assert_eq!(w.ledger.balance(&w.taker_b), Some(800));
}

#[test]
fn initialize_rejects_equal_mints() {
    let mut w = world(5000, 800);
    let mut keys = initialize_keys(&w, 7);
    keys.token_mint_b = keys.token_mint_a;
    let before = picture(&w, 7);
    assert_eq!(
        initialize(&mut w.ledger, &keys, 7, 1000, 500),
        Err(Failure::Escrow(EscrowError::InvalidTokenMint))
    );
    assert_eq!(picture(&w, 7), before);
    assert_eq!(w.ledger.balance(&w.maker_a), Some(5000));
}

#[test]
fn initialize_rejects_equal_mints_after_zero_amounts() {
    let mut w = world(5000, 800);
    let mut keys = initialize_keys(&w, 7);
    keys.token_mint_b = keys.token_mint_a;
    assert_eq!(
        initialize(&mut w.ledger, &keys, 7, 0, 500),
        Err(Failure::Escrow(EscrowError::InvalidAmount))
    );
}

#[test]
fn initialize_rejects_the_whole_balance() {
    let mut w = world(1000, 800);
    let keys = initialize_keys(&w, 7);
    let before = picture(&w, 7);
    assert_eq!(
        initialize(&mut w.ledger, &keys, 7, 1000, 500),
        Err(Failure::Escrow(EscrowError::InsufficientInitiatorBalance))
    );
    assert_eq!(picture(&w, 7), before);
    assert_eq!(initialize(&mut w.ledger, &keys, 7, 999, 500), Ok(()));
    assert_eq!(w.ledger.balance(&w.maker_a), Some(1));
}

#[test]
fn initialize_rejects_more_than_the_balance() {
    let mut w = world(1000, 800);
    let keys = initialize_keys(&w, 7);
    assert_eq!(
        initialize(&mut w.ledger, &keys, 7, 1001, 500),
        Err(Failure::Escrow(EscrowError::InsufficientInitiatorBalance))
    );
}

#[test]
fn initialize_rejects_zero_amounts() {
    let mut w = world(5000, 800);
    let keys = initialize_keys(&w, 7);
    let before = picture(&w, 7);
    assert_eq!(
        initialize(&mut w.ledger, &keys, 7, 0, 500),
        Err(Failure::Escrow(EscrowError::InvalidAmount))
    );
    assert_eq!(
        initialize(&mut w.ledger, &keys, 7, 1000, 0),
        Err(Failure::Escrow(EscrowError::InvalidAmount))
    );
    assert_eq!(picture(&w, 7), before);
    assert_eq!(w.ledger.token_account(&keys.token_a_vault), None);
}

#[test]
fn initialize_checks_amounts_before_mints_before_balance() {
    let mut w = world(10, 800);
    let mut keys = initialize_keys(&w, 7);
    keys.token_mint_b = keys.token_mint_a;
    assert_eq!(
        initialize(&mut w.ledger, &keys, 7, 0, 0),
        Err(Failure::Escrow(EscrowError::InvalidAmount))
    );
    assert_eq!(
        initialize(&mut w.ledger, &keys, 7, 10, 1),
        Err(Failure::Escrow(EscrowError::InvalidTokenMint))
    );
}

#[test]
fn initialize_twice_with_one_index_fails() {
    let mut w = world(5000, 800);
    let keys = initialize_keys(&w, 7);
    initialize(&mut w.ledger, &keys, 7, 1000, 500).unwrap();
    assert_eq!(
        initialize(&mut w.ledger, &keys, 7, 10, 5),
        Err(Failure::Account(AccountError::RecordExists))
    );
    assert_eq!(w.ledger.balance(&keys.token_a_vault), Some(1000));
    assert_eq!(w.ledger.balance(&w.maker_a), Some(4000));
}

#[test]
fn initialize_rejects_a_record_address_of_another_index() {
    let mut w = world(5000, 800);
    let mut keys = initialize_keys(&w, 7);
    keys.escrow_state = record_address(8);
    assert_eq!(
        initialize(&mut w.ledger, &keys, 7, 1000, 500),
        Err(Failure::Account(AccountError::SeedsMismatch))
    );
}

#[test]
fn initialize_rejects_a_vault_that_is_not_the_records() {
    let mut w = world(5000, 800);
    let mut keys = initialize_keys(&w, 7);
    keys.token_a_vault = vault_address(&w, 8);
    assert_eq!(
        initialize(&mut w.ledger, &keys, 7, 1000, 500),
        Err(Failure::Account(AccountError::NotAssociated))
    );
}

#[test]
fn initialize_rejects_unknown_mints_and_programs() {
    let mut w = world(5000, 800);
    let mut keys = initialize_keys(&w, 7);
    keys.token_mint_b = wallet(99);
    assert_eq!(
        initialize(&mut w.ledger, &keys, 7, 1000, 500),
        Err(Failure::Account(AccountError::MintMissing))
    );
    let mut keys = initialize_keys(&w, 7);
    keys.token_program = wallet(98);
    assert_eq!(
        initialize(&mut w.ledger, &keys, 7, 1000, 500),
        Err(Failure::Account(AccountError::InvalidProgram))
    );
}

#[test]
fn initialize_holds_the_makers_account_to_its_role() {
    let mut w = world(5000, 800);
    let mut keys = initialize_keys(&w, 7);
    keys.initializer_token_account_a = wallet(77);
    assert_eq!(
        initialize(&mut w.ledger, &keys, 7, 1000, 500),
        Err(Failure::Account(AccountError::AccountMissing))
    );
    let mut keys = initialize_keys(&w, 7);
    keys.initializer_token_account_a = w.maker_b;
    assert_eq!(
        initialize(&mut w.ledger, &keys, 7, 1000, 500),
        Err(Failure::Account(AccountError::MintMismatch))
    );
    let mut keys = initialize_keys(&w, 7);
    keys.user = w.taker;
    assert_eq!(
        initialize(&mut w.ledger, &keys, 7, 1000, 500),
        Err(Failure::Account(AccountError::OwnerMismatch))
    );
}

#[test]
fn complete_rejects_an_underfunded_taker() {
    let mut w = world(5000, 499);
    let keys = initialize_keys(&w, 7);
    initialize(&mut w.ledger, &keys, 7, 1000, 500).unwrap();
    let before = picture(&w, 7);
    assert_eq!(
        complete_at(&mut w, 7),
        Err(Failure::Escrow(EscrowError::InsufficientTakerBalance))
    );
    assert_eq!(picture(&w, 7), before);
    assert_eq!(w.ledger.balance(&keys.token_a_vault), Some(1000));
    assert_eq!(w.ledger.balance(&w.taker_b), Some(499));
    assert_eq!(w.ledger.token_account(&taker_a_address(&w)), None);
    assert!(w.ledger.record(&keys.escrow_state).is_some());
}

#[test]
fn complete_adds_to_an_account_the_taker_already_has() {
    let mut w = world(5000, 800);
    let taker_a = w.ledger.create_token_account(&w.taker, &w.mint_a).unwrap();
    w.ledger.mint_to(&taker_a, 40).unwrap();
    let keys = initialize_keys(&w, 7);
    initialize(&mut w.ledger, &keys, 7, 1000, 500).unwrap();
    assert_eq!(complete_at(&mut w, 7), Ok(()));
    assert_eq!(w.ledger.balance(&taker_a), Some(1040));
}

#[test]
fn complete_moves_what_the_vault_holds_now() {
    let mut w = world(5000, 800);
    let keys = initialize_keys(&w, 7);
    initialize(&mut w.ledger, &keys, 7, 1000, 500).unwrap();
    w.ledger.mint_to(&keys.token_a_vault, 5).unwrap();
    assert_eq!(complete_at(&mut w, 7), Ok(()));
    assert_eq!(w.ledger.balance(&taker_a_address(&w)), Some(1005));
}

#[test]
fn complete_holds_the_mints_to_the_record() {
    let mut w = world(5000, 800);
    let other = wallet(12);
    w.ledger.create_mint(other, 9).unwrap();
    let keys = initialize_keys(&w, 7);
    initialize(&mut w.ledger, &keys, 7, 1000, 500).unwrap();
    let mut complete = complete_keys(&w, 7);
    complete.token_mint_b = other;
    let before = picture(&w, 7);
    assert_eq!(
        complete_escrow(&mut w.ledger, &complete),
        Err(Failure::Account(AccountError::MintMismatch))
    );
    assert_eq!(picture(&w, 7), before);
}

#[test]
fn complete_rejects_a_record_that_does_not_exist() {
    let mut w = world(5000, 800);
    assert_eq!(
        complete_at(&mut w, 7),
        Err(Failure::Account(AccountError::RecordMissing))
    );
}

#[test]
fn complete_holds_the_accounts_to_their_roles() {
    let mut w = world(5000, 800);
    let keys = initialize_keys(&w, 7);
    initialize(&mut w.ledger, &keys, 7, 1000, 500).unwrap();
    initialize_at(&mut w, 8, 10, 5).unwrap();

    let mut complete = complete_keys(&w, 7);
    complete.token_a_vault = vault_address(&w, 8);
    assert_eq!(
        complete_escrow(&mut w.ledger, &complete),
        Err(Failure::Account(AccountError::OwnerMismatch))
    );
    let mut complete = complete_keys(&w, 7);
    complete.initializer_token_account_b = w.taker_b;
    assert_eq!(
        complete_escrow(&mut w.ledger, &complete),
        Err(Failure::Account(AccountError::OwnerMismatch))
    );
    let mut complete = complete_keys(&w, 7);
    complete.taker_token_account_a = wallet(66);
    assert_eq!(
        complete_escrow(&mut w.ledger, &complete),
        Err(Failure::Account(AccountError::NotAssociated))
    );
    let mut complete = complete_keys(&w, 7);
    complete.taker_token_account_b = wallet(66);
    assert_eq!(
        complete_escrow(&mut w.ledger, &complete),
        Err(Failure::Account(AccountError::AccountMissing))
    );
    let mut complete = complete_keys(&w, 7);
    complete.token_program = wallet(98);
    assert_eq!(
        complete_escrow(&mut w.ledger, &complete),
        Err(Failure::Account(AccountError::InvalidProgram))
    );
    assert_eq!(w.ledger.balance(&keys.token_a_vault), Some(1000));
    assert_eq!(w.ledger.token_account(&taker_a_address(&w)), None);
}

#[test]
fn complete_fails_whole_when_the_payment_overflows() {
    let mut w = world(5000, 800);
    w.ledger.mint_to(&w.maker_b, u64::MAX - 499).unwrap();
    let keys = initialize_keys(&w, 7);
    initialize(&mut w.ledger, &keys, 7, 1000, 500).unwrap();
    let before = picture(&w, 7);
    assert_eq!(
        complete_at(&mut w, 7),
        Err(Failure::Transfer(TransferError::Overflow))
    );
    assert_eq!(picture(&w, 7), before);
    assert_eq!(w.ledger.balance(&keys.token_a_vault), Some(1000));
    assert_eq!(w.ledger.token_account(&taker_a_address(&w)), None);
}

#[test]
fn a_taker_who_is_the_maker_pays_themself() {
    let mut w = world(5000, 0);
    w.ledger.mint_to(&w.maker_b, 700).unwrap();
    let keys = initialize_keys(&w, 7);
    initialize(&mut w.ledger, &keys, 7, 1000, 500).unwrap();
    let complete = CompleteKeys {
        taker: w.maker,
        maker: w.maker,
        escrow_state: keys.escrow_state,
        token_a_vault: keys.token_a_vault,
        initializer_token_account_b: w.maker_b,
        taker_token_account_a: w.maker_a,
        taker_token_account_b: w.maker_b,
        token_mint_a: w.mint_a,
        token_mint_b: w.mint_b,
        token_program: token_program(),
    };
    assert_eq!(complete_escrow(&mut w.ledger, &complete), Ok(()));
    assert_eq!(w.ledger.balance(&w.maker_b), Some(700));
    assert_eq!(w.ledger.balance(&w.maker_a), Some(5000));
}

#[test]
fn refund_returns_the_vault_to_the_caller() {
    let mut w = world(5000, 800);
    let keys = initialize_keys(&w, 7);
    initialize(&mut w.ledger, &keys, 7, 1000, 500).unwrap();
    w.ledger.mint_to(&keys.token_a_vault, 5).unwrap();
    assert_eq!(refund_at(&mut w, 7), Ok(()));
    assert_eq!(w.ledger.balance(&w.maker_a), Some(5005));
    assert_eq!(w.ledger.balance(&keys.token_a_vault), None);
    assert_eq!(w.ledger.record(&keys.escrow_state), None);
    assert_eq!(w.ledger.balance(&w.taker_b), Some(800));
}

#[test]
fn refund_then_anything_fails() {
    let mut w = world(5000, 800);
    let keys = initialize_keys(&w, 7);
    initialize(&mut w.ledger, &keys, 7, 1000, 500).unwrap();
    assert_eq!(refund_at(&mut w, 7), Ok(()));
    assert_eq!(refund_at(&mut w, 7), Err(Failure::Account(AccountError::RecordMissing))
    );
    assert_eq!(
        complete_at(&mut w, 7),
        Err(Failure::Account(AccountError::RecordMissing))
    );
    assert_eq!(w.ledger.balance(&w.maker_a), Some(5000));
    assert_eq!(w.ledger.balance(&w.taker_b), Some(800));
}

#[test]
fn an_index_is_free_again_after_its_offer_is_closed() {
    let mut w = world(5000, 800);
    let keys = initialize_keys(&w, 7);
    initialize(&mut w.ledger, &keys, 7, 1000, 500).unwrap();
    refund_at(&mut w, 7).unwrap();
    assert_eq!(initialize(&mut w.ledger, &keys, 7, 20, 30), Ok(()));
    assert_eq!(w.ledger.balance(&keys.token_a_vault), Some(20));
}

#[test]
fn refund_asks_nothing_of_who_calls() {
    let mut w = world(5000, 800);
    let keys = initialize_keys(&w, 7);
    initialize(&mut w.ledger, &keys, 7, 1000, 500).unwrap();
    let stranger = wallet(3);
    let stranger_a = w.ledger.create_token_account(&stranger, &w.mint_a).unwrap();
    let cancel = RefundKeys {
        user: stranger,
        escrow_state: keys.escrow_state,
        token_a_vault: keys.token_a_vault,
        initializer_token_account_a: stranger_a,
        token_mint_a: w.mint_a,
        token_program: token_program(),
    };
    assert_eq!(refund(&mut w.ledger, &cancel), Ok(()));
    assert_eq!(w.ledger.balance(&stranger_a), Some(1000));
    assert_eq!(w.ledger.balance(&w.maker_a), Some(4000));
}

#[test]
fn refund_holds_the_accounts_to_their_roles() {
    let mut w = world(5000, 800);
    let keys = initialize_keys(&w, 7);
    initialize(&mut w.ledger, &keys, 7, 1000, 500).unwrap();
    let mut cancel = refund_keys(&w, 7);
    cancel.token_mint_a = w.mint_b;
    assert_eq!(refund(&mut w.ledger, &cancel), Err(Failure::Account(AccountError::MintMismatch)));
    let mut cancel = refund_keys(&w, 7);
    cancel.initializer_token_account_a = w.maker_b;
    assert_eq!(refund(&mut w.ledger, &cancel), Err(Failure::Account(AccountError::MintMismatch)));
    let mut cancel = refund_keys(&w, 7);
    cancel.token_a_vault = w.maker_a;
    assert_eq!(refund(&mut w.ledger, &cancel), Err(Failure::Account(AccountError::OwnerMismatch)));
    let mut cancel = refund_keys(&w, 7);
    cancel.user = w.taker;
    assert_eq!(refund(&mut w.ledger, &cancel), Err(Failure::Account(AccountError::OwnerMismatch)));
    let mut cancel = refund_keys(&w, 7);
    cancel.escrow_state = record_address(8);
    assert_eq!(refund(&mut w.ledger, &cancel), Err(Failure::Account(AccountError::RecordMissing)));
    assert_eq!(w.ledger.balance(&keys.token_a_vault), Some(1000));
}

#[test]
fn refund_fails_whole_when_the_callers_balance_overflows() {
    let mut w = world(5000, 800);
    let keys = initialize_keys(&w, 7);
    initialize(&mut w.ledger, &keys, 7, 1000, 500).unwrap();
    w.ledger.mint_to(&w.maker_a, u64::MAX - 4999).unwrap();
    assert_eq!(refund_at(&mut w, 7), Err(Failure::Transfer(TransferError::Overflow))
    );
    assert_eq!(w.ledger.balance(&keys.token_a_vault), Some(1000));
    assert!(w.ledger.record(&keys.escrow_state).is_some());
}

#[test]
fn offers_with_different_indices_do_not_touch_each_other() {
    let mut w = world(5000, 800);
    initialize_at(&mut w, 1, 100, 50).unwrap();
    initialize_at(&mut w, 2, 200, 60).unwrap();
    assert_eq!(complete_at(&mut w, 2), Ok(()));
    assert_eq!(w.ledger.balance(&vault_address(&w, 1)), Some(100));
    assert_eq!(w.ledger.record(&record_address(1)).map(|r| r.token_b_ask_amount), Some(50));
    assert_eq!(w.ledger.balance(&taker_a_address(&w)), Some(200));
    assert_eq!(refund_at(&mut w, 1), Ok(()));
    assert_eq!(w.ledger.balance(&w.maker_a), Some(4800));
}

#[test]
fn the_ledger_answers_for_what_it_keeps() {
    let mut ledger = Ledger::new(token_program());
    assert_eq!(ledger.token_program(), token_program());
    let mint = wallet(10);
    assert_eq!(ledger.mint(&mint), None);
    assert_eq!(ledger.create_mint(mint, 6), Ok(()));
    assert_eq!(ledger.create_mint(mint, 7), Err(AccountError::AccountExists));
    assert_eq!(ledger.mint(&mint), Some(Mint { address: mint, decimals: 6 }));
    assert_eq!(
        ledger.create_token_account(&wallet(1), &wallet(11)),
        Err(AccountError::MintMissing)
    );
    let account = ledger.create_token_account(&wallet(1), &mint).unwrap();
    assert_eq!(
        ledger.create_token_account(&wallet(1), &mint),
        Err(AccountError::AccountExists)
    );
    assert_eq!(
        ledger.token_account(&account),
        Some(TokenAccount { address: account, mint, owner: wallet(1), amount: 0 })
    );
    assert_eq!(ledger.mint_to(&wallet(50), 1), Err(TransferError::DestinationMissing));
    assert_eq!(ledger.mint_to(&account, u64::MAX), Ok(()));
    assert_eq!(ledger.mint_to(&account, 1), Err(TransferError::Overflow));
    assert_eq!(ledger.balance(&account), Some(u64::MAX));
    let copy = ledger.snapshot();
    ledger.create_mint(wallet(11), 2).unwrap();
    assert_eq!(copy.mint(&wallet(11)), None);
    assert_eq!(copy.balance(&account), Some(u64::MAX));
    assert_eq!(
        ledger.associated_account(&account, &wallet(1), &mint).map(|a| a.amount),
        Ok(u64::MAX)
    );
    assert_eq!(ledger.known_mint(&wallet(12)), Err(AccountError::MintMissing));
}

#[test]
fn resolving_an_offer_to_make_opens_the_vault_and_reads_the_accounts() {
    let mut w = world(5000, 800);
    let keys = initialize_keys(&w, 7);
    let (address, proof) = derive_address(escrow_namespace(), 7).unwrap();
    let (accounts, bump) = InitializeEscrow::resolve(&mut w.ledger, &keys, 7).unwrap();
    assert_eq!(bump, proof);
    assert_eq!(
        accounts,
        InitializeEscrow {
            user: w.maker,
            escrow_state: RecordAccount { address, state: EscrowState::blank() },
            token_a_vault: TokenAccount {
                address: keys.token_a_vault,
                mint: w.mint_a,
                owner: address,
                amount: 0,
            },
            initializer_token_account_a: TokenAccount {
                address: w.maker_a,
                mint: w.mint_a,
                owner: w.maker,
                amount: 5000,
            },
            token_mint_a: Mint { address: w.mint_a, decimals: 6 },
            token_mint_b: Mint { address: w.mint_b, decimals: 9 },
            token_program: token_program(),
        }
    );
    assert_eq!(w.ledger.balance(&keys.token_a_vault), Some(0));
    assert_eq!(w.ledger.record(&address), None);
}

#[test]
fn resolving_a_completion_opens_the_takers_account_only_when_all_is_well() {
    let mut w = world(5000, 800);
    initialize_at(&mut w, 7, 1000, 500).unwrap();
    let mut keys = complete_keys(&w, 7);
    keys.taker_token_account_b = w.maker_b;
    assert_eq!(CompleteEscrow::resolve(&mut w.ledger, &keys), Err(AccountError::OwnerMismatch));
    assert_eq!(w.ledger.token_account(&taker_a_address(&w)), None);

    let keys = complete_keys(&w, 7);
    let accounts = CompleteEscrow::resolve(&mut w.ledger, &keys).unwrap();
    assert_eq!(w.ledger.balance(&taker_a_address(&w)), Some(0));
    assert_eq!(accounts.taker, w.taker);
    assert_eq!(accounts.maker, w.maker);
    assert_eq!(accounts.escrow_state.address, keys.escrow_state);
    assert_eq!(accounts.escrow_state.state.token_b_ask_amount, 500);
    assert_eq!(accounts.escrow_state.state.index, 7);
    assert_eq!(accounts.token_a_vault.amount, 1000);
    assert_eq!(accounts.token_a_vault.owner, keys.escrow_state);
    assert_eq!(accounts.initializer_token_account_b.address, w.maker_b);
    assert_eq!(accounts.taker_token_account_a.amount, 0);
    assert_eq!(accounts.taker_token_account_a.owner, w.taker);
    assert_eq!(accounts.taker_token_account_b.amount, 800);
    assert_eq!(accounts.token_mint_a, Mint { address: w.mint_a, decimals: 6 });
    assert_eq!(accounts.token_mint_b, Mint { address: w.mint_b, decimals: 9 });
}

#[test]
fn resolving_a_cancellation_reads_the_accounts() {
    let mut w = world(5000, 800);
    initialize_at(&mut w, 7, 1000, 500).unwrap();
    let keys = refund_keys(&w, 7);
    let accounts = RefundOffer::resolve(&w.ledger, &keys).unwrap();
    assert_eq!(accounts.user, w.maker);
    assert_eq!(accounts.escrow_state.state, w.ledger.record(&keys.escrow_state).unwrap());
    assert_eq!(accounts.token_a_vault.amount, 1000);
    assert_eq!(accounts.initializer_token_account_a.amount, 4000);
    assert_eq!(accounts.token_mint_a, Mint { address: w.mint_a, decimals: 6 });
    let mut wrong = keys;
    wrong.token_program = wallet(98);
    assert_eq!(RefundOffer::resolve(&w.ledger, &wrong), Err(AccountError::InvalidProgram));
    let mut wrong = keys;
    wrong.token_a_vault = wallet(97);
    assert_eq!(RefundOffer::resolve(&w.ledger, &wrong), Err(AccountError::AccountMissing));
}

#[test]
fn an_account_is_associated_only_at_the_derived_address() {
    let w = world(5000, 800);
    assert_eq!(
        w.ledger.associated_account(&w.maker_a, &w.maker, &w.mint_a),
        Ok(TokenAccount { address: w.maker_a, mint: w.mint_a, owner: w.maker, amount: 5000 })
    );
    assert_eq!(
        w.ledger.associated_account(&w.maker_a, &w.maker, &w.mint_b),
        Err(AccountError::MintMismatch)
    );
    assert_eq!(
        w.ledger.associated_account(&w.maker_a, &w.taker, &w.mint_a),
        Err(AccountError::OwnerMismatch)
    );
    assert_eq!(
        w.ledger.associated_account(&wallet(60), &w.maker, &w.mint_a),
        Err(AccountError::AccountMissing)
    );
}
