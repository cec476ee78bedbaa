use escrow::{
    Address, CloseAccount, CloseRecord, CompleteEscrow, DerivedAuthority, EscrowError,
    EscrowState, InitializeEscrow, Mint, RecordAccount, Refund, RefundOffer, Settlement, Signer,
    TokenAccount, TransferChecked,
};

fn named(tag: u8) -> Address {
    Address { bytes: [tag; 32] }
}

fn account(tag: u8, mint: u8, owner: u8, amount: u64) -> TokenAccount {
    TokenAccount { address: named(tag), mint: named(mint), owner: named(owner), amount }
}

fn making(maker_holds: u64) -> InitializeEscrow {
    InitializeEscrow {
        user: named(1),
        escrow_state: RecordAccount { address: named(20), state: EscrowState::blank() },
        token_a_vault: account(21, 10, 20, 0),
        initializer_token_account_a: account(30, 10, 1, maker_holds),
        token_mint_a: Mint { address: named(10), decimals: 6 },
        token_mint_b: Mint { address: named(11), decimals: 9 },
        token_program: named(40),
    }
}

fn open_record() -> RecordAccount {
    RecordAccount {
        address: named(20),
        state: EscrowState {
            token_mint_a: named(10),
            token_mint_b: named(11),
            token_b_ask_amount: 500,
            index: 7,
            state_bump: 253,
        },
    }
}

fn completing(taker_holds: u64) -> CompleteEscrow {
    CompleteEscrow {
        taker: named(2),
        maker: named(1),
        escrow_state: open_record(),
        token_a_vault: account(21, 10, 20, 1000),
        initializer_token_account_b: account(31, 11, 1, 3),
        taker_token_account_a: account(32, 10, 2, 0),
        taker_token_account_b: account(33, 11, 2, taker_holds),
        token_mint_a: Mint { address: named(10), decimals: 6 },
        token_mint_b: Mint { address: named(11), decimals: 9 },
        token_program: named(40),
    }
}

fn the_authority() -> Signer {
    Signer::Escrow(DerivedAuthority { address: named(20), index: 7, proof: 253 })
}

#[test]
fn create_offer_writes_the_record_and_plans_the_deposit() {
    let mut accounts = making(5000);
    let offer = accounts.create_offer(7, named(10), named(11), 1000, 500, 253);
    assert_eq!(
        offer,
        Ok(TransferChecked {
            from: named(30),
            to: named(21),
            mint: named(10),
            authority: Signer::Wallet(named(1)),
            amount: 1000,
            decimals: 6,
        })
    );
    assert_eq!(accounts.escrow_state, open_record());
    let mut expected = making(5000);
    expected.escrow_state = open_record();
    assert_eq!(accounts, expected);
}

#[test]
fn create_offer_rejects_zero_amounts() {
    let mut accounts = making(5000);
    assert_eq!(
        accounts.create_offer(7, named(10), named(11), 0, 500, 253),
        Err(EscrowError::InvalidAmount)
    );
    assert_eq!(
        accounts.create_offer(7, named(10), named(11), 1000, 0, 253),
        Err(EscrowError::InvalidAmount)
    );
    assert_eq!(accounts, making(5000));
}

#[test]
fn create_offer_rejects_one_mint_on_both_sides() {
    let mut accounts = making(5000);
    accounts.token_mint_b = accounts.token_mint_a;
    let before = accounts;
    assert_eq!(
        accounts.create_offer(7, named(10), named(11), 1000, 500, 253),
        Err(EscrowError::InvalidTokenMint)
    );
    assert_eq!(accounts, before);
}

#[test]
fn create_offer_wants_more_than_the_amount_offered() {
    let mut accounts = making(1000);
    assert_eq!(
        accounts.create_offer(7, named(10), named(11), 1000, 500, 253),
        Err(EscrowError::InsufficientInitiatorBalance)
    );
    assert_eq!(
        accounts.create_offer(7, named(10), named(11), 1001, 500, 253),
        Err(EscrowError::InsufficientInitiatorBalance)
    );
    assert_eq!(accounts, making(1000));
    assert!(accounts.create_offer(7, named(10), named(11), 999, 500, 253).is_ok());
    let mut most = making(u64::MAX);
    assert_eq!(
        most.create_offer(7, named(10), named(11), u64::MAX, 500, 253),
        Err(EscrowError::InsufficientInitiatorBalance)
    );
    assert!(most.create_offer(7, named(10), named(11), u64::MAX - 1, u64::MAX, 0).is_ok());
}

#[test]
fn execute_offer_plans_the_four_legs() {
    let accounts = completing(500);
    assert_eq!(
        accounts.execute_offer(),
        Ok(Settlement {
            release: TransferChecked {
                from: named(21),
                to: named(32),
                mint: named(10),
                authority: the_authority(),
                amount: 1000,
                decimals: 6,
            },
            payment: TransferChecked {
                from: named(33),
                to: named(31),
                mint: named(11),
                authority: Signer::Wallet(named(2)),
                amount: 500,
                decimals: 9,
            },
            close_vault: CloseAccount {
                account: named(21),
                destination: named(1),
                authority: the_authority(),
            },
            close_record: CloseRecord { record: named(20), beneficiary: named(1) },
        })
    );
}

#[test]
fn execute_offer_rejects_a_taker_below_the_price() {
    assert_eq!(completing(499).execute_offer(), Err(EscrowError::InsufficientTakerBalance));
    assert_eq!(completing(0).execute_offer(), Err(EscrowError::InsufficientTakerBalance));
    assert!(completing(501).execute_offer().is_ok());
    assert!(completing(u64::MAX).execute_offer().is_ok());
}

#[test]
fn refund_plans_the_three_legs() {
    let accounts = RefundOffer {
        user: named(1),
        escrow_state: open_record(),
        token_a_vault: account(21, 10, 20, 1000),
        initializer_token_account_a: account(30, 10, 1, 4000),
        token_mint_a: Mint { address: named(10), decimals: 6 },
        token_program: named(40),
    };
    assert_eq!(
        accounts.refund(),
        Refund {
            release: TransferChecked {
                from: named(21),
                to: named(30),
                mint: named(10),
                authority: the_authority(),
                amount: 1000,
                decimals: 6,
            },
            close_vault: CloseAccount {
                account: named(21),
                destination: named(1),
                authority: the_authority(),
            },
            close_record: CloseRecord { record: named(20), beneficiary: named(1) },
        }
    );
}
