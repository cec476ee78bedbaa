//! The ledger on which the escrow runs: the mints, the token accounts and
//! the escrow records, with the instructions of the asset-transfer service.
//!
//! Every instruction either applies in full or changes nothing.

use crate::address::{
    associated_token_address, spec_associated_token_address, spec_escrow_namespace, spec_rederive,
    Address,
};
use crate::errors::{AccountError, TransferError};
use crate::states::EscrowState;
use crate::table::Table;
use crate::token::{CloseAccount, CloseRecord, Mint, Signer, TokenAccount, TransferChecked};
use vstd::prelude::*;

verus! {

/// What a token account holds.
#[derive(Clone, Copy, Debug, PartialEq, Eq)]
pub struct Holding {
    pub mint: Address,
    pub owner: Address,
    pub amount: u64,
}

/// The state of a ledger.
pub struct LedgerState {
    /// The token program that keeps the token accounts.
    pub token_program: Address,
    /// The precision of each mint.
    pub mints: Map<Address, u8>,
    /// The holding of each token account.
    pub tokens: Map<Address, Holding>,
    /// The open offers, by the address of their record.
    pub records: Map<Address, EscrowState>,
}

impl LedgerState {
    /// Whether the record at `address` is an open offer in good order: its
    /// two assets are known and differ, it asks a positive amount, its
    /// index and proof re-derive its address, and its vault exists, as the
    /// associated account of the record's address for the offered asset.
    pub open spec fn open_offer(self, address: Address) -> bool {
        let record = self.records[address];
        &&& record.token_mint_a != record.token_mint_b
        &&& record.token_b_ask_amount > 0
        &&& self.mints.contains_key(record.token_mint_a)
        &&& self.mints.contains_key(record.token_mint_b)
        &&& spec_rederive(spec_escrow_namespace(), record.index, record.state_bump) == Some(address)
        &&& spec_associated_token_address(address, record.token_mint_a, self.token_program) matches Some(
            vault,
        ) && self.tokens.contains_key(vault) && self.tokens[vault].mint == record.token_mint_a
            && self.tokens[vault].owner == address
    }

    /// Whether every record is an open offer in good order.
    pub open spec fn consistent(self) -> bool {
        forall|address: Address| #[trigger]
            self.records.contains_key(address) ==> self.open_offer(address)
    }

    /// The token account at `address`, as an operation reads it.
    pub open spec fn token_account(self, address: Address) -> TokenAccount {
        TokenAccount {
            address,
            mint: self.tokens[address].mint,
            owner: self.tokens[address].owner,
            amount: self.tokens[address].amount,
        }
    }

    /// The ledger with an empty token account of `owner` for `mint` opened
    /// at `address`.
    pub open spec fn open_account(self, address: Address, owner: Address, mint: Address) -> Self {
        LedgerState { tokens: self.tokens.insert(address, Holding { mint, owner, amount: 0 }), ..self }
    }

    /// The token account at `address`, held to its role: it must exist, be
    /// of `mint`, belong to `owner` and be the associated account of the
    /// two.
    pub open spec fn associated_account(
        self,
        address: Address,
        owner: Address,
        mint: Address,
    ) -> Result<TokenAccount, AccountError> {
        if !self.tokens.contains_key(address) {
            Err(AccountError::AccountMissing)
        } else if self.tokens[address].mint != mint {
            Err(AccountError::MintMismatch)
        } else if self.tokens[address].owner != owner {
            Err(AccountError::OwnerMismatch)
        } else if spec_associated_token_address(owner, mint, self.token_program) != Some(address) {
            Err(AccountError::NotAssociated)
        } else {
            Ok(self.token_account(address))
        }
    }

    /// The token account at `address`, held to its role as by
    /// `associated_account`, and opened empty where none lives there yet.
    pub open spec fn associated_account_or_open(
        self,
        address: Address,
        owner: Address,
        mint: Address,
    ) -> Result<(LedgerState, TokenAccount), AccountError> {
        if self.tokens.contains_key(address) {
            match self.associated_account(address, owner, mint) {
                Ok(account) => Ok((self, account)),
                Err(e) => Err(e),
            }
        } else if spec_associated_token_address(owner, mint, self.token_program) != Some(address) {
            Err(AccountError::NotAssociated)
        } else {
            Ok(
                (
                    self.open_account(address, owner, mint),
                    TokenAccount { address, mint, owner, amount: 0 },
                ),
            )
        }
    }

    /// The mint at `address`, which must exist.
    pub open spec fn known_mint(self, address: Address) -> Result<Mint, AccountError> {
        if self.mints.contains_key(address) {
            Ok(Mint { address, decimals: self.mints[address] })
        } else {
            Err(AccountError::MintMissing)
        }
    }

    /// What the asset-transfer service makes of a transfer in a transaction
    /// signed by `payer`. It holds the transfer to the balance of the
    /// source, to the asset and the precision declared, and to the
    /// authority of the source's owner, in this order.
    pub open spec fn transfer(self, t: TransferChecked, payer: Address) -> Result<
        LedgerState,
        TransferError,
    > {
        if !self.tokens.contains_key(t.from) {
            Err(TransferError::SourceMissing)
        } else if !self.tokens.contains_key(t.to) {
            Err(TransferError::DestinationMissing)
        } else if self.tokens[t.from].amount < t.amount {
            Err(TransferError::InsufficientFunds)
        } else if self.tokens[t.from].mint != t.mint || self.tokens[t.to].mint != t.mint
            || !self.mints.contains_key(t.mint) {
            Err(TransferError::MintMismatch)
        } else if self.mints[t.mint] != t.decimals {
            Err(TransferError::DecimalsMismatch)
        } else if t.authority.spec_address() != self.tokens[t.from].owner {
            Err(TransferError::OwnerMismatch)
        } else if !t.authority.authorised(payer) {
            Err(TransferError::MissingSignature)
        } else if t.from == t.to {
            Ok(self)
        } else if self.tokens[t.to].amount + t.amount > u64::MAX {
            Err(TransferError::Overflow)
        } else {
            Ok(
                LedgerState {
                    tokens: self.tokens.insert(
                        t.from,
                        Holding {
                            amount: (self.tokens[t.from].amount - t.amount) as u64,
                            ..self.tokens[t.from]
                        },
                    ).insert(
                        t.to,
                        Holding {
                            amount: (self.tokens[t.to].amount + t.amount) as u64,
                            ..self.tokens[t.to]
                        },
                    ),
                    ..self
                },
            )
        }
    }

    /// What the asset-transfer service makes of a transfer that a wallet
    /// submits in a transaction of its own, signed by `payer`. Such a
    /// transaction carries no signature of a derived authority: only an
    /// operation of the escrow signs as one.
    pub open spec fn wallet_transfer(self, t: TransferChecked, payer: Address) -> Result<
        LedgerState,
        TransferError,
    > {
        match t.authority {
            Signer::Wallet(_) => self.transfer(t, payer),
            Signer::Escrow(_) => Err(TransferError::MissingSignature),
        }
    }

    /// What the asset-transfer service makes of the closing of a token
    /// account in a transaction signed by `payer`: only an empty account
    /// closes, and only by the authority of its owner.
    pub open spec fn close(self, c: CloseAccount, payer: Address) -> Result<
        LedgerState,
        TransferError,
    > {
        if !self.tokens.contains_key(c.account) {
            Err(TransferError::SourceMissing)
        } else if self.tokens[c.account].amount != 0 {
            Err(TransferError::NonEmpty)
        } else if c.authority.spec_address() != self.tokens[c.account].owner {
            Err(TransferError::OwnerMismatch)
        } else if !c.authority.authorised(payer) {
            Err(TransferError::MissingSignature)
        } else {
            Ok(LedgerState { tokens: self.tokens.remove(c.account), ..self })
        }
    }

    /// The ledger without the record that `c` destroys, which must exist.
    pub open spec fn close_record(self, c: CloseRecord) -> Result<LedgerState, AccountError> {
        if self.records.contains_key(c.record) {
            Ok(LedgerState { records: self.records.remove(c.record), ..self })
        } else {
            Err(AccountError::RecordMissing)
        }
    }
}

/// A ledger: the mints, token accounts and escrow records that one token
/// program keeps.
pub struct Ledger {
    token_program: Address,
    mints: Table<u8>,
    tokens: Table<Holding>,
    records: Table<EscrowState>,
}

impl Ledger {
    /// The state of the ledger.
    pub closed spec fn view(&self) -> LedgerState {
        LedgerState {
            token_program: self.token_program,
            mints: self.mints@,
            tokens: self.tokens@,
            records: self.records@,
        }
    }

    /// An empty ledger kept by `token_program`.
    pub fn new(token_program: Address) -> (ledger: Self)
        ensures
            ledger@.token_program == token_program,
            ledger@.mints == Map::<Address, u8>::empty(),
            ledger@.tokens == Map::<Address, Holding>::empty(),
            ledger@.records == Map::<Address, EscrowState>::empty(),
            ledger@.consistent(),
    {
        Ledger { token_program, mints: Table::new(), tokens: Table::new(), records: Table::new() }
    }

    /// A copy of the ledger.
    pub fn snapshot(&self) -> (copy: Self)
        ensures
            copy@ == self@,
    {
        Ledger {
            token_program: self.token_program,
            mints: self.mints.snapshot(),
            tokens: self.tokens.snapshot(),
            records: self.records.snapshot(),
        }
    }

    /// The token program that keeps the accounts.
    pub fn token_program(&self) -> (program: Address)
        ensures
            program == self@.token_program,
    {
        self.token_program
    }

    /// The mint at `address`, if there is one.
    pub fn mint(&self, address: &Address) -> (mint: Option<Mint>)
        ensures
            mint == (if self@.mints.contains_key(*address) {
                Some(Mint { address: *address, decimals: self@.mints[*address] })
            } else {
                None
            }),
    {
        match self.mints.get(address) {
            Some(decimals) => Some(Mint { address: *address, decimals }),
            None => None,
        }
    }

    /// The token account at `address`, if there is one.
    pub fn token_account(&self, address: &Address) -> (account: Option<TokenAccount>)
        ensures
            account == (if self@.tokens.contains_key(*address) {
                Some(self@.token_account(*address))
            } else {
                None
            }),
    {
        match self.tokens.get(address) {
            Some(holding) => Some(
                TokenAccount {
                    address: *address,
                    mint: holding.mint,
                    owner: holding.owner,
                    amount: holding.amount,
                },
            ),
            None => None,
        }
    }

    /// The balance of the token account at `address`, if there is one.
    pub fn balance(&self, address: &Address) -> (amount: Option<u64>)
        ensures
            amount == (if self@.tokens.contains_key(*address) {
                Some(self@.tokens[*address].amount)
            } else {
                None
            }),
    {
        match self.tokens.get(address) {
            Some(holding) => Some(holding.amount),
            None => None,
        }
    }

    /// The escrow record at `address`, if there is one.
    pub fn record(&self, address: &Address) -> (record: Option<EscrowState>)
        ensures
            record == (if self@.records.contains_key(*address) {
                Some(self@.records[*address])
            } else {
                None
            }),
    {
        self.records.get(address)
    }

    /// Creates a mint of the given precision at `address`, where none lives
    /// yet.
    pub fn create_mint(&mut self, address: Address, decimals: u8) -> (created: Result<
        (),
        AccountError,
    >)
        ensures
            match created {
                Ok(()) => !old(self)@.mints.contains_key(address) && final(self)@ == (LedgerState {
                    mints: old(self)@.mints.insert(address, decimals),
                    ..old(self)@
                }),
                Err(e) => old(self)@.mints.contains_key(address) && e == AccountError::AccountExists
                    && final(self)@ == old(self)@,
            },
            old(self)@.consistent() ==> final(self)@.consistent(),
    {
        match self.mints.get(&address) {
            Some(_) => Err(AccountError::AccountExists),
            None => {
                self.mints.put(address, decimals);
                Ok(())
            },
        }
    }

    /// Which error keeps a token account of `owner` for `mint` from being
    /// opened, if any, and the address at which it opens.
    pub open spec fn spec_create_token_account(
        state: LedgerState,
        owner: Address,
        mint: Address,
    ) -> Result<Address, AccountError> {
        if !state.mints.contains_key(mint) {
            Err(AccountError::MintMissing)
        } else {
            match spec_associated_token_address(owner, mint, state.token_program) {
                None => Err(AccountError::Underivable),
                Some(address) => if state.tokens.contains_key(address) {
                    Err(AccountError::AccountExists)
                } else {
                    Ok(address)
                },
            }
        }
    }

    /// Opens the empty associated token account of `owner` for `mint`, and
    /// returns its address.
    pub fn create_token_account(&mut self, owner: &Address, mint: &Address) -> (created: Result<
        Address,
        AccountError,
    >)
        ensures
            created == Self::spec_create_token_account(old(self)@, *owner, *mint),
            match created {
                Ok(address) => final(self)@ == old(self)@.open_account(address, *owner, *mint),
                Err(_) => final(self)@ == old(self)@,
            },
            old(self)@.consistent() ==> final(self)@.consistent(),
    {
        if self.mints.get(mint).is_none() {
            return Err(AccountError::MintMissing);
        }
        match associated_token_address(owner, mint, &self.token_program) {
            None => Err(AccountError::Underivable),
            Some(address) => {
                if self.tokens.get(&address).is_some() {
                    Err(AccountError::AccountExists)
                } else {
                    self.tokens.put(address, Holding { mint: *mint, owner: *owner, amount: 0 });
                    Ok(address)
                }
            },
        }
    }

    /// Issues `amount` new units of its mint to the token account at
    /// `account`.
    pub fn mint_to(&mut self, account: &Address, amount: u64) -> (issued: Result<(), TransferError>)
        ensures
            match issued {
                Ok(()) => old(self)@.tokens.contains_key(*account) && old(self)@.tokens[*account].amount
                    + amount <= u64::MAX && final(self)@ == (LedgerState {
                    tokens: old(self)@.tokens.insert(
                        *account,
                        Holding {
                            amount: (old(self)@.tokens[*account].amount + amount) as u64,
                            ..old(self)@.tokens[*account]
                        },
                    ),
                    ..old(self)@
                }),
                Err(e) => final(self)@ == old(self)@ && (if !old(self)@.tokens.contains_key(
                    *account,
                ) {
                    e == TransferError::DestinationMissing
                } else {
                    e == TransferError::Overflow && old(self)@.tokens[*account].amount + amount
                        > u64::MAX
                }),
            },
            old(self)@.consistent() ==> final(self)@.consistent(),
    {
        match self.tokens.get(account) {
            None => Err(TransferError::DestinationMissing),
            Some(holding) => {
                if amount > u64::MAX - holding.amount {
                    Err(TransferError::Overflow)
                } else {
                    self.tokens.put(
                        *account,
                        Holding { mint: holding.mint, owner: holding.owner, amount: holding.amount + amount },
                    );
                    Ok(())
                }
            },
        }
    }

    /// The mint at `address`, which must exist.
    pub fn known_mint(&self, address: &Address) -> (mint: Result<Mint, AccountError>)
        ensures
            mint == self@.known_mint(*address),
    {
        match self.mints.get(address) {
            Some(decimals) => Ok(Mint { address: *address, decimals }),
            None => Err(AccountError::MintMissing),
        }
    }

    /// The token account at `address`, held to its role: it must exist, be
    /// of `mint`, belong to `owner` and be the associated account of the
    /// two.
    pub fn associated_account(&self, address: &Address, owner: &Address, mint: &Address) -> (account:
        Result<TokenAccount, AccountError>)
        ensures
            account == self@.associated_account(*address, *owner, *mint),
    {
        match self.tokens.get(address) {
            None => Err(AccountError::AccountMissing),
            Some(holding) => {
                if holding.mint != *mint {
                    Err(AccountError::MintMismatch)
                } else if holding.owner != *owner {
                    Err(AccountError::OwnerMismatch)
                } else {
                    match associated_token_address(owner, mint, &self.token_program) {
                        Some(expected) => {
                            if expected == *address {
                                Ok(
                                    TokenAccount {
                                        address: *address,
                                        mint: holding.mint,
                                        owner: holding.owner,
                                        amount: holding.amount,
                                    },
                                )
                            } else {
                                Err(AccountError::NotAssociated)
                            }
                        },
                        None => Err(AccountError::NotAssociated),
                    }
                }
            },
        }
    }

    /// The token account at `address`, held to its role as by
    /// `associated_account`, and opened empty where none lives there yet.
    /// Where a check fails the ledger is left as it was.
    pub(crate) fn associated_account_or_open(
        &mut self,
        address: &Address,
        owner: &Address,
        mint: &Address,
    ) -> (account: Result<TokenAccount, AccountError>)
        ensures
            match account {
                Ok(found) => old(self)@.associated_account_or_open(*address, *owner, *mint) == Ok::<
                    (LedgerState, TokenAccount),
                    AccountError,
                >((final(self)@, found)),
                Err(e) => old(self)@.associated_account_or_open(*address, *owner, *mint) == Err::<
                    (LedgerState, TokenAccount),
                    AccountError,
                >(e) && final(self)@ == old(self)@,
            },
    {
        if self.tokens.get(address).is_some() {
            return self.associated_account(address, owner, mint);
        }
        match associated_token_address(owner, mint, &self.token_program) {
            Some(expected) => {
                if expected != *address {
                    return Err(AccountError::NotAssociated);
                }
            },
            None => {
                return Err(AccountError::NotAssociated);
            },
        }
        self.open_account(*address, *owner, *mint);
        Ok(TokenAccount { address: *address, mint: *mint, owner: *owner, amount: 0 })
    }

    /// Applies a transfer that a wallet submits in a transaction of its own,
    /// signed by `payer`. A transfer by a derived authority is refused as
    /// unsigned: only an operation of the escrow signs as one.
    pub fn transfer_checked(&mut self, t: &TransferChecked, payer: &Address) -> (done: Result<
        (),
        TransferError,
    >)
        ensures
            match done {
                Ok(()) => old(self)@.wallet_transfer(*t, *payer) == Ok::<
                    LedgerState,
                    TransferError,
                >(final(self)@),
                Err(e) => old(self)@.wallet_transfer(*t, *payer) == Err::<
                    LedgerState,
                    TransferError,
                >(e) && final(self)@ == old(self)@,
            },
            old(self)@.consistent() ==> final(self)@.consistent(),
    {
        match t.authority {
            Signer::Wallet(_) => {
                let ghost before = self@;
                let done = self.apply_transfer(t, payer);
                proof {
                    if before.consistent() {
                        assert forall|address: Address| #[trigger]
                            self@.records.contains_key(address) implies self@.open_offer(
                            address,
                        ) by {
                            assert(before.records.contains_key(address));
                            assert(before.open_offer(address));
                        }
                    }
                }
                done
            },
            Signer::Escrow(_) => Err(TransferError::MissingSignature),
        }
    }

    /// Applies a transfer in a transaction signed by `payer`.
    pub(crate) fn apply_transfer(&mut self, t: &TransferChecked, payer: &Address) -> (done: Result<
        (),
        TransferError,
    >)
        ensures
            match done {
                Ok(()) => old(self)@.transfer(*t, *payer) == Ok::<LedgerState, TransferError>(
                    final(self)@,
                ),
                Err(e) => old(self)@.transfer(*t, *payer) == Err::<LedgerState, TransferError>(e)
                    && final(self)@ == old(self)@,
            },
    {
        let source = match self.tokens.get(&t.from) {
            Some(holding) => holding,
            None => {
                return Err(TransferError::SourceMissing);
            },
        };
        let destination = match self.tokens.get(&t.to) {
            Some(holding) => holding,
            None => {
                return Err(TransferError::DestinationMissing);
            },
        };
        if source.amount < t.amount {
            return Err(TransferError::InsufficientFunds);
        }
        if source.mint != t.mint || destination.mint != t.mint {
            return Err(TransferError::MintMismatch);
        }
        match self.mints.get(&t.mint) {
            None => {
                return Err(TransferError::MintMismatch);
            },
            Some(decimals) => {
                if decimals != t.decimals {
                    return Err(TransferError::DecimalsMismatch);
                }
            },
        }
        if t.authority.address() != source.owner {
            return Err(TransferError::OwnerMismatch);
        }
        if !t.authority.is_authorised(payer) {
            return Err(TransferError::MissingSignature);
        }
        if t.from == t.to {
            return Ok(());
        }
        if t.amount > u64::MAX - destination.amount {
            return Err(TransferError::Overflow);
        }
        self.tokens.put(
            t.from,
            Holding { mint: source.mint, owner: source.owner, amount: source.amount - t.amount },
        );
        self.tokens.put(
            t.to,
            Holding {
                mint: destination.mint,
                owner: destination.owner,
                amount: destination.amount + t.amount,
            },
        );
        Ok(())
    }

    /// Closes a token account in a transaction signed by `payer`.
    pub(crate) fn close_account(&mut self, c: &CloseAccount, payer: &Address) -> (done: Result<
        (),
        TransferError,
    >)
        ensures
            match done {
                Ok(()) => old(self)@.close(*c, *payer) == Ok::<LedgerState, TransferError>(
                    final(self)@,
                ),
                Err(e) => old(self)@.close(*c, *payer) == Err::<LedgerState, TransferError>(e)
                    && final(self)@ == old(self)@,
            },
    {
        let holding = match self.tokens.get(&c.account) {
            Some(holding) => holding,
            None => {
                return Err(TransferError::SourceMissing);
            },
        };
        if holding.amount != 0 {
            return Err(TransferError::NonEmpty);
        }
        if c.authority.address() != holding.owner {
            return Err(TransferError::OwnerMismatch);
        }
        if !c.authority.is_authorised(payer) {
            return Err(TransferError::MissingSignature);
        }
        self.tokens.remove(&c.account);
        Ok(())
    }

    /// Destroys an escrow record.
    pub(crate) fn close_record(&mut self, c: &CloseRecord) -> (done: Result<(), AccountError>)
        ensures
            match done {
                Ok(()) => old(self)@.close_record(*c) == Ok::<LedgerState, AccountError>(
                    final(self)@,
                ),
                Err(e) => old(self)@.close_record(*c) == Err::<LedgerState, AccountError>(e)
                    && final(self)@ == old(self)@,
            },
    {
        match self.records.get(&c.record) {
            None => Err(AccountError::RecordMissing),
            Some(_) => {
                self.records.remove(&c.record);
                Ok(())
            },
        }
    }

    /// Opens an empty token account of `owner` for `mint` at `address`.
    pub(crate) fn open_account(&mut self, address: Address, owner: Address, mint: Address)
        ensures
            final(self)@ == old(self)@.open_account(address, owner, mint),
    {
        self.tokens.put(address, Holding { mint, owner, amount: 0 });
    }

    /// Writes an escrow record at `address`.
    pub(crate) fn write_record(&mut self, address: Address, record: EscrowState)
        ensures
            final(self)@ == (LedgerState {
                records: old(self)@.records.insert(address, record),
                ..old(self)@
            }),
    {
        self.records.put(address, record);
    }
}

} // verus!
