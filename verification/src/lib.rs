//! A verified two-party token escrow.
//!
//! A maker locks a quantity of one asset in a vault and names a price in a
//! second asset. Any taker may pay that price and receive the locked
//! quantity; until then the locked quantity can be reclaimed. The vault is
//! controlled by an address derived from the offer's index, never by a key.

pub mod address;
pub mod errors;
pub mod instructions;
pub mod laws;
pub mod ledger;
pub mod program;
pub mod states;
mod table;
pub mod token;

pub use address::Address;
pub use errors::{AccountError, EscrowError, Failure, TransferError};
pub use ledger::{Holding, Ledger, LedgerState};
pub use instructions::complete_escrow::{CompleteEscrow, CompleteKeys, Settlement};
pub use instructions::initialize_escrow::{InitializeEscrow, InitializeKeys};
pub use instructions::refund_offer::{Refund, RefundKeys, RefundOffer};
pub use program::{complete_escrow, initialize, refund};
pub use states::{EscrowState, RecordAccount, INIT_SPACE};
pub use token::{CloseAccount, CloseRecord, DerivedAuthority, Mint, Signer, TokenAccount, TransferChecked};
