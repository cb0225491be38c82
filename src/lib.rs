//! A proportional revenue-distribution ledger.
//!
//! Value arriving in a pool's custody balance is folded into a per-share
//! accrual rate with integer arithmetic that carries its remainder ("dust")
//! forward; holders settle their pro-rata part against a rate snapshot, and
//! share transfers settle both parties first.
mod decimal;
mod error;
mod instructions;
mod laws;
mod ledger;

pub use decimal::{decimal, digit_char, fixed_point_text, padded, print_dec, ten_to};
pub use error::{assert_with_msg, LedgerError};
pub use instructions::{
    claim, create_fund, create_stake_account, transfer_shares, Claim, CreateFund,
    CreateStakeAccount, TransferShares,
};
pub use instructions::{claimed, created, transferred};
pub use laws::{
    lemma_accrual_monotone, lemma_no_double_payment, lemma_settlement_precedes_transfer,
    lemma_transfer_conserves_shares, paid, sender_claim, shares_held,
};
pub use ledger::{Pubkey, Stake, WalletState};
