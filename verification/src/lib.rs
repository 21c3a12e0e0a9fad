//! A referral-reward ledger.
//!
//! A campaign creator commits a token supply and fixes the reward paid to the
//! referrer and to the referee of every claim. Referrers register shareable
//! codes against an active campaign, and each successful claim of a code moves
//! `referrer_reward + referee_reward` tokens out of the campaign's remaining
//! supply and yields a [`RewardIntent`] for the token issuer to carry out.
//!
//! Every transition validates its preconditions first and either produces the
//! complete next state or fails without changing anything.
//!
//! - [`engine`] holds the three transitions on records.
//! - [`processor`] carries an encoded instruction out on the accounts that
//!   hold the records.
//! - [`layout`] defines how records and instructions are laid out in bytes,
//!   and [`primitives`] how their fields are.
//! - [`laws`] states what holds across operations.

pub mod account;
pub mod engine;
pub mod error;
pub mod instruction;
pub mod laws;
pub mod layout;
pub mod primitives;
pub mod processor;
pub mod state;

pub use account::{store, AccountInfo, AccountView};
pub use engine::{
    claim_referral, create_referral, initialize_campaign, ClaimOutcome, Payout, RewardIntent,
};
pub use error::LedgerError;
pub use instruction::{InstructionView, ReferralInstruction};
pub use processor::{
    process_claim_referral, process_create_referral, process_initialize_campaign,
    process_instruction,
};
pub use state::{CampaignAccount, CampaignView, Pubkey, ReferralAccount, ReferralView};
