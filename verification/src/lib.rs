//! A crowdfunding program: creators launch campaigns with a goal and a
//! deadline, donors contribute lamports into a vault, and the funds go either
//! to the creator (goal reached, deadline passed) or back to the donors
//! (goal missed after the deadline, or campaign cancelled).
//!
//! Each instruction is a function from the accounts it reads (plain values)
//! and the current time to the new account contents and the lamport transfer
//! that the runtime has to perform.

pub mod error;
pub mod instruction_laws;
pub mod instructions;
pub mod laws;
pub mod state;

pub use error::CrowdfundingError;
pub use instructions::cancel_campaign::{cancel_campaign_handler, CancelCampaign};
pub use instructions::contribute::{contribute_handler, Contribute};
pub use instructions::create_campaign::{create_campaign_handler, CreateCampaign};
pub use instructions::refund::{refund_handler, Refund};
pub use instructions::withdraw::{withdraw_handler, Withdraw};
pub use state::{Campaign, Contribution, Pubkey, Transfer};
