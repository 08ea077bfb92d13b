pub mod cancel_campaign;
pub mod contribute;
pub mod create_campaign;
pub mod refund;
pub mod withdraw;
