pub mod constants;
pub mod errors;
pub mod types;
pub mod rent;
pub mod escrow;
pub mod storage;
pub mod escrow_lifecycle;
pub mod escrow_milestones;
pub mod escrow_batch;
pub mod schedule;
pub mod escrow_recurring;
pub mod escrow_cancel;
pub mod escrow_reputation;
pub mod escrow_slash;
pub mod escrow_admin;
pub mod escrow_views;
pub mod gov_errors;
pub mod gov_types;
pub mod gov_events;
pub mod governance;
pub mod escrow_laws;
pub mod gov_laws;
pub mod guards;
