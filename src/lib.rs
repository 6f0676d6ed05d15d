//! Plugin-based smart-account authorization: the account's plugin registry and
//! hook dispatcher, the plugin manager's validation rules, and the spend-limit
//! and recovery plugins' decision logic.

pub mod account;
pub mod addr;
pub mod dispatch;
pub mod error;
pub mod manager;
pub mod msg;
pub mod plugins;
pub mod proto;
pub mod query;
pub mod spend_limit;
pub mod tracked_msgs;
