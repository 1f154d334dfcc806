//! A registry of uniquely identified tokens: who owns each, who may act on
//! it and until when, who holds the roles of minter and creator, and how the
//! data of earlier layouts is brought forward. Every operation is proved
//! against a mathematical model of the registry.

pub mod config;
pub mod entry;
pub mod error;
pub mod execute;
pub mod expiration;
pub mod laws;
pub mod model;
pub mod msg;
pub mod order;
pub mod ownership;
pub mod query;
pub mod response;
pub mod sorted;
pub mod state;
pub mod storage;
pub mod table;

pub use crate::config::Cw721Config;
pub use crate::error::ContractError;
pub use crate::execute::ExecuteMsg;
pub use crate::msg::{InstantiateMsg, MigrateMsg, CONTRACT_NAME, CONTRACT_VERSION};
pub use crate::ownership::{Action, Ownership};
pub use crate::query::QueryMsg;
