pub mod audit;
pub mod config;
pub mod contexts;
pub mod decision;
pub mod error;
pub mod fees;
pub mod key;
pub mod payment;
pub mod position;
pub mod risk;
pub mod state;
pub mod types;
