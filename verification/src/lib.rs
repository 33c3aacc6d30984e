//! Agentic-commerce payment connector: delegated card allowances ("vault tokens")
//! and their one-time validation against orders.

pub mod text;
pub mod errors;
pub mod models;
pub mod clock;
pub mod validation;
pub mod storage;
pub mod routes;
pub mod ids;
