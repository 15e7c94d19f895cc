//! In-memory model of a farm's stock and double-entry ledger: FIFO lot
//! costing, inventory deduction and balanced ledger postings, each workflow
//! applied atomically to a `Store`.

pub mod decimal;
pub mod fifo;
pub mod inventory;
pub mod laws;
pub mod ledger;
pub mod lookup;
pub mod messages;
pub mod models;
pub mod store;
pub mod system;
pub mod workflow;
