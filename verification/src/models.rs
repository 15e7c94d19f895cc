//! Rows, payloads and errors.
//!
//! Quantities and unit costs are fixed-point numbers with two decimal places,
//! held as a count of hundredths (`u64`). Monetary values have four decimal
//! places, held as a count of ten-thousandths, so that the product of a
//! quantity and a unit cost is exact. Dates are days of the common era,
//! timestamps are seconds since the Unix epoch.

use vstd::prelude::*;

verus! {

/// Hundredths in one whole unit of quantity or of unit cost.
pub const QTY_SCALE: u64 = 100;

/// Ten-thousandths in one whole unit of money.
pub const MONEY_SCALE: u128 = 10_000;

/// Largest amount one ledger entry can carry, and largest magnitude of an
/// account balance: sixteen integer digits and four decimals.
pub const MAX_AMOUNT: i128 = 99_999_999_999_999_999_999;

#[derive(Clone, Copy, Debug, PartialEq, Eq, Structural)]
pub enum ItemCategory {
    Medicine,
    Feed,
    Chicks,
}

#[derive(Clone, Copy, Debug, PartialEq, Eq, Structural)]
pub enum LedgerAccountType {
    Asset,
    Liability,
    Equity,
    Revenue,
    Expense,
}

#[derive(Clone, Copy, Debug, PartialEq, Eq, Structural)]
pub enum RequirementStatus {
    Pending,
    Accept,
    Decline,
}

#[derive(Clone, Copy, Debug, PartialEq, Eq, Structural)]
pub enum MovementType {
    Purchase,
    Allocation,
    Adjustment,
    Transfer,
}

/// The table a ledger entry points back to.
#[derive(Clone, Copy, Debug, PartialEq, Eq, Structural)]
pub enum ReferenceTable {
    Purchases,
    Allocations,
    Batches,
    BatchSales,
    FarmerCommissionHistory,
}

/// What a lookup was for when it found nothing.
#[derive(Clone, Copy, Debug, PartialEq, Eq, Structural)]
pub enum Missing {
    Requirement,
    Item,
    Inventory,
    Account,
    AccountMapping,
}

/// Why a request was refused before anything was touched.
#[derive(Clone, Copy, Debug, PartialEq, Eq, Structural)]
pub enum Invalid {
    /// The requirement has already been accepted or declined.
    NotPending,
    /// Batch creation named an item that is not in the chick category.
    NotChickItem,
    /// A count that must not be negative was negative.
    NegativeCount,
}

#[derive(Clone, Copy, Debug, PartialEq, Eq, Structural)]
pub enum Error {
    NotFound(Missing),
    InsufficientStock { required: u64, available: u64 },
    PartialAllocation { shortage: u64 },
    Validation(Invalid),
    /// A value does not fit its column, or an identifier sequence is used up.
    Storage,
}

#[derive(Clone, Debug, PartialEq, Eq)]
pub struct Item {
    pub item_code: String,
    pub item_name: String,
    pub unit: Option<String>,
    pub item_category: ItemCategory,
}

#[derive(Clone, Debug, PartialEq, Eq)]
pub struct InventoryRecord {
    pub item_code: String,
    pub current_qty: u64,
    pub last_updated: i64,
}

#[derive(Clone, Debug, PartialEq, Eq)]
pub struct StockLot {
    pub lot_id: i32,
    pub purchase_id: Option<i32>,
    pub item_code: String,
    pub received_qty: u64,
    pub remaining_qty: u64,
    pub unit_cost: u64,
    pub received_date: i32,
    pub supplier: Option<String>,
}

#[derive(Clone, Debug, PartialEq, Eq)]
pub struct Requirement {
    pub requirement_id: i32,
    pub batch_id: i32,
    pub line_id: i32,
    pub supervisor_id: i32,
    pub item_code: String,
    pub quantity: u64,
    pub status: RequirementStatus,
    pub request_date: i32,
}

#[derive(Clone, Copy, Debug, PartialEq, Eq, Structural)]
pub struct Allocation {
    pub allocation_id: i32,
    pub requirement_id: i32,
    pub allocated_qty: u64,
    pub allocation_date: i32,
    pub allocated_value: u128,
    pub allocated_by: i32,
}

#[derive(Clone, Copy, Debug, PartialEq, Eq, Structural)]
pub struct AllocationLine {
    pub allocation_id: i32,
    pub lot_id: i32,
    pub qty: u64,
    pub unit_cost: u64,
    pub line_value: u128,
}

#[derive(Clone, Debug, PartialEq, Eq)]
pub struct InventoryMovement {
    pub item_code: String,
    pub movement_type: MovementType,
    pub qty_change: i128,
    pub reference_id: Option<i32>,
    pub movement_date: i64,
}

#[derive(Clone, Debug, PartialEq, Eq)]
pub struct LedgerAccount {
    pub account_id: i32,
    pub name: String,
    pub account_type: LedgerAccountType,
    pub current_balance: i128,
}

#[derive(Clone, Copy, Debug, PartialEq, Eq, Structural)]
pub struct LedgerEntry {
    pub account_id: i32,
    pub debit: Option<u128>,
    pub credit: Option<u128>,
    pub txn_date: i32,
    pub reference_table: ReferenceTable,
    pub reference_id: i32,
    pub txn_group_id: u128,
    pub created_at: i64,
    pub created_by: Option<i32>,
}

#[derive(Clone, Debug, PartialEq, Eq)]
pub struct Purchase {
    pub purchase_id: i32,
    pub item_code: String,
    pub cost_per_unit: u64,
    pub total_cost: Option<u128>,
    pub quantity: u64,
    pub purchase_date: i32,
    pub supplier: Option<String>,
    pub created_by: Option<i32>,
}

#[derive(Clone, Copy, Debug, PartialEq, Eq, Structural)]
pub struct Batch {
    pub batch_id: i32,
    pub line_id: i32,
    pub supervisor_id: i32,
    pub farmer_id: i32,
    pub start_date: i32,
    pub end_date: i32,
    pub initial_bird_count: i32,
    pub current_bird_count: Option<i32>,
}

#[derive(Clone, Debug, PartialEq, Eq)]
pub struct ProductionLine {
    pub line_id: i32,
    pub line_name: String,
    pub supervisor_id: i32,
}

/// The asset account that a category's stock is carried in, and the expense
/// account that its consumption is charged to.
#[derive(Clone, Copy, Debug, PartialEq, Eq, Structural)]
pub struct CategoryAccounts {
    pub category: ItemCategory,
    pub asset_account_id: i32,
    pub expense_account_id: i32,
}

/// The instant at which a workflow runs.
#[derive(Clone, Copy, Debug, PartialEq, Eq, Structural)]
pub struct Clock {
    /// Seconds since the Unix epoch.
    pub seconds: i64,
    /// Day of the common era of the same instant, in UTC.
    pub day: i32,
}

#[derive(Clone, Debug, PartialEq, Eq)]
pub struct CreateItem {
    pub item_code: String,
    pub item_name: String,
    pub unit: Option<String>,
}

#[derive(Clone, Debug, PartialEq, Eq)]
pub struct CreateProductionLine {
    pub line_name: String,
    pub supervisor_id: i32,
}

#[derive(Clone, Debug, PartialEq, Eq)]
pub struct CreateLedgerAccount {
    pub name: String,
    pub account_type: LedgerAccountType,
    pub current_balance: i128,
}

#[derive(Clone, Debug, PartialEq, Eq)]
pub struct CreateBatchRequirement {
    pub batch_id: i32,
    pub line_id: i32,
    pub supervisor_id: i32,
    pub item_code: String,
    pub quantity: u64,
    pub request_date: i32,
}

#[derive(Clone, Debug, PartialEq, Eq)]
pub struct CreatePurchase {
    pub item_code: String,
    pub cost_per_unit: u64,
    pub total_cost: Option<u128>,
    pub purchase_date: i32,
    pub supplier: Option<String>,
    pub quantity: u64,
    pub created_by: Option<i32>,
    pub inventory_account_id: i32,
    pub payment_account_id: i32,
}

#[derive(Clone, Debug, PartialEq, Eq)]
pub struct CreateBatch {
    pub chick_item_code: String,
    pub line_id: i32,
    pub supervisor_id: i32,
    pub farmer_id: i32,
    pub start_date: i32,
    pub end_date: i32,
    pub initial_bird_count: i32,
    pub created_by: i32,
}

#[derive(Clone, Copy, Debug, PartialEq, Eq, Structural)]
pub struct ApprovePayload {
    pub requirement_id: i32,
    pub allocated_qty: u64,
    pub allocation_date: i32,
    pub allocated_by: i32,
}

#[derive(Clone, Debug, PartialEq, Eq)]
pub struct ResponseMessage {
    pub message: String,
}

} // verus!
