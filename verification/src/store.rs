//! The tables of the stock and ledger model, and the plain inserts.

use vstd::prelude::*;
use crate::fifo::{check_lots, lots_valid};
use crate::inventory::{movement_sum, stock_matches_movements, stock_of};
use crate::ledger::{entries_balanced, entries_one_sided};
use crate::lookup::{first_index, first_of};
use crate::models::{
    Allocation, AllocationLine, Batch, CategoryAccounts, CreateBatchRequirement, CreateItem,
    CreateLedgerAccount, CreateProductionLine, Error, InventoryMovement, InventoryRecord, Item,
    ItemCategory, LedgerAccount, LedgerEntry, ProductionLine, Purchase, Requirement,
    RequirementStatus, StockLot,
};

verus! {

/// The identifier that each table hands to its next row.
#[derive(Clone, Copy, Debug, PartialEq, Eq, Structural)]
pub struct Sequences {
    pub line: i32,
    pub purchase: i32,
    pub lot: i32,
    pub batch: i32,
    pub requirement: i32,
    pub allocation: i32,
    pub account: i32,
}

#[derive(Clone, Debug, PartialEq, Eq)]
pub struct Store {
    pub items: Vec<Item>,
    pub lines: Vec<ProductionLine>,
    pub inventory: Vec<InventoryRecord>,
    pub lots: Vec<StockLot>,
    pub movements: Vec<InventoryMovement>,
    pub purchases: Vec<Purchase>,
    pub batches: Vec<Batch>,
    pub requirements: Vec<Requirement>,
    pub allocations: Vec<Allocation>,
    pub allocation_lines: Vec<AllocationLine>,
    pub accounts: Vec<LedgerAccount>,
    pub entries: Vec<LedgerEntry>,
    pub category_accounts: Vec<CategoryAccounts>,
    pub next: Sequences,
}

/// The tables as sequences of rows.
pub ghost struct StoreView {
    pub items: Seq<Item>,
    pub lines: Seq<ProductionLine>,
    pub inventory: Seq<InventoryRecord>,
    pub lots: Seq<StockLot>,
    pub movements: Seq<InventoryMovement>,
    pub purchases: Seq<Purchase>,
    pub batches: Seq<Batch>,
    pub requirements: Seq<Requirement>,
    pub allocations: Seq<Allocation>,
    pub allocation_lines: Seq<AllocationLine>,
    pub accounts: Seq<LedgerAccount>,
    pub entries: Seq<LedgerEntry>,
    pub category_accounts: Seq<CategoryAccounts>,
    pub next: Sequences,
}

impl View for Store {
    type V = StoreView;

    open spec fn view(&self) -> StoreView {
        StoreView {
            items: self.items@,
            lines: self.lines@,
            inventory: self.inventory@,
            lots: self.lots@,
            movements: self.movements@,
            purchases: self.purchases@,
            batches: self.batches@,
            requirements: self.requirements@,
            allocations: self.allocations@,
            allocation_lines: self.allocation_lines@,
            accounts: self.accounts@,
            entries: self.entries@,
            category_accounts: self.category_accounts@,
            next: self.next,
        }
    }
}

impl StoreView {
    /// Every lot holds at most what it received, and the lots are in issue
    /// order.
    pub open spec fn valid(self) -> bool {
        lots_valid(self.lots)
    }

    /// The books agree with themselves: the stock of every item is the sum
    /// of its movements, every ledger entry has one side, and every
    /// transaction group balances.
    pub open spec fn consistent(self) -> bool {
        &&& stock_matches_movements(self.inventory, self.movements)
        &&& entries_one_sided(self.entries)
        &&& entries_balanced(self.entries)
    }
}

/// Whatever of the books' consistency held before, holds after: each of its
/// three parts is kept on its own.
pub open spec fn books_kept(before: StoreView, after: StoreView) -> bool {
    &&& stock_matches_movements(before.inventory, before.movements) ==> stock_matches_movements(
        after.inventory,
        after.movements,
    )
    &&& entries_one_sided(before.entries) ==> entries_one_sided(after.entries)
    &&& entries_balanced(before.entries) ==> entries_balanced(after.entries)
}

pub open spec fn item_keys(items: Seq<Item>) -> Seq<Seq<char>> {
    items.map_values(|i: Item| i.item_code@)
}

pub open spec fn requirement_ids(requirements: Seq<Requirement>) -> Seq<i32> {
    requirements.map_values(|r: Requirement| r.requirement_id)
}

pub open spec fn mapped_categories(mapping: Seq<CategoryAccounts>) -> Seq<ItemCategory> {
    mapping.map_values(|m: CategoryAccounts| m.category)
}

/// The account pairs of the three stock categories: medicine, feed and
/// chicks are carried in accounts 102, 103 and 104, and all are charged to
/// account 107 when consumed.
pub fn standard_category_accounts() -> (mapping: Vec<CategoryAccounts>)
    ensures
        mapping@ == seq![
            CategoryAccounts {
                category: ItemCategory::Medicine,
                asset_account_id: 102,
                expense_account_id: 107,
            },
            CategoryAccounts {
                category: ItemCategory::Feed,
                asset_account_id: 103,
                expense_account_id: 107,
            },
            CategoryAccounts {
                category: ItemCategory::Chicks,
                asset_account_id: 104,
                expense_account_id: 107,
            },
        ],
{
    let mut mapping: Vec<CategoryAccounts> = Vec::new();
    mapping.push(
        CategoryAccounts {
            category: ItemCategory::Medicine,
            asset_account_id: 102,
            expense_account_id: 107,
        },
    );
    mapping.push(
        CategoryAccounts {
            category: ItemCategory::Feed,
            asset_account_id: 103,
            expense_account_id: 107,
        },
    );
    mapping.push(
        CategoryAccounts {
            category: ItemCategory::Chicks,
            asset_account_id: 104,
            expense_account_id: 107,
        },
    );
    mapping
}

/// Position of the first item with the given code.
pub fn find_item(items: &Vec<Item>, item_code: &String) -> (found: Option<usize>)
    ensures
        match found {
            Some(i) => first_of(item_keys(items@), item_code@) == Some(i as int) && i
                < items@.len(),
            None => first_of(item_keys(items@), item_code@).is_none(),
        },
{
    let ghost keys = item_keys(items@);
    let mut i: usize = 0;
    while i < items.len()
        invariant
            i <= items@.len(),
            keys == item_keys(items@),
            first_index(keys, item_code@, 0) == first_index(keys, item_code@, i as int),
        decreases items@.len() - i,
    {
        if items[i].item_code == *item_code {
            return Some(i);
        }
        i = i + 1;
    }
    None
}

/// Position of the first requirement with the given id.
pub fn find_requirement(requirements: &Vec<Requirement>, requirement_id: i32) -> (found: Option<
    usize,
>)
    ensures
        match found {
            Some(i) => first_of(requirement_ids(requirements@), requirement_id) == Some(i as int)
                && i < requirements@.len(),
            None => first_of(requirement_ids(requirements@), requirement_id).is_none(),
        },
{
    let ghost ids = requirement_ids(requirements@);
    let mut i: usize = 0;
    while i < requirements.len()
        invariant
            i <= requirements@.len(),
            ids == requirement_ids(requirements@),
            first_index(ids, requirement_id, 0) == first_index(ids, requirement_id, i as int),
        decreases requirements@.len() - i,
    {
        if requirements[i].requirement_id == requirement_id {
            return Some(i);
        }
        i = i + 1;
    }
    None
}

/// The account pair that the mapping gives first for a category.
pub fn find_category_accounts(mapping: &Vec<CategoryAccounts>, category: ItemCategory) -> (found:
    Option<CategoryAccounts>)
    ensures
        match first_of(mapped_categories(mapping@), category) {
            Some(i) => 0 <= i < mapping@.len() && found == Some(mapping@[i]),
            None => found.is_none(),
        },
{
    let ghost categories = mapped_categories(mapping@);
    let mut i: usize = 0;
    while i < mapping.len()
        invariant
            i <= mapping@.len(),
            categories == mapped_categories(mapping@),
            first_index(categories, category, 0) == first_index(categories, category, i as int),
        decreases mapping@.len() - i,
    {
        if mapping[i].category == category {
            return Some(mapping[i]);
        }
        i = i + 1;
    }
    None
}

impl Store {
    /// An empty store whose sequences start at 1.
    pub fn new(category_accounts: Vec<CategoryAccounts>) -> (store: Store)
        ensures
            store@.valid(),
            store@.consistent(),
            store@.items.len() == 0,
            store@.lines.len() == 0,
            store@.inventory.len() == 0,
            store@.lots.len() == 0,
            store@.movements.len() == 0,
            store@.purchases.len() == 0,
            store@.batches.len() == 0,
            store@.requirements.len() == 0,
            store@.allocations.len() == 0,
            store@.allocation_lines.len() == 0,
            store@.accounts.len() == 0,
            store@.entries.len() == 0,
            store@.category_accounts == category_accounts@,
            store@.next == (Sequences {
                line: 1,
                purchase: 1,
                lot: 1,
                batch: 1,
                requirement: 1,
                allocation: 1,
                account: 1,
            }),
    {
        proof {
            assert forall|code: Seq<char>|
                stock_of(Seq::<InventoryRecord>::empty(), code) == movement_sum(
                    Seq::<InventoryMovement>::empty(),
                    code,
                ) by {}
        }
        Store {
            items: Vec::new(),
            lines: Vec::new(),
            inventory: Vec::new(),
            lots: Vec::new(),
            movements: Vec::new(),
            purchases: Vec::new(),
            batches: Vec::new(),
            requirements: Vec::new(),
            allocations: Vec::new(),
            allocation_lines: Vec::new(),
            accounts: Vec::new(),
            entries: Vec::new(),
            category_accounts,
            next: Sequences {
                line: 1,
                purchase: 1,
                lot: 1,
                batch: 1,
                requirement: 1,
                allocation: 1,
                account: 1,
            },
        }
    }

    /// Whether the store is fit for the workflows: decides `valid`.
    pub fn is_valid(&self) -> (ok: bool)
        ensures
            ok == self@.valid(),
    {
        check_lots(&self.lots)
    }

    /// Adds an item under the given category.
    pub fn create_item(&mut self, payload: CreateItem, category: ItemCategory)
        ensures
            old(self)@.valid() ==> final(self)@.valid(),
            books_kept(old(self)@, final(self)@),
            final(self)@ == (StoreView {
                items: old(self)@.items.push(
                    Item {
                        item_code: payload.item_code,
                        item_name: payload.item_name,
                        unit: payload.unit,
                        item_category: category,
                    },
                ),
                ..old(self)@
            }),
    {
        self.items.push(
            Item {
                item_code: payload.item_code,
                item_name: payload.item_name,
                unit: payload.unit,
                item_category: category,
            },
        );
    }

    /// Adds a production line under the next line id, which it returns.
    pub fn create_production_line(&mut self, payload: CreateProductionLine) -> (res: Result<
        i32,
        Error,
    >)
        ensures
            old(self)@.valid() ==> final(self)@.valid(),
            books_kept(old(self)@, final(self)@),
            old(self)@.next.line == i32::MAX ==> res == Err::<i32, Error>(Error::Storage)
                && final(self)@ == old(self)@,
            old(self)@.next.line < i32::MAX ==> res == Ok::<i32, Error>(old(self)@.next.line)
                && final(self)@ == (StoreView {
                lines: old(self)@.lines.push(
                    ProductionLine {
                        line_id: old(self)@.next.line,
                        line_name: payload.line_name,
                        supervisor_id: payload.supervisor_id,
                    },
                ),
                next: Sequences { line: (old(self)@.next.line + 1) as i32, ..old(self)@.next },
                ..old(self)@
            }),
    {
        let id: i32 = self.next.line;
        if id == i32::MAX {
            return Err(Error::Storage);
        }
        self.lines.push(
            ProductionLine {
                line_id: id,
                line_name: payload.line_name,
                supervisor_id: payload.supervisor_id,
            },
        );
        self.next.line = id + 1;
        Ok(id)
    }

    /// Opens a ledger account under the next account id, which it returns.
    pub fn create_ledger_account(&mut self, payload: CreateLedgerAccount) -> (res: Result<
        i32,
        Error,
    >)
        ensures
            old(self)@.valid() ==> final(self)@.valid(),
            books_kept(old(self)@, final(self)@),
            old(self)@.next.account == i32::MAX ==> res == Err::<i32, Error>(Error::Storage)
                && final(self)@ == old(self)@,
            old(self)@.next.account < i32::MAX ==> res == Ok::<i32, Error>(
                old(self)@.next.account,
            ) && final(self)@ == (StoreView {
                accounts: old(self)@.accounts.push(
                    LedgerAccount {
                        account_id: old(self)@.next.account,
                        name: payload.name,
                        account_type: payload.account_type,
                        current_balance: payload.current_balance,
                    },
                ),
                next: Sequences {
                    account: (old(self)@.next.account + 1) as i32,
                    ..old(self)@.next
                },
                ..old(self)@
            }),
    {
        let id: i32 = self.next.account;
        if id == i32::MAX {
            return Err(Error::Storage);
        }
        self.accounts.push(
            LedgerAccount {
                account_id: id,
                name: payload.name,
                account_type: payload.account_type,
                current_balance: payload.current_balance,
            },
        );
        self.next.account = id + 1;
        Ok(id)
    }

    /// Files a pending requirement under the next requirement id, which it
    /// returns.
    pub fn create_batch_requirement(&mut self, payload: CreateBatchRequirement) -> (res: Result<
        i32,
        Error,
    >)
        ensures
            old(self)@.valid() ==> final(self)@.valid(),
            books_kept(old(self)@, final(self)@),
            old(self)@.next.requirement == i32::MAX ==> res == Err::<i32, Error>(Error::Storage)
                && final(self)@ == old(self)@,
            old(self)@.next.requirement < i32::MAX ==> res == Ok::<i32, Error>(
                old(self)@.next.requirement,
            ) && final(self)@ == (StoreView {
                requirements: old(self)@.requirements.push(
                    Requirement {
                        requirement_id: old(self)@.next.requirement,
                        batch_id: payload.batch_id,
                        line_id: payload.line_id,
                        supervisor_id: payload.supervisor_id,
                        item_code: payload.item_code,
                        quantity: payload.quantity,
                        status: RequirementStatus::Pending,
                        request_date: payload.request_date,
                    },
                ),
                next: Sequences {
                    requirement: (old(self)@.next.requirement + 1) as i32,
                    ..old(self)@.next
                },
                ..old(self)@
            }),
    {
        let id: i32 = self.next.requirement;
        if id == i32::MAX {
            return Err(Error::Storage);
        }
        self.requirements.push(
            Requirement {
                requirement_id: id,
                batch_id: payload.batch_id,
                line_id: payload.line_id,
                supervisor_id: payload.supervisor_id,
                item_code: payload.item_code,
                quantity: payload.quantity,
                status: RequirementStatus::Pending,
                request_date: payload.request_date,
            },
        );
        self.next.requirement = id + 1;
        Ok(id)
    }
}

} // verus!
