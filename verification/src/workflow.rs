//! The workflows: each one applies all of its effects to the store, or none.

use vstd::prelude::*;
use crate::fifo::{
    consume, fifo_lines, issue_position, lines_value, lots_after, quote, receive_lot,
    shortage_of,
};
use crate::inventory::{
    check_and_deduct, credited, deducted, find_inventory, lemma_credit_recorded,
    lemma_deduction_recorded, stock_matches_movements, upsert_inventory,
};
use crate::ledger::{
    apply_pair, credit_entry, debit_entry, post_pair, post_transaction, posting_at,
    posting_outcome, Posting,
};
use crate::lookup::first_of;
use crate::models::{
    Allocation, ApprovePayload, Batch, CategoryAccounts, Clock, CreateBatch, CreatePurchase,
    Error, Invalid, InventoryMovement, ItemCategory, Missing, MovementType, Purchase,
    ReferenceTable, Requirement, RequirementStatus, StockLot, QTY_SCALE,
};
use crate::system::{fresh_txn_group_id, is_random_uuid, same_instant, utc_now};
use crate::store::{
    books_kept, find_category_accounts, find_item, find_requirement, item_keys,
    mapped_categories, requirement_ids, Sequences, Store, StoreView,
};

verus! {

/// One issue of stock against a requirement.
#[derive(Clone, Copy, Debug, PartialEq, Eq, Structural)]
pub struct Issue {
    pub requirement_id: i32,
    pub qty: u64,
    pub allocation_date: i32,
    pub allocated_by: i32,
    /// The batch that the ledger entries point back to; without one they
    /// point back to the allocation.
    pub batch_id: Option<i32>,
    pub txn_group_id: u128,
    pub now: Clock,
}

/// The posting that recognises consumed stock: the expense account is
/// debited and the asset account credited with its value.
pub open spec fn issue_posting(
    accounts: CategoryAccounts,
    amount: u128,
    allocation_id: i32,
    issue: Issue,
) -> Posting {
    Posting {
        debit_account_id: accounts.expense_account_id,
        credit_account_id: accounts.asset_account_id,
        amount,
        txn_date: issue.now.day,
        reference_table: if issue.batch_id.is_some() {
            ReferenceTable::Batches
        } else {
            ReferenceTable::Allocations
        },
        reference_id: match issue.batch_id {
            Some(b) => b,
            None => allocation_id,
        },
        txn_group_id: issue.txn_group_id,
        created_at: issue.now.seconds,
        created_by: Some(issue.allocated_by),
    }
}

pub open spec fn issue_movement(item: String, allocation_id: i32, issue: Issue)
    -> InventoryMovement {
    InventoryMovement {
        item_code: item,
        movement_type: MovementType::Allocation,
        qty_change: (-(issue.qty as int)) as i128,
        reference_id: Some(allocation_id),
        movement_date: issue.now.seconds,
    }
}

pub open spec fn issue_allocation(allocation_id: i32, value: u128, issue: Issue) -> Allocation {
    Allocation {
        allocation_id,
        requirement_id: issue.requirement_id,
        allocated_qty: issue.qty,
        allocation_date: issue.allocation_date,
        allocated_value: value,
        allocated_by: issue.allocated_by,
    }
}

/// The store after stock of `item` has been issued, or the first reason
/// why it cannot be: no allocation id left, no inventory row, too little
/// on hand, lots that fall short, an unknown item, a category without
/// accounts, or a posting that fails.
pub open spec fn issued(v: StoreView, item: String, issue: Issue) -> Result<StoreView, Error> {
    let id = v.next.allocation;
    let lines = fifo_lines(v.lots, item@, issue.qty as int, id, v.lots.len() as int);
    let value = lines_value(lines);
    let shortage = shortage_of(v.lots, item@, issue.qty as int);
    if id == i32::MAX {
        Err(Error::Storage)
    } else {
        match deducted(v.inventory, item@, issue.qty, issue.now.seconds) {
            Err(e) => Err(e),
            Ok(inventory) => if shortage > 0 {
                Err(Error::PartialAllocation { shortage: shortage as u64 })
            } else {
                match first_of(item_keys(v.items), item@) {
                    None => Err(Error::NotFound(Missing::Item)),
                    Some(it) => match first_of(
                        mapped_categories(v.category_accounts),
                        v.items[it].item_category,
                    ) {
                        None => Err(Error::NotFound(Missing::AccountMapping)),
                        Some(m) => {
                            let posting = issue_posting(
                                v.category_accounts[m],
                                value as u128,
                                id,
                                issue,
                            );
                            match apply_pair(
                                v.accounts,
                                posting.debit_account_id,
                                posting.credit_account_id,
                                value,
                            ) {
                                Err(e) => Err(e),
                                Ok(accounts) => Ok(
                                    StoreView {
                                        inventory,
                                        lots: lots_after(v.lots, item@, issue.qty as int),
                                        movements: v.movements.push(
                                            issue_movement(item, id, issue),
                                        ),
                                        allocations: v.allocations.push(
                                            issue_allocation(id, value as u128, issue),
                                        ),
                                        allocation_lines: v.allocation_lines + lines,
                                        accounts,
                                        entries: v.entries.push(debit_entry(posting)).push(
                                            credit_entry(posting),
                                        ),
                                        next: Sequences { allocation: (id + 1) as i32, ..v.next },
                                        ..v
                                    },
                                ),
                            }
                        },
                    },
                }
            },
        }
    }
}

/// The store after a requirement has been approved and its stock issued.
pub open spec fn approved(v: StoreView, payload: ApprovePayload, txn_group_id: u128, now: Clock)
    -> Result<StoreView, Error> {
    match first_of(requirement_ids(v.requirements), payload.requirement_id) {
        None => Err(Error::NotFound(Missing::Requirement)),
        Some(r) => if v.requirements[r].status != RequirementStatus::Pending {
            Err(Error::Validation(Invalid::NotPending))
        } else {
            match issued(
                v,
                v.requirements[r].item_code,
                approval_issue(payload, txn_group_id, now),
            ) {
                Err(e) => Err(e),
                Ok(after) => Ok(
                    StoreView {
                        requirements: after.requirements.update(
                            r,
                            Requirement {
                                status: RequirementStatus::Accept,
                                ..after.requirements[r]
                            },
                        ),
                        ..after
                    },
                ),
            }
        },
    }
}

pub open spec fn approval_issue(payload: ApprovePayload, txn_group_id: u128, now: Clock) -> Issue {
    Issue {
        requirement_id: payload.requirement_id,
        qty: payload.allocated_qty,
        allocation_date: payload.allocation_date,
        allocated_by: payload.allocated_by,
        batch_id: None,
        txn_group_id,
        now,
    }
}

/// The store after a pending requirement has been declined.
pub open spec fn declined(v: StoreView, requirement_id: i32) -> Result<StoreView, Error> {
    match first_of(requirement_ids(v.requirements), requirement_id) {
        None => Err(Error::NotFound(Missing::Requirement)),
        Some(r) => if v.requirements[r].status != RequirementStatus::Pending {
            Err(Error::Validation(Invalid::NotPending))
        } else {
            Ok(
                StoreView {
                    requirements: v.requirements.update(
                        r,
                        Requirement { status: RequirementStatus::Decline, ..v.requirements[r] },
                    ),
                    ..v
                },
            )
        },
    }
}

pub open spec fn amount_or_zero(amount: Option<u128>) -> u128 {
    match amount {
        Some(a) => a,
        None => 0,
    }
}

pub open spec fn purchase_row(purchase_id: i32, payload: CreatePurchase) -> Purchase {
    Purchase {
        purchase_id,
        item_code: payload.item_code,
        cost_per_unit: payload.cost_per_unit,
        total_cost: payload.total_cost,
        quantity: payload.quantity,
        purchase_date: payload.purchase_date,
        supplier: payload.supplier,
        created_by: payload.created_by,
    }
}

/// The lot that a purchase puts into stock: all of it still there, at the
/// purchase's unit cost, received on the purchase date.
pub open spec fn purchase_lot(lot_id: i32, purchase_id: i32, payload: CreatePurchase) -> StockLot {
    StockLot {
        lot_id,
        purchase_id: Some(purchase_id),
        item_code: payload.item_code,
        received_qty: payload.quantity,
        remaining_qty: payload.quantity,
        unit_cost: payload.cost_per_unit,
        received_date: payload.purchase_date,
        supplier: payload.supplier,
    }
}

pub open spec fn purchase_movement(purchase_id: i32, payload: CreatePurchase, now: Clock)
    -> InventoryMovement {
    InventoryMovement {
        item_code: payload.item_code,
        movement_type: MovementType::Purchase,
        qty_change: payload.quantity as i128,
        reference_id: Some(purchase_id),
        movement_date: now.seconds,
    }
}

/// The posting that pays for a purchase: the inventory account is debited
/// and the payment account credited with the total cost, or with nothing
/// where the purchase names none.
pub open spec fn purchase_posting(
    purchase_id: i32,
    payload: CreatePurchase,
    txn_group_id: u128,
    now: Clock,
) -> Posting {
    Posting {
        debit_account_id: payload.inventory_account_id,
        credit_account_id: payload.payment_account_id,
        amount: amount_or_zero(payload.total_cost),
        txn_date: payload.purchase_date,
        reference_table: ReferenceTable::Purchases,
        reference_id: purchase_id,
        txn_group_id,
        created_at: now.seconds,
        created_by: payload.created_by,
    }
}

/// The store after a purchase, or the first reason why it cannot be made:
/// no purchase or lot id left, a quantity on hand that would not fit, or a
/// posting that fails.
pub open spec fn purchased(v: StoreView, payload: CreatePurchase, txn_group_id: u128, now: Clock)
    -> Result<StoreView, Error> {
    let purchase_id = v.next.purchase;
    let lot = purchase_lot(v.next.lot, purchase_id, payload);
    let posting = purchase_posting(purchase_id, payload, txn_group_id, now);
    if purchase_id == i32::MAX || v.next.lot == i32::MAX {
        Err(Error::Storage)
    } else {
        match credited(v.inventory, payload.item_code, payload.quantity, now.seconds) {
            Err(e) => Err(e),
            Ok(inventory) => match apply_pair(
                v.accounts,
                posting.debit_account_id,
                posting.credit_account_id,
                posting.amount as int,
            ) {
                Err(e) => Err(e),
                Ok(accounts) => Ok(
                    StoreView {
                        purchases: v.purchases.push(purchase_row(purchase_id, payload)),
                        lots: v.lots.insert(issue_position(v.lots, lot, 0), lot),
                        inventory,
                        movements: v.movements.push(purchase_movement(purchase_id, payload, now)),
                        accounts,
                        entries: v.entries.push(debit_entry(posting)).push(credit_entry(posting)),
                        next: Sequences {
                            purchase: (purchase_id + 1) as i32,
                            lot: (v.next.lot + 1) as i32,
                            ..v.next
                        },
                        ..v
                    },
                ),
            },
        }
    }
}

/// The stock that a batch draws: its initial birds, as a quantity.
pub open spec fn batch_issue(v: StoreView, payload: CreateBatch, txn_group_id: u128, now: Clock)
    -> Issue {
    Issue {
        requirement_id: v.next.requirement,
        qty: (payload.initial_bird_count * QTY_SCALE) as u64,
        allocation_date: now.day,
        allocated_by: payload.created_by,
        batch_id: Some(v.next.batch),
        txn_group_id,
        now,
    }
}

pub open spec fn batch_row(batch_id: i32, payload: CreateBatch) -> Batch {
    Batch {
        batch_id,
        line_id: payload.line_id,
        supervisor_id: payload.supervisor_id,
        farmer_id: payload.farmer_id,
        start_date: payload.start_date,
        end_date: payload.end_date,
        initial_bird_count: payload.initial_bird_count,
        current_bird_count: Some(payload.initial_bird_count),
    }
}

/// The requirement that a new batch files for its chicks: accepted from
/// the start.
pub open spec fn batch_requirement(v: StoreView, payload: CreateBatch, now: Clock) -> Requirement {
    Requirement {
        requirement_id: v.next.requirement,
        batch_id: v.next.batch,
        line_id: payload.line_id,
        supervisor_id: payload.supervisor_id,
        item_code: payload.chick_item_code,
        quantity: (payload.initial_bird_count * QTY_SCALE) as u64,
        status: RequirementStatus::Accept,
        request_date: now.day,
    }
}

/// The store after a batch has been created and its chicks issued, or the
/// first reason why it cannot be: a negative bird count, an unknown item,
/// an item that is no chick, no batch or requirement id left, or an issue
/// that fails.
pub open spec fn batch_created(v: StoreView, payload: CreateBatch, txn_group_id: u128, now: Clock)
    -> Result<StoreView, Error> {
    if payload.initial_bird_count < 0 {
        Err(Error::Validation(Invalid::NegativeCount))
    } else {
        match first_of(item_keys(v.items), payload.chick_item_code@) {
            None => Err(Error::NotFound(Missing::Item)),
            Some(it) => if v.items[it].item_category != ItemCategory::Chicks {
                Err(Error::Validation(Invalid::NotChickItem))
            } else if v.next.batch == i32::MAX || v.next.requirement == i32::MAX {
                Err(Error::Storage)
            } else {
                match issued(
                    v,
                    payload.chick_item_code,
                    batch_issue(v, payload, txn_group_id, now),
                ) {
                    Err(e) => Err(e),
                    Ok(after) => Ok(
                        StoreView {
                            batches: after.batches.push(batch_row(v.next.batch, payload)),
                            requirements: after.requirements.push(
                                batch_requirement(v, payload, now),
                            ),
                            next: Sequences {
                                batch: (v.next.batch + 1) as i32,
                                requirement: (v.next.requirement + 1) as i32,
                                ..after.next
                            },
                            ..after
                        },
                    ),
                }
            },
        }
    }
}

/// What an approval leaves behind and returns.
pub open spec fn approval_outcome(
    before: StoreView,
    payload: ApprovePayload,
    txn_group_id: u128,
    now: Clock,
    after: StoreView,
    res: Result<Allocation, Error>,
) -> bool {
    match approved(before, payload, txn_group_id, now) {
        Ok(expected) => after == expected && res == Ok::<Allocation, Error>(
            expected.allocations.last(),
        ),
        Err(e) => after == before && res == Err::<Allocation, Error>(e),
    }
}

/// What a purchase leaves behind and returns.
pub open spec fn purchase_outcome(
    before: StoreView,
    payload: CreatePurchase,
    txn_group_id: u128,
    now: Clock,
    after: StoreView,
    res: Result<Purchase, Error>,
) -> bool {
    match purchased(before, payload, txn_group_id, now) {
        Ok(expected) => after == expected && res == Ok::<Purchase, Error>(
            expected.purchases.last(),
        ),
        Err(e) => after == before && res == Err::<Purchase, Error>(e),
    }
}

/// What the creation of a batch leaves behind and returns.
pub open spec fn batch_outcome(
    before: StoreView,
    payload: CreateBatch,
    txn_group_id: u128,
    now: Clock,
    after: StoreView,
    res: Result<Batch, Error>,
) -> bool {
    match batch_created(before, payload, txn_group_id, now) {
        Ok(expected) => after == expected && res == Ok::<Batch, Error>(expected.batches.last()),
        Err(e) => after == before && res == Err::<Batch, Error>(e),
    }
}

/// The account that takes the proceeds of a batch sale.
pub const CASH_ACCOUNT_ID: i32 = 101;

/// The account that a batch sale is booked to as revenue.
pub const REVENUE_ACCOUNT_ID: i32 = 108;

/// The account that farmer commissions are charged to.
pub const COMMISSION_EXPENSE_ACCOUNT_ID: i32 = 106;

/// What a posting made by the store leaves behind and returns.
pub open spec fn store_posting_outcome(
    before: StoreView,
    posting: Posting,
    after: StoreView,
    res: Result<u128, Error>,
) -> bool {
    &&& posting_outcome(
        before.accounts,
        before.entries,
        posting,
        after.accounts,
        after.entries,
        res,
    )
    &&& after == (StoreView { accounts: after.accounts, entries: after.entries, ..before })
}

impl Store {
    /// Issues stock of an item against a requirement: records the
    /// allocation, takes the quantity out of the inventory and logs the
    /// movement, consumes the lots oldest first and keeps one line per lot,
    /// values the allocation at the sum of the lines, and posts that value
    /// as a debit to the expense account and a credit to the asset account
    /// of the item's category.
    ///
    /// On any failure the store is left as it was.
    pub fn issue_stock(&mut self, item_code: &String, issue: Issue) -> (res: Result<
        Allocation,
        Error,
    >)
        requires
            old(self)@.valid(),
        ensures
            final(self)@.valid(),
            match issued(old(self)@, *item_code, issue) {
                Ok(after) => final(self)@ == after && res == Ok::<Allocation, Error>(
                    after.allocations.last(),
                ),
                Err(e) => final(self)@ == old(self)@ && res == Err::<Allocation, Error>(e),
            },
            books_kept(old(self)@, final(self)@),
    {
        let id: i32 = self.next.allocation;
        if id == i32::MAX {
            return Err(Error::Storage);
        }
        match find_inventory(&self.inventory, item_code) {
            None => {
                return Err(Error::NotFound(Missing::Inventory));
            },
            Some(i) => {
                let on_hand: u64 = self.inventory[i].current_qty;
                if on_hand < issue.qty {
                    return Err(
                        Error::InsufficientStock { required: issue.qty, available: on_hand },
                    );
                }
            },
        }
        let mut quoted = quote(&self.lots, item_code, issue.qty, id);
        if quoted.shortage > 0 {
            return Err(Error::PartialAllocation { shortage: quoted.shortage });
        }
        let category = match find_item(&self.items, item_code) {
            None => {
                return Err(Error::NotFound(Missing::Item));
            },
            Some(it) => self.items[it].item_category,
        };
        let accounts = match find_category_accounts(&self.category_accounts, category) {
            None => {
                return Err(Error::NotFound(Missing::AccountMapping));
            },
            Some(accounts) => accounts,
        };
        let posting = Posting {
            debit_account_id: accounts.expense_account_id,
            credit_account_id: accounts.asset_account_id,
            amount: quoted.total_value,
            txn_date: issue.now.day,
            reference_table: if issue.batch_id.is_some() {
                ReferenceTable::Batches
            } else {
                ReferenceTable::Allocations
            },
            reference_id: match issue.batch_id {
                Some(b) => b,
                None => id,
            },
            txn_group_id: issue.txn_group_id,
            created_at: issue.now.seconds,
            created_by: Some(issue.allocated_by),
        };
        match post_pair(&mut self.accounts, &mut self.entries, posting) {
            Err(e) => {
                return Err(e);
            },
            Ok(()) => {},
        }
        let taken = check_and_deduct(
            &mut self.inventory,
            item_code,
            issue.qty,
            issue.now.seconds,
        );
        assert(taken.is_ok());
        consume(&mut self.lots, item_code, issue.qty);
        let movement = InventoryMovement {
            item_code: item_code.clone(),
            movement_type: MovementType::Allocation,
            qty_change: -(issue.qty as i128),
            reference_id: Some(id),
            movement_date: issue.now.seconds,
        };
        proof {
            if stock_matches_movements(old(self)@.inventory, old(self)@.movements) {
                lemma_deduction_recorded(
                    old(self)@.inventory,
                    old(self)@.movements,
                    item_code@,
                    issue.qty,
                    issue.now.seconds,
                    movement,
                );
            }
        }
        self.movements.push(movement);
        let allocation = Allocation {
            allocation_id: id,
            requirement_id: issue.requirement_id,
            allocated_qty: issue.qty,
            allocation_date: issue.allocation_date,
            allocated_value: quoted.total_value,
            allocated_by: issue.allocated_by,
        };
        self.allocations.push(allocation);
        self.allocation_lines.append(&mut quoted.lines);
        self.next.allocation = id + 1;
        Ok(allocation)
    }

    /// Approves a pending requirement and issues its stock, as one unit.
    ///
    /// Fails, leaving the store as it was, where the requirement is unknown
    /// or no longer pending, or where the issue fails.
    pub fn approve_and_allocate(
        &mut self,
        payload: ApprovePayload,
        txn_group_id: u128,
        now: Clock,
    ) -> (res: Result<Allocation, Error>)
        requires
            old(self)@.valid(),
        ensures
            final(self)@.valid(),
            approval_outcome(old(self)@, payload, txn_group_id, now, final(self)@, res),
            books_kept(old(self)@, final(self)@),
    {
        let r = match find_requirement(&self.requirements, payload.requirement_id) {
            None => {
                return Err(Error::NotFound(Missing::Requirement));
            },
            Some(r) => r,
        };
        match self.requirements[r].status {
            RequirementStatus::Pending => {},
            _ => {
                return Err(Error::Validation(Invalid::NotPending));
            },
        }
        let item_code = self.requirements[r].item_code.clone();
        let issue = Issue {
            requirement_id: payload.requirement_id,
            qty: payload.allocated_qty,
            allocation_date: payload.allocation_date,
            allocated_by: payload.allocated_by,
            batch_id: None,
            txn_group_id,
            now,
        };
        let allocation = match self.issue_stock(&item_code, issue) {
            Err(e) => {
                return Err(e);
            },
            Ok(allocation) => allocation,
        };
        let requirement = &mut self.requirements[r];
        requirement.status = RequirementStatus::Accept;
        Ok(allocation)
    }

    /// Declines a pending requirement. Only its status changes; a
    /// requirement that is unknown, or already accepted or declined, is
    /// refused and nothing changes.
    pub fn decline_batch_requirement(&mut self, requirement_id: i32) -> (res: Result<(), Error>)
        ensures
            match declined(old(self)@, requirement_id) {
                Ok(after) => final(self)@ == after && res.is_ok(),
                Err(e) => final(self)@ == old(self)@ && res == Err::<(), Error>(e),
            },
            final(self)@.allocations == old(self)@.allocations,
            old(self)@.valid() ==> final(self)@.valid(),
            books_kept(old(self)@, final(self)@),
    {
        let r = match find_requirement(&self.requirements, requirement_id) {
            None => {
                return Err(Error::NotFound(Missing::Requirement));
            },
            Some(r) => r,
        };
        match self.requirements[r].status {
            RequirementStatus::Pending => {},
            _ => {
                return Err(Error::Validation(Invalid::NotPending));
            },
        }
        let requirement = &mut self.requirements[r];
        requirement.status = RequirementStatus::Decline;
        Ok(())
    }

    /// Approves a pending requirement now, under a fresh transaction group.
    pub fn approve_batch_requirement(&mut self, payload: ApprovePayload) -> (res: Result<
        Allocation,
        Error,
    >)
        requires
            old(self)@.valid(),
        ensures
            final(self)@.valid(),
            exists|txn_group_id: u128, now: Clock|
                is_random_uuid(txn_group_id) && same_instant(now) && approval_outcome(
                    old(self)@,
                    payload,
                    txn_group_id,
                    now,
                    final(self)@,
                    res,
                ),
            books_kept(old(self)@, final(self)@),
    {
        let txn_group_id = fresh_txn_group_id();
        let now = utc_now();
        let res = self.approve_and_allocate(payload, txn_group_id, now);
        res
    }

    /// Records a purchase: the purchase itself, one new lot that holds all
    /// of it at the purchase's unit cost, the quantity added to the
    /// inventory, the movement that logs it, and the posting of its total
    /// cost as a debit to the inventory account and a credit to the payment
    /// account.
    ///
    /// On any failure the store is left as it was.
    pub fn record_purchase(
        &mut self,
        payload: &CreatePurchase,
        txn_group_id: u128,
        now: Clock,
    ) -> (res: Result<Purchase, Error>)
        requires
            old(self)@.valid(),
        ensures
            final(self)@.valid(),
            purchase_outcome(old(self)@, *payload, txn_group_id, now, final(self)@, res),
            books_kept(old(self)@, final(self)@),
    {
        let purchase_id: i32 = self.next.purchase;
        let lot_id: i32 = self.next.lot;
        if purchase_id == i32::MAX || lot_id == i32::MAX {
            return Err(Error::Storage);
        }
        match find_inventory(&self.inventory, &payload.item_code) {
            None => {},
            Some(i) => {
                if payload.quantity > u64::MAX - self.inventory[i].current_qty {
                    return Err(Error::Storage);
                }
            },
        }
        let amount: u128 = match payload.total_cost {
            Some(a) => a,
            None => 0,
        };
        let posting = Posting {
            debit_account_id: payload.inventory_account_id,
            credit_account_id: payload.payment_account_id,
            amount,
            txn_date: payload.purchase_date,
            reference_table: ReferenceTable::Purchases,
            reference_id: purchase_id,
            txn_group_id,
            created_at: now.seconds,
            created_by: payload.created_by,
        };
        match post_pair(&mut self.accounts, &mut self.entries, posting) {
            Err(e) => {
                return Err(e);
            },
            Ok(()) => {},
        }
        let added = upsert_inventory(
            &mut self.inventory,
            &payload.item_code,
            payload.quantity,
            now.seconds,
        );
        assert(added.is_ok());
        let lot = StockLot {
            lot_id,
            purchase_id: Some(purchase_id),
            item_code: payload.item_code.clone(),
            received_qty: payload.quantity,
            remaining_qty: payload.quantity,
            unit_cost: payload.cost_per_unit,
            received_date: payload.purchase_date,
            supplier: payload.supplier.clone(),
        };
        receive_lot(&mut self.lots, lot);
        let movement = InventoryMovement {
            item_code: payload.item_code.clone(),
            movement_type: MovementType::Purchase,
            qty_change: payload.quantity as i128,
            reference_id: Some(purchase_id),
            movement_date: now.seconds,
        };
        proof {
            if stock_matches_movements(old(self)@.inventory, old(self)@.movements) {
                lemma_credit_recorded(
                    old(self)@.inventory,
                    old(self)@.movements,
                    payload.item_code,
                    payload.quantity,
                    now.seconds,
                    movement,
                );
            }
        }
        self.movements.push(movement);
        self.purchases.push(
            Purchase {
                purchase_id,
                item_code: payload.item_code.clone(),
                cost_per_unit: payload.cost_per_unit,
                total_cost: payload.total_cost,
                quantity: payload.quantity,
                purchase_date: payload.purchase_date,
                supplier: payload.supplier.clone(),
                created_by: payload.created_by,
            },
        );
        self.next.purchase = purchase_id + 1;
        self.next.lot = lot_id + 1;
        Ok(
            Purchase {
                purchase_id,
                item_code: payload.item_code.clone(),
                cost_per_unit: payload.cost_per_unit,
                total_cost: payload.total_cost,
                quantity: payload.quantity,
                purchase_date: payload.purchase_date,
                supplier: payload.supplier.clone(),
                created_by: payload.created_by,
            },
        )
    }

    /// Records a purchase now, under a fresh transaction group.
    pub fn create_purchase(&mut self, payload: &CreatePurchase) -> (res: Result<Purchase, Error>)
        requires
            old(self)@.valid(),
        ensures
            final(self)@.valid(),
            exists|txn_group_id: u128, now: Clock|
                is_random_uuid(txn_group_id) && same_instant(now) && purchase_outcome(
                    old(self)@,
                    *payload,
                    txn_group_id,
                    now,
                    final(self)@,
                    res,
                ),
            books_kept(old(self)@, final(self)@),
    {
        let txn_group_id = fresh_txn_group_id();
        let now = utc_now();
        let res = self.record_purchase(payload, txn_group_id, now);
        res
    }

    /// Creates a batch and issues its chicks, as one unit: the item must be
    /// a chick item; the batch's requirement is filed as accepted; the
    /// stock is issued as for an approval, and the ledger entries point
    /// back to the batch.
    ///
    /// On any failure the store is left as it was.
    pub fn create_batch_with_transaction(
        &mut self,
        payload: &CreateBatch,
        txn_group_id: u128,
        now: Clock,
    ) -> (res: Result<Batch, Error>)
        requires
            old(self)@.valid(),
        ensures
            final(self)@.valid(),
            batch_outcome(old(self)@, *payload, txn_group_id, now, final(self)@, res),
            books_kept(old(self)@, final(self)@),
    {
        if payload.initial_bird_count < 0 {
            return Err(Error::Validation(Invalid::NegativeCount));
        }
        match find_item(&self.items, &payload.chick_item_code) {
            None => {
                return Err(Error::NotFound(Missing::Item));
            },
            Some(it) => {
                match self.items[it].item_category {
                    ItemCategory::Chicks => {},
                    _ => {
                        return Err(Error::Validation(Invalid::NotChickItem));
                    },
                }
            },
        }
        let batch_id: i32 = self.next.batch;
        let requirement_id: i32 = self.next.requirement;
        if batch_id == i32::MAX || requirement_id == i32::MAX {
            return Err(Error::Storage);
        }
        let qty: u64 = (payload.initial_bird_count as u64) * QTY_SCALE;
        let issue = Issue {
            requirement_id,
            qty,
            allocation_date: now.day,
            allocated_by: payload.created_by,
            batch_id: Some(batch_id),
            txn_group_id,
            now,
        };
        match self.issue_stock(&payload.chick_item_code, issue) {
            Err(e) => {
                return Err(e);
            },
            Ok(_) => {},
        }
        let batch = Batch {
            batch_id,
            line_id: payload.line_id,
            supervisor_id: payload.supervisor_id,
            farmer_id: payload.farmer_id,
            start_date: payload.start_date,
            end_date: payload.end_date,
            initial_bird_count: payload.initial_bird_count,
            current_bird_count: Some(payload.initial_bird_count),
        };
        self.batches.push(batch);
        self.requirements.push(
            Requirement {
                requirement_id,
                batch_id,
                line_id: payload.line_id,
                supervisor_id: payload.supervisor_id,
                item_code: payload.chick_item_code.clone(),
                quantity: qty,
                status: RequirementStatus::Accept,
                request_date: now.day,
            },
        );
        self.next.batch = batch_id + 1;
        self.next.requirement = requirement_id + 1;
        Ok(batch)
    }

    /// Creates a batch now, under a fresh transaction group.
    pub fn create_batch(&mut self, payload: &CreateBatch) -> (res: Result<Batch, Error>)
        requires
            old(self)@.valid(),
        ensures
            final(self)@.valid(),
            exists|txn_group_id: u128, now: Clock|
                is_random_uuid(txn_group_id) && same_instant(now) && batch_outcome(
                    old(self)@,
                    *payload,
                    txn_group_id,
                    now,
                    final(self)@,
                    res,
                ),
            books_kept(old(self)@, final(self)@),
    {
        let txn_group_id = fresh_txn_group_id();
        let now = utc_now();
        let res = self.create_batch_with_transaction(payload, txn_group_id, now);
        res
    }

    /// Posts the value of a batch sale now, under a fresh transaction
    /// group, whose id it returns: a debit to the cash account and a credit
    /// to the revenue account. On failure the store is left as it was.
    pub fn insert_batch_sales_ledger_entries(
        &mut self,
        sale_id: i32,
        sale_value: u128,
        created_by: i32,
    ) -> (res: Result<u128, Error>)
        ensures
            exists|txn_group_id: u128, now: Clock|
                is_random_uuid(txn_group_id) && same_instant(now) && store_posting_outcome(
                    old(self)@,
                    #[trigger] posting_at(
                        CASH_ACCOUNT_ID,
                        REVENUE_ACCOUNT_ID,
                        sale_value,
                        ReferenceTable::BatchSales,
                        sale_id,
                        Some(created_by),
                        txn_group_id,
                        now,
                    ),
                    final(self)@,
                    res,
                ),
            books_kept(old(self)@, final(self)@),
            old(self)@.valid() ==> final(self)@.valid(),
    {
        post_transaction(
            &mut self.accounts,
            &mut self.entries,
            CASH_ACCOUNT_ID,
            REVENUE_ACCOUNT_ID,
            sale_value,
            ReferenceTable::BatchSales,
            sale_id,
            Some(created_by),
        )
    }

    /// Posts a farmer's commission now, under a fresh transaction group,
    /// whose id it returns: a debit to the commission expense account and a
    /// credit to the cash account. On failure the store is left as it was.
    pub fn insert_farmer_commission_ledger_entries(
        &mut self,
        commission_id: i32,
        commission_amount: u128,
        created_by: Option<i32>,
    ) -> (res: Result<u128, Error>)
        ensures
            exists|txn_group_id: u128, now: Clock|
                is_random_uuid(txn_group_id) && same_instant(now) && store_posting_outcome(
                    old(self)@,
                    #[trigger] posting_at(
                        COMMISSION_EXPENSE_ACCOUNT_ID,
                        CASH_ACCOUNT_ID,
                        commission_amount,
                        ReferenceTable::FarmerCommissionHistory,
                        commission_id,
                        created_by,
                        txn_group_id,
                        now,
                    ),
                    final(self)@,
                    res,
                ),
            books_kept(old(self)@, final(self)@),
            old(self)@.valid() ==> final(self)@.valid(),
    {
        post_transaction(
            &mut self.accounts,
            &mut self.entries,
            COMMISSION_EXPENSE_ACCOUNT_ID,
            CASH_ACCOUNT_ID,
            commission_amount,
            ReferenceTable::FarmerCommissionHistory,
            commission_id,
            created_by,
        )
    }
}

} // verus!
