use farmstock::models::{
    Allocation, AllocationLine, ApprovePayload, Clock, CreateBatch, CreateBatchRequirement,
    CreateItem, CreateLedgerAccount, CreateProductionLine, CreatePurchase, Error, Invalid,
    ItemCategory, LedgerAccount, LedgerAccountType, Missing, MovementType, ReferenceTable,
    RequirementStatus,
};
use farmstock::store::{standard_category_accounts, Store};
use farmstock::workflow::Issue;

const DAY1: Clock = Clock { seconds: 86_400, day: 719_164 };
const DAY2: Clock = Clock { seconds: 172_800, day: 719_165 };

fn account(id: i32, kind: LedgerAccountType, balance: i128) -> LedgerAccount {
    LedgerAccount {
        account_id: id,
        name: format!("account {}", id),
        account_type: kind,
        current_balance: balance,
    }
}

fn farm() -> Store {
    let mut store = Store::new(standard_category_accounts());
    store.accounts.push(account(101, LedgerAccountType::Asset, 100_000_000));
    store.accounts.push(account(102, LedgerAccountType::Asset, 0));
    store.accounts.push(account(103, LedgerAccountType::Asset, 0));
    store.accounts.push(account(104, LedgerAccountType::Asset, 0));
    store.accounts.push(account(107, LedgerAccountType::Expense, 0));
    store.accounts.push(account(108, LedgerAccountType::Revenue, 0));
    store.accounts.push(account(201, LedgerAccountType::Liability, 0));
    store.create_item(
        CreateItem { item_code: "FEED1".to_string(), item_name: "Feed".to_string(), unit: None },
        ItemCategory::Feed,
    );
    store.create_item(
        CreateItem {
            item_code: "CHK".to_string(),
            item_name: "Chicks".to_string(),
            unit: Some("bird".to_string()),
        },
        ItemCategory::Chicks,
    );
    store
}

fn purchase(item: &str, qty: u64, cost: u64, day: i32, inventory_account: i32) -> CreatePurchase {
    CreatePurchase {
        item_code: item.to_string(),
        cost_per_unit: cost,
        total_cost: Some(qty as u128 * cost as u128),
        purchase_date: day,
        supplier: Some("Agro".to_string()),
        quantity: qty,
        created_by: Some(7),
        inventory_account_id: inventory_account,
        payment_account_id: 101,
    }
}

fn requirement(store: &mut Store, item: &str, qty: u64) -> i32 {
    store
        .create_batch_requirement(CreateBatchRequirement {
            batch_id: 1,
            line_id: 1,
            supervisor_id: 2,
            item_code: item.to_string(),
            quantity: qty,
            request_date: 719_164,
        })
        .unwrap()
}

fn approve(id: i32, qty: u64) -> ApprovePayload {
    ApprovePayload { requirement_id: id, allocated_qty: qty, allocation_date: 719_165, allocated_by: 9 }
}

fn balance(store: &Store, id: i32) -> i128 {
    store.accounts.iter().find(|a| a.account_id == id).unwrap().current_balance
}

fn stock(store: &Store, item: &str) -> i128 {
    store.inventory.iter().find(|r| r.item_code == item).map(|r| r.current_qty as i128).unwrap_or(0)
}

fn movement_total(store: &Store, item: &str) -> i128 {
    store.movements.iter().filter(|m| m.item_code == item).map(|m| m.qty_change).sum()
}

fn groups_balance(store: &Store) -> bool {
    let one_sided = store.entries.iter().all(|e| e.debit.is_some() != e.credit.is_some());
    let balanced = store.entries.iter().all(|e| {
        let group = store.entries.iter().filter(|o| o.txn_group_id == e.txn_group_id);
        let debit: u128 = group.clone().map(|o| o.debit.unwrap_or(0)).sum();
        let credit: u128 = group.map(|o| o.credit.unwrap_or(0)).sum();
        debit == credit
    });
    one_sided && balanced
}

#[test]
fn purchase_then_approval_end_to_end() {
    let mut store = farm();
    let feed = purchase("FEED1", 10_000, 500, 719_164, 103);
    let bought = store.record_purchase(&feed, 11, DAY1).unwrap();
    assert_eq!(bought.purchase_id, 1);
    assert_eq!(stock(&store, "FEED1"), 10_000);
    assert_eq!(store.lots.len(), 1);
    assert_eq!(store.lots[0].remaining_qty, 10_000);
    assert_eq!(store.lots[0].received_qty, 10_000);
    assert_eq!(store.lots[0].unit_cost, 500);
    assert_eq!(store.lots[0].purchase_id, Some(1));
    assert_eq!(balance(&store, 103), 5_000_000);
    assert_eq!(balance(&store, 101), 95_000_000);

    let id = requirement(&mut store, "FEED1", 3_000);
    let allocation = store.approve_and_allocate(approve(id, 3_000), 12, DAY2).unwrap();
    assert_eq!(
        allocation,
        Allocation {
            allocation_id: 1,
            requirement_id: id,
            allocated_qty: 3_000,
            allocation_date: 719_165,
            allocated_value: 1_500_000,
            allocated_by: 9,
        }
    );
    assert_eq!(stock(&store, "FEED1"), 7_000);
    assert_eq!(
        store.allocation_lines,
        vec![AllocationLine {
            allocation_id: 1,
            lot_id: 1,
            qty: 3_000,
            unit_cost: 500,
            line_value: 1_500_000,
        }]
    );
    assert_eq!(store.allocations, vec![allocation]);
    assert_eq!(store.lots[0].remaining_qty, 7_000);
    assert_eq!(store.requirements[0].status, RequirementStatus::Accept);
    assert_eq!(store.entries.len(), 4);
    let debit = store.entries[2];
    let credit = store.entries[3];
    assert_eq!((debit.account_id, debit.debit, debit.credit), (107, Some(1_500_000), None));
    assert_eq!((credit.account_id, credit.debit, credit.credit), (103, None, Some(1_500_000)));
    assert_eq!(debit.txn_group_id, 12);
    assert_eq!(credit.txn_group_id, 12);
    assert_eq!(debit.reference_table, ReferenceTable::Allocations);
    assert_eq!(debit.reference_id, 1);
    assert_eq!(credit.reference_id, 1);
    assert_eq!(debit.txn_date, credit.txn_date);
    assert_eq!(debit.created_by, Some(9));
    assert_eq!(balance(&store, 103), 3_500_000);
    assert_eq!(balance(&store, 107), 1_500_000);
    let out = store.movements.last().unwrap();
    assert_eq!(out.movement_type, MovementType::Allocation);
    assert_eq!(out.qty_change, -3_000);
    assert_eq!(out.reference_id, Some(1));
    assert_eq!(stock(&store, "FEED1"), movement_total(&store, "FEED1"));
    assert!(groups_balance(&store));
    assert!(store.is_valid());
}

#[test]
fn approval_consumes_oldest_lot_first() {
    let mut store = farm();
    store.record_purchase(&purchase("FEED1", 500, 1_200, 719_170, 103), 1, DAY1).unwrap();
    store.record_purchase(&purchase("FEED1", 500, 1_000, 719_164, 103), 2, DAY1).unwrap();
    assert_eq!(store.lots[0].lot_id, 2);
    assert_eq!(store.lots[1].lot_id, 1);
    let id = requirement(&mut store, "FEED1", 700);
    let allocation = store.approve_and_allocate(approve(id, 700), 3, DAY2).unwrap();
    assert_eq!(allocation.allocated_value, 740_000);
    assert_eq!(
        store.allocation_lines,
        vec![
            AllocationLine { allocation_id: 1, lot_id: 2, qty: 500, unit_cost: 1_000, line_value: 500_000 },
            AllocationLine { allocation_id: 1, lot_id: 1, qty: 200, unit_cost: 1_200, line_value: 240_000 },
        ]
    );
    assert_eq!(store.lots[0].remaining_qty, 0);
    assert_eq!(store.lots[1].remaining_qty, 300);
}

#[test]
fn shortage_of_lots_rolls_everything_back() {
    let mut store = farm();
    store.record_purchase(&purchase("FEED1", 500, 1_000, 719_164, 103), 1, DAY1).unwrap();
    store.inventory[0].current_qty = 900;
    let id = requirement(&mut store, "FEED1", 800);
    let before = store.clone();
    let res = store.approve_and_allocate(approve(id, 800), 3, DAY2);
    assert_eq!(res, Err(Error::PartialAllocation { shortage: 300 }));
    assert_eq!(store, before);
    assert_eq!(stock(&store, "FEED1"), 900);
    assert!(store.allocations.is_empty());
    assert!(store.allocation_lines.is_empty());
}

#[test]
fn approval_beyond_stock_is_refused() {
    let mut store = farm();
    store.record_purchase(&purchase("FEED1", 500, 1_000, 719_164, 103), 1, DAY1).unwrap();
    let id = requirement(&mut store, "FEED1", 800);
    let before = store.clone();
    let res = store.approve_and_allocate(approve(id, 800), 3, DAY2);
    assert_eq!(res, Err(Error::InsufficientStock { required: 800, available: 500 }));
    assert_eq!(store, before);
}

#[test]
fn two_approvals_cannot_overdraw() {
    let mut store = farm();
    store.record_purchase(&purchase("FEED1", 1_000, 1_000, 719_164, 103), 1, DAY1).unwrap();
    let a = requirement(&mut store, "FEED1", 600);
    let b = requirement(&mut store, "FEED1", 600);
    assert!(store.approve_and_allocate(approve(a, 600), 3, DAY2).is_ok());
    let after_first = store.clone();
    assert_eq!(
        store.approve_and_allocate(approve(b, 600), 4, DAY2),
        Err(Error::InsufficientStock { required: 600, available: 400 })
    );
    assert_eq!(store, after_first);
    assert_eq!(stock(&store, "FEED1"), 400);
}

#[test]
fn two_approvals_within_stock_both_succeed() {
    let mut store = farm();
    store.record_purchase(&purchase("FEED1", 1_000, 1_000, 719_164, 103), 1, DAY1).unwrap();
    let a = requirement(&mut store, "FEED1", 600);
    let b = requirement(&mut store, "FEED1", 400);
    assert!(store.approve_and_allocate(approve(a, 600), 3, DAY2).is_ok());
    assert!(store.approve_and_allocate(approve(b, 400), 4, DAY2).is_ok());
    assert_eq!(stock(&store, "FEED1"), 0);
    assert_eq!(store.lots[0].remaining_qty, 0);
    assert_eq!(stock(&store, "FEED1"), movement_total(&store, "FEED1"));
    assert!(groups_balance(&store));
}

#[test]
fn approval_errors_in_order() {
    let mut store = farm();
    assert_eq!(
        store.approve_and_allocate(approve(5, 10), 1, DAY1),
        Err(Error::NotFound(Missing::Requirement))
    );
    let id = requirement(&mut store, "FEED1", 10);
    assert_eq!(
        store.approve_and_allocate(approve(id, 10), 1, DAY1),
        Err(Error::NotFound(Missing::Inventory))
    );
    let ghost_item = requirement(&mut store, "NOPE", 10);
    store.record_purchase(&purchase("NOPE", 100, 100, 719_164, 103), 1, DAY1).unwrap();
    let before = store.clone();
    assert_eq!(
        store.approve_and_allocate(approve(ghost_item, 10), 2, DAY1),
        Err(Error::NotFound(Missing::Item))
    );
    assert_eq!(store, before);
}

#[test]
fn approval_without_mapping_or_account_is_refused() {
    let mut store = farm();
    store.record_purchase(&purchase("FEED1", 100, 100, 719_164, 103), 1, DAY1).unwrap();
    let id = requirement(&mut store, "FEED1", 10);
    let mut unmapped = store.clone();
    unmapped.category_accounts.clear();
    assert_eq!(
        unmapped.approve_and_allocate(approve(id, 10), 2, DAY1),
        Err(Error::NotFound(Missing::AccountMapping))
    );
    let mut no_expense = store.clone();
    no_expense.accounts.retain(|a| a.account_id != 107);
    let before = no_expense.clone();
    assert_eq!(
        no_expense.approve_and_allocate(approve(id, 10), 2, DAY1),
        Err(Error::NotFound(Missing::Account))
    );
    assert_eq!(no_expense, before);
    let mut no_asset = store.clone();
    no_asset.accounts.retain(|a| a.account_id != 103);
    let before = no_asset.clone();
    assert_eq!(
        no_asset.approve_and_allocate(approve(id, 10), 2, DAY1),
        Err(Error::NotFound(Missing::Account))
    );
    assert_eq!(no_asset, before);
}

#[test]
fn approval_is_refused_when_ids_run_out() {
    let mut store = farm();
    store.record_purchase(&purchase("FEED1", 100, 100, 719_164, 103), 1, DAY1).unwrap();
    let id = requirement(&mut store, "FEED1", 10);
    store.next.allocation = i32::MAX;
    let before = store.clone();
    assert_eq!(store.approve_and_allocate(approve(id, 10), 2, DAY1), Err(Error::Storage));
    assert_eq!(store, before);
}

#[test]
fn approving_twice_is_refused() {
    let mut store = farm();
    store.record_purchase(&purchase("FEED1", 1_000, 100, 719_164, 103), 1, DAY1).unwrap();
    let id = requirement(&mut store, "FEED1", 10);
    assert!(store.approve_and_allocate(approve(id, 10), 2, DAY1).is_ok());
    let before = store.clone();
    assert_eq!(
        store.approve_and_allocate(approve(id, 10), 3, DAY1),
        Err(Error::Validation(Invalid::NotPending))
    );
    assert_eq!(store, before);
}

#[test]
fn decline_flips_only_the_status() {
    let mut store = farm();
    let id = requirement(&mut store, "FEED1", 10);
    let mut expected = store.clone();
    expected.requirements[0].status = RequirementStatus::Decline;
    assert_eq!(store.decline_batch_requirement(id), Ok(()));
    assert_eq!(store, expected);
}

#[test]
fn decline_of_a_settled_requirement_fails_cleanly() {
    let mut store = farm();
    store.record_purchase(&purchase("FEED1", 1_000, 100, 719_164, 103), 1, DAY1).unwrap();
    let accepted = requirement(&mut store, "FEED1", 10);
    let declined = requirement(&mut store, "FEED1", 10);
    store.approve_and_allocate(approve(accepted, 10), 2, DAY1).unwrap();
    store.decline_batch_requirement(declined).unwrap();
    let before = store.clone();
    assert_eq!(
        store.decline_batch_requirement(declined),
        Err(Error::Validation(Invalid::NotPending))
    );
    assert_eq!(
        store.decline_batch_requirement(accepted),
        Err(Error::Validation(Invalid::NotPending))
    );
    assert_eq!(store.decline_batch_requirement(77), Err(Error::NotFound(Missing::Requirement)));
    assert_eq!(store, before);
    assert_eq!(store.allocations.len(), 1);
}

#[test]
fn purchase_of_a_new_item_creates_its_row() {
    let mut store = farm();
    assert_eq!(stock(&store, "CHK"), 0);
    store.record_purchase(&purchase("CHK", 20_000, 3_000, 719_164, 104), 5, DAY1).unwrap();
    store.record_purchase(&purchase("CHK", 5_000, 3_100, 719_165, 104), 6, DAY2).unwrap();
    assert_eq!(store.inventory.len(), 1);
    assert_eq!(store.inventory[0].current_qty, 25_000);
    assert_eq!(store.inventory[0].last_updated, DAY2.seconds);
    assert_eq!(store.movements.len(), 2);
    assert_eq!(store.movements[1].movement_type, MovementType::Purchase);
    assert_eq!(store.movements[1].qty_change, 5_000);
    assert_eq!(store.movements[1].reference_id, Some(2));
    assert_eq!(store.purchases.len(), 2);
    assert_eq!(store.entries[0].debit, Some(60_000_000));
    assert_eq!(store.entries[0].account_id, 104);
    assert_eq!(store.entries[1].credit, Some(60_000_000));
    assert_eq!(store.entries[1].account_id, 101);
    assert_eq!(store.entries[0].reference_table, ReferenceTable::Purchases);
    assert_eq!(store.entries[0].txn_date, 719_164);
    assert_eq!(balance(&store, 104), 75_500_000);
    assert_eq!(balance(&store, 101), 24_500_000);
    assert_eq!(stock(&store, "CHK"), movement_total(&store, "CHK"));
    assert!(groups_balance(&store));
}

#[test]
fn purchase_paid_on_credit_raises_the_liability() {
    let mut store = farm();
    let mut p = purchase("FEED1", 100, 200, 719_164, 103);
    p.payment_account_id = 201;
    store.record_purchase(&p, 5, DAY1).unwrap();
    assert_eq!(balance(&store, 103), 20_000);
    assert_eq!(balance(&store, 201), 20_000);
}

#[test]
fn purchase_without_total_cost_posts_nothing() {
    let mut store = farm();
    let mut p = purchase("FEED1", 100, 200, 719_164, 103);
    p.total_cost = None;
    store.record_purchase(&p, 5, DAY1).unwrap();
    assert_eq!(store.entries[0].debit, Some(0));
    assert_eq!(store.entries[1].credit, Some(0));
    assert_eq!(balance(&store, 103), 0);
}

#[test]
fn purchase_against_unknown_account_changes_nothing() {
    let mut store = farm();
    let before = store.clone();
    let mut p = purchase("FEED1", 100, 200, 719_164, 999);
    assert_eq!(store.record_purchase(&p, 5, DAY1), Err(Error::NotFound(Missing::Account)));
    assert_eq!(store, before);
    p.inventory_account_id = 103;
    p.payment_account_id = 998;
    assert_eq!(store.record_purchase(&p, 5, DAY1), Err(Error::NotFound(Missing::Account)));
    assert_eq!(store, before);
}

#[test]
fn purchase_that_overflows_the_stock_is_refused() {
    let mut store = farm();
    let mut p = purchase("FEED1", u64::MAX, 0, 719_164, 103);
    p.total_cost = Some(0);
    store.record_purchase(&p, 5, DAY1).unwrap();
    let before = store.clone();
    let mut q = purchase("FEED1", 1, 0, 719_164, 103);
    q.total_cost = Some(0);
    assert_eq!(store.record_purchase(&q, 6, DAY1), Err(Error::Storage));
    assert_eq!(store, before);
}

#[test]
fn purchase_now_stamps_a_fresh_group_and_the_clock() {
    let mut store = farm();
    store.create_purchase(&purchase("FEED1", 100, 200, 719_164, 103)).unwrap();
    store.create_purchase(&purchase("FEED1", 100, 200, 719_164, 103)).unwrap();
    let first = store.entries[0];
    let second = store.entries[2];
    assert_eq!(first.txn_group_id, store.entries[1].txn_group_id);
    assert_ne!(first.txn_group_id, second.txn_group_id);
    assert_eq!((first.txn_group_id >> 76) & 0xf, 4);
    assert_eq!((first.txn_group_id >> 62) & 0x3, 2);
    assert!(first.created_at > 1_600_000_000);
    let day = store.inventory[0].last_updated.div_euclid(86_400) + 719_163;
    assert!(day > 719_163);
    assert!(groups_balance(&store));
}

#[test]
fn approval_now_uses_todays_date() {
    let mut store = farm();
    store.create_purchase(&purchase("FEED1", 100, 200, 719_164, 103)).unwrap();
    let id = requirement(&mut store, "FEED1", 50);
    store.approve_batch_requirement(approve(id, 50)).unwrap();
    let entry = store.entries[2];
    assert_eq!(entry.txn_date as i64, entry.created_at.div_euclid(86_400) + 719_163);
    assert_eq!((entry.txn_group_id >> 76) & 0xf, 4);
    assert_eq!(stock(&store, "FEED1"), 50);
}

fn batch(item: &str, birds: i32) -> CreateBatch {
    CreateBatch {
        chick_item_code: item.to_string(),
        line_id: 3,
        supervisor_id: 4,
        farmer_id: 5,
        start_date: 719_200,
        end_date: 719_240,
        initial_bird_count: birds,
        created_by: 6,
    }
}

#[test]
fn batch_creation_issues_its_chicks() {
    let mut store = farm();
    store.record_purchase(&purchase("CHK", 20_000, 3_000, 719_164, 104), 5, DAY1).unwrap();
    let made = store.create_batch_with_transaction(&batch("CHK", 150), 8, DAY2).unwrap();
    assert_eq!(made.batch_id, 1);
    assert_eq!(made.initial_bird_count, 150);
    assert_eq!(made.current_bird_count, Some(150));
    assert_eq!(store.batches, vec![made]);
    assert_eq!(store.requirements.len(), 1);
    assert_eq!(store.requirements[0].status, RequirementStatus::Accept);
    assert_eq!(store.requirements[0].quantity, 15_000);
    assert_eq!(store.requirements[0].batch_id, 1);
    assert_eq!(store.allocations[0].requirement_id, store.requirements[0].requirement_id);
    assert_eq!(store.allocations[0].allocated_value, 45_000_000);
    assert_eq!(store.allocations[0].allocation_date, DAY2.day);
    assert_eq!(stock(&store, "CHK"), 5_000);
    assert_eq!(store.lots[0].remaining_qty, 5_000);
    assert_eq!(store.entries[2].reference_table, ReferenceTable::Batches);
    assert_eq!(store.entries[2].reference_id, 1);
    assert_eq!(store.entries[2].account_id, 107);
    assert_eq!(store.entries[3].account_id, 104);
    assert_eq!(balance(&store, 104), 15_000_000);
    assert_eq!(balance(&store, 107), 45_000_000);
    assert_eq!(store.next.batch, 2);
    assert_eq!(store.next.requirement, 2);
    assert_eq!(stock(&store, "CHK"), movement_total(&store, "CHK"));
    assert!(groups_balance(&store));
}

#[test]
fn batch_creation_validates_the_item() {
    let mut store = farm();
    store.record_purchase(&purchase("FEED1", 20_000, 3_000, 719_164, 103), 5, DAY1).unwrap();
    let before = store.clone();
    assert_eq!(
        store.create_batch_with_transaction(&batch("FEED1", 10), 8, DAY2),
        Err(Error::Validation(Invalid::NotChickItem))
    );
    assert_eq!(
        store.create_batch_with_transaction(&batch("NOPE", 10), 8, DAY2),
        Err(Error::NotFound(Missing::Item))
    );
    assert_eq!(
        store.create_batch_with_transaction(&batch("CHK", -1), 8, DAY2),
        Err(Error::Validation(Invalid::NegativeCount))
    );
    assert_eq!(
        store.create_batch_with_transaction(&batch("CHK", 10), 8, DAY2),
        Err(Error::NotFound(Missing::Inventory))
    );
    assert_eq!(store, before);
}

#[test]
fn batch_creation_short_of_chicks_changes_nothing() {
    let mut store = farm();
    store.record_purchase(&purchase("CHK", 10_000, 3_000, 719_164, 104), 5, DAY1).unwrap();
    let before = store.clone();
    assert_eq!(
        store.create_batch_with_transaction(&batch("CHK", 101), 8, DAY2),
        Err(Error::InsufficientStock { required: 10_100, available: 10_000 })
    );
    assert_eq!(store, before);
    assert!(store.create_batch(&batch("CHK", 100)).is_ok());
    assert_eq!(stock(&store, "CHK"), 0);
}

#[test]
fn issue_points_back_to_the_allocation_in_the_movement() {
    let mut store = farm();
    store.record_purchase(&purchase("CHK", 10_000, 3_000, 719_164, 104), 5, DAY1).unwrap();
    let issue = Issue {
        requirement_id: 40,
        qty: 100,
        allocation_date: 719_300,
        allocated_by: 3,
        batch_id: Some(12),
        txn_group_id: 99,
        now: DAY2,
    };
    let allocation = store.issue_stock(&"CHK".to_string(), issue).unwrap();
    assert_eq!(allocation.allocation_id, 1);
    assert_eq!(allocation.requirement_id, 40);
    assert_eq!(store.movements[1].reference_id, Some(1));
    assert_eq!(store.entries[2].reference_id, 12);
    assert_eq!(store.next.allocation, 2);
}

#[test]
fn batch_sale_posts_cash_against_revenue() {
    let mut store = farm();
    store.insert_batch_sales_ledger_entries(31, 2_500_000, 7).unwrap();
    assert_eq!(balance(&store, 101), 102_500_000);
    assert_eq!(balance(&store, 108), 2_500_000);
    assert_eq!(store.entries.len(), 2);
    assert_eq!(store.entries[0].reference_table, ReferenceTable::BatchSales);
    assert_eq!(store.entries[0].reference_id, 31);
    assert_eq!(store.entries[0].debit, Some(2_500_000));
    assert_eq!(store.entries[1].credit, Some(2_500_000));
    assert!(groups_balance(&store));
}

#[test]
fn farmer_commission_posts_expense_against_cash() {
    let mut store = farm();
    store.accounts.push(account(106, LedgerAccountType::Expense, 0));
    let group = store.insert_farmer_commission_ledger_entries(4, 700_000, Some(2)).unwrap();
    assert_eq!(balance(&store, 106), 700_000);
    assert_eq!(balance(&store, 101), 99_300_000);
    assert_eq!(store.entries[0].txn_group_id, group);
    assert_eq!(store.entries[1].txn_group_id, group);
    assert_eq!(store.entries[0].account_id, 106);
    assert_eq!(store.entries[0].reference_table, ReferenceTable::FarmerCommissionHistory);
    assert_eq!(store.entries[0].reference_id, 4);
    assert_eq!(store.entries[1].created_by, Some(2));
    let mut bare = Store::new(standard_category_accounts());
    assert_eq!(
        bare.insert_farmer_commission_ledger_entries(4, 1, None),
        Err(Error::NotFound(Missing::Account))
    );
    assert!(bare.entries.is_empty());
}

#[test]
fn plain_inserts_hand_out_ids_in_sequence() {
    let mut store = Store::new(standard_category_accounts());
    assert!(store.is_valid());
    assert_eq!(
        store.create_production_line(CreateProductionLine {
            line_name: "North".to_string(),
            supervisor_id: 3,
        }),
        Ok(1)
    );
    assert_eq!(
        store.create_production_line(CreateProductionLine {
            line_name: "South".to_string(),
            supervisor_id: 3,
        }),
        Ok(2)
    );
    assert_eq!(store.lines[1].line_name, "South");
    let cash = store.create_ledger_account(CreateLedgerAccount {
        name: "cash".to_string(),
        account_type: LedgerAccountType::Asset,
        current_balance: 10,
    });
    assert_eq!(cash, Ok(1));
    assert_eq!(store.accounts[0].current_balance, 10);
    store.next.account = i32::MAX;
    assert_eq!(
        store.create_ledger_account(CreateLedgerAccount {
            name: "x".to_string(),
            account_type: LedgerAccountType::Equity,
            current_balance: 0,
        }),
        Err(Error::Storage)
    );
    assert_eq!(store.accounts.len(), 1);
    assert_eq!(requirement(&mut store, "FEED1", 5), 1);
    assert_eq!(store.requirements[0].status, RequirementStatus::Pending);
}

#[test]
fn a_store_with_an_overdrawn_lot_is_not_valid() {
    let mut store = farm();
    store.record_purchase(&purchase("FEED1", 100, 200, 719_164, 103), 5, DAY1).unwrap();
    assert!(store.is_valid());
    store.lots[0].remaining_qty = 101;
    assert!(!store.is_valid());
}
