use farmstock::fifo::{allocate, available_qty, check_lots, consume, quote, receive_lot};
use farmstock::inventory::{check_and_deduct, find_inventory, upsert_inventory};
use farmstock::ledger::{
    balance_sign_of, find_account, post_pair, post_transaction, update_account_balance, Posting,
};
use farmstock::models::{
    AllocationLine, Error, InventoryRecord, LedgerAccount, LedgerAccountType, LedgerEntry,
    Missing, ReferenceTable, ResponseMessage, StockLot, MAX_AMOUNT,
};

fn lot(id: i32, item: &str, date: i32, qty: u64, cost: u64) -> StockLot {
    StockLot {
        lot_id: id,
        purchase_id: None,
        item_code: item.to_string(),
        received_qty: qty,
        remaining_qty: qty,
        unit_cost: cost,
        received_date: date,
        supplier: None,
    }
}

#[test]
fn fifo_takes_oldest_first() {
    let mut lots = vec![lot(1, "F", 10, 5, 10), lot(2, "F", 11, 5, 12)];
    let out = allocate(&mut lots, &"F".to_string(), 7, 4);
    assert_eq!(
        out.lines,
        vec![
            AllocationLine { allocation_id: 4, lot_id: 1, qty: 5, unit_cost: 10, line_value: 50 },
            AllocationLine { allocation_id: 4, lot_id: 2, qty: 2, unit_cost: 12, line_value: 24 },
        ]
    );
    assert_eq!(out.total_value, 74);
    assert_eq!(out.shortage, 0);
    assert_eq!(lots[0].remaining_qty, 0);
    assert_eq!(lots[1].remaining_qty, 3);
    assert_eq!(lots[1].received_qty, 5);
}

#[test]
fn fifo_reports_what_is_missing() {
    let mut lots = vec![lot(1, "F", 10, 5, 10), lot(2, "G", 11, 50, 12), lot(3, "F", 12, 1, 20)];
    let out = allocate(&mut lots, &"F".to_string(), 9, 1);
    assert_eq!(out.shortage, 3);
    assert_eq!(out.total_value, 70);
    assert_eq!(out.lines.len(), 2);
    assert_eq!(out.lines.iter().map(|l| l.qty).sum::<u64>(), 6);
    assert_eq!(lots[0].remaining_qty, 0);
    assert_eq!(lots[1].remaining_qty, 50);
    assert_eq!(lots[2].remaining_qty, 0);
}

#[test]
fn fifo_skips_empty_lots_and_stops_when_met() {
    let mut lots = vec![lot(1, "F", 10, 5, 10), lot(2, "F", 11, 5, 12), lot(3, "F", 12, 5, 14)];
    lots[0].remaining_qty = 0;
    let out = allocate(&mut lots, &"F".to_string(), 5, 1);
    assert_eq!(
        out.lines,
        vec![AllocationLine { allocation_id: 1, lot_id: 2, qty: 5, unit_cost: 12, line_value: 60 }]
    );
    assert_eq!(lots[2].remaining_qty, 5);
    let nothing = allocate(&mut lots, &"F".to_string(), 0, 2);
    assert!(nothing.lines.is_empty());
    assert_eq!(nothing.total_value, 0);
    assert_eq!(nothing.shortage, 0);
}

#[test]
fn fifo_value_does_not_overflow_at_the_limits() {
    let mut lots = vec![lot(1, "F", 10, u64::MAX, u64::MAX)];
    let out = allocate(&mut lots, &"F".to_string(), u64::MAX, 1);
    assert_eq!(out.total_value, u64::MAX as u128 * u64::MAX as u128);
    assert_eq!(lots[0].remaining_qty, 0);
}

#[test]
fn quote_leaves_the_lots_alone() {
    let lots = vec![lot(1, "F", 10, 5, 10), lot(2, "F", 11, 5, 12)];
    let out = quote(&lots, &"F".to_string(), 7, 4);
    assert_eq!(out.total_value, 74);
    assert_eq!(lots[0].remaining_qty, 5);
    let mut taken = lots.clone();
    consume(&mut taken, &"F".to_string(), 7);
    assert_eq!(taken[0].remaining_qty, 0);
    assert_eq!(taken[1].remaining_qty, 3);
    assert_eq!(available_qty(&lots, &"F".to_string()), 10);
    assert_eq!(available_qty(&taken, &"F".to_string()), 3);
    assert_eq!(available_qty(&taken, &"G".to_string()), 0);
}

#[test]
fn new_lots_are_filed_by_date_then_id() {
    let mut lots: Vec<StockLot> = Vec::new();
    assert_eq!(receive_lot(&mut lots, lot(1, "F", 20, 5, 1)), 0);
    assert_eq!(receive_lot(&mut lots, lot(2, "F", 10, 5, 1)), 0);
    assert_eq!(receive_lot(&mut lots, lot(3, "G", 20, 5, 1)), 2);
    assert_eq!(receive_lot(&mut lots, lot(0, "G", 20, 5, 1)), 1);
    assert_eq!(receive_lot(&mut lots, lot(4, "G", 15, 5, 1)), 1);
    let ids: Vec<i32> = lots.iter().map(|l| l.lot_id).collect();
    assert_eq!(ids, vec![2, 4, 0, 1, 3]);
    assert!(check_lots(&lots));
}

#[test]
fn lot_tables_out_of_order_or_overdrawn_are_invalid() {
    assert!(check_lots(&Vec::new()));
    assert!(!check_lots(&vec![lot(1, "F", 20, 5, 1), lot(2, "F", 10, 5, 1)]));
    assert!(!check_lots(&vec![lot(2, "F", 10, 5, 1), lot(1, "F", 10, 5, 1)]));
    assert!(check_lots(&vec![lot(1, "F", 10, 5, 1), lot(1, "F", 10, 5, 1)]));
    let mut over = lot(1, "F", 10, 5, 1);
    over.remaining_qty = 6;
    assert!(!check_lots(&vec![over]));
}

fn account(id: i32, kind: LedgerAccountType, balance: i128) -> LedgerAccount {
    LedgerAccount { account_id: id, name: String::new(), account_type: kind, current_balance: balance }
}

#[test]
fn sign_table() {
    assert_eq!(balance_sign_of(LedgerAccountType::Asset, true), 1);
    assert_eq!(balance_sign_of(LedgerAccountType::Asset, false), -1);
    assert_eq!(balance_sign_of(LedgerAccountType::Expense, true), 1);
    assert_eq!(balance_sign_of(LedgerAccountType::Expense, false), -1);
    assert_eq!(balance_sign_of(LedgerAccountType::Liability, true), -1);
    assert_eq!(balance_sign_of(LedgerAccountType::Liability, false), 1);
    assert_eq!(balance_sign_of(LedgerAccountType::Equity, true), -1);
    assert_eq!(balance_sign_of(LedgerAccountType::Equity, false), 1);
    assert_eq!(balance_sign_of(LedgerAccountType::Revenue, true), -1);
    assert_eq!(balance_sign_of(LedgerAccountType::Revenue, false), 1);
}

#[test]
fn balances_move_by_account_type() {
    let mut accounts = vec![
        account(1, LedgerAccountType::Asset, 100),
        account(2, LedgerAccountType::Liability, 100),
        account(3, LedgerAccountType::Expense, 100),
        account(4, LedgerAccountType::Revenue, 100),
        account(5, LedgerAccountType::Equity, 100),
    ];
    for id in 1..=5 {
        assert_eq!(update_account_balance(&mut accounts, id, 30, true), Ok(()));
    }
    let after: Vec<i128> = accounts.iter().map(|a| a.current_balance).collect();
    assert_eq!(after, vec![130, 70, 130, 70, 70]);
    for id in 1..=5 {
        assert_eq!(update_account_balance(&mut accounts, id, 50, false), Ok(()));
    }
    let after: Vec<i128> = accounts.iter().map(|a| a.current_balance).collect();
    assert_eq!(after, vec![80, 120, 80, 120, 120]);
    assert_eq!(find_account(&accounts, 3), Some(2));
    assert_eq!(find_account(&accounts, 9), None);
}

#[test]
fn balance_update_failures_change_nothing() {
    let mut accounts = vec![account(1, LedgerAccountType::Asset, MAX_AMOUNT - 5)];
    let before = accounts.clone();
    assert_eq!(
        update_account_balance(&mut accounts, 2, 1, true),
        Err(Error::NotFound(Missing::Account))
    );
    assert_eq!(update_account_balance(&mut accounts, 1, 6, true), Err(Error::Storage));
    assert_eq!(
        update_account_balance(&mut accounts, 1, MAX_AMOUNT as u128 + 1, false),
        Err(Error::Storage)
    );
    assert_eq!(accounts, before);
    assert_eq!(update_account_balance(&mut accounts, 1, 5, true), Ok(()));
    assert_eq!(accounts[0].current_balance, MAX_AMOUNT);
}

fn posting(debit: i32, credit: i32, amount: u128) -> Posting {
    Posting {
        debit_account_id: debit,
        credit_account_id: credit,
        amount,
        txn_date: 719_164,
        reference_table: ReferenceTable::Purchases,
        reference_id: 5,
        txn_group_id: 77,
        created_at: 1_000,
        created_by: Some(3),
    }
}

#[test]
fn pair_posts_two_entries_that_balance() {
    let mut accounts =
        vec![account(1, LedgerAccountType::Asset, 0), account(2, LedgerAccountType::Liability, 0)];
    let mut entries: Vec<LedgerEntry> = Vec::new();
    assert_eq!(post_pair(&mut accounts, &mut entries, posting(1, 2, 40)), Ok(()));
    assert_eq!(
        entries,
        vec![
            LedgerEntry {
                account_id: 1,
                debit: Some(40),
                credit: None,
                txn_date: 719_164,
                reference_table: ReferenceTable::Purchases,
                reference_id: 5,
                txn_group_id: 77,
                created_at: 1_000,
                created_by: Some(3),
            },
            LedgerEntry {
                account_id: 2,
                debit: None,
                credit: Some(40),
                txn_date: 719_164,
                reference_table: ReferenceTable::Purchases,
                reference_id: 5,
                txn_group_id: 77,
                created_at: 1_000,
                created_by: Some(3),
            },
        ]
    );
    assert_eq!(accounts[0].current_balance, 40);
    assert_eq!(accounts[1].current_balance, 40);
}

#[test]
fn pair_on_one_account_cancels_out() {
    let mut accounts = vec![account(1, LedgerAccountType::Asset, 10)];
    let mut entries: Vec<LedgerEntry> = Vec::new();
    assert_eq!(post_pair(&mut accounts, &mut entries, posting(1, 1, 40)), Ok(()));
    assert_eq!(accounts[0].current_balance, 10);
    assert_eq!(entries.len(), 2);
}

#[test]
fn pair_undoes_the_debit_when_the_credit_fails() {
    let mut accounts = vec![
        account(1, LedgerAccountType::Asset, 10),
        account(2, LedgerAccountType::Revenue, MAX_AMOUNT),
    ];
    let mut entries: Vec<LedgerEntry> = Vec::new();
    let before = accounts.clone();
    assert_eq!(post_pair(&mut accounts, &mut entries, posting(1, 2, 40)), Err(Error::Storage));
    assert_eq!(accounts, before);
    assert_eq!(
        post_pair(&mut accounts, &mut entries, posting(1, 3, 40)),
        Err(Error::NotFound(Missing::Account))
    );
    assert_eq!(
        post_pair(&mut accounts, &mut entries, posting(3, 1, 40)),
        Err(Error::NotFound(Missing::Account))
    );
    assert_eq!(accounts, before);
    assert!(entries.is_empty());
}

#[test]
fn transaction_returns_its_fresh_group() {
    let mut accounts =
        vec![account(1, LedgerAccountType::Asset, 0), account(2, LedgerAccountType::Equity, 0)];
    let mut entries: Vec<LedgerEntry> = Vec::new();
    let table = ReferenceTable::Purchases;
    let first = post_transaction(&mut accounts, &mut entries, 1, 2, 25, table, 8, None).unwrap();
    let second = post_transaction(&mut accounts, &mut entries, 1, 2, 5, table, 9, None).unwrap();
    assert_ne!(first, second);
    assert_eq!((first >> 76) & 0xf, 4);
    assert_eq!((first >> 62) & 0x3, 2);
    assert_eq!(entries.len(), 4);
    assert_eq!(entries[0].txn_group_id, first);
    assert_eq!(entries[1].txn_group_id, first);
    assert_eq!(entries[2].txn_group_id, second);
    assert_eq!(entries[0].debit, Some(25));
    assert_eq!(entries[1].credit, Some(25));
    assert_eq!(entries[0].txn_date, entries[1].txn_date);
    assert_eq!(entries[0].txn_date as i64, entries[0].created_at.div_euclid(86_400) + 719_163);
    assert_eq!(accounts[0].current_balance, 30);
    assert_eq!(accounts[1].current_balance, 30);
    assert_eq!(
        post_transaction(&mut accounts, &mut entries, 1, 3, 5, table, 9, None),
        Err(Error::NotFound(Missing::Account))
    );
    assert_eq!(entries.len(), 4);
    assert_eq!(accounts[0].current_balance, 30);
}

#[test]
fn deduction_checks_before_it_takes() {
    let mut inventory =
        vec![InventoryRecord { item_code: "F".to_string(), current_qty: 10, last_updated: 1 }];
    let code = "F".to_string();
    assert_eq!(
        check_and_deduct(&mut inventory, &"G".to_string(), 1, 5),
        Err(Error::NotFound(Missing::Inventory))
    );
    assert_eq!(
        check_and_deduct(&mut inventory, &code, 11, 5),
        Err(Error::InsufficientStock { required: 11, available: 10 })
    );
    assert_eq!(inventory[0].current_qty, 10);
    assert_eq!(inventory[0].last_updated, 1);
    assert_eq!(check_and_deduct(&mut inventory, &code, 10, 5), Ok(()));
    assert_eq!(inventory[0].current_qty, 0);
    assert_eq!(inventory[0].last_updated, 5);
    assert_eq!(find_inventory(&inventory, &code), Some(0));
}

#[test]
fn credit_creates_or_grows_the_row() {
    let mut inventory: Vec<InventoryRecord> = Vec::new();
    let code = "F".to_string();
    assert_eq!(upsert_inventory(&mut inventory, &code, 4, 9), Ok(()));
    assert_eq!(
        inventory,
        vec![InventoryRecord { item_code: "F".to_string(), current_qty: 4, last_updated: 9 }]
    );
    assert_eq!(upsert_inventory(&mut inventory, &code, 6, 12), Ok(()));
    assert_eq!(inventory.len(), 1);
    assert_eq!(inventory[0].current_qty, 10);
    assert_eq!(inventory[0].last_updated, 12);
    assert_eq!(upsert_inventory(&mut inventory, &code, u64::MAX, 13), Err(Error::Storage));
    assert_eq!(inventory[0].current_qty, 10);
}

#[test]
fn messages_carry_the_requirement_id() {
    assert_eq!(
        ResponseMessage::approved(12).message,
        "Requirement 12 approved, allocation created, inventory updated, and movement logged"
    );
    assert_eq!(ResponseMessage::declined(0).message, "Requirement 0 declined successfully");
    assert_eq!(ResponseMessage::not_found(-305).message, "Requirement -305 not found");
    assert_eq!(
        ResponseMessage::not_found(i32::MIN).message,
        format!("Requirement {} not found", i32::MIN)
    );
    assert_eq!(
        ResponseMessage::declined(i32::MAX).message,
        format!("Requirement {} declined successfully", i32::MAX)
    );
}
