//! Quantity on hand per item, and the audit trail of its changes.

use vstd::prelude::*;
use crate::lookup::{first_index, first_of, lemma_first_index, lemma_first_index_push};
use crate::models::{Error, InventoryMovement, InventoryRecord, Missing};

verus! {

pub open spec fn item_codes(inventory: Seq<InventoryRecord>) -> Seq<Seq<char>> {
    inventory.map_values(|r: InventoryRecord| r.item_code@)
}

/// Quantity on hand of an item: that of its row, or nothing where it has none.
pub open spec fn stock_of(inventory: Seq<InventoryRecord>, code: Seq<char>) -> int {
    match first_of(item_codes(inventory), code) {
        Some(i) => inventory[i].current_qty as int,
        None => 0,
    }
}

/// Sum of the recorded quantity changes of an item.
pub open spec fn movement_sum(movements: Seq<InventoryMovement>, code: Seq<char>) -> int
    decreases movements.len(),
{
    if movements.len() == 0 {
        0
    } else {
        movement_sum(movements.drop_last(), code) + if movements.last().item_code@ == code {
            movements.last().qty_change as int
        } else {
            0
        }
    }
}

/// For every item, the quantity on hand is the sum of its movements.
pub open spec fn stock_matches_movements(
    inventory: Seq<InventoryRecord>,
    movements: Seq<InventoryMovement>,
) -> bool {
    forall|code: Seq<char>| stock_of(inventory, code) == movement_sum(movements, code)
}

pub open spec fn with_qty(record: InventoryRecord, qty: int, now: i64) -> InventoryRecord {
    InventoryRecord { current_qty: qty as u64, last_updated: now, ..record }
}

/// The inventory after `qty` of an item has been taken out, or why it
/// cannot be.
pub open spec fn deducted(
    inventory: Seq<InventoryRecord>,
    code: Seq<char>,
    qty: u64,
    now: i64,
) -> Result<Seq<InventoryRecord>, Error> {
    match first_of(item_codes(inventory), code) {
        None => Err(Error::NotFound(Missing::Inventory)),
        Some(i) => if inventory[i].current_qty < qty {
            Err(Error::InsufficientStock { required: qty, available: inventory[i].current_qty })
        } else {
            Ok(inventory.update(i, with_qty(inventory[i], inventory[i].current_qty - qty, now)))
        },
    }
}

/// The inventory after `qty` of an item has come in: its row grows, or is
/// created with that quantity.
pub open spec fn credited(
    inventory: Seq<InventoryRecord>,
    code: String,
    qty: u64,
    now: i64,
) -> Result<Seq<InventoryRecord>, Error> {
    match first_of(item_codes(inventory), code@) {
        None => Ok(
            inventory.push(
                InventoryRecord { item_code: code, current_qty: qty, last_updated: now },
            ),
        ),
        Some(i) => if inventory[i].current_qty + qty > u64::MAX {
            Err(Error::Storage)
        } else {
            Ok(inventory.update(i, with_qty(inventory[i], inventory[i].current_qty + qty, now)))
        },
    }
}

/// Position of the row of an item.
pub fn find_inventory(inventory: &Vec<InventoryRecord>, item_code: &String) -> (found: Option<
    usize,
>)
    ensures
        match found {
            Some(i) => first_of(item_codes(inventory@), item_code@) == Some(i as int) && i
                < inventory@.len() && inventory@[i as int].item_code@ == item_code@,
            None => first_of(item_codes(inventory@), item_code@).is_none(),
        },
{
    let ghost codes = item_codes(inventory@);
    let mut i: usize = 0;
    while i < inventory.len()
        invariant
            i <= inventory@.len(),
            codes == item_codes(inventory@),
            first_index(codes, item_code@, 0) == first_index(codes, item_code@, i as int),
        decreases inventory@.len() - i,
    {
        if inventory[i].item_code == *item_code {
            return Some(i);
        }
        i = i + 1;
    }
    None
}

/// Takes `qty` of an item out of the inventory if that much is on hand.
///
/// Fails, changing nothing, where the item has no row or holds less than
/// `qty`; the error then names what was asked for and what was there.
pub fn check_and_deduct(
    inventory: &mut Vec<InventoryRecord>,
    item_code: &String,
    qty: u64,
    now: i64,
) -> (res: Result<(), Error>)
    ensures
        match deducted(old(inventory)@, item_code@, qty, now) {
            Ok(updated) => res.is_ok() && final(inventory)@ == updated,
            Err(e) => res == Err::<(), Error>(e) && final(inventory)@ == old(inventory)@,
        },
{
    match find_inventory(inventory, item_code) {
        None => Err(Error::NotFound(Missing::Inventory)),
        Some(i) => {
            let current: u64 = inventory[i].current_qty;
            if current < qty {
                return Err(Error::InsufficientStock { required: qty, available: current });
            }
            let record = &mut inventory[i];
            record.current_qty = current - qty;
            record.last_updated = now;
            Ok(())
        },
    }
}

/// Adds `qty` of an item to the inventory, creating its row where it has
/// none. Fails, changing nothing, only where the sum does not fit.
pub fn upsert_inventory(
    inventory: &mut Vec<InventoryRecord>,
    item_code: &String,
    qty: u64,
    now: i64,
) -> (res: Result<(), Error>)
    ensures
        match credited(old(inventory)@, *item_code, qty, now) {
            Ok(updated) => res.is_ok() && final(inventory)@ == updated,
            Err(e) => res == Err::<(), Error>(e) && final(inventory)@ == old(inventory)@,
        },
{
    match find_inventory(inventory, item_code) {
        None => {
            inventory.push(
                InventoryRecord {
                    item_code: item_code.clone(),
                    current_qty: qty,
                    last_updated: now,
                },
            );
            Ok(())
        },
        Some(i) => {
            let current: u64 = inventory[i].current_qty;
            if qty > u64::MAX - current {
                return Err(Error::Storage);
            }
            let record = &mut inventory[i];
            record.current_qty = current + qty;
            record.last_updated = now;
            Ok(())
        },
    }
}

/// One more movement adds its change to the sum of its own item and
/// leaves every other sum as it was.
pub proof fn lemma_movement_recorded(
    movements: Seq<InventoryMovement>,
    movement: InventoryMovement,
    code: Seq<char>,
)
    ensures
        movement_sum(movements.push(movement), code) == movement_sum(movements, code) + (if
            movement.item_code@ == code {
            movement.qty_change as int
        } else {
            0
        }),
{
    assert(movements.push(movement).drop_last() =~= movements);
}

/// Changing the quantity of the row at `i` changes the stock of that row's
/// item, where it is the item's first row, and of no other item.
proof fn lemma_stock_after_update(
    inventory: Seq<InventoryRecord>,
    i: int,
    qty: int,
    now: i64,
    code: Seq<char>,
)
    requires
        0 <= i < inventory.len(),
        0 <= qty <= u64::MAX,
    ensures
        stock_of(inventory.update(i, with_qty(inventory[i], qty, now)), code) == if first_of(
            item_codes(inventory),
            code,
        ) == Some(i) {
            qty
        } else {
            stock_of(inventory, code)
        },
{
    let updated = inventory.update(i, with_qty(inventory[i], qty, now));
    assert(item_codes(updated) =~= item_codes(inventory));
    lemma_first_index(item_codes(inventory), code, 0);
}

/// A deduction that goes through lowers the stock of its item by just the
/// quantity, which was on hand, and leaves the item in the same row.
pub proof fn lemma_deducted_stock(
    inventory: Seq<InventoryRecord>,
    code: Seq<char>,
    qty: u64,
    now: i64,
)
    requires
        deducted(inventory, code, qty, now).is_ok(),
    ensures
        qty <= stock_of(inventory, code),
        stock_of(deducted(inventory, code, qty, now).unwrap(), code) == stock_of(inventory, code)
            - qty,
        first_of(item_codes(deducted(inventory, code, qty, now).unwrap()), code) == first_of(
            item_codes(inventory),
            code,
        ),
        first_of(item_codes(inventory), code).is_some(),
{
    let i = first_of(item_codes(inventory), code).unwrap();
    lemma_first_index(item_codes(inventory), code, 0);
    lemma_stock_after_update(inventory, i, inventory[i].current_qty - qty, now, code);
    let updated = deducted(inventory, code, qty, now).unwrap();
    assert(item_codes(updated) =~= item_codes(inventory));
}

/// A deduction together with the movement that records it keeps the stock
/// of every item equal to the sum of its movements.
pub proof fn lemma_deduction_recorded(
    inventory: Seq<InventoryRecord>,
    movements: Seq<InventoryMovement>,
    code: Seq<char>,
    qty: u64,
    now: i64,
    movement: InventoryMovement,
)
    requires
        stock_matches_movements(inventory, movements),
        deducted(inventory, code, qty, now).is_ok(),
        movement.item_code@ == code,
        movement.qty_change == -(qty as int),
    ensures
        stock_matches_movements(
            deducted(inventory, code, qty, now).unwrap(),
            movements.push(movement),
        ),
{
    let i = first_of(item_codes(inventory), code).unwrap();
    lemma_first_index(item_codes(inventory), code, 0);
    let updated = deducted(inventory, code, qty, now).unwrap();
    assert forall|c: Seq<char>| stock_of(updated, c) == movement_sum(
        movements.push(movement),
        c,
    ) by {
        lemma_movement_recorded(movements, movement, c);
        lemma_stock_after_update(inventory, i, inventory[i].current_qty - qty, now, c);
        lemma_first_index(item_codes(inventory), c, 0);
    }
}

/// A receipt into stock together with the movement that records it keeps
/// the stock of every item equal to the sum of its movements.
pub proof fn lemma_credit_recorded(
    inventory: Seq<InventoryRecord>,
    movements: Seq<InventoryMovement>,
    code: String,
    qty: u64,
    now: i64,
    movement: InventoryMovement,
)
    requires
        stock_matches_movements(inventory, movements),
        credited(inventory, code, qty, now).is_ok(),
        movement.item_code@ == code@,
        movement.qty_change == qty as int,
    ensures
        stock_matches_movements(
            credited(inventory, code, qty, now).unwrap(),
            movements.push(movement),
        ),
{
    let updated = credited(inventory, code, qty, now).unwrap();
    lemma_first_index(item_codes(inventory), code@, 0);
    assert forall|c: Seq<char>| stock_of(updated, c) == movement_sum(
        movements.push(movement),
        c,
    ) by {
        lemma_movement_recorded(movements, movement, c);
        lemma_first_index(item_codes(inventory), c, 0);
        match first_of(item_codes(inventory), code@) {
            Some(i) => {
                lemma_stock_after_update(inventory, i, inventory[i].current_qty + qty, now, c);
            },
            None => {
                let record = InventoryRecord {
                    item_code: code,
                    current_qty: qty,
                    last_updated: now,
                };
                assert(item_codes(inventory.push(record)) =~= item_codes(inventory).push(code@));
                lemma_first_index_push(item_codes(inventory), c, code@, 0);
            },
        }
    }
}

} // verus!
