//! First-in-first-out consumption of stock lots.
//!
//! A lot table is kept in issue order: by received date, then by lot id.
//! Consuming a quantity of an item walks the table in that order and takes
//! from each lot of the item as much as it still holds, until the quantity
//! is met.

use vstd::prelude::*;
use crate::models::{AllocationLine, StockLot};

verus! {

pub open spec fn lot_valid(lot: StockLot) -> bool {
    lot.remaining_qty <= lot.received_qty
}

/// `a` is issued no later than `b`: older date first, lower lot id on a tie.
pub open spec fn issued_before(a: StockLot, b: StockLot) -> bool {
    a.received_date < b.received_date || (a.received_date == b.received_date && a.lot_id
        <= b.lot_id)
}

/// Every lot holds at most what it received, and the table is in issue order.
pub open spec fn lots_valid(lots: Seq<StockLot>) -> bool {
    &&& forall|i: int| 0 <= i < lots.len() ==> lot_valid(#[trigger] lots[i])
    &&& forall|i: int, j: int|
        0 <= i < j < lots.len() ==> issued_before(#[trigger] lots[i], #[trigger] lots[j])
}

/// What the first `n` lots still hold of `item`.
pub open spec fn available(lots: Seq<StockLot>, item: Seq<char>, n: int) -> int
    decreases n,
{
    if n <= 0 {
        0
    } else {
        available(lots, item, n - 1) + if lots[n - 1].item_code@ == item {
            lots[n - 1].remaining_qty as int
        } else {
            0
        }
    }
}

pub open spec fn min_int(a: int, b: int) -> int {
    if a <= b {
        a
    } else {
        b
    }
}

/// What a request for `need` of `item` takes from lot `i`: whatever the
/// earlier lots of the item leave unmet, up to what the lot holds.
pub open spec fn fifo_take(lots: Seq<StockLot>, item: Seq<char>, need: int, i: int) -> int {
    if lots[i].item_code@ == item && need > available(lots, item, i) {
        min_int(lots[i].remaining_qty as int, need - available(lots, item, i))
    } else {
        0
    }
}

/// The part of `need` that all the lots of `item` together cannot meet.
pub open spec fn shortage_of(lots: Seq<StockLot>, item: Seq<char>, need: int) -> int {
    need - min_int(need, available(lots, item, lots.len() as int))
}

pub open spec fn consumed(lot: StockLot, take: int) -> StockLot {
    StockLot { remaining_qty: (lot.remaining_qty - take) as u64, ..lot }
}

/// The lot table after a request for `need` of `item`.
pub open spec fn lots_after(lots: Seq<StockLot>, item: Seq<char>, need: int) -> Seq<StockLot> {
    Seq::new(lots.len(), |i: int| consumed(lots[i], fifo_take(lots, item, need, i)))
}

pub open spec fn line_for(lot: StockLot, take: int, allocation_id: i32) -> AllocationLine {
    AllocationLine {
        allocation_id,
        lot_id: lot.lot_id,
        qty: take as u64,
        unit_cost: lot.unit_cost,
        line_value: (take * lot.unit_cost) as u128,
    }
}

/// The lines that a request writes while it walks the first `n` lots: one
/// for each lot it takes from, in issue order, at the lot's own unit cost.
pub open spec fn fifo_lines(
    lots: Seq<StockLot>,
    item: Seq<char>,
    need: int,
    allocation_id: i32,
    n: int,
) -> Seq<AllocationLine>
    decreases n,
{
    if n <= 0 {
        Seq::empty()
    } else {
        let earlier = fifo_lines(lots, item, need, allocation_id, n - 1);
        let take = fifo_take(lots, item, need, n - 1);
        if take > 0 {
            earlier.push(line_for(lots[n - 1], take, allocation_id))
        } else {
            earlier
        }
    }
}

pub open spec fn lines_qty(lines: Seq<AllocationLine>) -> int
    decreases lines.len(),
{
    if lines.len() == 0 {
        0
    } else {
        lines_qty(lines.drop_last()) + lines.last().qty
    }
}

pub open spec fn lines_value(lines: Seq<AllocationLine>) -> int
    decreases lines.len(),
{
    if lines.len() == 0 {
        0
    } else {
        lines_value(lines.drop_last()) + lines.last().line_value
    }
}

/// Where a new lot belongs among `lots[from..]`: before the first lot that
/// is issued after it, or at the end.
pub open spec fn issue_position(lots: Seq<StockLot>, lot: StockLot, from: int) -> int
    decreases lots.len() - from,
{
    if from < 0 || from >= lots.len() {
        lots.len() as int
    } else if !issued_before(lots[from], lot) {
        from
    } else {
        issue_position(lots, lot, from + 1)
    }
}

#[derive(Clone, Debug, PartialEq, Eq)]
pub struct FifoAllocation {
    pub lines: Vec<AllocationLine>,
    pub total_value: u128,
    pub shortage: u64,
}

proof fn lemma_available_grows(lots: Seq<StockLot>, item: Seq<char>, i: int, n: int)
    requires
        0 <= i <= n,
    ensures
        available(lots, item, i) <= available(lots, item, n),
    decreases n,
{
    if i < n {
        lemma_available_grows(lots, item, i, n - 1);
    }
}

/// Once the need is met, no later lot is touched and no line is added.
proof fn lemma_met(
    lots: Seq<StockLot>,
    item: Seq<char>,
    need: int,
    allocation_id: i32,
    i: int,
    n: int,
)
    requires
        0 <= i <= n,
        available(lots, item, i) >= need,
    ensures
        available(lots, item, n) >= need,
        fifo_lines(lots, item, need, allocation_id, n) == fifo_lines(
            lots,
            item,
            need,
            allocation_id,
            i,
        ),
        forall|j: int| i <= j < n ==> fifo_take(lots, item, need, j) == 0,
    decreases n,
{
    if i < n {
        lemma_met(lots, item, need, allocation_id, i, n - 1);
        lemma_available_grows(lots, item, i, n - 1);
    }
}

/// First in, first out: a lot is drawn on only once every earlier lot of
/// the item has been emptied.
pub proof fn lemma_earlier_lots_go_first(
    lots: Seq<StockLot>,
    item: Seq<char>,
    need: int,
    i: int,
    j: int,
)
    requires
        0 <= i < j < lots.len(),
        lots[i].item_code@ == item,
        fifo_take(lots, item, need, j) > 0,
    ensures
        fifo_take(lots, item, need, i) == lots[i].remaining_qty,
        consumed(lots[i], fifo_take(lots, item, need, i)).remaining_qty == 0,
        lots_valid(lots) ==> issued_before(lots[i], lots[j]),
{
    lemma_available_grows(lots, item, i + 1, j);
    lemma_available_grows(lots, item, 0, i);
}

/// What a request takes in all is what was asked for, as far as the lots
/// of the item hold it; each lot gives no more than it holds.
pub proof fn lemma_take_within_lot(lots: Seq<StockLot>, item: Seq<char>, need: int, i: int)
    requires
        0 <= i < lots.len(),
    ensures
        0 <= fifo_take(lots, item, need, i) <= lots[i].remaining_qty,
        fifo_take(lots, item, need, i) <= need || fifo_take(lots, item, need, i) == 0,
{
    lemma_available_grows(lots, item, 0, i);
}

/// Consuming stock keeps the lot table valid: no lot gains, none holds
/// more than it received, and the order stands.
pub proof fn lemma_lots_after_valid(lots: Seq<StockLot>, item: Seq<char>, need: int)
    requires
        lots_valid(lots),
    ensures
        lots_valid(lots_after(lots, item, need)),
        forall|i: int|
            0 <= i < lots.len() ==> (#[trigger] lots_after(lots, item, need)[i]).remaining_qty
                <= lots[i].remaining_qty,
{
    let after = lots_after(lots, item, need);
    assert forall|i: int| 0 <= i < after.len() implies lot_valid(#[trigger] after[i])
        && after[i].remaining_qty <= lots[i].remaining_qty by {
        lemma_take_within_lot(lots, item, need, i);
    }
}

/// The place found for a new lot lies after every lot issued before it and
/// at the first lot that is not.
pub proof fn lemma_issue_position(lots: Seq<StockLot>, lot: StockLot, from: int)
    requires
        0 <= from <= lots.len(),
    ensures
        from <= issue_position(lots, lot, from) <= lots.len(),
        forall|k: int|
            from <= k < issue_position(lots, lot, from) ==> issued_before(#[trigger] lots[k], lot),
        issue_position(lots, lot, from) < lots.len() ==> !issued_before(
            lots[issue_position(lots, lot, from)],
            lot,
        ),
    decreases lots.len() - from,
{
    if from < lots.len() && issued_before(lots[from], lot) {
        lemma_issue_position(lots, lot, from + 1);
    }
}

/// Filing a valid lot at its place keeps the lot table valid.
pub proof fn lemma_filed_lot_valid(lots: Seq<StockLot>, lot: StockLot)
    requires
        lots_valid(lots),
        lot_valid(lot),
    ensures
        lots_valid(lots.insert(issue_position(lots, lot, 0), lot)),
{
    let pos = issue_position(lots, lot, 0);
    lemma_issue_position(lots, lot, 0);
    let after = lots.insert(pos, lot);
    assert forall|a: int, b: int| 0 <= a < b < after.len() implies issued_before(
        #[trigger] after[a],
        #[trigger] after[b],
    ) by {
        // By cases on where `a` and `b` lie around the new lot.
        if b < pos {
        } else if b == pos {
        } else if a < pos {
        } else if a == pos {
        }
    }
}

proof fn lemma_product_bound(a: int, b: int, total: int, taken: int)
    requires
        0 <= a,
        0 <= b <= u64::MAX,
        0 <= taken,
        taken + a <= u64::MAX,
        0 <= total <= taken * u64::MAX,
    ensures
        0 <= a * b <= u64::MAX * u64::MAX,
        total + a * b <= (taken + a) * u64::MAX,
        (taken + a) * u64::MAX <= u64::MAX * u64::MAX,
        u64::MAX * u64::MAX < u128::MAX,
{
    assert(0 <= a * b <= a * u64::MAX) by (nonlinear_arith)
        requires
            0 <= a,
            0 <= b <= u64::MAX,
    ;
    assert((taken + a) * u64::MAX == taken * u64::MAX + a * u64::MAX) by (nonlinear_arith);
    assert((taken + a) * u64::MAX <= u64::MAX * u64::MAX) by (nonlinear_arith)
        requires
            0 <= taken + a <= u64::MAX,
    ;
    assert(a * u64::MAX <= u64::MAX * u64::MAX) by (nonlinear_arith)
        requires
            0 <= a <= u64::MAX,
    ;
    assert(u64::MAX * u64::MAX < u128::MAX) by (nonlinear_arith);
}

/// Total quantity that the lots of `item_code` still hold.
pub fn available_qty(lots: &Vec<StockLot>, item_code: &String) -> (total: u128)
    ensures
        total == available(lots@, item_code@, lots@.len() as int),
{
    let mut total: u128 = 0;
    let mut i: usize = 0;
    while i < lots.len()
        invariant
            i <= lots@.len(),
            total == available(lots@, item_code@, i as int),
            total <= i * u64::MAX,
        decreases lots@.len() - i,
    {
        proof {
            assert((i + 1) * u64::MAX == i * u64::MAX + u64::MAX) by (nonlinear_arith);
            assert((i + 1) * u64::MAX <= usize::MAX * u64::MAX) by (nonlinear_arith)
                requires
                    0 <= i + 1 <= usize::MAX,
            ;
            assert(usize::MAX * u64::MAX < u128::MAX) by (nonlinear_arith)
                requires
                    usize::MAX <= u64::MAX,
            ;
        }
        if lots[i].item_code == *item_code {
            total = total + lots[i].remaining_qty as u128;
        }
        i = i + 1;
    }
    total
}

/// Works out what a request for `qty_needed` of `item_code` would take,
/// oldest lot first, without touching the lots.
///
/// One line per lot taken from, valued at that lot's unit cost; what no lot
/// could give is reported as the shortage.
pub fn quote(lots: &Vec<StockLot>, item_code: &String, qty_needed: u64, allocation_id: i32) -> (out:
    FifoAllocation)
    ensures
        out.lines@ == fifo_lines(
            lots@,
            item_code@,
            qty_needed as int,
            allocation_id,
            lots@.len() as int,
        ),
        out.total_value == lines_value(out.lines@),
        out.shortage == shortage_of(lots@, item_code@, qty_needed as int),
        lines_qty(out.lines@) + out.shortage == qty_needed,
{
    let ghost item = item_code@;
    let ghost need = qty_needed as int;
    let n = lots.len();
    let mut lines: Vec<AllocationLine> = Vec::new();
    let mut total: u128 = 0;
    let mut left: u64 = qty_needed;
    let mut i: usize = 0;
    while i < n && left > 0
        invariant
            n == lots@.len(),
            i <= n,
            item == item_code@,
            need == qty_needed as int,
            left as int == need - min_int(need, available(lots@, item, i as int)),
            lines@ == fifo_lines(lots@, item, need, allocation_id, i as int),
            total == lines_value(lines@),
            lines_qty(lines@) == need - left,
            total <= (need - left) * u64::MAX,
        decreases n - i,
    {
        let ghost lines_before = lines@;
        if lots[i].item_code == *item_code && lots[i].remaining_qty > 0 {
            let held: u64 = lots[i].remaining_qty;
            let cost: u64 = lots[i].unit_cost;
            let take: u64 = if held < left {
                held
            } else {
                left
            };
            proof {
                lemma_product_bound(take as int, cost as int, total as int, need - left);
            }
            let line_value: u128 = (take as u128) * (cost as u128);
            let line = AllocationLine {
                allocation_id,
                lot_id: lots[i].lot_id,
                qty: take,
                unit_cost: cost,
                line_value,
            };
            lines.push(line);
            total = total + line_value;
            left = left - take;
            assert(lines@.drop_last() =~= lines_before);
        }
        i = i + 1;
    }
    proof {
        if i < n {
            lemma_met(lots@, item, need, allocation_id, i as int, n as int);
        }
    }
    FifoAllocation { lines, total_value: total, shortage: left }
}

/// Takes `qty_needed` of `item_code` out of the lots, oldest first, as far
/// as they hold it.
pub fn consume(lots: &mut Vec<StockLot>, item_code: &String, qty_needed: u64)
    requires
        lots_valid(old(lots)@),
    ensures
        lots_valid(final(lots)@),
        final(lots)@ == lots_after(old(lots)@, item_code@, qty_needed as int),
        forall|i: int|
            0 <= i < old(lots)@.len() ==> (#[trigger] final(lots)@[i]).remaining_qty
                <= old(lots)@[i].remaining_qty,
{
    let ghost before = lots@;
    let ghost item = item_code@;
    let ghost need = qty_needed as int;
    let n = lots.len();
    let mut left: u64 = qty_needed;
    let mut i: usize = 0;
    while i < n && left > 0
        invariant
            n == before.len(),
            lots@.len() == n,
            i <= n,
            item == item_code@,
            need == qty_needed as int,
            left as int == need - min_int(need, available(before, item, i as int)),
            forall|j: int|
                0 <= j < i ==> #[trigger] lots@[j] == consumed(
                    before[j],
                    fifo_take(before, item, need, j),
                ),
            forall|j: int| i <= j < n ==> #[trigger] lots@[j] == before[j],
        decreases n - i,
    {
        if lots[i].item_code == *item_code && lots[i].remaining_qty > 0 {
            let held: u64 = lots[i].remaining_qty;
            let take: u64 = if held < left {
                held
            } else {
                left
            };
            let lot = &mut lots[i];
            lot.remaining_qty = held - take;
            left = left - take;
        }
        i = i + 1;
    }
    proof {
        if i < n {
            lemma_met(before, item, need, 0, i as int, n as int);
        }
    }
}

/// Consumes `qty_needed` of `item_code` from the lots, oldest first.
///
/// Each lot of the item gives what the earlier ones left unmet, up to what
/// it holds; one line is written per lot taken from, valued at that lot's
/// unit cost. What no lot could give is reported as the shortage.
pub fn allocate(
    lots: &mut Vec<StockLot>,
    item_code: &String,
    qty_needed: u64,
    allocation_id: i32,
) -> (out: FifoAllocation)
    requires
        lots_valid(old(lots)@),
    ensures
        lots_valid(final(lots)@),
        final(lots)@ == lots_after(old(lots)@, item_code@, qty_needed as int),
        out.lines@ == fifo_lines(
            old(lots)@,
            item_code@,
            qty_needed as int,
            allocation_id,
            old(lots)@.len() as int,
        ),
        out.total_value == lines_value(out.lines@),
        out.shortage == shortage_of(old(lots)@, item_code@, qty_needed as int),
        lines_qty(out.lines@) + out.shortage == qty_needed,
        forall|i: int|
            0 <= i < old(lots)@.len() ==> (#[trigger] final(lots)@[i]).remaining_qty
                <= old(lots)@[i].remaining_qty,
{
    let out = quote(lots, item_code, qty_needed, allocation_id);
    consume(lots, item_code, qty_needed);
    out
}

/// Files a new lot at its place in issue order and returns that place.
pub fn receive_lot(lots: &mut Vec<StockLot>, lot: StockLot) -> (pos: usize)
    requires
        lots_valid(old(lots)@),
        lot_valid(lot),
    ensures
        lots_valid(final(lots)@),
        pos <= old(lots)@.len(),
        pos == issue_position(old(lots)@, lot, 0),
        final(lots)@ == old(lots)@.insert(pos as int, lot),
        forall|k: int| 0 <= k < pos ==> issued_before(#[trigger] old(lots)@[k], lot),
        forall|k: int|
            pos <= k < old(lots)@.len() ==> !issued_before(#[trigger] old(lots)@[k], lot),
{
    let ghost before = lots@;
    let n = lots.len();
    let mut i: usize = 0;
    while i < n && (lots[i].received_date < lot.received_date || (lots[i].received_date
        == lot.received_date && lots[i].lot_id <= lot.lot_id))
        invariant
            lots@ == before,
            n == before.len(),
            i <= n,
            forall|k: int| 0 <= k < i ==> issued_before(#[trigger] before[k], lot),
            issue_position(before, lot, 0) == issue_position(before, lot, i as int),
        decreases n - i,
    {
        i = i + 1;
    }
    proof {
        lemma_filed_lot_valid(before, lot);
    }
    lots.insert(i, lot);
    i
}

/// Whether a lot table is valid: decides `lots_valid`.
pub fn check_lots(lots: &Vec<StockLot>) -> (ok: bool)
    ensures
        ok == lots_valid(lots@),
{
    let n = lots.len();
    let mut i: usize = 0;
    while i < n
        invariant
            n == lots@.len(),
            i <= n,
            forall|k: int| 0 <= k < i ==> lot_valid(#[trigger] lots@[k]),
            forall|a: int, b: int|
                0 <= a < b < i ==> issued_before(#[trigger] lots@[a], #[trigger] lots@[b]),
        decreases n - i,
    {
        if lots[i].remaining_qty > lots[i].received_qty {
            return false;
        }
        if i > 0 {
            let in_order = lots[i - 1].received_date < lots[i].received_date || (lots[i
                - 1].received_date == lots[i].received_date && lots[i - 1].lot_id
                <= lots[i].lot_id);
            if !in_order {
                return false;
            }
        }
        i = i + 1;
    }
    true
}

} // verus!
