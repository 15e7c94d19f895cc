//! What holds of the workflows, whatever is asked of them.

use vstd::prelude::*;
use crate::fifo::{
    available, fifo_lines, lemma_filed_lot_valid, lemma_lots_after_valid, lines_value,
};
use crate::inventory::{
    lemma_credit_recorded, lemma_deducted_stock, lemma_deduction_recorded,
    stock_matches_movements, stock_of,
};
use crate::ledger::{apply_pair, credit_entry, debit_entry, lemma_pair_keeps_balance, Posting};
use crate::lookup::{first_of, lemma_first_index};
use crate::models::{ApprovePayload, Clock, CreateBatch, CreatePurchase, RequirementStatus};
use crate::store::{books_kept, item_keys, mapped_categories, requirement_ids, StoreView};
use crate::workflow::{
    approval_issue, approved, batch_created, batch_issue, declined, issue_movement,
    issue_posting, issued, purchase_lot, purchase_movement, purchase_posting, purchased, Issue,
};

verus! {

/// Where the lots of an item hold less than is asked for, the issue fails:
/// nothing of it reaches the store.
pub proof fn lemma_short_lots_abort(v: StoreView, item: String, issue: Issue)
    requires
        issue.qty > available(v.lots, item@, v.lots.len() as int),
    ensures
        issued(v, item, issue).is_err(),
{
}

/// Where the lots of a requirement's item hold less than an approval asks
/// for, the approval fails: nothing of it reaches the store.
pub proof fn lemma_short_lots_abort_approval(
    v: StoreView,
    payload: ApprovePayload,
    txn_group_id: u128,
    now: Clock,
)
    requires
        first_of(requirement_ids(v.requirements), payload.requirement_id).is_some(),
        payload.allocated_qty > available(
            v.lots,
            v.requirements[first_of(
                requirement_ids(v.requirements),
                payload.requirement_id,
            ).unwrap()].item_code@,
            v.lots.len() as int,
        ),
    ensures
        approved(v, payload, txn_group_id, now).is_err(),
{
}

/// Two issues of one item that together ask for more than is on hand do
/// not both go through: once the first has, the second fails.
pub proof fn lemma_overdraw_refused(v: StoreView, item: String, first: Issue, second: Issue)
    requires
        first.qty + second.qty > stock_of(v.inventory, item@),
        issued(v, item, first).is_ok(),
    ensures
        issued(issued(v, item, first).unwrap(), item, second).is_err(),
{
    lemma_deducted_stock(v.inventory, item@, first.qty, first.now.seconds);
}

/// An issue that goes through takes exactly its quantity out of the stock
/// of its item, which held at least that much.
pub proof fn lemma_issue_draws_stock(v: StoreView, item: String, issue: Issue)
    requires
        issued(v, item, issue).is_ok(),
    ensures
        issue.qty <= stock_of(v.inventory, item@),
        stock_of(issued(v, item, issue).unwrap().inventory, item@) == stock_of(
            v.inventory,
            item@,
        ) - issue.qty,
{
    lemma_deducted_stock(v.inventory, item@, issue.qty, issue.now.seconds);
}

/// An issue that goes through leaves a valid store valid and consistent
/// books consistent.
pub proof fn lemma_issue_keeps_books(v: StoreView, item: String, issue: Issue)
    requires
        v.valid(),
        issued(v, item, issue).is_ok(),
    ensures
        issued(v, item, issue).unwrap().valid(),
        books_kept(v, issued(v, item, issue).unwrap()),
{
    let after = issued(v, item, issue).unwrap();
    let id = v.next.allocation;
    lemma_lots_after_valid(v.lots, item@, issue.qty as int);
    let it = first_of(item_keys(v.items), item@).unwrap();
    let m = first_of(mapped_categories(v.category_accounts), v.items[it].item_category).unwrap();
    let value = lines_value(fifo_lines(v.lots, item@, issue.qty as int, id, v.lots.len() as int));
    let posting = issue_posting(v.category_accounts[m], value as u128, id, issue);
    lemma_pair_keeps_balance(v.entries, posting);
    if stock_matches_movements(v.inventory, v.movements) {
        lemma_deduction_recorded(
            v.inventory,
            v.movements,
            item@,
            issue.qty,
            issue.now.seconds,
            issue_movement(item, id, issue),
        );
    }
}

/// A purchase that goes through leaves a valid store valid and consistent
/// books consistent.
pub proof fn lemma_purchase_keeps_books(
    v: StoreView,
    payload: CreatePurchase,
    txn_group_id: u128,
    now: Clock,
)
    requires
        v.valid(),
        purchased(v, payload, txn_group_id, now).is_ok(),
    ensures
        purchased(v, payload, txn_group_id, now).unwrap().valid(),
        books_kept(v, purchased(v, payload, txn_group_id, now).unwrap()),
{
    let purchase_id = v.next.purchase;
    let lot = purchase_lot(v.next.lot, purchase_id, payload);
    lemma_filed_lot_valid(v.lots, lot);
    lemma_pair_keeps_balance(
        v.entries,
        purchase_posting(purchase_id, payload, txn_group_id, now),
    );
    if stock_matches_movements(v.inventory, v.movements) {
        lemma_credit_recorded(
            v.inventory,
            v.movements,
            payload.item_code,
            payload.quantity,
            now.seconds,
            purchase_movement(purchase_id, payload, now),
        );
    }
}

/// One request to the store.
pub enum Step {
    Purchase { purchase: CreatePurchase, txn_group_id: u128, now: Clock },
    Approve { approval: ApprovePayload, txn_group_id: u128, now: Clock },
    Decline { requirement_id: i32 },
    CreateBatch { batch: CreateBatch, txn_group_id: u128, now: Clock },
    Post { posting: Posting },
}

/// The store after one request: what the workflow leaves where it goes
/// through, the store as it was where it fails.
pub open spec fn after_step(v: StoreView, step: Step) -> StoreView {
    match step {
        Step::Purchase { purchase, txn_group_id, now } => match purchased(
            v,
            purchase,
            txn_group_id,
            now,
        ) {
            Ok(after) => after,
            Err(_) => v,
        },
        Step::Approve { approval, txn_group_id, now } => match approved(
            v,
            approval,
            txn_group_id,
            now,
        ) {
            Ok(after) => after,
            Err(_) => v,
        },
        Step::Decline { requirement_id } => match declined(v, requirement_id) {
            Ok(after) => after,
            Err(_) => v,
        },
        Step::CreateBatch { batch, txn_group_id, now } => match batch_created(
            v,
            batch,
            txn_group_id,
            now,
        ) {
            Ok(after) => after,
            Err(_) => v,
        },
        Step::Post { posting } => match apply_pair(
            v.accounts,
            posting.debit_account_id,
            posting.credit_account_id,
            posting.amount as int,
        ) {
            Ok(accounts) => StoreView {
                accounts,
                entries: v.entries.push(debit_entry(posting)).push(credit_entry(posting)),
                ..v
            },
            Err(_) => v,
        },
    }
}

/// The store after a run of requests, in order.
pub open spec fn after_steps(v: StoreView, steps: Seq<Step>) -> StoreView
    decreases steps.len(),
{
    if steps.len() == 0 {
        v
    } else {
        after_step(after_steps(v, steps.drop_last()), steps.last())
    }
}

/// No request breaks the books: after any one of them every lot still
/// holds between nothing and what it received, the stock of every item is
/// still the sum of its movements, and every transaction group still
/// balances.
pub proof fn lemma_step_keeps_books(v: StoreView, step: Step)
    requires
        v.valid(),
    ensures
        after_step(v, step).valid(),
        books_kept(v, after_step(v, step)),
{
    match step {
        Step::Purchase { purchase, txn_group_id, now } => {
            if purchased(v, purchase, txn_group_id, now).is_ok() {
                lemma_purchase_keeps_books(v, purchase, txn_group_id, now);
            }
        },
        Step::Approve { approval, txn_group_id, now } => {
            if approved(v, approval, txn_group_id, now).is_ok() {
                let r = first_of(requirement_ids(v.requirements), approval.requirement_id).unwrap();
                lemma_issue_keeps_books(
                    v,
                    v.requirements[r].item_code,
                    approval_issue(approval, txn_group_id, now),
                );
            }
        },
        Step::Decline { requirement_id } => {},
        Step::CreateBatch { batch, txn_group_id, now } => {
            if batch_created(v, batch, txn_group_id, now).is_ok() {
                lemma_issue_keeps_books(
                    v,
                    batch.chick_item_code,
                    batch_issue(v, batch, txn_group_id, now),
                );
            }
        },
        Step::Post { posting } => {
            lemma_pair_keeps_balance(v.entries, posting);
        },
    }
}

/// The books stay sound through any run of purchases, approvals, declines,
/// batch creations and plain postings, whichever of them go through.
pub proof fn lemma_steps_keep_books(v: StoreView, steps: Seq<Step>)
    requires
        v.valid(),
    ensures
        after_steps(v, steps).valid(),
        books_kept(v, after_steps(v, steps)),
        v.consistent() ==> after_steps(v, steps).consistent(),
    decreases steps.len(),
{
    if steps.len() > 0 {
        lemma_steps_keep_books(v, steps.drop_last());
        lemma_step_keeps_books(after_steps(v, steps.drop_last()), steps.last());
    }
}

/// A requirement is settled once: after an approval has gone through, the
/// requirement can be neither declined nor approved again.
pub proof fn lemma_approved_is_settled(
    v: StoreView,
    payload: ApprovePayload,
    txn_group_id: u128,
    now: Clock,
    again: ApprovePayload,
    later_group_id: u128,
    later: Clock,
)
    requires
        approved(v, payload, txn_group_id, now).is_ok(),
        again.requirement_id == payload.requirement_id,
    ensures
        declined(
            approved(v, payload, txn_group_id, now).unwrap(),
            payload.requirement_id,
        ).is_err(),
        approved(
            approved(v, payload, txn_group_id, now).unwrap(),
            again,
            later_group_id,
            later,
        ).is_err(),
{
    let after = approved(v, payload, txn_group_id, now).unwrap();
    let r = first_of(requirement_ids(v.requirements), payload.requirement_id).unwrap();
    lemma_first_index(requirement_ids(v.requirements), payload.requirement_id, 0);
    assert(requirement_ids(after.requirements) =~= requirement_ids(v.requirements));
}

/// A requirement is settled once: after a decline has gone through, the
/// requirement can be neither approved nor declined again, and declining
/// has added no allocation.
pub proof fn lemma_declined_is_settled(
    v: StoreView,
    requirement_id: i32,
    payload: ApprovePayload,
    txn_group_id: u128,
    now: Clock,
)
    requires
        declined(v, requirement_id).is_ok(),
        payload.requirement_id == requirement_id,
    ensures
        declined(v, requirement_id).unwrap().allocations == v.allocations,
        declined(declined(v, requirement_id).unwrap(), requirement_id).is_err(),
        approved(declined(v, requirement_id).unwrap(), payload, txn_group_id, now).is_err(),
{
    let after = declined(v, requirement_id).unwrap();
    lemma_first_index(requirement_ids(v.requirements), requirement_id, 0);
    assert(requirement_ids(after.requirements) =~= requirement_ids(v.requirements));
}

} // verus!
