//! Double-entry posting: paired ledger entries and account balances.

use vstd::prelude::*;
use crate::lookup::{first_index, first_of};
use crate::models::{
    Clock, Error, LedgerAccount, LedgerAccountType, LedgerEntry, Missing, ReferenceTable,
    MAX_AMOUNT,
};
use crate::system::{fresh_txn_group_id, is_random_uuid, same_instant, utc_now};

verus! {

/// The direction in which a posting moves a balance: `1` where it grows,
/// `-1` where it shrinks. Asset and expense accounts grow by a debit, the
/// others by a credit.
pub open spec fn balance_sign(account_type: LedgerAccountType, is_debit: bool) -> int {
    let debit_normal = account_type == LedgerAccountType::Asset || account_type
        == LedgerAccountType::Expense;
    if debit_normal == is_debit {
        1
    } else {
        -1
    }
}

pub fn balance_sign_of(account_type: LedgerAccountType, is_debit: bool) -> (sign: i8)
    ensures
        sign == balance_sign(account_type, is_debit),
{
    let debit_normal = match account_type {
        LedgerAccountType::Asset => true,
        LedgerAccountType::Expense => true,
        LedgerAccountType::Liability => false,
        LedgerAccountType::Equity => false,
        LedgerAccountType::Revenue => false,
    };
    if debit_normal == is_debit {
        1
    } else {
        -1
    }
}

pub open spec fn account_ids(accounts: Seq<LedgerAccount>) -> Seq<i32> {
    accounts.map_values(|a: LedgerAccount| a.account_id)
}

pub open spec fn balance_after(account: LedgerAccount, amount: int, is_debit: bool) -> int {
    account.current_balance + balance_sign(account.account_type, is_debit) * amount
}

/// The amount fits a ledger entry, and the balance fits its column before
/// and after the posting.
pub open spec fn fits_ledger(account: LedgerAccount, amount: int, is_debit: bool) -> bool {
    &&& 0 <= amount <= MAX_AMOUNT
    &&& -MAX_AMOUNT <= account.current_balance <= MAX_AMOUNT
    &&& -MAX_AMOUNT <= balance_after(account, amount, is_debit) <= MAX_AMOUNT
}

pub open spec fn with_balance(account: LedgerAccount, balance: int) -> LedgerAccount {
    LedgerAccount { current_balance: balance as i128, ..account }
}

/// The account table after one side of a posting, or why it cannot be made.
pub open spec fn apply_balance(
    accounts: Seq<LedgerAccount>,
    account_id: i32,
    amount: int,
    is_debit: bool,
) -> Result<Seq<LedgerAccount>, Error> {
    match first_of(account_ids(accounts), account_id) {
        None => Err(Error::NotFound(Missing::Account)),
        Some(i) => if fits_ledger(accounts[i], amount, is_debit) {
            Ok(
                accounts.update(
                    i,
                    with_balance(accounts[i], balance_after(accounts[i], amount, is_debit)),
                ),
            )
        } else {
            Err(Error::Storage)
        },
    }
}

/// The account table after both sides of a posting: the debit side first.
pub open spec fn apply_pair(
    accounts: Seq<LedgerAccount>,
    debit_account_id: i32,
    credit_account_id: i32,
    amount: int,
) -> Result<Seq<LedgerAccount>, Error> {
    match apply_balance(accounts, debit_account_id, amount, true) {
        Err(e) => Err(e),
        Ok(debited) => apply_balance(debited, credit_account_id, amount, false),
    }
}

/// What identifies one posting and ties its two entries together.
#[derive(Clone, Copy, Debug, PartialEq, Eq, Structural)]
pub struct Posting {
    pub debit_account_id: i32,
    pub credit_account_id: i32,
    pub amount: u128,
    pub txn_date: i32,
    pub reference_table: ReferenceTable,
    pub reference_id: i32,
    pub txn_group_id: u128,
    pub created_at: i64,
    pub created_by: Option<i32>,
}

pub open spec fn debit_entry(p: Posting) -> LedgerEntry {
    LedgerEntry {
        account_id: p.debit_account_id,
        debit: Some(p.amount),
        credit: None,
        txn_date: p.txn_date,
        reference_table: p.reference_table,
        reference_id: p.reference_id,
        txn_group_id: p.txn_group_id,
        created_at: p.created_at,
        created_by: p.created_by,
    }
}

pub open spec fn credit_entry(p: Posting) -> LedgerEntry {
    LedgerEntry {
        account_id: p.credit_account_id,
        debit: None,
        credit: Some(p.amount),
        txn_date: p.txn_date,
        reference_table: p.reference_table,
        reference_id: p.reference_id,
        txn_group_id: p.txn_group_id,
        created_at: p.created_at,
        created_by: p.created_by,
    }
}

pub open spec fn amount_of(side: Option<u128>) -> int {
    match side {
        Some(a) => a as int,
        None => 0,
    }
}

/// Sum of the debit amounts of the entries of one transaction group.
pub open spec fn group_debits(entries: Seq<LedgerEntry>, group: u128) -> int
    decreases entries.len(),
{
    if entries.len() == 0 {
        0
    } else {
        group_debits(entries.drop_last(), group) + if entries.last().txn_group_id == group {
            amount_of(entries.last().debit)
        } else {
            0
        }
    }
}

/// Sum of the credit amounts of the entries of one transaction group.
pub open spec fn group_credits(entries: Seq<LedgerEntry>, group: u128) -> int
    decreases entries.len(),
{
    if entries.len() == 0 {
        0
    } else {
        group_credits(entries.drop_last(), group) + if entries.last().txn_group_id == group {
            amount_of(entries.last().credit)
        } else {
            0
        }
    }
}

/// Every transaction group balances: its debits sum to its credits.
pub open spec fn entries_balanced(entries: Seq<LedgerEntry>) -> bool {
    forall|group: u128| group_debits(entries, group) == group_credits(entries, group)
}

/// An entry carries an amount on exactly one side.
pub open spec fn one_sided(entry: LedgerEntry) -> bool {
    entry.debit.is_some() != entry.credit.is_some()
}

/// Every entry carries an amount on exactly one side.
pub open spec fn entries_one_sided(entries: Seq<LedgerEntry>) -> bool {
    forall|i: int| 0 <= i < entries.len() ==> one_sided(#[trigger] entries[i])
}

/// Appending the two entries of one posting adds the same amount to the
/// debits and to the credits of its group, and nothing to any other group.
pub proof fn lemma_pair_keeps_balance(entries: Seq<LedgerEntry>, p: Posting)
    ensures
        forall|group: u128|
            group_debits(entries.push(debit_entry(p)).push(credit_entry(p)), group)
                - group_credits(entries.push(debit_entry(p)).push(credit_entry(p)), group)
                == #[trigger] group_debits(entries, group) - group_credits(entries, group),
        entries_balanced(entries) ==> entries_balanced(
            entries.push(debit_entry(p)).push(credit_entry(p)),
        ),
        entries_one_sided(entries) ==> entries_one_sided(
            entries.push(debit_entry(p)).push(credit_entry(p)),
        ),
{
    let one = entries.push(debit_entry(p));
    let two = one.push(credit_entry(p));
    assert(one.drop_last() =~= entries);
    assert(two.drop_last() =~= one);
    assert forall|group: u128|
        group_debits(two, group) - group_credits(two, group) == #[trigger] group_debits(
            entries,
            group,
        ) - group_credits(entries, group) by {
        assert(group_debits(two, group) == group_debits(one, group) + 0);
        assert(group_credits(one, group) == group_credits(entries, group) + 0);
    }
    if entries_balanced(entries) {
        assert forall|group: u128| group_debits(two, group) == group_credits(two, group) by {
            assert(group_debits(entries, group) == group_credits(entries, group));
        }
    }
}

/// Position of the first account with the given id.
pub fn find_account(accounts: &Vec<LedgerAccount>, account_id: i32) -> (found: Option<usize>)
    ensures
        match found {
            Some(i) => first_of(account_ids(accounts@), account_id) == Some(i as int) && i
                < accounts@.len() && accounts@[i as int].account_id == account_id,
            None => first_of(account_ids(accounts@), account_id).is_none(),
        },
{
    let ghost ids = account_ids(accounts@);
    let mut i: usize = 0;
    while i < accounts.len()
        invariant
            i <= accounts@.len(),
            ids == account_ids(accounts@),
            first_index(ids, account_id, 0) == first_index(ids, account_id, i as int),
        decreases accounts@.len() - i,
    {
        if accounts[i].account_id == account_id {
            return Some(i);
        }
        i = i + 1;
    }
    None
}

/// Applies one side of a posting to the balance of an account.
///
/// A debit raises the balance of an asset or expense account and lowers
/// that of a liability, equity or revenue account; a credit does the
/// opposite. Nothing changes where the account is unknown or the amount or
/// the balance would not fit.
pub fn update_account_balance(
    accounts: &mut Vec<LedgerAccount>,
    account_id: i32,
    amount: u128,
    is_debit: bool,
) -> (res: Result<(), Error>)
    ensures
        match apply_balance(old(accounts)@, account_id, amount as int, is_debit) {
            Ok(updated) => res.is_ok() && final(accounts)@ == updated,
            Err(e) => res == Err::<(), Error>(e) && final(accounts)@ == old(accounts)@,
        },
{
    let found = find_account(accounts, account_id);
    match found {
        None => Err(Error::NotFound(Missing::Account)),
        Some(i) => {
            let balance: i128 = accounts[i].current_balance;
            if amount > MAX_AMOUNT as u128 || balance > MAX_AMOUNT || balance < -MAX_AMOUNT {
                return Err(Error::Storage);
            }
            let sign = balance_sign_of(accounts[i].account_type, is_debit);
            let updated: i128 = if sign == 1 {
                balance + amount as i128
            } else {
                balance - amount as i128
            };
            if updated > MAX_AMOUNT || updated < -MAX_AMOUNT {
                return Err(Error::Storage);
            }
            let account = &mut accounts[i];
            account.current_balance = updated;
            Ok(())
        },
    }
}

/// Posts one balanced transaction: moves both balances, then appends the
/// debit entry and the credit entry, which share the posting's group id,
/// date, reference and author. Either all of it happens or none.
pub fn post_pair(
    accounts: &mut Vec<LedgerAccount>,
    entries: &mut Vec<LedgerEntry>,
    posting: Posting,
) -> (res: Result<(), Error>)
    ensures
        match apply_pair(
            old(accounts)@,
            posting.debit_account_id,
            posting.credit_account_id,
            posting.amount as int,
        ) {
            Ok(updated) => {
                &&& res.is_ok()
                &&& final(accounts)@ == updated
                &&& final(entries)@ == old(entries)@.push(debit_entry(posting)).push(
                    credit_entry(posting),
                )
            },
            Err(e) => {
                &&& res == Err::<(), Error>(e)
                &&& final(accounts)@ == old(accounts)@
                &&& final(entries)@ == old(entries)@
            },
        },
        entries_balanced(old(entries)@) ==> entries_balanced(final(entries)@),
        entries_one_sided(old(entries)@) ==> entries_one_sided(final(entries)@),
{
    let debit_at = find_account(accounts, posting.debit_account_id);
    let held: i128 = match debit_at {
        Some(i) => accounts[i].current_balance,
        None => 0,
    };
    match update_account_balance(accounts, posting.debit_account_id, posting.amount, true) {
        Err(e) => {
            return Err(e);
        },
        Ok(()) => {},
    }
    match update_account_balance(accounts, posting.credit_account_id, posting.amount, false) {
        Err(e) => {
            match debit_at {
                Some(i) => {
                    let account = &mut accounts[i];
                    account.current_balance = held;
                },
                None => {},
            }
            return Err(e);
        },
        Ok(()) => {},
    }
    entries.push(
        LedgerEntry {
            account_id: posting.debit_account_id,
            debit: Some(posting.amount),
            credit: None,
            txn_date: posting.txn_date,
            reference_table: posting.reference_table,
            reference_id: posting.reference_id,
            txn_group_id: posting.txn_group_id,
            created_at: posting.created_at,
            created_by: posting.created_by,
        },
    );
    entries.push(
        LedgerEntry {
            account_id: posting.credit_account_id,
            debit: None,
            credit: Some(posting.amount),
            txn_date: posting.txn_date,
            reference_table: posting.reference_table,
            reference_id: posting.reference_id,
            txn_group_id: posting.txn_group_id,
            created_at: posting.created_at,
            created_by: posting.created_by,
        },
    );
    proof {
        lemma_pair_keeps_balance(old(entries)@, posting);
    }
    Ok(())
}

/// What a posting leaves behind and returns.
pub open spec fn posting_outcome(
    accounts: Seq<LedgerAccount>,
    entries: Seq<LedgerEntry>,
    posting: Posting,
    accounts_after: Seq<LedgerAccount>,
    entries_after: Seq<LedgerEntry>,
    res: Result<u128, Error>,
) -> bool {
    match apply_pair(
        accounts,
        posting.debit_account_id,
        posting.credit_account_id,
        posting.amount as int,
    ) {
        Ok(updated) => {
            &&& res == Ok::<u128, Error>(posting.txn_group_id)
            &&& accounts_after == updated
            &&& entries_after == entries.push(debit_entry(posting)).push(credit_entry(posting))
        },
        Err(e) => {
            &&& res == Err::<u128, Error>(e)
            &&& accounts_after == accounts
            &&& entries_after == entries
        },
    }
}

/// The posting that a transaction made at `now` under `txn_group_id` is.
pub open spec fn posting_at(
    debit_account_id: i32,
    credit_account_id: i32,
    amount: u128,
    reference_table: ReferenceTable,
    reference_id: i32,
    created_by: Option<i32>,
    txn_group_id: u128,
    now: Clock,
) -> Posting {
    Posting {
        debit_account_id,
        credit_account_id,
        amount,
        txn_date: now.day,
        reference_table,
        reference_id,
        txn_group_id,
        created_at: now.seconds,
        created_by,
    }
}

/// Posts one balanced transaction now, under a fresh transaction group,
/// whose id it returns. Either all of it happens or none.
pub fn post_transaction(
    accounts: &mut Vec<LedgerAccount>,
    entries: &mut Vec<LedgerEntry>,
    debit_account_id: i32,
    credit_account_id: i32,
    amount: u128,
    reference_table: ReferenceTable,
    reference_id: i32,
    created_by: Option<i32>,
) -> (res: Result<u128, Error>)
    ensures
        exists|txn_group_id: u128, now: Clock|
            is_random_uuid(txn_group_id) && same_instant(now) && posting_outcome(
                old(accounts)@,
                old(entries)@,
                #[trigger] posting_at(
                    debit_account_id,
                    credit_account_id,
                    amount,
                    reference_table,
                    reference_id,
                    created_by,
                    txn_group_id,
                    now,
                ),
                final(accounts)@,
                final(entries)@,
                res,
            ),
        entries_balanced(old(entries)@) ==> entries_balanced(final(entries)@),
        entries_one_sided(old(entries)@) ==> entries_one_sided(final(entries)@),
{
    let txn_group_id = fresh_txn_group_id();
    let now = utc_now();
    let posting = Posting {
        debit_account_id,
        credit_account_id,
        amount,
        txn_date: now.day,
        reference_table,
        reference_id,
        txn_group_id,
        created_at: now.seconds,
        created_by,
    };
    let res = match post_pair(accounts, entries, posting) {
        Ok(()) => Ok(txn_group_id),
        Err(e) => Err(e),
    };
    assert(posting_outcome(
        old(accounts)@,
        old(entries)@,
        posting_at(
            debit_account_id,
            credit_account_id,
            amount,
            reference_table,
            reference_id,
            created_by,
            txn_group_id,
            now,
        ),
        accounts@,
        entries@,
        res,
    ));
    res
}

} // verus!
