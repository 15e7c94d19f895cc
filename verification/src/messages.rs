//! The messages that answer an approval or a decline.

use vstd::prelude::*;
use vstd::string::StringExecFns;
use crate::models::ResponseMessage;

verus! {

pub open spec fn digit_char(d: int) -> char {
    if d == 0 {
        '0'
    } else if d == 1 {
        '1'
    } else if d == 2 {
        '2'
    } else if d == 3 {
        '3'
    } else if d == 4 {
        '4'
    } else if d == 5 {
        '5'
    } else if d == 6 {
        '6'
    } else if d == 7 {
        '7'
    } else if d == 8 {
        '8'
    } else {
        '9'
    }
}

/// The decimal digits of a natural number, without leading zeros.
pub open spec fn nat_text(n: nat) -> Seq<char>
    decreases n,
{
    if n < 10 {
        seq![digit_char(n as int)]
    } else {
        nat_text(n / 10).push(digit_char((n % 10) as int))
    }
}

/// A number in decimal, with a minus sign where it is negative.
pub open spec fn int_text(n: int) -> Seq<char> {
    if n < 0 {
        seq!['-'] + nat_text((-n) as nat)
    } else {
        nat_text(n as nat)
    }
}

fn digit_str(d: u64) -> (s: &'static str)
    requires
        d < 10,
    ensures
        s@ == seq![digit_char(d as int)],
{
    proof {
        reveal_strlit("0");
        reveal_strlit("1");
        reveal_strlit("2");
        reveal_strlit("3");
        reveal_strlit("4");
        reveal_strlit("5");
        reveal_strlit("6");
        reveal_strlit("7");
        reveal_strlit("8");
        reveal_strlit("9");
    }
    if d == 0 {
        "0"
    } else if d == 1 {
        "1"
    } else if d == 2 {
        "2"
    } else if d == 3 {
        "3"
    } else if d == 4 {
        "4"
    } else if d == 5 {
        "5"
    } else if d == 6 {
        "6"
    } else if d == 7 {
        "7"
    } else if d == 8 {
        "8"
    } else {
        "9"
    }
}

fn append_nat(text: &mut String, n: u64)
    ensures
        final(text)@ == old(text)@ + nat_text(n as nat),
    decreases n,
{
    if n >= 10 {
        append_nat(text, n / 10);
    }
    text.append(digit_str(n % 10));
}

fn append_int(text: &mut String, n: i32)
    ensures
        final(text)@ == old(text)@ + int_text(n as int),
{
    if n < 0 {
        proof {
            reveal_strlit("-");
        }
        text.append("-");
        let magnitude: u64 = (-(n as i64)) as u64;
        append_nat(text, magnitude);
    } else {
        append_nat(text, n as u64);
    }
}

impl ResponseMessage {
    /// `Requirement N approved, allocation created, inventory updated, and
    /// movement logged`, with the requirement's id for `N`.
    pub fn approved(requirement_id: i32) -> (msg: ResponseMessage)
        ensures
            msg.message@ == "Requirement "@ + int_text(requirement_id as int)
                + " approved, allocation created, inventory updated, and movement logged"@,
    {
        let mut message = String::from_str("Requirement ");
        append_int(&mut message, requirement_id);
        message.append(" approved, allocation created, inventory updated, and movement logged");
        ResponseMessage { message }
    }

    /// `Requirement N declined successfully`, with the requirement's id for
    /// `N`.
    pub fn declined(requirement_id: i32) -> (msg: ResponseMessage)
        ensures
            msg.message@ == "Requirement "@ + int_text(requirement_id as int)
                + " declined successfully"@,
    {
        let mut message = String::from_str("Requirement ");
        append_int(&mut message, requirement_id);
        message.append(" declined successfully");
        ResponseMessage { message }
    }

    /// `Requirement N not found`, with the requirement's id for `N`.
    pub fn not_found(requirement_id: i32) -> (msg: ResponseMessage)
        ensures
            msg.message@ == "Requirement "@ + int_text(requirement_id as int) + " not found"@,
    {
        let mut message = String::from_str("Requirement ");
        append_int(&mut message, requirement_id);
        message.append(" not found");
        ResponseMessage { message }
    }
}

} // verus!
