//! Construction of the operator-facing alert payload: the human-readable
//! message and the sound hint. Delivery itself is the surrounding process's
//! concern.

use vstd::prelude::*;

verus! {

/// The decimal digit character for a value below ten.
pub open spec fn spec_digit_char(d: int) -> char {
    if d == 0 {
        '0'
    } else if d == 1 {
        '1'
    } else if d == 2 {
        '2'
    } else if d == 3 {
        '3'
    } else if d == 4 {
        '4'
    } else if d == 5 {
        '5'
    } else if d == 6 {
        '6'
    } else if d == 7 {
        '7'
    } else if d == 8 {
        '8'
    } else {
        '9'
    }
}

/// The usual decimal rendering of a non-negative number, most significant
/// digit first, with no leading zeros (a lone zero for zero itself).
pub open spec fn spec_dec(n: int) -> Seq<char>
    decreases n,
{
    if n < 10 {
        seq![spec_digit_char(n)]
    } else {
        spec_dec(n / 10).push(spec_digit_char(n % 10))
    }
}

fn digit_str(d: u16) -> (r: &'static str)
    requires
        d < 10,
    ensures
        r@ == seq![spec_digit_char(d as int)],
{
    proof {
        reveal_strlit("0");
        reveal_strlit("1");
        reveal_strlit("2");
        reveal_strlit("3");
        reveal_strlit("4");
        reveal_strlit("5");
        reveal_strlit("6");
        reveal_strlit("7");
        reveal_strlit("8");
        reveal_strlit("9");
    }
    let r: &'static str = match d {
        0 => "0",
        1 => "1",
        2 => "2",
        3 => "3",
        4 => "4",
        5 => "5",
        6 => "6",
        7 => "7",
        8 => "8",
        _ => "9",
    };
    proof {
        assert(r@ =~= seq![spec_digit_char(d as int)]);
    }
    r
}

/// Render a status code in decimal.
pub fn u16_to_dec(n: u16) -> (r: String)
    ensures
        r@ == spec_dec(n as int),
    decreases n,
{
    if n < 10 {
        String::from_str(digit_str(n))
    } else {
        let mut r = u16_to_dec(n / 10);
        r.append(digit_str(n % 10));
        proof {
            assert(r@ =~= spec_dec(n as int));
        }
        r
    }
}

/// The alert message for a failing target: its status code and URL.
pub open spec fn spec_message(code: u16, url: Seq<char>) -> Seq<char> {
    spec_dec(code as int) + " "@ + url + " is down"@
}

/// Build the operator-facing message, `"<code> <url> is down"`.
pub fn notification_message(code: u16, url: &str) -> (r: String)
    ensures
        r@ == spec_message(code, url@),
{
    let mut r = u16_to_dec(code);
    r.append(" ");
    r.append(url);
    r.append(" is down");
    r
}

/// The sound hint attached to an alert: silent for a do-not-disturb target,
/// a distinct alert sound otherwise.
pub fn sound_hint(dnd: bool) -> (r: &'static str)
    ensures
        r@ == (if dnd {
            "none"@
        } else {
            "gamelan"@
        }),
{
    if dnd {
        "none"
    } else {
        "gamelan"
    }
}

} // verus!
