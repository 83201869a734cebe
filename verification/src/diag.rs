//! Text of the diagnostic lines the boundary appends to its process-wide
//! log: one line per write, tagged with a coarse timestamp in seconds.
//! Only the line's text is derived here; appending it is the edge's job,
//! and a failure to append is swallowed there.

use vstd::prelude::*;

verus! {

/// The character of a single decimal digit.
pub open spec fn dec_digit_char(d: nat) -> char
    recommends
        d < 10,
{
    if d == 0 {
        '0'
    } else if d == 1 {
        '1'
    } else if d == 2 {
        '2'
    } else if d == 3 {
        '3'
    } else if d == 4 {
        '4'
    } else if d == 5 {
        '5'
    } else if d == 6 {
        '6'
    } else if d == 7 {
        '7'
    } else if d == 8 {
        '8'
    } else {
        '9'
    }
}

/// The decimal rendering of a number, most significant digit first, with
/// no leading zero except for zero itself.
pub open spec fn dec_spec(n: nat) -> Seq<char>
    decreases n,
{
    if n < 10 {
        seq![dec_digit_char(n)]
    } else {
        dec_spec(n / 10).push(dec_digit_char(n % 10))
    }
}

/// A single decimal digit as text.
pub fn dec_digit(d: u64) -> (s: &'static str)
    requires
        d < 10,
    ensures
        s@ == seq![dec_digit_char(d as nat)],
{
    if d == 0 {
        proof {
            reveal_strlit("0");
            assert("0"@ =~= seq![dec_digit_char(0)]);
        }
        "0"
    } else if d == 1 {
        proof {
            reveal_strlit("1");
            assert("1"@ =~= seq![dec_digit_char(1)]);
        }
        "1"
    } else if d == 2 {
        proof {
            reveal_strlit("2");
            assert("2"@ =~= seq![dec_digit_char(2)]);
        }
        "2"
    } else if d == 3 {
        proof {
            reveal_strlit("3");
            assert("3"@ =~= seq![dec_digit_char(3)]);
        }
        "3"
    } else if d == 4 {
        proof {
            reveal_strlit("4");
            assert("4"@ =~= seq![dec_digit_char(4)]);
        }
        "4"
    } else if d == 5 {
        proof {
            reveal_strlit("5");
            assert("5"@ =~= seq![dec_digit_char(5)]);
        }
        "5"
    } else if d == 6 {
        proof {
            reveal_strlit("6");
            assert("6"@ =~= seq![dec_digit_char(6)]);
        }
        "6"
    } else if d == 7 {
        proof {
            reveal_strlit("7");
            assert("7"@ =~= seq![dec_digit_char(7)]);
        }
        "7"
    } else if d == 8 {
        proof {
            reveal_strlit("8");
            assert("8"@ =~= seq![dec_digit_char(8)]);
        }
        "8"
    } else {
        proof {
            reveal_strlit("9");
            assert("9"@ =~= seq![dec_digit_char(9)]);
        }
        "9"
    }
}

/// Render a number in decimal.
pub fn u64_to_dec(n: u64) -> (s: String)
    ensures
        s@ == dec_spec(n as nat),
    decreases n,
{
    if n < 10 {
        dec_digit(n).to_owned()
    } else {
        let mut s = u64_to_dec(n / 10);
        s.append(dec_digit(n % 10));
        proof {
            assert(dec_spec((n as nat) / 10).push(dec_digit_char((n as nat) % 10)) =~= dec_spec(
                (n as nat) / 10,
            ) + seq![dec_digit_char((n as nat) % 10)]);
        }
        s
    }
}

/// The text of one diagnostic line: the timestamp in brackets, a space,
/// and the message.
pub fn log_line(timestamp: u64, msg: &str) -> (s: String)
    ensures
        s@ == "["@ + dec_spec(timestamp as nat) + "] "@ + msg@,
{
    let mut s = "[".to_owned();
    s.append(u64_to_dec(timestamp).as_str());
    s.append("] ");
    s.append(msg);
    s
}

} // verus!
