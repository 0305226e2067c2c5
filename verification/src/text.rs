//! String building blocks shared by the adapters: decimal rendering and
//! joining, each proved against a mathematical definition.

use vstd::prelude::*;
use vstd::string::*;

verus! {

/// The character of a single decimal digit.
pub open spec fn digit_char(d: nat) -> char {
    if d == 0 {
        '0'
    } else if d == 1 {
        '1'
    } else if d == 2 {
        '2'
    } else if d == 3 {
        '3'
    } else if d == 4 {
        '4'
    } else if d == 5 {
        '5'
    } else if d == 6 {
        '6'
    } else if d == 7 {
        '7'
    } else if d == 8 {
        '8'
    } else {
        '9'
    }
}

/// The decimal digits of `n`, most significant first, without leading zeros.
pub open spec fn decimal(n: nat) -> Seq<char>
    decreases n,
{
    if n < 10 {
        seq![digit_char(n)]
    } else {
        decimal(n / 10).push(digit_char(n % 10))
    }
}

/// The decimal rendering of an integer of either sign.
pub open spec fn signed_decimal(n: int) -> Seq<char> {
    if n < 0 {
        seq!['-'] + decimal((-n) as nat)
    } else {
        decimal(n as nat)
    }
}

/// The views of a sequence of strings.
pub open spec fn views(parts: Seq<String>) -> Seq<Seq<char>> {
    Seq::new(parts.len(), |i: int| parts[i]@)
}

/// The parts in order with `sep` between each two neighbours.
pub open spec fn joined(parts: Seq<Seq<char>>, sep: Seq<char>) -> Seq<char>
    decreases parts.len(),
{
    if parts.len() == 0 {
        Seq::empty()
    } else if parts.len() == 1 {
        parts[0]
    } else {
        joined(parts.drop_last(), sep) + sep + parts.last()
    }
}

fn digit_str(d: u64) -> (s: &'static str)
    requires
        d < 10,
    ensures
        s@ == seq![digit_char(d as nat)],
{
    proof {
        reveal_strlit("0");
        reveal_strlit("1");
        reveal_strlit("2");
        reveal_strlit("3");
        reveal_strlit("4");
        reveal_strlit("5");
        reveal_strlit("6");
        reveal_strlit("7");
        reveal_strlit("8");
        reveal_strlit("9");
    }
    let s = if d == 0 {
        "0"
    } else if d == 1 {
        "1"
    } else if d == 2 {
        "2"
    } else if d == 3 {
        "3"
    } else if d == 4 {
        "4"
    } else if d == 5 {
        "5"
    } else if d == 6 {
        "6"
    } else if d == 7 {
        "7"
    } else if d == 8 {
        "8"
    } else {
        "9"
    };
    s
}

/// Renders an unsigned integer in decimal.
pub fn decimal_u64(n: u64) -> (s: String)
    ensures
        s@ == decimal(n as nat),
    decreases n,
{
    if n < 10 {
        String::from_str(digit_str(n))
    } else {
        let mut s = decimal_u64(n / 10);
        s.append(digit_str(n % 10));
        s
    }
}

/// Renders a signed integer in decimal, with a leading `-` when negative.
pub fn decimal_i32(n: i32) -> (s: String)
    ensures
        s@ == signed_decimal(n as int),
{
    if n < 0 {
        let magnitude: u64 = (-(n as i64)) as u64;
        let digits = decimal_u64(magnitude);
        let mut s = String::from_str("-");
        s.append(digits.as_str());
        proof {
            reveal_strlit("-");
        }
        s
    } else {
        decimal_u64(n as u64)
    }
}

/// Joins the parts with a line feed between each two neighbours.
pub fn join_lines(parts: &Vec<String>) -> (s: String)
    ensures
        s@ == joined(views(parts@), seq!['\n']),
{
    let mut s = String::new();
    let mut i: usize = 0;
    while i < parts.len()
        invariant
            i <= parts.len(),
            s@ == joined(views(parts@).take(i as int), seq!['\n']),
        decreases parts.len() - i,
    {
        if i > 0 {
            s.append("\n");
        }
        s.append(parts[i].as_str());
        proof {
            reveal_strlit("\n");
            let next = views(parts@).take(i + 1);
            assert(next.drop_last() =~= views(parts@).take(i as int));
        }
        i += 1;
    }
    assert(views(parts@).take(parts.len() as int) =~= views(parts@));
    s
}

} // verus!
