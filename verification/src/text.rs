//! The text the tool prints: decimal renderings of integers, the line shown
//! for a successful addition, and the line listing the available subcommands
//! when none was given.

use vstd::prelude::*;

verus! {

/// The decimal digit character for `d`, for `d < 10`.
pub open spec fn digit_char(d: nat) -> char {
    if d == 0 {
        '0'
    } else if d == 1 {
        '1'
    } else if d == 2 {
        '2'
    } else if d == 3 {
        '3'
    } else if d == 4 {
        '4'
    } else if d == 5 {
        '5'
    } else if d == 6 {
        '6'
    } else if d == 7 {
        '7'
    } else if d == 8 {
        '8'
    } else {
        '9'
    }
}

/// The decimal digits of `n`, most significant first, with no leading zeros
/// except for `n == 0` itself.
pub open spec fn decimal_digits(n: nat) -> Seq<char>
    decreases n,
{
    if n < 10 {
        seq![digit_char(n)]
    } else {
        decimal_digits(n / 10) + seq![digit_char(n % 10)]
    }
}

/// The decimal rendering of `i`: a minus sign before the digits of its
/// magnitude when `i` is negative, the digits alone otherwise.
pub open spec fn decimal_repr(i: int) -> Seq<char> {
    if i < 0 {
        seq!['-'] + decimal_digits((-i) as nat)
    } else {
        decimal_digits(i as nat)
    }
}

/// The one-character string for a single decimal digit.
fn digit_str(d: u32) -> (s: &'static str)
    requires
        d < 10,
    ensures
        s@ == seq![digit_char(d as nat)],
{
    proof {
        reveal_strlit("0");
        reveal_strlit("1");
        reveal_strlit("2");
        reveal_strlit("3");
        reveal_strlit("4");
        reveal_strlit("5");
        reveal_strlit("6");
        reveal_strlit("7");
        reveal_strlit("8");
        reveal_strlit("9");
    }
    let s: &'static str = match d {
        0 => "0",
        1 => "1",
        2 => "2",
        3 => "3",
        4 => "4",
        5 => "5",
        6 => "6",
        7 => "7",
        8 => "8",
        _ => "9",
    };
    proof {
        assert(s@ =~= seq![digit_char(d as nat)]);
    }
    s
}

/// Renders an unsigned value in decimal.
fn unsigned_decimal(m: u32) -> (s: String)
    ensures
        s@ == decimal_digits(m as nat),
    decreases m,
{
    if m < 10 {
        String::from_str(digit_str(m))
    } else {
        let mut s = unsigned_decimal(m / 10);
        s.append(digit_str(m % 10));
        s
    }
}

/// Renders a signed value in decimal, minus sign included.
pub fn decimal_string(n: i32) -> (s: String)
    ensures
        s@ == decimal_repr(n as int),
{
    if n >= 0 {
        unsigned_decimal(n as u32)
    } else {
        let mag: u32 = (-(n as i64)) as u32;
        let digits = unsigned_decimal(mag);
        let mut s = String::from_str("-");
        s.append(digits.as_str());
        proof {
            reveal_strlit("-");
            assert(s@ =~= decimal_repr(n as int));
        }
        s
    }
}

/// The line printed for a successful addition: `A + B = SUM` in decimal.
pub open spec fn sum_line_repr(a: int, b: int, sum: int) -> Seq<char> {
    decimal_repr(a) + " + "@ + decimal_repr(b) + " = "@ + decimal_repr(sum)
}

/// Renders the line printed for a successful addition.
pub fn sum_line(a: i32, b: i32, sum: i32) -> (s: String)
    ensures
        s@ == sum_line_repr(a as int, b as int, sum as int),
{
    let mut s = decimal_string(a);
    s.append(" + ");
    let b_digits = decimal_string(b);
    s.append(b_digits.as_str());
    s.append(" = ");
    let sum_digits = decimal_string(sum);
    s.append(sum_digits.as_str());
    s
}

/// The names joined with a comma and a space between neighbours.
pub open spec fn comma_joined(names: Seq<String>) -> Seq<char>
    decreases names.len(),
{
    if names.len() == 0 {
        Seq::empty()
    } else if names.len() == 1 {
        names[0]@
    } else {
        comma_joined(names.drop_last()) + ", "@ + names.last()@
    }
}

/// Joins the names with `", "` between neighbours.
pub fn join_with_commas(names: &Vec<String>) -> (s: String)
    ensures
        s@ == comma_joined(names@),
{
    let mut s = String::new();
    let mut i: usize = 0;
    while i < names.len()
        invariant
            i <= names@.len(),
            s@ == comma_joined(names@.take(i as int)),
        decreases names@.len() - i,
    {
        if i > 0 {
            s.append(", ");
        }
        s.append(names[i].as_str());
        proof {
            assert(names@.take(i + 1).drop_last() =~= names@.take(i as int));
            assert(names@.take(i + 1).last() == names@[i as int]);
            assert(s@ =~= comma_joined(names@.take(i + 1)));
        }
        i = i + 1;
    }
    proof {
        assert(names@.take(names@.len() as int) =~= names@);
    }
    s
}

/// The line printed when no subcommand was given: a notice followed by the
/// available subcommand names, comma-separated.
pub open spec fn no_command_repr(names: Seq<String>) -> Seq<char> {
    "No command specified. Possible commands: "@ + comma_joined(names)
}

/// Renders the line printed when no subcommand was given.
pub fn no_command_line(names: &Vec<String>) -> (s: String)
    ensures
        s@ == no_command_repr(names@),
{
    let mut s = String::from_str("No command specified. Possible commands: ");
    let joined = join_with_commas(names);
    s.append(joined.as_str());
    s
}

} // verus!
