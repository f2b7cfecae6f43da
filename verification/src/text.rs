//! Text building blocks: quoting strings as Rust's `Debug` does, decimal
//! numbers, and the list forms used by value representations.
use vstd::prelude::*;

verus! {

/// The `Debug` form of a string: the string in double quotes, with quotes,
/// backslashes and unprintable characters escaped.
pub uninterp spec fn debug_quoted(s: Seq<char>) -> Seq<char>;

/// `format!("{:?}", s)` of std for a string slice; its result depends on the
/// string alone.
#[verifier::external_body]
pub(crate) fn debug_str(s: &str) -> (q: String)
    ensures
        q@ == debug_quoted(s@),
{
    format!("{:?}", s)
}

/// The `Debug` form of an optional string: `None`, or `Some(...)` around the
/// quoted string.
pub open spec fn debug_option(s: Option<Seq<char>>) -> Seq<char> {
    match s {
        Some(v) => "Some("@ + debug_quoted(v) + ")"@,
        None => "None"@,
    }
}

/// Writes the `Debug` form of an optional string.
pub fn debug_option_str(s: &Option<String>) -> (r: String)
    ensures
        r@ == debug_option(
            match s {
                Some(v) => Some(v@),
                None => None,
            },
        ),
{
    match s {
        Some(v) => {
            let mut r = String::from_str("Some(");
            r.append(debug_str(v.as_str()).as_str());
            r.append(")");
            r
        },
        None => String::from_str("None"),
    }
}

/// The character of a decimal digit.
pub open spec fn digit_char(d: nat) -> char {
    if d == 0 {
        '0'
    } else if d == 1 {
        '1'
    } else if d == 2 {
        '2'
    } else if d == 3 {
        '3'
    } else if d == 4 {
        '4'
    } else if d == 5 {
        '5'
    } else if d == 6 {
        '6'
    } else if d == 7 {
        '7'
    } else if d == 8 {
        '8'
    } else {
        '9'
    }
}

/// The decimal digits of a natural number, most significant first, without
/// leading zeros.
pub open spec fn nat_decimal(n: nat) -> Seq<char>
    decreases n,
{
    if n < 10 {
        seq![digit_char(n)]
    } else {
        nat_decimal(n / 10).push(digit_char(n % 10))
    }
}

/// The decimal form of an integer, as `Display` writes it: a minus sign for
/// negative numbers, then the digits.
pub open spec fn int_decimal(n: int) -> Seq<char> {
    if n < 0 {
        seq!['-'] + nat_decimal((-n) as nat)
    } else {
        nat_decimal(n as nat)
    }
}

fn digit_str(d: u32) -> (s: &'static str)
    requires
        d < 10,
    ensures
        s@ == seq![digit_char(d as nat)],
{
    proof {
        reveal_strlit("0");
        reveal_strlit("1");
        reveal_strlit("2");
        reveal_strlit("3");
        reveal_strlit("4");
        reveal_strlit("5");
        reveal_strlit("6");
        reveal_strlit("7");
        reveal_strlit("8");
        reveal_strlit("9");
    }
    if d == 0 {
        "0"
    } else if d == 1 {
        "1"
    } else if d == 2 {
        "2"
    } else if d == 3 {
        "3"
    } else if d == 4 {
        "4"
    } else if d == 5 {
        "5"
    } else if d == 6 {
        "6"
    } else if d == 7 {
        "7"
    } else if d == 8 {
        "8"
    } else {
        "9"
    }
}

fn append_digits(s: &mut String, m: u32)
    ensures
        final(s)@ == old(s)@ + nat_decimal(m as nat),
    decreases m,
{
    if m >= 10 {
        append_digits(s, m / 10);
    }
    s.append(digit_str(m % 10));
}

/// Appends the decimal form of `n`.
pub fn append_decimal(s: &mut String, n: i32)
    ensures
        final(s)@ == old(s)@ + int_decimal(n as int),
{
    if n < 0 {
        proof {
            reveal_strlit("-");
        }
        s.append("-");
        let wide: i64 = n as i64;
        let magnitude: u32 = (-wide) as u32;
        append_digits(s, magnitude);
    } else {
        append_digits(s, n as u32);
    }
}

/// The decimal form of `n`, as `Display` writes it.
pub fn decimal(n: i32) -> (r: String)
    ensures
        r@ == int_decimal(n as int),
{
    let mut r = String::new();
    append_decimal(&mut r, n);
    r
}

/// The numbers in decimal, separated by `, `.
pub open spec fn comma_separated(v: Seq<i32>) -> Seq<char>
    decreases v.len(),
{
    if v.len() == 0 {
        Seq::empty()
    } else if v.len() == 1 {
        int_decimal(v[0] as int)
    } else {
        comma_separated(v.drop_last()) + ", "@ + int_decimal(v.last() as int)
    }
}

/// The `Debug` form of a list of numbers: `[1, 2, 3]`.
pub open spec fn debug_list(v: Seq<i32>) -> Seq<char> {
    "["@ + comma_separated(v) + "]"@
}

/// Writes the `Debug` form of a list of numbers.
pub fn debug_i32_list(v: &Vec<i32>) -> (r: String)
    ensures
        r@ == debug_list(v@),
{
    let mut body = String::new();
    let mut i: usize = 0;
    while i < v.len()
        invariant
            i <= v.len(),
            body@ == comma_separated(v@.take(i as int)),
        decreases v.len() - i,
    {
        if i > 0 {
            body.append(", ");
        }
        append_decimal(&mut body, v[i]);
        assert(v@.take((i + 1) as int).drop_last() =~= v@.take(i as int));
        i = i + 1;
    }
    assert(v@.take(v.len() as int) =~= v@);
    let mut r = String::from_str("[");
    r.append(body.as_str());
    r.append("]");
    r
}

} // verus!
