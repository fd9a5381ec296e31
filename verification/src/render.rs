//! Textual rendering of parameter values.
//!
//! Every value that can appear on the right-hand side of a `key=value` query
//! parameter is rendered here: signed integers in decimal, booleans as the
//! literals `true` / `false`, and zero-padded numeric fields for dates and
//! times. The specification functions give the mathematical form of each
//! rendering; the executable functions are proved to produce exactly it.

use vstd::prelude::*;

verus! {

use vstd::string::StringExecFns;

/// The decimal digit character for `d`, which must lie in 0 through 9.
pub open spec fn digit_char(d: int) -> char {
    if d == 0 {
        '0'
    } else if d == 1 {
        '1'
    } else if d == 2 {
        '2'
    } else if d == 3 {
        '3'
    } else if d == 4 {
        '4'
    } else if d == 5 {
        '5'
    } else if d == 6 {
        '6'
    } else if d == 7 {
        '7'
    } else if d == 8 {
        '8'
    } else {
        '9'
    }
}

/// The decimal digits of `n`, most significant first, with no sign and no
/// leading zeros (a single `0` for zero itself).
pub open spec fn dec_digits(n: nat) -> Seq<char>
    decreases n,
{
    if n < 10 {
        seq![digit_char(n as int)]
    } else {
        dec_digits(n / 10) + seq![digit_char((n % 10) as int)]
    }
}

/// The decimal rendering of a signed integer: a leading minus sign for
/// negative values, plain digits otherwise.
pub open spec fn int_str(i: int) -> Seq<char> {
    if i < 0 {
        seq!['-'] + dec_digits((-i) as nat)
    } else {
        dec_digits(i as nat)
    }
}

/// The rendering of a boolean: the literal `true` or `false`.
pub open spec fn bool_str(b: bool) -> Seq<char> {
    if b {
        "true"@
    } else {
        "false"@
    }
}

/// `n` in decimal, zero-padded on the left to at least two digits.
pub open spec fn pad2(n: nat) -> Seq<char> {
    if n < 10 {
        seq!['0'] + dec_digits(n)
    } else {
        dec_digits(n)
    }
}

/// `n` in decimal, zero-padded on the left to at least four digits.
pub open spec fn pad4(n: nat) -> Seq<char> {
    if n < 10 {
        seq!['0', '0', '0'] + dec_digits(n)
    } else if n < 100 {
        seq!['0', '0'] + dec_digits(n)
    } else if n < 1000 {
        seq!['0'] + dec_digits(n)
    } else {
        dec_digits(n)
    }
}

/// A one-character string slice holding the decimal digit for `d`.
fn digit_str(d: u64) -> (r: &'static str)
    requires
        d < 10,
    ensures
        r@ == seq![digit_char(d as int)],
{
    proof {
        reveal_strlit("0");
        reveal_strlit("1");
        reveal_strlit("2");
        reveal_strlit("3");
        reveal_strlit("4");
        reveal_strlit("5");
        reveal_strlit("6");
        reveal_strlit("7");
        reveal_strlit("8");
        reveal_strlit("9");
    }
    let r = if d == 0 {
        "0"
    } else if d == 1 {
        "1"
    } else if d == 2 {
        "2"
    } else if d == 3 {
        "3"
    } else if d == 4 {
        "4"
    } else if d == 5 {
        "5"
    } else if d == 6 {
        "6"
    } else if d == 7 {
        "7"
    } else if d == 8 {
        "8"
    } else {
        "9"
    };
    proof {
        assert(r@ =~= seq![digit_char(d as int)]);
    }
    r
}

/// The decimal digits of `n`, as a freshly built string.
pub fn u64_dec_str(n: u64) -> (s: String)
    ensures
        s@ == dec_digits(n as nat),
    decreases n,
{
    if n < 10 {
        digit_str(n).to_owned()
    } else {
        let mut s = u64_dec_str(n / 10);
        s.append(digit_str(n % 10));
        s
    }
}

/// The decimal rendering of `i`, sign included.
pub fn i64_dec_str(i: i64) -> (s: String)
    ensures
        s@ == int_str(i as int),
{
    if i >= 0 {
        u64_dec_str(i as u64)
    } else {
        let mag: u64 = if i == i64::MIN {
            9223372036854775808u64
        } else {
            (-i) as u64
        };
        let mut s = "-".to_owned();
        proof {
            reveal_strlit("-");
            assert(s@ =~= seq!['-']);
        }
        s.append(u64_dec_str(mag).as_str());
        proof {
            assert(s@ =~= int_str(i as int));
        }
        s
    }
}

/// The literal `true` or `false` for `b`.
pub fn bool_dec_str(b: bool) -> (s: String)
    ensures
        s@ == bool_str(b),
{
    if b {
        "true".to_owned()
    } else {
        "false".to_owned()
    }
}

/// `n` in decimal, zero-padded on the left to at least two digits.
pub fn pad2_str(n: u64) -> (s: String)
    ensures
        s@ == pad2(n as nat),
{
    if n < 10 {
        let mut s = "0".to_owned();
        proof {
            reveal_strlit("0");
            assert(s@ =~= seq!['0']);
        }
        s.append(u64_dec_str(n).as_str());
        s
    } else {
        u64_dec_str(n)
    }
}

/// `n` in decimal, zero-padded on the left to at least four digits.
pub fn pad4_str(n: u64) -> (s: String)
    ensures
        s@ == pad4(n as nat),
{
    proof {
        reveal_strlit("000");
        reveal_strlit("00");
        reveal_strlit("0");
    }
    if n < 10 {
        let mut s = "000".to_owned();
        proof {
            assert(s@ =~= seq!['0', '0', '0']);
        }
        s.append(u64_dec_str(n).as_str());
        s
    } else if n < 100 {
        let mut s = "00".to_owned();
        proof {
            assert(s@ =~= seq!['0', '0']);
        }
        s.append(u64_dec_str(n).as_str());
        s
    } else if n < 1000 {
        let mut s = "0".to_owned();
        proof {
            assert(s@ =~= seq!['0']);
        }
        s.append(u64_dec_str(n).as_str());
        s
    } else {
        u64_dec_str(n)
    }
}

} // verus!
