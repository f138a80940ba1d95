use vstd::prelude::*;
use vstd::string::StringExecFns;

verus! {

/// The decimal digit character for a value below ten.
pub open spec fn digit_char(d: int) -> char {
    if d == 0 {
        '0'
    } else if d == 1 {
        '1'
    } else if d == 2 {
        '2'
    } else if d == 3 {
        '3'
    } else if d == 4 {
        '4'
    } else if d == 5 {
        '5'
    } else if d == 6 {
        '6'
    } else if d == 7 {
        '7'
    } else if d == 8 {
        '8'
    } else {
        '9'
    }
}

/// The decimal digits of a non-negative value, most significant first, with
/// no leading zeros (a lone `'0'` for zero).
pub open spec fn dec_chars(n: nat) -> Seq<char>
    decreases n,
{
    if n < 10 {
        seq![digit_char(n as int)]
    } else {
        dec_chars(n / 10).push(digit_char((n % 10) as int))
    }
}

/// The decimal rendering of a signed count: a leading `'-'` for negative
/// values, then the digits of the magnitude.
pub open spec fn i32_chars(c: int) -> Seq<char> {
    if c < 0 {
        seq!['-'] + dec_chars((-c) as nat)
    } else {
        dec_chars(c as nat)
    }
}

fn digit_str(d: u32) -> (r: &'static str)
    requires
        d < 10,
    ensures
        r@ == seq![digit_char(d as int)],
{
    proof {
        reveal_strlit("0");
        reveal_strlit("1");
        reveal_strlit("2");
        reveal_strlit("3");
        reveal_strlit("4");
        reveal_strlit("5");
        reveal_strlit("6");
        reveal_strlit("7");
        reveal_strlit("8");
        reveal_strlit("9");
    }
    let r = match d {
        0 => "0",
        1 => "1",
        2 => "2",
        3 => "3",
        4 => "4",
        5 => "5",
        6 => "6",
        7 => "7",
        8 => "8",
        _ => "9",
    };
    proof {
        assert(r@ =~= seq![digit_char(d as int)]);
    }
    r
}

fn push_u32_dec(n: u32, out: &mut String)
    ensures
        final(out)@ == old(out)@ + dec_chars(n as nat),
    decreases n,
{
    if n >= 10 {
        push_u32_dec(n / 10, out);
        let d = digit_str(n % 10);
        out.append(d);
        proof {
            assert(dec_chars(n as nat) == dec_chars(n as nat / 10).push(
                digit_char((n as nat % 10) as int),
            ));
            assert(n as nat / 10 == (n / 10) as nat);
            assert((n as nat % 10) as int == (n % 10) as int);
            assert(out@ =~= old(out)@ + dec_chars(n as nat));
        }
    } else {
        let d = digit_str(n);
        out.append(d);
        proof {
            assert(out@ =~= old(out)@ + dec_chars(n as nat));
        }
    }
}

/// Render a count in decimal, exactly as [`i32_chars`] states.
pub fn i32_string(c: i32) -> (r: String)
    ensures
        r@ == i32_chars(c as int),
{
    let mut s = String::new();
    if c < 0 {
        s.append("-");
        let mag64: i64 = -(c as i64);
        assert(0 <= mag64 <= u32::MAX as i64);
        let mag: u32 = #[verifier::truncate] (mag64 as u32);
        push_u32_dec(mag, &mut s);
        proof {
            reveal_strlit("-");
            assert(mag as nat == (-(c as int)) as nat);
            assert(s@ =~= i32_chars(c as int));
        }
    } else {
        push_u32_dec(c as u32, &mut s);
        proof {
            assert((c as u32) as nat == (c as int) as nat);
            assert(s@ =~= i32_chars(c as int));
        }
    }
    s
}

} // verus!
