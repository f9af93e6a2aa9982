//! Small verified text helpers: decimal rendering of the integers the API
//! parameter lists carry.

use vstd::prelude::*;

verus! {

/// The decimal digit character for one digit value.
pub open spec fn dec_digit(d: nat) -> char
    recommends
        d < 10,
{
    ((d + 48) as u8) as char
}

/// The decimal rendering of a natural number, most significant digit first.
pub open spec fn dec_str(n: nat) -> Seq<char>
    decreases n,
{
    if n < 10 {
        seq![dec_digit(n)]
    } else {
        dec_str(n / 10).push(dec_digit(n % 10))
    }
}

/// The decimal rendering of an integer: a minus sign for negative values.
pub open spec fn dec_str_int(i: int) -> Seq<char> {
    if i < 0 {
        seq!['-'] + dec_str((-i) as nat)
    } else {
        dec_str(i as nat)
    }
}

/// Relies on String::push: appends exactly the given character.
#[verifier::external_body]
pub(crate) fn push_char(s: &mut String, c: char)
    ensures
        final(s)@ == old(s)@.push(c),
{
    s.push(c);
}

/// Appends the decimal rendering of `n` to the string.
fn push_dec_u64(s: &mut String, n: u64)
    ensures
        final(s)@ == old(s)@ + dec_str(n as nat),
    decreases n,
{
    if n < 10 {
        push_char(s, (48 + (n as u8)) as char);
        proof {
            assert(s@ =~= old(s)@ + dec_str(n as nat));
        }
    } else {
        push_dec_u64(s, n / 10);
        push_char(s, (48 + ((n % 10) as u8)) as char);
        proof {
            assert(s@ =~= old(s)@ + dec_str(n as nat));
        }
    }
}

/// The decimal rendering of an unsigned number.
pub fn u64_to_dec(n: u64) -> (s: String)
    ensures
        s@ == dec_str(n as nat),
{
    let mut s = String::new();
    push_dec_u64(&mut s, n);
    proof {
        assert(s@ =~= dec_str(n as nat));
    }
    s
}

/// The decimal rendering of a signed number.
pub fn i64_to_dec(i: i64) -> (s: String)
    ensures
        s@ == dec_str_int(i as int),
{
    if i >= 0 {
        u64_to_dec(i as u64)
    } else {
        let magnitude: u64 = ((-(i as i128)) as u64);
        let mut s = String::new();
        push_char(&mut s, '-');
        push_dec_u64(&mut s, magnitude);
        proof {
            assert(s@ =~= dec_str_int(i as int));
        }
        s
    }
}

} // verus!
