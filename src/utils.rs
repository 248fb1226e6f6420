use vstd::prelude::*;
use vstd::arithmetic::div_mod::{lemma_div_nonincreasing, lemma_div_is_ordered_by_denominator};

verus! {

/// The magnitude of `x`.
pub open spec fn abs(x: int) -> int {
    if x < 0 {
        -x
    } else {
        x
    }
}

/// Integer division that rounds toward zero, as Rust's `/` does on signed
/// integers.
pub open spec fn quotient(a: int, b: int) -> int {
    if (a < 0) == (b < 0) {
        abs(a) / abs(b)
    } else {
        -(abs(a) / abs(b))
    }
}

/// `a / b` on `i64`, with its value stated as `quotient`.
fn div_i64(a: i64, b: i64) -> (r: i64)
    requires
        b != 0,
        !(a == i64::MIN && b == -1),
    ensures
        r == quotient(a as int, b as int),
{
    let ua: u64 = if a < 0 { (0i128 - a as i128) as u64 } else { a as u64 };
    let ub: u64 = if b < 0 { (0i128 - b as i128) as u64 } else { b as u64 };
    let q: u64 = ua / ub;
    proof {
        lemma_div_nonincreasing(ua as int, ub as int);
        if ub >= 2 {
            lemma_div_is_ordered_by_denominator(ua as int, 2, ub as int);
        }
    }
    if (a < 0) == (b < 0) {
        q as i64
    } else {
        (0i128 - q as i128) as i64
    }
}

/// Linear interpolation from `a` to `b` by the factor `t`: `a + (b - a) * t`.
/// Each step must fit in an `i64`.
pub fn lerp(a: i64, b: i64, t: i64) -> (r: i64)
    requires
        i64::MIN <= b - a <= i64::MAX,
        i64::MIN <= (b - a) * t <= i64::MAX,
        i64::MIN <= a + (b - a) * t <= i64::MAX,
    ensures
        r == a + (b - a) * t,
{
    a + (b - a) * t
}

/// Maps `value` from the range `start1..stop1` onto `start2..stop2`:
/// `start2 + (stop2 - start2) * ((value - start1) / (stop1 - start1))`,
/// where the division rounds toward zero. The input range must not be empty
/// and each step must fit in an `i64`.
pub fn map(value: i64, start1: i64, stop1: i64, start2: i64, stop2: i64) -> (r: i64)
    requires
        stop1 != start1,
        i64::MIN <= value - start1 <= i64::MAX,
        i64::MIN <= stop1 - start1 <= i64::MAX,
        !(value - start1 == i64::MIN && stop1 - start1 == -1),
        i64::MIN <= stop2 - start2 <= i64::MAX,
        i64::MIN <= (stop2 - start2) * quotient(value - start1, stop1 - start1) <= i64::MAX,
        i64::MIN <= start2 + (stop2 - start2) * quotient(value - start1, stop1 - start1) <= i64::MAX,
    ensures
        r == start2 + (stop2 - start2) * quotient(value - start1, stop1 - start1),
{
    start2 + (stop2 - start2) * div_i64(value - start1, stop1 - start1)
}

/// The char that a byte of file contents stands for: the code point equal
/// to the byte read as unsigned (Latin-1).
pub open spec fn byte_char(b: i8) -> char {
    ((b as u8) as u32) as char
}

/// Relies on String::push: the char is appended at the end.
#[verifier::external_body]
fn push_char(s: &mut String, c: char)
    ensures
        final(s)@ == old(s)@.push(c),
{
    s.push(c)
}

/// Turns the bytes that the native file reader returned into a string, one
/// char per byte, each byte read as a Latin-1 code point.
pub fn read_file_as_string(contents: &Vec<i8>) -> (r: String)
    ensures
        r@ == contents@.map_values(|b: i8| byte_char(b)),
{
    let mut string = String::new();
    let mut i: usize = 0;
    while i < contents.len()
        invariant
            i <= contents.len(),
            string@ == contents@.subrange(0, i as int).map_values(|b: i8| byte_char(b)),
        decreases contents.len() - i,
    {
        let c = contents[i] as u8 as char;
        assert(c == byte_char(contents@[i as int]));
        push_char(&mut string, c);
        i = i + 1;
        assert(contents@.subrange(0, i as int) =~= contents@.subrange(0, i - 1).push(contents@[i - 1]));
        assert(string@ =~= contents@.subrange(0, i as int).map_values(|b: i8| byte_char(b)));
    }
    assert(contents@.subrange(0, contents.len() as int) =~= contents@);
    string
}

} // verus!
