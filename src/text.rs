//! Decimal formatting and conversions between strings and characters.
use vstd::prelude::*;
use vstd::std_specs::iter::IteratorSpec;

verus! {

/// Decimal digits of `n`, most significant first, without leading zeros
/// (`0` is written as a single digit).
pub open spec fn digits(n: nat) -> Seq<char>
    decreases n,
{
    if n < 10 {
        seq![digit_char(n)]
    } else {
        digits(n / 10).push(digit_char(n % 10))
    }
}

pub open spec fn digit_char(d: nat) -> char {
    ((d + 48) as u8) as char
}

/// `s` left-padded with `'0'` up to `width` characters.
pub open spec fn zero_pad(s: Seq<char>, width: nat) -> Seq<char> {
    if s.len() >= width {
        s
    } else {
        Seq::new((width - s.len()) as nat, |i: int| '0') + s
    }
}

/// Relies on `FromIterator<char>` for `String`: the string holds exactly the
/// given characters, in order.
#[verifier::external_body]
pub(crate) fn string_from_chars(v: &Vec<char>) -> (r: String)
    ensures
        r@ == v@,
{
    v.iter().collect()
}

/// Every character of the string, in order.
pub(crate) fn chars_of(s: &str) -> (r: Vec<char>)
    ensures
        r@ == s@,
{
    broadcast use vstd::string::axiom_spec_iter, vstd::string::next_postcondition;
    let mut it = s.chars();
    let mut v: Vec<char> = Vec::new();
    loop
        invariant
            it.remaining() == s@.subrange(v@.len() as int, s@.len() as int),
            v@ == s@.subrange(0, v@.len() as int),
            v@.len() <= s@.len(),
        ensures
            v@ == s@,
        decreases s@.len() - v@.len(),
    {
        match it.next() {
            Some(c) => {
                proof {
                    assert(s@.subrange(0, v@.len() as int + 1) =~= v@.push(c));
                }
                v.push(c);
            },
            None => {
                assert(v@ =~= s@);
                break;
            },
        }
    }
    v
}

fn digit_of(d: u64) -> (c: char)
    requires
        d < 10,
    ensures
        c == digit_char(d as nat),
{
    ((d as u8) + 48u8) as char
}

/// Appends the decimal digits of `n` to `out`.
pub(crate) fn push_digits(out: &mut Vec<char>, n: u64)
    ensures
        final(out)@ == old(out)@ + digits(n as nat),
    decreases n,
{
    if n < 10 {
        out.push(digit_of(n));
    } else {
        push_digits(out, n / 10);
        out.push(digit_of(n % 10));
    }
}

/// Appends `n` in decimal, left-padded with zeros to `width` characters.
pub(crate) fn push_padded(out: &mut Vec<char>, n: u64, width: usize)
    ensures
        final(out)@ == old(out)@ + zero_pad(digits(n as nat), width as nat),
{
    let mut d: Vec<char> = Vec::new();
    push_digits(&mut d, n);
    assert(d@ =~= digits(n as nat));
    let len = d.len();
    let mut i: usize = len;
    while i < width
        invariant
            len <= i,
            i == len || i <= width,
            d@.len() == len,
            out@ == old(out)@ + Seq::new((if i >= len { i - len } else { 0 }) as nat, |k: int| '0'),
            len == digits(n as nat).len(),
        decreases width - i,
    {
        out.push('0');
        proof {
            assert(out@ =~= old(out)@ + Seq::new((i + 1 - len) as nat, |k: int| '0'));
        }
        i = i + 1;
    }
    assert(i == if len >= width { len } else { width });
    let ghost before = out@;
    let mut j: usize = 0;
    while j < len
        invariant
            j <= len,
            d@ == digits(n as nat),
            len == d@.len(),
            out@ == before + d@.subrange(0, j as int),
        decreases len - j,
    {
        out.push(d[j]);
        proof {
            assert(d@.subrange(0, j + 1) =~= d@.subrange(0, j as int).push(d@[j as int]));
        }
        j = j + 1;
    }
    assert(d@.subrange(0, len as int) =~= d@);
    if len >= width {
        assert(before =~= old(out)@);
    }
    assert(out@ =~= old(out)@ + zero_pad(digits(n as nat), width as nat));
}

/// The decimal form of `n`.
pub fn decimal_string(n: u64) -> (r: String)
    ensures
        r@ == digits(n as nat),
{
    let mut v: Vec<char> = Vec::new();
    push_digits(&mut v, n);
    assert(v@ =~= digits(n as nat));
    string_from_chars(&v)
}

/// Decimal form of a signed integer: a minus sign before the digits of its
/// magnitude when negative.
pub open spec fn signed_digits(n: int) -> Seq<char> {
    if n < 0 {
        seq!['-'] + digits((-n) as nat)
    } else {
        digits(n as nat)
    }
}

/// The decimal form of `n`, as SQLite reads an integer parameter.
pub fn signed_decimal(n: i64) -> (r: String)
    ensures
        r@ == signed_digits(n as int),
{
    let mut v: Vec<char> = Vec::new();
    if n < 0 {
        v.push('-');
        push_digits(&mut v, (0i128 - (n as i128)) as u64);
    } else {
        push_digits(&mut v, n as u64);
    }
    assert(v@ =~= signed_digits(n as int));
    string_from_chars(&v)
}

} // verus!
