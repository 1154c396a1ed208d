//! Verified encoders: decimal renderings of integers and the JSON framing
//! of the request bodies the platform expects.

use vstd::prelude::*;

use crate::text::push_char;

verus! {

/// The decimal digit characters.
pub open spec fn digit_char(d: int) -> char {
    if d == 0 {
        '0'
    } else if d == 1 {
        '1'
    } else if d == 2 {
        '2'
    } else if d == 3 {
        '3'
    } else if d == 4 {
        '4'
    } else if d == 5 {
        '5'
    } else if d == 6 {
        '6'
    } else if d == 7 {
        '7'
    } else if d == 8 {
        '8'
    } else {
        '9'
    }
}

/// The decimal rendering of a non-negative integer, without sign or padding.
pub open spec fn dec_rep(n: int) -> Seq<char>
    decreases n,
{
    if n < 10 {
        seq![digit_char(n)]
    } else {
        dec_rep(n / 10).push(digit_char(n % 10))
    }
}

/// The decimal rendering of any integer, a leading minus for the negatives.
pub open spec fn int_rep(i: int) -> Seq<char> {
    if i < 0 {
        seq!['-'] + dec_rep(-i)
    } else {
        dec_rep(i)
    }
}

fn digit_of(d: u64) -> (c: char)
    requires
        d < 10,
    ensures
        c == digit_char(d as int),
{
    if d == 0 {
        '0'
    } else if d == 1 {
        '1'
    } else if d == 2 {
        '2'
    } else if d == 3 {
        '3'
    } else if d == 4 {
        '4'
    } else if d == 5 {
        '5'
    } else if d == 6 {
        '6'
    } else if d == 7 {
        '7'
    } else if d == 8 {
        '8'
    } else {
        '9'
    }
}

/// Appends the decimal rendering of `n` to `out`.
pub fn push_u64_dec(out: &mut String, n: u64)
    ensures
        final(out)@ == old(out)@ + dec_rep(n as int),
    decreases n,
{
    if n >= 10 {
        push_u64_dec(out, n / 10);
    }
    push_char(out, digit_of(n % 10));
}

/// The decimal rendering of `n` as a fresh string.
pub fn u64_to_dec(n: u64) -> (r: String)
    ensures
        r@ == dec_rep(n as int),
{
    let mut out = String::new();
    push_u64_dec(&mut out, n);
    assert(Seq::<char>::empty() + dec_rep(n as int) =~= dec_rep(n as int));
    out
}

/// Appends the decimal rendering of `i`, sign included, to `out`.
pub fn push_i32_dec(out: &mut String, i: i32)
    ensures
        final(out)@ == old(out)@ + int_rep(i as int),
{
    if i < 0 {
        push_char(out, '-');
        let m: u64 = (-(i as i64)) as u64;
        push_u64_dec(out, m);
        assert(old(out)@.push('-') + dec_rep(m as int) =~= old(out)@ + int_rep(i as int));
    } else {
        push_u64_dec(out, i as u64);
    }
}

/// The decimal rendering of `i` as a fresh string.
pub fn i32_to_dec(i: i32) -> (r: String)
    ensures
        r@ == int_rep(i as int),
{
    let mut out = String::new();
    push_i32_dec(&mut out, i);
    assert(Seq::<char>::empty() + int_rep(i as int) =~= int_rep(i as int));
    out
}

/// The hexadecimal digits used in JSON control-character escapes.
pub open spec fn hex_char_lower(d: int) -> char {
    if d < 10 {
        digit_char(d)
    } else if d == 10 {
        'a'
    } else if d == 11 {
        'b'
    } else if d == 12 {
        'c'
    } else if d == 13 {
        'd'
    } else if d == 14 {
        'e'
    } else {
        'f'
    }
}

/// How one character is written inside a JSON string: quote and backslash
/// get a backslash, the named control characters their short escapes, the
/// other control characters a `\u00..` escape, everything else stands as it
/// is.
pub open spec fn json_escaped_char(c: char) -> Seq<char> {
    if c == '"' {
        seq!['\\', '"']
    } else if c == '\\' {
        seq!['\\', '\\']
    } else if c == '\u{8}' {
        seq!['\\', 'b']
    } else if c == '\t' {
        seq!['\\', 't']
    } else if c == '\n' {
        seq!['\\', 'n']
    } else if c == '\u{c}' {
        seq!['\\', 'f']
    } else if c == '\r' {
        seq!['\\', 'r']
    } else if (c as u32) < 0x20 {
        seq!['\\', 'u', '0', '0', hex_char_lower((c as u32) as int / 16), hex_char_lower(
            (c as u32) as int % 16,
        )]
    } else {
        seq![c]
    }
}

/// The body of a JSON string: every character escaped as above.
pub open spec fn json_escaped(s: Seq<char>) -> Seq<char>
    decreases s.len(),
{
    if s.len() == 0 {
        Seq::<char>::empty()
    } else {
        json_escaped(s.drop_last()) + json_escaped_char(s.last())
    }
}

/// A complete JSON string literal: the escaped body between quotes.
pub open spec fn json_string(s: Seq<char>) -> Seq<char> {
    seq!['"'] + json_escaped(s) + seq!['"']
}

fn hex_of(d: u32) -> (c: char)
    requires
        d < 16,
    ensures
        c == hex_char_lower(d as int),
{
    if d < 10 {
        digit_of(d as u64)
    } else if d == 10 {
        'a'
    } else if d == 11 {
        'b'
    } else if d == 12 {
        'c'
    } else if d == 13 {
        'd'
    } else if d == 14 {
        'e'
    } else {
        'f'
    }
}

fn push_escaped_char(out: &mut String, c: char)
    ensures
        final(out)@ == old(out)@ + json_escaped_char(c),
{
    if c == '"' {
        push_char(out, '\\');
        push_char(out, '"');
    } else if c == '\\' {
        push_char(out, '\\');
        push_char(out, '\\');
    } else if c == '\u{8}' {
        push_char(out, '\\');
        push_char(out, 'b');
    } else if c == '\t' {
        push_char(out, '\\');
        push_char(out, 't');
    } else if c == '\n' {
        push_char(out, '\\');
        push_char(out, 'n');
    } else if c == '\u{c}' {
        push_char(out, '\\');
        push_char(out, 'f');
    } else if c == '\r' {
        push_char(out, '\\');
        push_char(out, 'r');
    } else if (c as u32) < 0x20 {
        let v = c as u32;
        push_char(out, '\\');
        push_char(out, 'u');
        push_char(out, '0');
        push_char(out, '0');
        push_char(out, hex_of(v / 16));
        push_char(out, hex_of(v % 16));
    } else {
        push_char(out, c);
    }
    assert(final(out)@ =~= old(out)@ + json_escaped_char(c));
}

/// Appends the JSON string literal for `s` to `out`.
pub fn push_json_string(out: &mut String, s: &str)
    ensures
        final(out)@ == old(out)@ + json_string(s@),
{
    push_char(out, '"');
    let n = s.unicode_len();
    let mut i: usize = 0;
    assert(s@.subrange(0, 0) =~= Seq::<char>::empty());
    while i < n
        invariant
            n == s@.len(),
            0 <= i <= n,
            out@ == old(out)@ + seq!['"'] + json_escaped(s@.subrange(0, i as int)),
        decreases n - i,
    {
        let c = s.get_char(i);
        push_escaped_char(out, c);
        proof {
            let pre = s@.subrange(0, i + 1);
            assert(pre.drop_last() =~= s@.subrange(0, i as int));
            assert(pre.last() == s@[i as int]);
        }
        i = i + 1;
    }
    assert(s@.subrange(0, n as int) =~= s@);
    push_char(out, '"');
    assert(final(out)@ =~= old(out)@ + json_string(s@));
}

/// The members of a JSON array of integers, commas between them.
pub open spec fn json_int_members(xs: Seq<i32>) -> Seq<char>
    decreases xs.len(),
{
    if xs.len() == 0 {
        Seq::<char>::empty()
    } else if xs.len() == 1 {
        int_rep(xs[0] as int)
    } else {
        json_int_members(xs.drop_last()) + seq![','] + int_rep(xs.last() as int)
    }
}

/// A JSON array holding the given integers in order.
pub open spec fn json_int_array(xs: Seq<i32>) -> Seq<char> {
    seq!['['] + json_int_members(xs) + seq![']']
}

/// Appends the JSON array of `xs` to `out`.
pub fn push_json_int_array(out: &mut String, xs: &Vec<i32>)
    ensures
        final(out)@ == old(out)@ + json_int_array(xs@),
{
    push_char(out, '[');
    let mut i: usize = 0;
    assert(xs@.subrange(0, 0) =~= Seq::<i32>::empty());
    while i < xs.len()
        invariant
            0 <= i <= xs@.len(),
            out@ == old(out)@ + seq!['['] + json_int_members(xs@.subrange(0, i as int)),
        decreases xs@.len() - i,
    {
        if i > 0 {
            push_char(out, ',');
        }
        push_i32_dec(out, xs[i]);
        proof {
            let pre = xs@.subrange(0, i + 1);
            assert(pre.drop_last() =~= xs@.subrange(0, i as int));
            assert(pre.last() == xs@[i as int]);
        }
        i = i + 1;
    }
    assert(xs@.subrange(0, xs@.len() as int) =~= xs@);
    push_char(out, ']');
    assert(final(out)@ =~= old(out)@ + json_int_array(xs@));
}

} // verus!
