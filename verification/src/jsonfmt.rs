//! Building blocks for the JSON text this crate emits: string escaping as a
//! JSON serializer performs it, and decimal rendering of integers.

use vstd::prelude::*;

verus! {

/// The lowercase hexadecimal digit for a value below 16.
pub open spec fn hex_digit(n: nat) -> char
    recommends
        n < 16,
{
    if n == 0 { '0' } else if n == 1 { '1' } else if n == 2 { '2' } else if n == 3 { '3' }
    else if n == 4 { '4' } else if n == 5 { '5' } else if n == 6 { '6' } else if n == 7 { '7' }
    else if n == 8 { '8' } else if n == 9 { '9' } else if n == 10 { 'a' } else if n == 11 { 'b' }
    else if n == 12 { 'c' } else if n == 13 { 'd' } else if n == 14 { 'e' } else { 'f' }
}

/// How one character appears inside a JSON string literal: quote and backslash
/// are escaped, the common control characters use their short escapes, the
/// remaining control characters use a `\u00..` escape, and everything else
/// stands as itself.
pub open spec fn json_escape_char(c: char) -> Seq<char> {
    if c == '"' { seq!['\\', '"'] }
    else if c == '\\' { seq!['\\', '\\'] }
    else if c == '\u{8}' { seq!['\\', 'b'] }
    else if c == '\t' { seq!['\\', 't'] }
    else if c == '\n' { seq!['\\', 'n'] }
    else if c == '\u{c}' { seq!['\\', 'f'] }
    else if c == '\r' { seq!['\\', 'r'] }
    else if (c as u32) < 0x20 {
        seq!['\\', 'u', '0', '0', hex_digit(((c as u32) >> 4u32) as nat), hex_digit(
            ((c as u32) & 0xf) as nat,
        )]
    } else {
        seq![c]
    }
}

/// The body of a JSON string literal holding exactly the characters of `s`.
pub open spec fn json_escaped(s: Seq<char>) -> Seq<char>
    decreases s.len(),
{
    if s.len() == 0 {
        Seq::empty()
    } else {
        json_escape_char(s[0]) + json_escaped(s.skip(1))
    }
}

/// A complete JSON string literal for `s`, surrounding quotes included.
pub open spec fn json_quoted(s: Seq<char>) -> Seq<char> {
    seq!['"'] + json_escaped(s) + seq!['"']
}

/// Relies on `String::push`: appends exactly the one character to the string.
#[verifier::external_body]
pub fn push_char(s: &mut String, c: char)
    ensures
        final(s)@ == old(s)@.push(c),
{
    s.push(c);
}

proof fn lemma_json_escaped_snoc(s: Seq<char>, c: char)
    ensures
        json_escaped(s.push(c)) == json_escaped(s) + json_escape_char(c),
    decreases s.len(),
{
    if s.len() == 0 {
        assert(s.push(c).skip(1) =~= Seq::<char>::empty());
        assert(s.push(c)[0] == c);
        assert(s.push(c).len() == 1);
        assert(json_escaped(Seq::<char>::empty()) == Seq::<char>::empty());
        assert(json_escaped(s.push(c)) == json_escape_char(s.push(c)[0]) + json_escaped(
            s.push(c).skip(1),
        ));
        assert(json_escaped(s.push(c)) =~= json_escape_char(c) + Seq::<char>::empty());
        assert(json_escape_char(c) + Seq::<char>::empty() =~= json_escaped(s) + json_escape_char(
            c,
        ));
    } else {
        assert(s.push(c).skip(1) =~= s.skip(1).push(c));
        lemma_json_escaped_snoc(s.skip(1), c);
        assert(json_escaped(s.push(c)) =~= json_escaped(s) + json_escape_char(c));
    }
}

fn push_escaped_char(out: &mut String, c: char)
    ensures
        final(out)@ == old(out)@ + json_escape_char(c),
{
    if c == '"' {
        push_char(out, '\\');
        push_char(out, '"');
    } else if c == '\\' {
        push_char(out, '\\');
        push_char(out, '\\');
    } else if c == '\u{8}' {
        push_char(out, '\\');
        push_char(out, 'b');
    } else if c == '\t' {
        push_char(out, '\\');
        push_char(out, 't');
    } else if c == '\n' {
        push_char(out, '\\');
        push_char(out, 'n');
    } else if c == '\u{c}' {
        push_char(out, '\\');
        push_char(out, 'f');
    } else if c == '\r' {
        push_char(out, '\\');
        push_char(out, 'r');
    } else if (c as u32) < 0x20 {
        proof {
            let u: u32 = c as u32;
            assert(u >> 4u32 < 16 && u & 0xf < 16) by (bit_vector)
                requires
                    u < 0x20,
            ;
        }
        push_char(out, '\\');
        push_char(out, 'u');
        push_char(out, '0');
        push_char(out, '0');
        push_char(out, hex_digit_exec(((c as u32) >> 4u32) as u8));
        push_char(out, hex_digit_exec(((c as u32) & 0xf) as u8));
        assert(final(out)@ =~= old(out)@ + json_escape_char(c));
    } else {
        push_char(out, c);
    }
    assert(final(out)@ =~= old(out)@ + json_escape_char(c));
}

fn hex_digit_exec(n: u8) -> (c: char)
    requires
        n < 16,
    ensures
        c == hex_digit(n as nat),
{
    if n == 0 { '0' } else if n == 1 { '1' } else if n == 2 { '2' } else if n == 3 { '3' }
    else if n == 4 { '4' } else if n == 5 { '5' } else if n == 6 { '6' } else if n == 7 { '7' }
    else if n == 8 { '8' } else if n == 9 { '9' } else if n == 10 { 'a' } else if n == 11 { 'b' }
    else if n == 12 { 'c' } else if n == 13 { 'd' } else if n == 14 { 'e' } else { 'f' }
}

/// Appends to `out` the body of a JSON string literal holding the characters
/// of `s`.
pub fn append_json_escaped(out: &mut String, s: &str)
    ensures
        final(out)@ == old(out)@ + json_escaped(s@),
{
    let n: usize = s.unicode_len();
    let mut i: usize = 0;
    while i < n
        invariant
            n == s@.len(),
            i <= n,
            out@ == old(out)@ + json_escaped(s@.take(i as int)),
        decreases n - i,
    {
        let c = s.get_char(i);
        proof {
            assert(s@.take(i as int).push(s@[i as int]) =~= s@.take(i + 1));
            lemma_json_escaped_snoc(s@.take(i as int), s@[i as int]);
        }
        push_escaped_char(out, c);
        i = i + 1;
    }
    assert(s@.take(n as int) =~= s@);
}

/// Appends to `out` the complete JSON string literal for `s`, quotes included.
pub fn append_json_quoted(out: &mut String, s: &str)
    ensures
        final(out)@ == old(out)@ + json_quoted(s@),
{
    push_char(out, '"');
    append_json_escaped(out, s);
    push_char(out, '"');
    assert(final(out)@ =~= old(out)@ + json_quoted(s@));
}

/// The decimal digits of a natural number, most significant first.
pub open spec fn dec_digits(n: nat) -> Seq<char>
    decreases n,
{
    if n < 10 {
        seq![hex_digit(n)]
    } else {
        dec_digits(n / 10) + seq![hex_digit(n % 10)]
    }
}

/// The decimal rendering of a signed number: a minus sign for a negative one,
/// then the digits of its magnitude.
pub open spec fn dec_str(n: int) -> Seq<char> {
    if n < 0 {
        seq!['-'] + dec_digits((-n) as nat)
    } else {
        dec_digits(n as nat)
    }
}

/// Appends the decimal rendering of `n` to `out`.
pub fn append_dec_u32(out: &mut String, n: u32)
    ensures
        final(out)@ == old(out)@ + dec_digits(n as nat),
{
    let mut rev: Vec<char> = Vec::new();
    let mut x: u32 = n;
    proof {
        assert(dec_digits(n as nat) =~= dec_digits(x as nat) + rev@.reverse());
    }
    loop
        invariant_except_break
            dec_digits(n as nat) == dec_digits(x as nat) + rev@.reverse(),
        ensures
            rev@.len() > 0,
            dec_digits(n as nat) == rev@.reverse(),
        decreases x,
    {
        let d: u32 = x % 10;
        let ghost prev = rev@;
        rev.push(hex_digit_exec(d as u8));
        proof {
            assert(rev@ =~= prev.push(hex_digit(d as nat)));
            assert(rev@.reverse() =~= seq![hex_digit(d as nat)] + prev.reverse());
            if x >= 10 {
                assert(dec_digits(x as nat) == dec_digits((x / 10) as nat) + seq![
                    hex_digit((x % 10) as nat),
                ]);
                assert(dec_digits(x as nat) + prev.reverse() =~= dec_digits((x / 10) as nat)
                    + rev@.reverse());
            } else {
                assert(dec_digits(x as nat) =~= seq![hex_digit(x as nat)]);
                assert(dec_digits(x as nat) + prev.reverse() =~= rev@.reverse());
            }
        }
        x = x / 10;
        if x == 0 {
            break ;
        }
    }
    let mut i: usize = rev.len();
    while i > 0
        invariant
            i <= rev@.len(),
            dec_digits(n as nat) == rev@.reverse(),
            out@ == old(out)@ + rev@.reverse().take(rev@.len() - i),
        decreases i,
    {
        i = i - 1;
        let ghost k = rev@.len() - 1 - i;
        proof {
            assert(rev@.reverse()[k as int] == rev@[i as int]);
            assert(rev@.reverse().take(k + 1) =~= rev@.reverse().take(k as int).push(
                rev@.reverse()[k as int],
            ));
        }
        let c = rev[i];
        push_char(out, c);
    }
    assert(rev@.reverse().take(rev@.len() as int) =~= rev@.reverse());
}

/// Appends the decimal rendering of a signed number to `out`.
pub fn append_dec_i32(out: &mut String, n: i32)
    ensures
        final(out)@ == old(out)@ + dec_str(n as int),
{
    if n < 0 {
        push_char(out, '-');
        let m: u32 = if n == i32::MIN {
            0x8000_0000u32
        } else {
            (0 - n) as u32
        };
        assert(m as int == -(n as int));
        append_dec_u32(out, m);
        assert(final(out)@ =~= old(out)@ + dec_str(n as int));
    } else {
        append_dec_u32(out, n as u32);
    }
}

} // verus!
