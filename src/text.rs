//! Text helpers: decimal numbers and the removal of terminal escape codes.

use vstd::prelude::*;

verus! {

/// The character of the decimal digit `d`.
pub open spec fn digit_char(d: nat) -> char
    recommends
        d < 10,
{
    (('0' as u32) + d) as char
}

/// The decimal digits of `n`, most significant first, without leading zeros.
pub open spec fn digits_text(n: nat) -> Seq<char>
    decreases n,
{
    if n < 10 {
        seq![digit_char(n)]
    } else {
        digits_text(n / 10).push(digit_char(n % 10))
    }
}

/// `n` written in decimal, with a leading `-` where it is negative.
pub open spec fn decimal_text(n: int) -> Seq<char> {
    if n < 0 {
        seq!['-'] + digits_text((-n) as nat)
    } else {
        digits_text(n as nat)
    }
}

/// Relies on the `Display` impl of `i32` (through `to_string`): the number in
/// decimal, with a `-` in front of a negative one.
#[verifier::external_body]
pub(crate) fn decimal(n: i32) -> (r: String)
    ensures
        r@ == decimal_text(n as int),
{
    n.to_string()
}

/// Relies on `str::chars` and `collect`: the characters of `s` in order.
#[verifier::external_body]
fn chars_of(s: &str) -> (r: Vec<char>)
    ensures
        r@ == s@,
{
    s.chars().collect()
}

/// Relies on `collect` into a `String`: the characters of `cs` in order.
#[verifier::external_body]
fn string_of(cs: &Vec<char>) -> (r: String)
    ensures
        r@ == cs@,
{
    cs.iter().collect()
}

/// The escape character that opens a terminal control sequence.
pub const ESCAPE: char = '\x1b';

/// Whether `c` is an ASCII letter, which ends a control sequence.
pub open spec fn is_ascii_letter(c: char) -> bool {
    ('a' <= c && c <= 'z') || ('A' <= c && c <= 'Z')
}

/// What is left of `s` once control sequences are removed; `in_escape` says
/// whether `s` starts inside one. A sequence runs from the escape character
/// to the first ASCII letter, both included.
pub open spec fn strip_escapes(s: Seq<char>, in_escape: bool) -> Seq<char>
    decreases s.len(),
{
    if s.len() == 0 {
        Seq::empty()
    } else if in_escape {
        strip_escapes(s.drop_first(), !is_ascii_letter(s[0]))
    } else if s[0] == ESCAPE {
        strip_escapes(s.drop_first(), true)
    } else {
        seq![s[0]] + strip_escapes(s.drop_first(), false)
    }
}

/// Removes terminal control sequences (escape character up to the next
/// ASCII letter) from `s`.
pub fn strip_ansi_codes(s: &str) -> (r: String)
    ensures
        r@ == strip_escapes(s@, false),
{
    let cs = chars_of(s);
    let mut out: Vec<char> = Vec::new();
    let mut in_escape = false;
    let mut i: usize = 0;
    assert(s@.subrange(0, s@.len() as int) =~= s@);
    assert(out@ + s@ =~= s@);
    while i < cs.len()
        invariant
            cs@ == s@,
            i <= cs@.len(),
            strip_escapes(s@, false) == out@ + strip_escapes(s@.subrange(i as int, s@.len() as int), in_escape),
        decreases cs@.len() - i,
    {
        let c = cs[i];
        let ghost rest = s@.subrange(i as int, s@.len() as int);
        assert(rest.drop_first() =~= s@.subrange(i + 1, s@.len() as int));
        assert(rest[0] == c);
        if in_escape {
            if ('a' <= c && c <= 'z') || ('A' <= c && c <= 'Z') {
                in_escape = false;
            }
        } else if c == ESCAPE {
            in_escape = true;
        } else {
            let ghost before = out@;
            out.push(c);
            assert(before + (seq![c] + strip_escapes(rest.drop_first(), false)) =~= out@ + strip_escapes(rest.drop_first(), false));
        }
        i += 1;
    }
    assert(s@.subrange(i as int, s@.len() as int) =~= Seq::<char>::empty());
    assert(out@ + Seq::<char>::empty() =~= out@);
    string_of(&out)
}

} // verus!
