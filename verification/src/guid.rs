//! 128-bit rights identifiers and their canonical text.

use vstd::prelude::*;
use crate::text::push_chars;

verus! {

/// A 128-bit identifier, held as one number whose most significant byte is the first byte of
/// the identifier.
#[derive(Clone, Copy, Debug, PartialEq, Eq, Structural)]
pub struct Guid {
    pub value: u128,
}

/// The lower-case hexadecimal digit for `d`, `0 <= d < 16`.
pub open spec fn hex_char(d: int) -> char {
    seq!['0', '1', '2', '3', '4', '5', '6', '7', '8', '9', 'a', 'b', 'c', 'd', 'e', 'f'][d]
}

/// The `n` least significant hexadecimal digits of `v`, most significant first.
pub open spec fn hex_digits(v: nat, n: nat) -> Seq<char>
    decreases n,
{
    if n == 0 {
        Seq::empty()
    } else {
        hex_digits(v / 16, (n - 1) as nat).push(hex_char((v % 16) as int))
    }
}

/// The canonical text of a 128-bit identifier: 32 lower-case hexadecimal digits in groups of
/// 8, 4, 4, 4 and 12, separated by hyphens.
pub open spec fn hyphenated(v: u128) -> Seq<char> {
    let h = hex_digits(v as nat, 32);
    h.subrange(0, 8) + seq!['-'] + h.subrange(8, 12) + seq!['-'] + h.subrange(12, 16) + seq!['-']
        + h.subrange(16, 20) + seq!['-'] + h.subrange(20, 32)
}

/// Whether `c` is one of the sixteen lower-case hexadecimal digits.
pub open spec fn is_lower_hex(c: char) -> bool {
    c == '0' || c == '1' || c == '2' || c == '3' || c == '4' || c == '5' || c == '6' || c == '7'
        || c == '8' || c == '9' || c == 'a' || c == 'b' || c == 'c' || c == 'd' || c == 'e' || c
        == 'f'
}

/// Whether `s` has the shape of a canonical text: 36 characters, hyphens at positions 8, 13,
/// 18 and 23, lower-case hexadecimal digits everywhere else.
pub open spec fn is_canonical(s: Seq<char>) -> bool {
    &&& s.len() == 36
    &&& s[8] == '-' && s[13] == '-' && s[18] == '-' && s[23] == '-'
    &&& forall|i: int|
        0 <= i < 36 && i != 8 && i != 13 && i != 18 && i != 23 ==> is_lower_hex(#[trigger] s[i])
}

/// Calls `uuid::Uuid::parse_str` and hands back the parsed identifier as the number that
/// `Uuid::as_u128` gives, or `None` where the parser refused the text. The contract claims
/// one thing of the parser: that it accepts every text of canonical shape and gives back the
/// identifier whose canonical text it is. What it does with other text is left open.
#[verifier::external_body]
pub(crate) fn parse_uuid(text: &str) -> (r: Option<u128>)
    ensures
        is_canonical(text@) ==> r is Some && hyphenated(r->0) == text@,
{
    match uuid::Uuid::parse_str(text) {
        Ok(id) => Some(id.as_u128()),
        Err(_) => None,
    }
}

fn hex_digit(d: u8) -> (c: char)
    requires
        d < 16,
    ensures
        c == hex_char(d as int),
{
    if d == 0 {
        '0'
    } else if d == 1 {
        '1'
    } else if d == 2 {
        '2'
    } else if d == 3 {
        '3'
    } else if d == 4 {
        '4'
    } else if d == 5 {
        '5'
    } else if d == 6 {
        '6'
    } else if d == 7 {
        '7'
    } else if d == 8 {
        '8'
    } else if d == 9 {
        '9'
    } else if d == 10 {
        'a'
    } else if d == 11 {
        'b'
    } else if d == 12 {
        'c'
    } else if d == 13 {
        'd'
    } else if d == 14 {
        'e'
    } else {
        'f'
    }
}

fn push_hex_digits(out: &mut Vec<char>, v: u128, n: u32)
    ensures
        final(out)@ == old(out)@ + hex_digits(v as nat, n as nat),
    decreases n,
{
    if n > 0 {
        push_hex_digits(out, v / 16, n - 1);
        out.push(hex_digit((v % 16) as u8));
    }
    assert(final(out)@ =~= old(out)@ + hex_digits(v as nat, n as nat));
}

impl Guid {
    /// Appends the canonical text of the identifier to `out`.
    pub fn push_text(&self, out: &mut String)
        ensures
            final(out)@ == old(out)@ + hyphenated(self.value),
    {
        let mut digits: Vec<char> = Vec::new();
        push_hex_digits(&mut digits, self.value, 32);
        proof {
            lemma_hex_digits_are_hex(self.value as nat, 32);
        }
        assert(digits@ =~= hex_digits(self.value as nat, 32));
        push_chars(out, &digits, 0, 8);
        out.push('-');
        push_chars(out, &digits, 8, 12);
        out.push('-');
        push_chars(out, &digits, 12, 16);
        out.push('-');
        push_chars(out, &digits, 16, 20);
        out.push('-');
        push_chars(out, &digits, 20, 32);
        assert(out@ =~= old(out)@ + hyphenated(self.value));
    }
}

/// Sixteen to the power of `n`.
pub open spec fn pow16(n: nat) -> nat
    decreases n,
{
    if n == 0 {
        1
    } else {
        16 * pow16((n - 1) as nat)
    }
}

/// Every hexadecimal digit that the library writes is a lower-case one, and two different
/// values get different digits.
pub proof fn lemma_hex_char(a: int, b: int)
    requires
        0 <= a < 16,
        0 <= b < 16,
    ensures
        is_lower_hex(hex_char(a)),
        hex_char(a) == hex_char(b) ==> a == b,
{
}

/// The digits of a number are lower-case hexadecimal digits.
pub proof fn lemma_hex_digits_are_hex(v: nat, n: nat)
    ensures
        hex_digits(v, n).len() == n,
        forall|i: int| 0 <= i < n ==> is_lower_hex(#[trigger] hex_digits(v, n)[i]),
    decreases n,
{
    if n > 0 {
        lemma_hex_digits_are_hex(v / 16, (n - 1) as nat);
        lemma_hex_char((v % 16) as int, 0);
    }
}

/// Two numbers below sixteen to the power of `n` with the same `n` digits are the same.
pub proof fn lemma_hex_digits_injective(a: nat, b: nat, n: nat)
    requires
        a < pow16(n),
        b < pow16(n),
        hex_digits(a, n) == hex_digits(b, n),
    ensures
        a == b,
    decreases n,
{
    if n > 0 {
        let m = (n - 1) as nat;
        let da = hex_digits(a / 16, m);
        let db = hex_digits(b / 16, m);
        let ca = hex_char((a % 16) as int);
        let cb = hex_char((b % 16) as int);
        assert(da.push(ca).last() == ca);
        assert(db.push(cb).last() == cb);
        assert(da.push(ca).drop_last() =~= da);
        assert(db.push(cb).drop_last() =~= db);
        lemma_hex_char((a % 16) as int, (b % 16) as int);
        lemma_hex_digits_injective(a / 16, b / 16, m);
    }
}

/// The canonical text of every identifier has the canonical shape.
pub proof fn lemma_hyphenated_is_canonical(v: u128)
    ensures
        is_canonical(hyphenated(v)),
{
    let h = hex_digits(v as nat, 32);
    let t = hyphenated(v);
    lemma_hex_digits_are_hex(v as nat, 32);
    assert(t.len() == 36);
    assert forall|i: int|
        0 <= i < 36 && i != 8 && i != 13 && i != 18 && i != 23 implies is_lower_hex(
        #[trigger] t[i],
    ) by {
        if i < 8 {
            assert(t[i] == h[i]);
        } else if i < 13 {
            assert(t[i] == h[i - 1]);
        } else if i < 18 {
            assert(t[i] == h[i - 2]);
        } else if i < 23 {
            assert(t[i] == h[i - 3]);
        } else {
            assert(t[i] == h[i - 4]);
        }
    }
}

/// Two identifiers with the same canonical text are the same identifier.
pub proof fn lemma_hyphenated_injective(a: u128, b: u128)
    requires
        hyphenated(a) == hyphenated(b),
    ensures
        a == b,
{
    let ha = hex_digits(a as nat, 32);
    let hb = hex_digits(b as nat, 32);
    lemma_hex_digits_are_hex(a as nat, 32);
    lemma_hex_digits_are_hex(b as nat, 32);
    assert forall|i: int| 0 <= i < 32 implies ha[i] == hb[i] by {
        let k = if i < 8 {
            i
        } else if i < 12 {
            i + 1
        } else if i < 16 {
            i + 2
        } else if i < 20 {
            i + 3
        } else {
            i + 4
        };
        assert(hyphenated(a)[k] == ha[i]);
        assert(hyphenated(b)[k] == hb[i]);
    }
    assert(ha =~= hb);
    assert(pow16(32) == 0x1_0000_0000_0000_0000_0000_0000_0000_0000) by {
        reveal_with_fuel(pow16, 33);
    }
    lemma_hex_digits_injective(a as nat, b as nat, 32);
}

} // verus!
