//! Character-level helpers shared by the catalogs, the resolver and the builder.

use vstd::prelude::*;
use vstd::std_specs::iter::IteratorSpec;

verus! {

/// `String::push` appends exactly one character to the end of the string.
pub assume_specification[ String::push ](s: &mut String, c: char)
    ensures
        final(s)@ == old(s)@.push(c),
;

/// `==` on two string slices, as `str`'s `PartialEq` computes it: true exactly when both hold
/// the same characters.
#[verifier::external_body]
pub(crate) fn str_eq(a: &str, b: &str) -> (r: bool)
    ensures
        r == (a@ == b@),
{
    a == b
}

/// The characters of `s`, in order.
pub fn chars_of(s: &str) -> (out: Vec<char>)
    ensures
        out@ == s@,
{
    let mut out: Vec<char> = Vec::new();
    let mut it = s.chars();
    loop
        invariant
            it.obeys_prophetic_iter_laws(),
            it.decrease() is Some,
            out@ + it.remaining() == s@,
        ensures
            it.remaining().len() == 0,
        decreases it.decrease()->0,
    {
        match it.next() {
            Some(c) => {
                out.push(c);
            },
            None => {
                break;
            },
        }
    }
    assert(out@ =~= out@ + it.remaining());
    out
}

/// Appends the characters `chars[lo..hi]` to `out`.
pub fn push_chars(out: &mut String, chars: &Vec<char>, lo: usize, hi: usize)
    requires
        lo <= hi <= chars.len(),
    ensures
        final(out)@ == old(out)@ + chars@.subrange(lo as int, hi as int),
{
    let mut i: usize = lo;
    assert(out@ =~= old(out)@ + chars@.subrange(lo as int, i as int));
    while i < hi
        invariant
            lo <= i <= hi <= chars.len(),
            out@ == old(out)@ + chars@.subrange(lo as int, i as int),
        decreases hi - i,
    {
        out.push(chars[i]);
        assert(chars@.subrange(lo as int, i + 1) =~= chars@.subrange(lo as int, i as int).push(
            chars@[i as int],
        ));
        assert(out@ =~= old(out)@ + chars@.subrange(lo as int, i + 1));
        i = i + 1;
    }
}

/// The characters `chars[lo..hi]` as a string.
pub fn string_of(chars: &Vec<char>, lo: usize, hi: usize) -> (out: String)
    requires
        lo <= hi <= chars.len(),
    ensures
        out@ == chars@.subrange(lo as int, hi as int),
{
    let mut out = String::new();
    push_chars(&mut out, chars, lo, hi);
    assert(out@ =~= chars@.subrange(lo as int, hi as int));
    out
}

/// Whether `c` is white space: a character with Unicode's `White_Space` property.
pub open spec fn is_space(c: char) -> bool {
    let u = c as u32;
    (0x09 <= u <= 0x0d) || u == 0x20 || u == 0x85 || u == 0xa0 || u == 0x1680 || (0x2000 <= u
        <= 0x200a) || u == 0x2028 || u == 0x2029 || u == 0x202f || u == 0x205f || u == 0x3000
}

/// Whether `c` is white space.
pub fn is_space_char(c: char) -> (r: bool)
    ensures
        r == is_space(c),
{
    let u: u32 = c as u32;
    (0x09 <= u && u <= 0x0d) || u == 0x20 || u == 0x85 || u == 0xa0 || u == 0x1680 || (0x2000 <= u
        && u <= 0x200a) || u == 0x2028 || u == 0x2029 || u == 0x202f || u == 0x205f || u
        == 0x3000
}

/// `s` without the white space at its start.
pub open spec fn trim_start(s: Seq<char>) -> Seq<char>
    decreases s.len(),
{
    if s.len() > 0 && is_space(s.first()) {
        trim_start(s.drop_first())
    } else {
        s
    }
}

/// `s` without the white space at its end.
pub open spec fn trim_end(s: Seq<char>) -> Seq<char>
    decreases s.len(),
{
    if s.len() > 0 && is_space(s.last()) {
        trim_end(s.drop_last())
    } else {
        s
    }
}

/// `s` without the white space at either end.
pub open spec fn trim(s: Seq<char>) -> Seq<char> {
    trim_end(trim_start(s))
}

/// The fields of `s` that its occurrences of `sep` separate, in order. A text without `sep`
/// is one field; two neighbouring separators, or one at either end, bound an empty field.
pub open spec fn split(s: Seq<char>, sep: char) -> Seq<Seq<char>>
    decreases s.len(),
{
    if s.len() == 0 {
        seq![Seq::empty()]
    } else if s.last() == sep {
        split(s.drop_last(), sep).push(Seq::empty())
    } else {
        let before = split(s.drop_last(), sep);
        before.drop_last().push(before.last().push(s.last()))
    }
}

/// The fields of `s` between commas, each without the white space around it.
pub open spec fn trimmed_fields(s: Seq<char>) -> Seq<Seq<char>> {
    split(s, ',').map_values(|field: Seq<char>| trim(field))
}

/// The fields, put together again with `sep` between each two neighbours.
pub open spec fn join(fields: Seq<Seq<char>>, sep: char) -> Seq<char>
    decreases fields.len(),
{
    if fields.len() == 0 {
        Seq::empty()
    } else if fields.len() == 1 {
        fields.first()
    } else {
        join(fields.drop_last(), sep).push(sep) + fields.last()
    }
}

/// Splitting loses nothing and cuts at every separator: a text has at least one field, no
/// field holds the separator, and the fields joined by the separator are the text again.
pub proof fn lemma_split(s: Seq<char>, sep: char)
    ensures
        split(s, sep).len() >= 1,
        forall|k: int, i: int|
            0 <= k < split(s, sep).len() && 0 <= i < split(s, sep)[k].len() ==> split(
                s,
                sep,
            )[k][i] != sep,
        join(split(s, sep), sep) == s,
    decreases s.len(),
{
    if s.len() == 0 {
        assert(join(split(s, sep), sep) =~= s);
    } else {
        let front = s.drop_last();
        let before = split(front, sep);
        lemma_split(front, sep);
        assert(front.push(s.last()) =~= s);
        if s.last() == sep {
            assert(split(s, sep).drop_last() =~= before);
            assert(join(split(s, sep), sep) =~= s);
        } else {
            let fields = split(s, sep);
            let n = before.len() - 1;
            assert(fields.len() == before.len());
            assert(fields.last() == before.last().push(s.last()));
            assert forall|k: int, i: int|
                0 <= k < fields.len() && 0 <= i < fields[k].len() implies fields[k][i] != sep by {
                if k < n {
                    assert(fields[k] == before[k]);
                } else if i < before.last().len() {
                    assert(fields[k][i] == before[n][i]);
                }
            }
            if before.len() >= 2 {
                assert(fields.drop_last() =~= before.drop_last());
                assert(join(fields, sep) =~= join(before, sep).push(s.last()));
            } else {
                assert(before.first() == before.last());
                assert(join(fields, sep) =~= join(before, sep).push(s.last()));
            }
        }
    }
}

/// Trimming takes white space from the two ends and nothing else: what is left is a
/// stretch of the text, all that stands before and after it is white space, and unless it
/// is empty it neither starts nor ends with white space.
pub proof fn lemma_trim(s: Seq<char>)
    ensures
        exists|a: int, b: int|
            {
                &&& 0 <= a <= b <= s.len()
                &&& #[trigger] s.subrange(a, b) == trim(s)
                &&& forall|i: int| 0 <= i < a ==> is_space(#[trigger] s[i])
                &&& forall|i: int| b <= i < s.len() ==> is_space(#[trigger] s[i])
                &&& a < b ==> !is_space(s[a]) && !is_space(s[b - 1])
            },
{
    let a = lemma_trim_start(s);
    let rest = s.skip(a);
    let kept = lemma_trim_end(rest);
    let b = a + kept;
    assert(rest.take(kept) =~= s.subrange(a, b));
    assert forall|i: int| b <= i < s.len() implies is_space(#[trigger] s[i]) by {
        assert(rest[i - a] == s[i]);
    }
    if a < b {
        assert(rest[0] == s[a]);
        assert(rest[kept - 1] == s[b - 1]);
    }
}

/// How much white space `trim_start` takes: what is left starts at the position that
/// comes back.
proof fn lemma_trim_start(s: Seq<char>) -> (a: int)
    ensures
        0 <= a <= s.len(),
        trim_start(s) == s.skip(a),
        forall|i: int| 0 <= i < a ==> is_space(#[trigger] s[i]),
        a < s.len() ==> !is_space(s[a]),
    decreases s.len(),
{
    if s.len() > 0 && is_space(s.first()) {
        let rest = s.drop_first();
        let a = lemma_trim_start(rest);
        assert(rest.skip(a) =~= s.skip(a + 1));
        assert forall|i: int| 0 <= i < a + 1 implies is_space(#[trigger] s[i]) by {
            if i > 0 {
                assert(rest[i - 1] == s[i]);
            }
        }
        if a + 1 < s.len() {
            assert(rest[a] == s[a + 1]);
        }
        a + 1
    } else {
        assert(s.skip(0) =~= s);
        0
    }
}

/// How much `trim_end` keeps: what is left ends before the position that comes back.
proof fn lemma_trim_end(s: Seq<char>) -> (b: int)
    ensures
        0 <= b <= s.len(),
        trim_end(s) == s.take(b),
        forall|i: int| b <= i < s.len() ==> is_space(#[trigger] s[i]),
        0 < b ==> !is_space(s[b - 1]),
    decreases s.len(),
{
    if s.len() > 0 && is_space(s.last()) {
        let front = s.drop_last();
        let b = lemma_trim_end(front);
        assert(front.take(b) =~= s.take(b));
        assert forall|i: int| b <= i < s.len() implies is_space(#[trigger] s[i]) by {
            if i < front.len() {
                assert(front[i] == s[i]);
            }
        }
        if 0 < b {
            assert(front[b - 1] == s[b - 1]);
        }
        b
    } else {
        assert(s.take(s.len() as int) =~= s);
        s.len() as int
    }
}

/// The characters `chars[lo..hi]` without the white space at either end, as a string.
pub fn trimmed(chars: &Vec<char>, lo: usize, hi: usize) -> (out: String)
    requires
        lo <= hi <= chars.len(),
    ensures
        out@ == trim(chars@.subrange(lo as int, hi as int)),
{
    let mut a: usize = lo;
    while a < hi && is_space_char(chars[a])
        invariant
            lo <= a <= hi <= chars.len(),
            trim_start(chars@.subrange(lo as int, hi as int)) == trim_start(
                chars@.subrange(a as int, hi as int),
            ),
        decreases hi - a,
    {
        assert(chars@.subrange(a as int, hi as int).drop_first() =~= chars@.subrange(
            a + 1,
            hi as int,
        ));
        a = a + 1;
    }
    let mut b: usize = hi;
    while b > a && is_space_char(chars[b - 1])
        invariant
            a <= b <= hi <= chars.len(),
            trim_end(chars@.subrange(a as int, hi as int)) == trim_end(
                chars@.subrange(a as int, b as int),
            ),
        decreases b,
    {
        assert(chars@.subrange(a as int, b as int).drop_last() =~= chars@.subrange(
            a as int,
            b - 1,
        ));
        b = b - 1;
    }
    string_of(chars, a, b)
}

/// The fields of `list` between commas, each without the white space around it.
pub fn split_trimmed(list: &str) -> (out: Vec<String>)
    ensures
        out@.len() == trimmed_fields(list@).len(),
        forall|k: int| 0 <= k < out@.len() ==> (#[trigger] out@[k])@ == trimmed_fields(list@)[k],
{
    let chars = chars_of(list);
    let mut out: Vec<String> = Vec::new();
    let ghost mut raw: Seq<Seq<char>> = Seq::empty();
    let mut start: usize = 0;
    let mut i: usize = 0;
    assert(chars@.subrange(0, 0) =~= Seq::<char>::empty());
    assert(split(chars@.take(0), ',') =~= raw.push(chars@.subrange(0, 0)));
    while i < chars.len()
        invariant
            start <= i <= chars.len(),
            chars@ == list@,
            split(chars@.take(i as int), ',') == raw.push(
                chars@.subrange(start as int, i as int),
            ),
            out@.len() == raw.len(),
            forall|k: int| 0 <= k < out@.len() ==> (#[trigger] out@[k])@ == trim(raw[k]),
        decreases chars.len() - i,
    {
        proof {
            assert(chars@.take(i + 1).drop_last() =~= chars@.take(i as int));
        }
        if chars[i] == ',' {
            let field = trimmed(&chars, start, i);
            out.push(field);
            proof {
                raw = raw.push(chars@.subrange(start as int, i as int));
                assert(chars@.subrange(i + 1, i + 1) =~= Seq::<char>::empty());
            }
            start = i + 1;
        } else {
            proof {
                let before = raw.push(chars@.subrange(start as int, i as int));
                assert(before.drop_last() =~= raw);
                assert(chars@.subrange(start as int, i + 1) =~= chars@.subrange(
                    start as int,
                    i as int,
                ).push(chars@[i as int]));
            }
        }
        i = i + 1;
    }
    let field = trimmed(&chars, start, i);
    out.push(field);
    proof {
        assert(chars@.take(i as int) =~= chars@);
        let all = raw.push(chars@.subrange(start as int, i as int));
        assert(all == split(list@, ','));
        assert(out@.len() == all.len());
        assert forall|k: int| 0 <= k < out@.len() implies (#[trigger] out@[k])@ == trimmed_fields(
            list@,
        )[k] by {
            assert(all[k] == if k < raw.len() {
                raw[k]
            } else {
                chars@.subrange(start as int, i as int)
            });
        }
    }
    out
}

/// The character of the decimal digit `d`, `0 <= d < 10`.
pub open spec fn digit_char(d: int) -> char {
    seq!['0', '1', '2', '3', '4', '5', '6', '7', '8', '9'][d]
}

/// The decimal numeral of `n`, without leading zeros.
pub open spec fn decimal(n: nat) -> Seq<char>
    decreases n,
{
    if n < 10 {
        seq![digit_char(n as int)]
    } else {
        decimal(n / 10).push(digit_char((n % 10) as int))
    }
}

fn decimal_digit(d: u32) -> (c: char)
    requires
        d < 10,
    ensures
        c == digit_char(d as int),
{
    if d == 0 {
        '0'
    } else if d == 1 {
        '1'
    } else if d == 2 {
        '2'
    } else if d == 3 {
        '3'
    } else if d == 4 {
        '4'
    } else if d == 5 {
        '5'
    } else if d == 6 {
        '6'
    } else if d == 7 {
        '7'
    } else if d == 8 {
        '8'
    } else {
        '9'
    }
}

/// Appends the decimal numeral of `n` to `out`.
pub fn push_decimal(out: &mut String, n: u32)
    ensures
        final(out)@ == old(out)@ + decimal(n as nat),
    decreases n,
{
    if n >= 10 {
        push_decimal(out, n / 10);
    }
    out.push(decimal_digit(n % 10));
    assert(final(out)@ =~= old(out)@ + decimal(n as nat));
}

} // verus!
