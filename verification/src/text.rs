//! Text helpers: trimming of device strings and fixed-width hexadecimal.

use vstd::prelude::*;
use vstd::string::StringExecFns;
use vstd::string::StrSliceExecFns;

verus! {

/// Whether `c` has the Unicode property `White_Space`, as `char::is_whitespace`
/// reports it.
pub uninterp spec fn is_whitespace(c: char) -> bool;

/// Calls `char::is_whitespace`. Its answer depends on the character alone, and
/// the contract gives that answer the name [`is_whitespace`]; nothing is
/// claimed about which characters count as whitespace.
#[verifier::external_body]
fn char_is_whitespace(c: char) -> (b: bool)
    ensures
        b == is_whitespace(c),
{
    c.is_whitespace()
}

/// `s` without its leading whitespace.
pub open spec fn trim_start(s: Seq<char>) -> Seq<char>
    decreases s.len(),
{
    if s.len() > 0 && is_whitespace(s.first()) {
        trim_start(s.drop_first())
    } else {
        s
    }
}

/// `s` without its trailing whitespace.
pub open spec fn trim_end(s: Seq<char>) -> Seq<char>
    decreases s.len(),
{
    if s.len() > 0 && is_whitespace(s.last()) {
        trim_end(s.drop_last())
    } else {
        s
    }
}

/// `s` without leading and trailing whitespace.
pub open spec fn trimmed(s: Seq<char>) -> Seq<char> {
    trim_end(trim_start(s))
}

/// Every character of `s` from `from` up to `to` is whitespace.
pub open spec fn all_whitespace(s: Seq<char>, from: int, to: int) -> bool {
    forall|j: int| from <= j < to ==> is_whitespace(#[trigger] s[j])
}

/// Leading whitespace up to the first other character is what `trim_start` drops.
pub proof fn lemma_trim_start_at(s: Seq<char>, k: int)
    requires
        0 <= k <= s.len(),
        all_whitespace(s, 0, k),
        k < s.len() ==> !is_whitespace(s[k]),
    ensures
        trim_start(s) == s.subrange(k, s.len() as int),
    decreases k,
{
    if k == 0 {
        assert(s.subrange(0, s.len() as int) =~= s);
    } else {
        let rest = s.drop_first();
        assert(is_whitespace(s[0]));
        assert forall|j: int| 0 <= j < k - 1 implies is_whitespace(#[trigger] rest[j]) by {
            assert(rest[j] == s[j + 1]);
        }
        lemma_trim_start_at(rest, k - 1);
        assert(rest.subrange(k - 1, rest.len() as int) =~= s.subrange(k, s.len() as int));
    }
}

/// Trailing whitespace back to the last other character is what `trim_end` drops.
pub proof fn lemma_trim_end_at(s: Seq<char>, k: int)
    requires
        0 <= k <= s.len(),
        all_whitespace(s, k, s.len() as int),
        k > 0 ==> !is_whitespace(s[k - 1]),
    ensures
        trim_end(s) == s.subrange(0, k),
    decreases s.len() - k,
{
    if k == s.len() {
        assert(s.subrange(0, s.len() as int) =~= s);
    } else {
        let rest = s.drop_last();
        assert(is_whitespace(s[s.len() - 1]));
        assert forall|j: int| k <= j < rest.len() implies is_whitespace(#[trigger] rest[j]) by {
            assert(rest[j] == s[j]);
        }
        lemma_trim_end_at(rest, k);
        assert(rest.subrange(0, k) =~= s.subrange(0, k));
    }
}

/// `s` neither begins nor ends with whitespace.
pub open spec fn is_trimmed(s: Seq<char>) -> bool {
    s.len() == 0 || (!is_whitespace(s.first()) && !is_whitespace(s.last()))
}

/// What `trim_start` leaves is the end of `s`, and does not begin with whitespace.
pub proof fn lemma_trim_start_is_suffix(s: Seq<char>)
    ensures
        trim_start(s).len() <= s.len(),
        trim_start(s) == s.subrange(s.len() - trim_start(s).len(), s.len() as int),
        trim_start(s).len() > 0 ==> !is_whitespace(trim_start(s).first()),
    decreases s.len(),
{
    if s.len() > 0 && is_whitespace(s.first()) {
        let rest = s.drop_first();
        lemma_trim_start_is_suffix(rest);
        let kept = trim_start(rest);
        assert(rest.subrange(rest.len() - kept.len(), rest.len() as int) =~= s.subrange(
            s.len() - kept.len(),
            s.len() as int,
        ));
    } else {
        assert(s.subrange(0, s.len() as int) =~= s);
    }
}

/// What `trim_end` leaves is the beginning of `s`, and does not end with whitespace.
pub proof fn lemma_trim_end_is_prefix(s: Seq<char>)
    ensures
        trim_end(s).len() <= s.len(),
        trim_end(s) == s.subrange(0, trim_end(s).len() as int),
        trim_end(s).len() > 0 ==> !is_whitespace(trim_end(s).last()),
    decreases s.len(),
{
    if s.len() > 0 && is_whitespace(s.last()) {
        let rest = s.drop_last();
        lemma_trim_end_is_prefix(rest);
        let kept = trim_end(rest);
        assert(rest.subrange(0, kept.len() as int) =~= s.subrange(0, kept.len() as int));
    } else {
        assert(s.subrange(0, s.len() as int) =~= s);
    }
}

/// Trimming leaves a text that neither begins nor ends with whitespace, and
/// leaves such a text as it is: trimming twice is trimming once.
pub proof fn lemma_trimmed_is_trimmed(s: Seq<char>)
    ensures
        is_trimmed(trimmed(s)),
        is_trimmed(s) ==> trimmed(s) == s,
        trimmed(trimmed(s)) == trimmed(s),
{
    let inner = trim_start(s);
    lemma_trim_start_is_suffix(s);
    lemma_trim_end_is_prefix(inner);
    let kept = trim_end(inner);
    if kept.len() > 0 {
        assert(kept.first() == inner.first());
    }
    assert(is_trimmed(kept));
    assert(trim_start(kept) == kept);
    assert(trim_end(kept) == kept);
}

/// The part of `s` between its leading and its trailing whitespace.
pub fn trim<'a>(s: &'a str) -> (r: &'a str)
    ensures
        r@ == trimmed(s@),
{
    let total: usize = s.unicode_len();
    let mut start: usize = 0;
    let mut end: usize = 0;
    let mut n: usize = 0;
    for c in it: s.chars()
        invariant
            total == s@.len(),
            it.seq() == s@,
            n == it.index(),
            start <= end <= n <= total,
            all_whitespace(s@, 0, start as int),
            all_whitespace(s@, end as int, n as int),
            start == end ==> start == n,
            start < end ==> !is_whitespace(s@[start as int]) && !is_whitespace(s@[end - 1]),
    {
        if char_is_whitespace(c) {
            if start == end {
                start = n + 1;
                end = n + 1;
            }
        } else {
            if start == end {
                start = n;
            }
            end = n + 1;
        }
        n = n + 1;
    }
    proof {
        let text = s@;
        lemma_trim_start_at(text, start as int);
        let tail = text.subrange(start as int, text.len() as int);
        assert forall|j: int| end - start <= j < tail.len() implies is_whitespace(
            #[trigger] tail[j],
        ) by {
            assert(tail[j] == text[j + start]);
        }
        if end > start {
            assert(tail[end - start - 1] == text[end - 1]);
        }
        lemma_trim_end_at(tail, end - start);
        assert(tail.subrange(0, end - start) =~= text.subrange(start as int, end as int));
    }
    s.substring_char(start, end)
}

/// The sixteen hexadecimal digits, with lower-case or upper-case letters.
pub open spec fn hex_digits(upper: bool) -> Seq<char> {
    if upper {
        seq!['0', '1', '2', '3', '4', '5', '6', '7', '8', '9', 'A', 'B', 'C', 'D', 'E', 'F']
    } else {
        seq!['0', '1', '2', '3', '4', '5', '6', '7', '8', '9', 'a', 'b', 'c', 'd', 'e', 'f']
    }
}

/// `value` as four hexadecimal digits, most significant first, padded with zeros.
pub open spec fn hex4_spec(value: u16, upper: bool) -> Seq<char> {
    seq![
        hex_digits(upper)[value as int / 0x1000],
        hex_digits(upper)[value as int / 0x100 % 0x10],
        hex_digits(upper)[value as int / 0x10 % 0x10],
        hex_digits(upper)[value as int % 0x10],
    ]
}

/// The digit for `nibble`, as a string of one character.
fn hex_digit(nibble: u16, upper: bool) -> (r: &'static str)
    requires
        nibble < 16,
    ensures
        r@ == seq![hex_digits(upper)[nibble as int]],
{
    proof {
        reveal_strlit("0");
        reveal_strlit("1");
        reveal_strlit("2");
        reveal_strlit("3");
        reveal_strlit("4");
        reveal_strlit("5");
        reveal_strlit("6");
        reveal_strlit("7");
        reveal_strlit("8");
        reveal_strlit("9");
        reveal_strlit("a");
        reveal_strlit("b");
        reveal_strlit("c");
        reveal_strlit("d");
        reveal_strlit("e");
        reveal_strlit("f");
        reveal_strlit("A");
        reveal_strlit("B");
        reveal_strlit("C");
        reveal_strlit("D");
        reveal_strlit("E");
        reveal_strlit("F");
    }
    let r = match nibble {
        0 => "0",
        1 => "1",
        2 => "2",
        3 => "3",
        4 => "4",
        5 => "5",
        6 => "6",
        7 => "7",
        8 => "8",
        9 => "9",
        10 => if upper { "A" } else { "a" },
        11 => if upper { "B" } else { "b" },
        12 => if upper { "C" } else { "c" },
        13 => if upper { "D" } else { "d" },
        14 => if upper { "E" } else { "e" },
        _ => if upper { "F" } else { "f" },
    };
    assert(r@ =~= seq![hex_digits(upper)[nibble as int]]);
    r
}

/// Appends `value` to `out` as four hexadecimal digits.
pub fn push_hex4(out: &mut String, value: u16, upper: bool)
    ensures
        final(out)@ == old(out)@ + hex4_spec(value, upper),
{
    out.append(hex_digit(value / 0x1000, upper));
    out.append(hex_digit(value / 0x100 % 0x10, upper));
    out.append(hex_digit(value / 0x10 % 0x10, upper));
    out.append(hex_digit(value % 0x10, upper));
    assert(out@ =~= old(out)@ + hex4_spec(value, upper));
}

/// `value` as four hexadecimal digits.
pub fn hex4(value: u16, upper: bool) -> (r: String)
    ensures
        r@ == hex4_spec(value, upper),
{
    let mut r = String::new();
    push_hex4(&mut r, value, upper);
    assert(r@ =~= hex4_spec(value, upper));
    r
}

} // verus!
