//! The PID registry's text format: one decimal process identifier, read back
//! with surrounding whitespace ignored.
use vstd::prelude::*;
use vstd::string::*;

verus! {

/// Name of the registry file under the system temp directory.
pub const PID_FILE_NAME: &'static str = "enhancecpu.pid";

/// Unicode `White_Space` characters, which `str::trim` strips.
pub open spec fn is_space(c: char) -> bool {
    ('\u{9}' <= c && c <= '\u{d}') || c == ' ' || c == '\u{85}' || c == '\u{a0}'
        || c == '\u{1680}' || ('\u{2000}' <= c && c <= '\u{200a}') || c == '\u{2028}'
        || c == '\u{2029}' || c == '\u{202f}' || c == '\u{205f}' || c == '\u{3000}'
}

pub open spec fn trim_start(s: Seq<char>) -> Seq<char>
    decreases s.len(),
{
    if s.len() > 0 && is_space(s[0]) {
        trim_start(s.drop_first())
    } else {
        s
    }
}

pub open spec fn trim_end(s: Seq<char>) -> Seq<char>
    decreases s.len(),
{
    if s.len() > 0 && is_space(s.last()) {
        trim_end(s.drop_last())
    } else {
        s
    }
}

/// `s` without leading and trailing whitespace.
pub open spec fn trimmed(s: Seq<char>) -> Seq<char> {
    trim_end(trim_start(s))
}

pub open spec fn is_digit(c: char) -> bool {
    '0' <= c && c <= '9'
}

pub open spec fn digit_of(c: char) -> nat {
    if is_digit(c) {
        (c as int - '0' as int) as nat
    } else {
        0
    }
}

pub open spec fn all_digits(s: Seq<char>) -> bool {
    forall|i: int| 0 <= i < s.len() ==> #[trigger] is_digit(s[i])
}

/// The number that a string of decimal digits denotes.
pub open spec fn digits_value(s: Seq<char>) -> nat
    decreases s.len(),
{
    if s.len() == 0 {
        0
    } else {
        digits_value(s.drop_last()) * 10 + digit_of(s.last())
    }
}

/// `s` without one leading `+`.
pub open spec fn unsigned_body(s: Seq<char>) -> Seq<char> {
    if s.len() > 0 && s[0] == '+' {
        s.drop_first()
    } else {
        s
    }
}

/// What a `u32` reads from `s`: an optional `+`, then one or more decimal
/// digits whose value fits in 32 bits.
pub open spec fn u32_value(s: Seq<char>) -> Option<u32> {
    let b = unsigned_body(s);
    if b.len() > 0 && all_digits(b) && digits_value(b) <= u32::MAX {
        Some(digits_value(b) as u32)
    } else {
        None
    }
}

/// The process identifier recorded by registry text `s`, if any.
pub open spec fn recorded_pid(s: Seq<char>) -> Option<u32> {
    u32_value(trimmed(s))
}

pub open spec fn digit_char(d: nat) -> char {
    if d == 0 { '0' }
    else if d == 1 { '1' }
    else if d == 2 { '2' }
    else if d == 3 { '3' }
    else if d == 4 { '4' }
    else if d == 5 { '5' }
    else if d == 6 { '6' }
    else if d == 7 { '7' }
    else if d == 8 { '8' }
    else { '9' }
}

/// The decimal representation of `n`, without sign or leading zeros.
pub open spec fn decimal_chars(n: nat) -> Seq<char>
    decreases n,
{
    if n < 10 {
        seq![digit_char(n)]
    } else {
        decimal_chars(n / 10).push(digit_char(n % 10))
    }
}

/// Relies on `u32`'s `Display` through `ToString::to_string`: the decimal
/// representation of the number.
#[verifier::external_body]
fn decimal_text(n: u32) -> (r: String)
    ensures
        r@ == decimal_chars(n as nat),
{
    n.to_string()
}

/// The text that the registry holds for process `pid`.
pub fn pid_text(pid: u32) -> (r: String)
    ensures
        r@ == decimal_chars(pid as nat),
{
    decimal_text(pid)
}

/// Whether `c` is whitespace in the sense of `str::trim`.
pub fn is_space_char(c: char) -> (r: bool)
    ensures
        r == is_space(c),
{
    ('\u{9}' <= c && c <= '\u{d}') || c == ' ' || c == '\u{85}' || c == '\u{a0}'
        || c == '\u{1680}' || ('\u{2000}' <= c && c <= '\u{200a}') || c == '\u{2028}'
        || c == '\u{2029}' || c == '\u{202f}' || c == '\u{205f}' || c == '\u{3000}'
}

proof fn lemma_prefix_le(s: Seq<char>, k: int)
    requires
        0 <= k <= s.len(),
    ensures
        digits_value(s.subrange(0, k)) <= digits_value(s),
    decreases s.len(),
{
    if k < s.len() {
        lemma_prefix_le(s.drop_last(), k);
        assert(s.drop_last().subrange(0, k) =~= s.subrange(0, k));
    } else {
        assert(s.subrange(0, k) =~= s);
    }
}

/// Reads a `u32` from the characters `lo..hi` of `s`.
fn parse_u32_range(s: &str, lo: usize, hi: usize) -> (r: Option<u32>)
    requires
        lo <= hi <= s@.len(),
    ensures
        r == u32_value(s@.subrange(lo as int, hi as int)),
{
    let ghost t = s@.subrange(lo as int, hi as int);
    let mut i: usize = lo;
    if lo < hi && s.get_char(lo) == '+' {
        i = lo + 1;
    }
    let start: usize = i;
    let ghost b = s@.subrange(start as int, hi as int);
    assert(b =~= unsigned_body(t));
    if start == hi {
        return None;
    }
    let mut acc: u32 = 0;
    while i < hi
        invariant
            lo <= start <= i <= hi <= s@.len(),
            b == s@.subrange(start as int, hi as int),
            b == unsigned_body(t),
            t == s@.subrange(lo as int, hi as int),
            all_digits(s@.subrange(start as int, i as int)),
            acc as nat == digits_value(s@.subrange(start as int, i as int)),
        decreases hi - i,
    {
        let c = s.get_char(i);
        let ghost q = s@.subrange(start as int, i as int);
        let ghost p = s@.subrange(start as int, i + 1);
        assert(b[i - start] == c);
        if !('0' <= c && c <= '9') {
            assert(!is_digit(b[i - start]));
            assert(!all_digits(b));
            assert(u32_value(t).is_none());
            return None;
        }
        let d: u32 = (c as u32) - ('0' as u32);
        let next: u64 = acc as u64 * 10 + d as u64;
        assert(p.drop_last() =~= q);
        assert(p.last() == c);
        assert(digit_of(c) == d as nat);
        assert(digits_value(p) == next as nat);
        assert(p =~= b.subrange(0, i + 1 - start));
        if next > u32::MAX as u64 {
            proof {
                lemma_prefix_le(b, i + 1 - start);
                assert(digits_value(b) > u32::MAX);
                assert(u32_value(t).is_none());
            }
            return None;
        }
        assert forall|j: int| 0 <= j < p.len() implies #[trigger] is_digit(p[j]) by {
            if j < q.len() {
                assert(p[j] == q[j]);
            }
        }
        acc = next as u32;
        i = i + 1;
    }
    assert(s@.subrange(start as int, i as int) =~= b);
    Some(acc)
}

/// The process identifier that registry text `text` records: the text,
/// trimmed of whitespace, read as a `u32`; `None` where it does not parse.
pub fn parse_pid(text: &str) -> (r: Option<u32>)
    ensures
        r == recorded_pid(text@),
{
    let n = text.unicode_len();
    let mut lo: usize = 0;
    assert(text@.subrange(0, n as int) =~= text@);
    while lo < n && is_space_char(text.get_char(lo))
        invariant
            lo <= n == text@.len(),
            trim_start(text@) == trim_start(text@.subrange(lo as int, n as int)),
        decreases n - lo,
    {
        assert(text@.subrange(lo as int, n as int).drop_first() =~= text@.subrange(
            lo + 1,
            n as int,
        ));
        lo = lo + 1;
    }
    assert(trim_start(text@) == text@.subrange(lo as int, n as int));
    let mut hi: usize = n;
    while hi > lo && is_space_char(text.get_char(hi - 1))
        invariant
            lo <= hi <= n == text@.len(),
            trimmed(text@) == trim_end(text@.subrange(lo as int, hi as int)),
        decreases hi,
    {
        assert(text@.subrange(lo as int, hi as int).drop_last() =~= text@.subrange(
            lo as int,
            hi - 1,
        ));
        hi = hi - 1;
    }
    assert(trimmed(text@) == text@.subrange(lo as int, hi as int));
    parse_u32_range(text, lo, hi)
}

proof fn lemma_decimal_chars(n: nat)
    ensures
        decimal_chars(n).len() > 0,
        all_digits(decimal_chars(n)),
        digits_value(decimal_chars(n)) == n,
    decreases n,
{
    if n >= 10 {
        lemma_decimal_chars(n / 10);
        let s = decimal_chars(n);
        assert(s.drop_last() =~= decimal_chars(n / 10));
        assert forall|i: int| 0 <= i < s.len() implies #[trigger] is_digit(s[i]) by {
            if i < s.len() - 1 {
                assert(s[i] == decimal_chars(n / 10)[i]);
            }
        }
    } else {
        assert(digits_value(decimal_chars(n).drop_last()) == 0);
    }
}

/// What the registry holds for a process reads back as that process's
/// identifier.
pub proof fn lemma_pid_round_trip(pid: u32)
    ensures
        recorded_pid(decimal_chars(pid as nat)) == Some(pid),
{
    let s = decimal_chars(pid as nat);
    lemma_decimal_chars(pid as nat);
    assert(is_digit(s[0]) && is_digit(s.last()));
    assert(trim_start(s) == s);
    assert(trim_end(s) == s);
    assert(unsigned_body(s) == s);
}

} // verus!
