//! Byte- and character-level helpers for the module's ASCII protocol: decimal
//! numbers, blank trimming, substring search and line splitting.
use vstd::prelude::*;

verus! {

/// True of the ASCII digits `0` to `9`.
pub open spec fn is_digit(b: u8) -> bool {
    0x30 <= b <= 0x39
}

/// True of the bytes trimmed from a numeric reply: ASCII whitespace and ASCII
/// control bytes (everything up to and including space, and DEL).
pub open spec fn is_blank(b: u8) -> bool {
    b <= 0x20 || b == 0x7f
}

/// True when every byte of `s` is ASCII.
pub open spec fn is_ascii_bytes(s: Seq<u8>) -> bool {
    forall|i: int| 0 <= i < s.len() ==> #[trigger] s[i] < 0x80
}

/// The shortest decimal spelling of `n` in ASCII, most significant digit first.
pub open spec fn decimal_ascii(n: nat) -> Seq<u8>
    decreases n,
{
    if n < 10 {
        seq![(n + 0x30) as u8]
    } else {
        decimal_ascii(n / 10).push((n % 10 + 0x30) as u8)
    }
}

/// The value of a run of decimal digits, most significant first.
pub open spec fn digits_value(s: Seq<u8>) -> nat
    decreases s.len(),
{
    if s.len() == 0 {
        0
    } else {
        digits_value(s.drop_last()) * 10 + (s.last() as int - 0x30) as nat
    }
}

/// True when `s` is a non-empty run of decimal digits.
pub open spec fn all_digits(s: Seq<u8>) -> bool {
    s.len() > 0 && forall|i: int| 0 <= i < s.len() ==> #[trigger] is_digit(s[i])
}

/// The unsigned 32-bit number written in base 10 by `s`: an optional `+`, then
/// at least one digit and nothing else, with a value that fits in 32 bits.
pub open spec fn parse_u32(s: Seq<u8>) -> Option<u32> {
    let digits = if s.len() > 0 && s[0] == 0x2b {
        s.drop_first()
    } else {
        s
    };
    digits_u32(digits)
}

/// The value of the digit run `d` when it is one and fits in 32 bits.
pub open spec fn digits_u32(d: Seq<u8>) -> Option<u32> {
    if all_digits(d) && digits_value(d) <= u32::MAX {
        Some(digits_value(d) as u32)
    } else {
        None
    }
}

/// `s` without its leading blank bytes.
pub open spec fn trim_start(s: Seq<u8>) -> Seq<u8>
    decreases s.len(),
{
    if s.len() > 0 && is_blank(s[0]) {
        trim_start(s.drop_first())
    } else {
        s
    }
}

/// `s` without its trailing blank bytes.
pub open spec fn trim_end(s: Seq<u8>) -> Seq<u8>
    decreases s.len(),
{
    if s.len() > 0 && is_blank(s.last()) {
        trim_end(s.drop_last())
    } else {
        s
    }
}

/// `s` without its leading and trailing blank bytes.
pub open spec fn trim_blank(s: Seq<u8>) -> Seq<u8> {
    trim_end(trim_start(s))
}

/// Appends the decimal spelling of `n` to `out`.
pub fn push_decimal(out: &mut Vec<u8>, n: u32)
    ensures
        final(out)@ == old(out)@ + decimal_ascii(n as nat),
    decreases n,
{
    if n >= 10 {
        push_decimal(out, n / 10);
    }
    let digit: u8 = (n % 10) as u8 + 0x30;
    out.push(digit);
    proof {
        if n < 10 {
            assert(decimal_ascii(n as nat) =~= seq![digit]);
        }
    }
}

/// The bounds of what remains of `s` once its leading and trailing blank
/// bytes are removed.
pub fn trimmed_bounds(s: &[u8]) -> (r: (usize, usize))
    ensures
        r.0 <= r.1 <= s@.len(),
        s@.subrange(r.0 as int, r.1 as int) == trim_blank(s@),
{
    let n = s.len();
    let mut lo: usize = 0;
    assert(s@.subrange(0, n as int) =~= s@);
    while lo < n && (s[lo] <= 0x20 || s[lo] == 0x7f)
        invariant
            lo <= n == s@.len(),
            trim_start(s@.subrange(lo as int, n as int)) == trim_start(s@),
        decreases n - lo,
    {
        assert(s@.subrange(lo as int + 1, n as int) =~= s@.subrange(lo as int, n as int).drop_first());
        lo = lo + 1;
    }
    let mut hi: usize = n;
    while hi > lo && (s[hi - 1] <= 0x20 || s[hi - 1] == 0x7f)
        invariant
            lo <= hi <= n == s@.len(),
            trim_start(s@) == s@.subrange(lo as int, n as int),
            trim_end(s@.subrange(lo as int, hi as int)) == trim_blank(s@),
        decreases hi,
    {
        assert(s@.subrange(lo as int, hi as int - 1) =~= s@.subrange(lo as int, hi as int).drop_last());
        hi = hi - 1;
    }
    (lo, hi)
}

/// The number that `s[lo..hi]` writes in base 10, as `parse_u32` reads it.
pub fn parse_u32_in(s: &[u8], lo: usize, hi: usize) -> (r: Option<u32>)
    requires
        lo <= hi <= s@.len(),
    ensures
        r == parse_u32(s@.subrange(lo as int, hi as int)),
{
    let ghost whole = s@.subrange(lo as int, hi as int);
    let mut start: usize = lo;
    if lo < hi && s[lo] == 0x2b {
        start = lo + 1;
    }
    let ghost digits = s@.subrange(start as int, hi as int);
    assert(digits =~= (if whole.len() > 0 && whole[0] == 0x2b {
        whole.drop_first()
    } else {
        whole
    }));
    if start == hi {
        return None;
    }
    let mut value: u64 = 0;
    let mut overflow = false;
    let mut i: usize = start;
    while i < hi
        invariant
            start <= i <= hi <= s@.len(),
            digits == s@.subrange(start as int, hi as int),
            whole == s@.subrange(lo as int, hi as int),
            parse_u32(whole) == digits_u32(digits),
            forall|k: int| start <= k < i ==> #[trigger] is_digit(s@[k]),
            !overflow ==> value == digits_value(s@.subrange(start as int, i as int)),
            !overflow ==> value <= u32::MAX,
            overflow ==> digits_value(s@.subrange(start as int, i as int)) > u32::MAX,
        decreases hi - i,
    {
        let b = s[i];
        if b < 0x30 || b > 0x39 {
            assert(digits[i - start] == s@[i as int]);
            assert(!is_digit(digits[i - start]));
            return None;
        }
        let ghost prev = s@.subrange(start as int, i as int);
        assert(s@.subrange(start as int, i as int + 1).drop_last() =~= prev);
        if !overflow {
            value = value * 10 + (b - 0x30) as u64;
            if value > 0xffff_ffff {
                overflow = true;
            }
        }
        i = i + 1;
    }
    assert(s@.subrange(start as int, hi as int) =~= digits);
    assert(all_digits(digits)) by {
        assert forall|k: int| 0 <= k < digits.len() implies #[trigger] is_digit(digits[k]) by {
            assert(digits[k] == s@[start + k]);
        }
    }
    if overflow {
        None
    } else {
        Some(value as u32)
    }
}

/// True when `needle` occurs in `hay` starting at position `i`.
pub open spec fn occurs_at(hay: Seq<u8>, needle: Seq<u8>, i: int) -> bool {
    0 <= i && i + needle.len() <= hay.len() && hay.subrange(i, i + needle.len()) == needle
}

/// True when `needle` occurs somewhere in `hay`.
pub open spec fn contains_bytes(hay: Seq<u8>, needle: Seq<u8>) -> bool {
    exists|i: int| #[trigger] occurs_at(hay, needle, i)
}

/// Whether `needle` occurs in `hay`.
pub fn find_bytes(hay: &[u8], needle: &[u8]) -> (r: bool)
    ensures
        r == contains_bytes(hay@, needle@),
{
    if needle.len() > hay.len() {
        assert forall|i: int| !#[trigger] occurs_at(hay@, needle@, i) by {}
        return false;
    }
    if needle.len() == 0 {
        assert(hay@.subrange(0, 0) =~= needle@);
        assert(occurs_at(hay@, needle@, 0));
        return true;
    }
    let hlen = hay.len();
    let count = hlen - needle.len() + 1;
    let mut i: usize = 0;
    while i < count
        invariant
            count + needle@.len() == hay@.len() + 1,
            hlen == hay@.len(),
            i <= count,
            forall|k: int| 0 <= k < i ==> !#[trigger] occurs_at(hay@, needle@, k),
        decreases count - i,
    {
        let mut j: usize = 0;
        while j < needle.len()
            invariant
                i < count,
                hlen == hay@.len(),
                i + needle@.len() <= hay@.len(),
                count + needle@.len() == hay@.len() + 1,
                j <= needle@.len(),
                forall|m: int| 0 <= m < j ==> hay@[i + m] == needle@[m],
            ensures
                j < needle@.len() ==> hay@[i + j] != needle@[j as int],
            decreases needle@.len() - j,
        {
            if hay[i + j] != needle[j] {
                break;
            }
            j = j + 1;
        }
        if j == needle.len() {
            assert(hay@.subrange(i as int, i + needle@.len()) =~= needle@);
            assert(occurs_at(hay@, needle@, i as int));
            return true;
        }
        assert(hay@.subrange(i as int, i + needle@.len())[j as int] != needle@[j as int]);
        i = i + 1;
    }
    assert forall|k: int| !#[trigger] occurs_at(hay@, needle@, k) by {
        if 0 <= k && k + needle@.len() <= hay@.len() {
            assert(k < i);
        }
    }
    false
}

/// `s` cut at every line feed, in order; the line feeds themselves are
/// dropped, so a line feed at the end leaves an empty last piece.
pub open spec fn split_lines(s: Seq<char>) -> Seq<Seq<char>>
    decreases s.len(),
{
    if s.len() == 0 {
        seq![Seq::empty()]
    } else {
        let front = split_lines(s.drop_last());
        if s.last() == '\n' {
            front.push(Seq::empty())
        } else {
            front.update(front.len() - 1, front.last().push(s.last()))
        }
    }
}

/// The character sequences of a list of strings.
pub open spec fn string_views(v: Seq<String>) -> Seq<Seq<char>> {
    v.map_values(|p: String| p@)
}

/// Text without a line feed is a single piece: the text itself.
pub proof fn lemma_split_lines_no_feed(s: Seq<char>)
    requires
        forall|i: int| 0 <= i < s.len() ==> s[i] != '\n',
    ensures
        split_lines(s) == seq![s],
    decreases s.len(),
{
    if s.len() > 0 {
        lemma_split_lines_no_feed(s.drop_last());
        assert(s.drop_last().push(s.last()) =~= s);
        assert(split_lines(s) =~= seq![s]);
    } else {
        assert(s =~= Seq::<char>::empty());
    }
}

/// `s` cut at every line feed, as `split_lines` describes.
pub fn split_lines_of(s: &str) -> (r: Vec<String>)
    ensures
        string_views(r@) == split_lines(s@),
{
    let n = s.unicode_len();
    let mut pieces: Vec<String> = Vec::new();
    let mut start: usize = 0;
    let mut i: usize = 0;
    assert(s@.subrange(0, 0) =~= Seq::<char>::empty());
    while i < n
        invariant
            start <= i <= n == s@.len(),
            string_views(pieces@).push(s@.subrange(start as int, i as int)) == split_lines(
                s@.subrange(0, i as int),
            ),
        decreases n - i,
    {
        let c = s.get_char(i);
        let ghost front = split_lines(s@.subrange(0, i as int));
        assert(s@.subrange(0, i as int + 1).drop_last() =~= s@.subrange(0, i as int));
        if c == '\n' {
            let piece = s.substring_char(start, i).to_owned();
            pieces.push(piece);
            start = i + 1;
            assert(string_views(pieces@) =~= front);
            assert(s@.subrange(start as int, start as int) =~= Seq::<char>::empty());
        } else {
            assert(s@.subrange(start as int, i as int).push(c) =~= s@.subrange(start as int, i as int + 1));
            assert(string_views(pieces@).push(s@.subrange(start as int, i as int + 1)) =~= front.update(
                front.len() - 1,
                front.last().push(c),
            ));
        }
        i = i + 1;
    }
    let last = s.substring_char(start, n).to_owned();
    pieces.push(last);
    assert(s@.subrange(0, n as int) =~= s@);
    assert(string_views(pieces@) =~= split_lines(s@));
    pieces
}

} // verus!
