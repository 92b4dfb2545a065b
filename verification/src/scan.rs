//! Reading the captured output of a backend tool: markers and decimal figures.

use vstd::prelude::*;

verus! {

/// `needle` stands in `hay` at position `i`.
pub open spec fn occurs_at(needle: Seq<u8>, hay: Seq<u8>, i: int) -> bool {
    &&& 0 <= i
    &&& i + needle.len() <= hay.len()
    &&& hay.subrange(i, i + needle.len()) == needle
}

/// `needle` stands somewhere in `hay`.
pub open spec fn occurs(needle: Seq<u8>, hay: Seq<u8>) -> bool {
    exists|i: int| occurs_at(needle, hay, i)
}

/// The first `k` bytes of `needle` stand in `hay` at position `i`.
spec fn agree(needle: Seq<u8>, hay: Seq<u8>, i: int, k: int) -> bool {
    forall|j: int| 0 <= j < k ==> hay[i + j] == needle[j]
}

/// Whether `needle` stands somewhere in `hay`.
pub fn contains(hay: &[u8], needle: &[u8]) -> (r: bool)
    ensures
        r == occurs(needle@, hay@),
{
    let n = hay.len();
    let m = needle.len();
    if m > n {
        assert(forall|i: int| !occurs_at(needle@, hay@, i));
        return false;
    }
    let mut i: usize = 0;
    while i <= n - m
        invariant
            n == hay@.len(),
            m == needle@.len(),
            m <= n,
            i <= n - m + 1,
            forall|k: int| 0 <= k < i ==> !occurs_at(needle@, hay@, k),
        decreases n - m + 1 - i,
    {
        let mut j: usize = 0;
        while j < m && hay[i + j] == needle[j]
            invariant
                n == hay@.len(),
                m == needle@.len(),
                i + m <= n,
                j <= m,
                agree(needle@, hay@, i as int, j as int),
            decreases m - j,
        {
            j += 1;
        }
        if j == m {
            assert(hay@.subrange(i as int, i + m) =~= needle@);
            assert(occurs_at(needle@, hay@, i as int));
            return true;
        }
        assert(!occurs_at(needle@, hay@, i as int)) by {
            if occurs_at(needle@, hay@, i as int) {
                assert(hay@.subrange(i as int, i + m)[j as int] == needle@[j as int]);
            }
        }
        i += 1;
    }
    assert forall|k: int| !occurs_at(needle@, hay@, k) by {
        if occurs_at(needle@, hay@, k) {
            assert(k < i);
        }
    }
    false
}

/// `b` is one of the ASCII digits `0` to `9`.
pub open spec fn is_digit(b: u8) -> bool {
    48 <= b <= 57
}

/// The number that a run of ASCII digits writes in decimal. An empty run writes 0.
pub open spec fn number(digits: Seq<u8>) -> nat
    decreases digits.len(),
{
    if digits.len() == 0 {
        0
    } else {
        number(digits.drop_last()) * 10 + (digits.last() - 48) as nat
    }
}

/// The first position at or after `from` that holds a digit, or the length of `s` when none does.
pub open spec fn first_digit(s: Seq<u8>, from: int) -> int
    decreases s.len() - from,
{
    if from >= s.len() {
        s.len() as int
    } else if from >= 0 && is_digit(s[from]) {
        from
    } else {
        first_digit(s, from + 1)
    }
}

/// The first position at or after `from` that holds no digit, or the length of `s` when all do.
pub open spec fn digits_end(s: Seq<u8>, from: int) -> int
    decreases s.len() - from,
{
    if from >= s.len() {
        s.len() as int
    } else if from >= 0 && !is_digit(s[from]) {
        from
    } else {
        digits_end(s, from + 1)
    }
}

/// The first position at or after `from` that holds `b`, or the length of `s` when none does.
pub open spec fn first_byte(s: Seq<u8>, b: u8, from: int) -> int
    decreases s.len() - from,
{
    if from >= s.len() {
        s.len() as int
    } else if from >= 0 && s[from] == b {
        from
    } else {
        first_byte(s, b, from + 1)
    }
}

/// Where the longest run of digits that ends just before `to` begins.
pub open spec fn digits_start(s: Seq<u8>, to: int) -> int
    decreases to,
{
    if to <= 0 || to > s.len() {
        to
    } else if !is_digit(s[to - 1]) {
        to
    } else {
        digits_start(s, to - 1)
    }
}

/// `n`, or the largest `u32` where `n` is larger still.
pub open spec fn capped(n: nat) -> u32 {
    if n > u32::MAX {
        u32::MAX
    } else {
        n as u32
    }
}

fn find_digit(s: &[u8], from: usize) -> (r: usize)
    requires
        from <= s@.len(),
    ensures
        r == first_digit(s@, from as int),
        from <= r <= s@.len(),
        r < s@.len() ==> is_digit(s@[r as int]),
{
    let mut i = from;
    while i < s.len() && !(48 <= s[i] && s[i] <= 57)
        invariant
            from <= i <= s@.len(),
            first_digit(s@, from as int) == first_digit(s@, i as int),
        decreases s@.len() - i,
    {
        i += 1;
    }
    i
}

fn find_digits_end(s: &[u8], from: usize) -> (r: usize)
    requires
        from <= s@.len(),
    ensures
        r == digits_end(s@, from as int),
        from <= r <= s@.len(),
        forall|k: int| from <= k < r ==> is_digit(#[trigger] s@[k]),
{
    let mut i = from;
    while i < s.len() && 48 <= s[i] && s[i] <= 57
        invariant
            from <= i <= s@.len(),
            digits_end(s@, from as int) == digits_end(s@, i as int),
            forall|k: int| from <= k < i ==> is_digit(#[trigger] s@[k]),
        decreases s@.len() - i,
    {
        i += 1;
    }
    i
}

fn find_byte(s: &[u8], b: u8, from: usize) -> (r: usize)
    requires
        from <= s@.len(),
    ensures
        r == first_byte(s@, b, from as int),
        from <= r <= s@.len(),
{
    let mut i = from;
    while i < s.len() && s[i] != b
        invariant
            from <= i <= s@.len(),
            first_byte(s@, b, from as int) == first_byte(s@, b, i as int),
        decreases s@.len() - i,
    {
        i += 1;
    }
    i
}

fn find_digits_start(s: &[u8], to: usize) -> (r: usize)
    requires
        to <= s@.len(),
    ensures
        r == digits_start(s@, to as int),
        r <= to,
        forall|k: int| r <= k < to ==> is_digit(#[trigger] s@[k]),
{
    let mut i = to;
    while i > 0 && 48 <= s[i - 1] && s[i - 1] <= 57
        invariant
            i <= to <= s@.len(),
            digits_start(s@, to as int) == digits_start(s@, i as int),
            forall|k: int| i <= k < to ==> is_digit(#[trigger] s@[k]),
        decreases i,
    {
        i -= 1;
    }
    i
}

/// Reads the digits of `s` from `from` to `to` as one decimal number.
fn read_number(s: &[u8], from: usize, to: usize) -> (r: u32)
    requires
        from <= to <= s@.len(),
        forall|k: int| from <= k < to ==> is_digit(#[trigger] s@[k]),
    ensures
        r == capped(number(s@.subrange(from as int, to as int))),
{
    let mut acc: u32 = 0;
    let mut i = from;
    assert(s@.subrange(from as int, from as int) =~= Seq::<u8>::empty());
    while i < to
        invariant
            from <= i <= to <= s@.len(),
            forall|k: int| from <= k < to ==> is_digit(#[trigger] s@[k]),
            acc == capped(number(s@.subrange(from as int, i as int))),
        decreases to - i,
    {
        let ghost before = s@.subrange(from as int, i as int);
        let ghost after = s@.subrange(from as int, i + 1);
        assert(after.drop_last() =~= before);
        assert(after.last() == s@[i as int]);
        assert(is_digit(s@[i as int]));
        let digit: u64 = (s[i] - 48) as u64;
        let wide: u64 = acc as u64 * 10 + digit;
        acc = if wide > u32::MAX as u64 {
            u32::MAX
        } else {
            wide as u32
        };
        i += 1;
    }
    acc
}

/// The percentage that a volume written as a decimal fraction of full
/// volume stands for: the first number of `out` counts hundreds, and the
/// first two digits behind its decimal point, where it has them, count
/// tens and ones. `Volume: 0.45` reads as 45. Output without a digit reads
/// as nothing.
pub open spec fn fraction_reading(out: Seq<u8>) -> Option<nat> {
    let i = first_digit(out, 0);
    if i >= out.len() {
        None
    } else {
        let j = digits_end(out, i);
        let whole = number(out.subrange(i, j));
        let tenths: nat = if j + 1 < out.len() && out[j] == 46 && is_digit(out[j + 1]) {
            (out[j + 1] - 48) as nat
        } else {
            0
        };
        let hundredths: nat = if j + 2 < out.len() && out[j] == 46 && is_digit(out[j + 1])
            && is_digit(out[j + 2]) {
            (out[j + 2] - 48) as nat
        } else {
            0
        };
        Some(whole * 100 + tenths * 10 + hundredths)
    }
}

/// Reads a volume written as a decimal fraction of full volume as a
/// percentage, or as the largest `u32` where it is larger still.
pub fn read_fraction(out: &[u8]) -> (r: Option<u32>)
    ensures
        r == match fraction_reading(out@) {
            Some(n) => Some(capped(n)),
            None => None,
        },
{
    let i = find_digit(out, 0);
    if i >= out.len() {
        return None;
    }
    let j = find_digits_end(out, i);
    let whole = read_number(out, i, j);
    let mut rest: u64 = 0;
    let left = out.len() - j;
    if left > 1 && out[j] == 46 && 48 <= out[j + 1] && out[j + 1] <= 57 {
        rest = ((out[j + 1] - 48) as u64) * 10;
        if left > 2 && 48 <= out[j + 2] && out[j + 2] <= 57 {
            rest = rest + (out[j + 2] - 48) as u64;
        }
    }
    let wide: u64 = whole as u64 * 100 + rest;
    if wide > u32::MAX as u64 {
        Some(u32::MAX)
    } else {
        Some(wide as u32)
    }
}

/// The percentage that stands before the first percent sign of `out`: the
/// number written by the digits that end there. `front-left: 62259 /  95% /`
/// reads as 95. Output without a percent sign, or with no digit before the
/// first one, reads as nothing.
pub open spec fn percent_reading(out: Seq<u8>) -> Option<nat> {
    let p = first_byte(out, 37, 0);
    if p >= out.len() {
        None
    } else {
        let i = digits_start(out, p);
        if i >= p {
            None
        } else {
            Some(number(out.subrange(i, p)))
        }
    }
}

/// Reads the percentage that stands before the first percent sign, or the
/// largest `u32` where it is larger still.
pub fn read_percent(out: &[u8]) -> (r: Option<u32>)
    ensures
        r == match percent_reading(out@) {
            Some(n) => Some(capped(n)),
            None => None,
        },
{
    let p = find_byte(out, 37, 0);
    if p >= out.len() {
        return None;
    }
    let i = find_digits_start(out, p);
    if i >= p {
        return None;
    }
    Some(read_number(out, i, p))
}

} // verus!
