//! Arithmetic and input normalisation helpers.

use vstd::prelude::*;
use vstd::math::{max, min};
use vstd::string::StrSliceExecFns;

verus! {

/// Saturating increment for u64 counters: `value + 1`, clamped at `u64::MAX`.
pub fn saturating_increment_u64(value: u64) -> (r: u64)
    ensures
        r == (if value < u64::MAX {
            value + 1
        } else {
            u64::MAX as int
        }),
{
    value.saturating_add(1)
}

/// Saturating addition with an explicit cap: `min(value + delta, cap)`, where
/// the sum is first clamped at `u64::MAX`.
pub fn saturating_add_with_cap(value: u64, delta: u64, cap: u64) -> (r: u64)
    ensures
        r == min(min(value + delta, u64::MAX as int), cap as int),
{
    let sum = value.saturating_add(delta);
    if sum <= cap {
        sum
    } else {
        cap
    }
}

/// Clamps `amount` to `0..=max_amount`: negative amounts become zero, and the
/// result never exceeds `max_amount` (which wins when it is negative).
pub fn clamp_amount(amount: i128, max_amount: i128) -> (r: i128)
    ensures
        r == min(max(amount as int, 0), max_amount as int),
{
    let non_negative = if amount < 0 {
        0
    } else {
        amount
    };
    if non_negative <= max_amount {
        non_negative
    } else {
        max_amount
    }
}

/// Unicode `White_Space` code points: what `str::trim` removes.
pub open spec fn is_white_space(c: char) -> bool {
    ||| ('\u{9}' <= c && c <= '\u{d}')
    ||| c == ' '
    ||| c == '\u{85}'
    ||| c == '\u{a0}'
    ||| c == '\u{1680}'
    ||| ('\u{2000}' <= c && c <= '\u{200a}')
    ||| c == '\u{2028}'
    ||| c == '\u{2029}'
    ||| c == '\u{202f}'
    ||| c == '\u{205f}'
    ||| c == '\u{3000}'
}

/// `s` without its leading white space.
pub open spec fn trim_start(s: Seq<char>) -> Seq<char>
    decreases s.len(),
{
    if s.len() > 0 && is_white_space(s[0]) {
        trim_start(s.drop_first())
    } else {
        s
    }
}

/// `s` without its trailing white space.
pub open spec fn trim_end(s: Seq<char>) -> Seq<char>
    decreases s.len(),
{
    if s.len() > 0 && is_white_space(s.last()) {
        trim_end(s.drop_last())
    } else {
        s
    }
}

/// `s` without leading and trailing white space.
pub open spec fn trimmed(s: Seq<char>) -> Seq<char> {
    trim_end(trim_start(s))
}

/// Whether `c` has the Unicode `White_Space` property.
fn white_space(c: char) -> (r: bool)
    ensures
        r == is_white_space(c),
{
    ('\u{9}' <= c && c <= '\u{d}') || c == ' ' || c == '\u{85}' || c == '\u{a0}' || c
        == '\u{1680}' || ('\u{2000}' <= c && c <= '\u{200a}') || c == '\u{2028}' || c == '\u{2029}'
        || c == '\u{202f}' || c == '\u{205f}' || c == '\u{3000}'
}

/// The slice of `s` without leading and trailing white space, as `str::trim`
/// gives it.
fn trim(s: &str) -> (r: &str)
    ensures
        r@ == trimmed(s@),
{
    let n = s.unicode_len();
    let mut start: usize = 0;
    proof {
        assert(s@.subrange(0, n as int) =~= s@);
    }
    while start < n && white_space(s.get_char(start))
        invariant
            start <= n,
            n == s@.len(),
            trim_start(s@.subrange(start as int, n as int)) == trim_start(s@),
        decreases n - start,
    {
        proof {
            let sub = s@.subrange(start as int, n as int);
            assert(sub.drop_first() =~= s@.subrange(start + 1, n as int));
        }
        start += 1;
    }
    proof {
        let sub = s@.subrange(start as int, n as int);
        assert(trim_start(sub) == sub);
    }
    let mut end: usize = n;
    while end > start && white_space(s.get_char(end - 1))
        invariant
            start <= end <= n,
            n == s@.len(),
            trim_end(s@.subrange(start as int, end as int)) == trimmed(s@),
        decreases end,
    {
        proof {
            let sub = s@.subrange(start as int, end as int);
            assert(sub.drop_last() =~= s@.subrange(start as int, end - 1));
        }
        end -= 1;
    }
    proof {
        let sub = s@.subrange(start as int, end as int);
        assert(trim_end(sub) == sub);
    }
    s.substring_char(start, end)
}

/// Whether the first character of `s` is `c`, as `str::starts_with` with a
/// `char` pattern gives it.
fn starts_with_char(s: &str, c: char) -> (r: bool)
    ensures
        r == (s@.len() > 0 && s@[0] == c),
{
    s.unicode_len() > 0 && s.get_char(0) == c
}

/// Validates that a Stellar address string, once trimmed, is non-empty and
/// starts with 'G'. Returns the trimmed address, or `None`.
pub fn normalize_stellar_address(addr: &str) -> (r: Option<&str>)
    ensures
        match r {
            Some(t) => t@ == trimmed(addr@) && t@.len() > 0 && t@[0] == 'G',
            None => !(trimmed(addr@).len() > 0 && trimmed(addr@)[0] == 'G'),
        },
{
    let trimmed_addr = trim(addr);
    if trimmed_addr.is_empty() || !starts_with_char(trimmed_addr, 'G') {
        return None;
    }
    Some(trimmed_addr)
}

/// Validates an expiry: it must be strictly after `now` and at most
/// `max_window` seconds after it.
pub fn validate_expiry(now: u64, expiry: u64, max_window: u64) -> (r: Result<u64, &'static str>)
    ensures
        expiry <= now ==> r == Err::<u64, &'static str>("Expiry must be in the future"),
        now < expiry && expiry - now > max_window ==> r == Err::<u64, &'static str>(
            "Expiry too far in the future",
        ),
        now < expiry && expiry - now <= max_window ==> r == Ok::<u64, &'static str>(expiry),
{
    if expiry <= now {
        return Err("Expiry must be in the future");
    }
    if expiry - now > max_window {
        return Err("Expiry too far in the future");
    }
    Ok(expiry)
}

/// The next value of a `u64` counter, or `None` when it would overflow.
pub fn checked_increment(value: u64) -> (r: Option<u64>)
    ensures
        r == (if value < u64::MAX {
            Some((value + 1) as u64)
        } else {
            None
        }),
{
    value.checked_add(1)
}

/// `a + b`, or `None` when the sum leaves the `i128` range.
pub fn checked_add_amount(a: i128, b: i128) -> (r: Option<i128>)
    ensures
        r == (if i128::MIN <= a + b <= i128::MAX {
            Some((a + b) as i128)
        } else {
            None
        }),
{
    a.checked_add(b)
}

/// `a - b`, or `None` when the difference leaves the `i128` range.
pub fn checked_sub_amount(a: i128, b: i128) -> (r: Option<i128>)
    ensures
        r == (if i128::MIN <= a - b <= i128::MAX {
            Some((a - b) as i128)
        } else {
            None
        }),
{
    a.checked_sub(b)
}

} // verus!
