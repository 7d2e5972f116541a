//! Numbers as the registry writes them: decimal, hexadecimal with `0x`, with or without a
//! sign.

use vstd::prelude::*;
use vstd::string::*;

verus! {

/// The value of a digit in a base of ten or sixteen, if the character is one.
pub open spec fn spec_digit(c: char, base: nat) -> Option<nat> {
    if '0' <= c <= '9' {
        Some((c as nat - '0' as nat) as nat)
    } else if base == 16 && 'a' <= c <= 'f' {
        Some((c as nat - 'a' as nat + 10) as nat)
    } else if base == 16 && 'A' <= c <= 'F' {
        Some((c as nat - 'A' as nat + 10) as nat)
    } else {
        None
    }
}

/// The number that the characters from `from` up to `to` spell in a base, if each is a digit.
pub open spec fn spec_digits(s: Seq<char>, base: nat, from: int, to: int) -> Option<nat>
    decreases to - from,
{
    if to <= from || from < 0 || to > s.len() {
        Some(0)
    } else {
        match (spec_digits(s, base, from, to - 1), spec_digit(s[to - 1], base)) {
            (Some(v), Some(d)) => Some(v * base + d),
            _ => None,
        }
    }
}

/// The unsigned number that a text spells in decimal, if it spells one that fits.
pub open spec fn spec_parse_u64(s: Seq<char>) -> Option<u64> {
    if s.len() == 0 {
        None
    } else {
        match spec_digits(s, 10, 0, s.len() as int) {
            Some(v) => if v <= u64::MAX {
                Some(v as u64)
            } else {
                None
            },
            None => None,
        }
    }
}

/// The magnitude that a text spells from `from` on: hexadecimal after `0x`, decimal otherwise.
pub open spec fn spec_magnitude(s: Seq<char>, from: int) -> Option<nat> {
    if from + 2 < s.len() && s[from] == '0' && (s[from + 1] == 'x' || s[from + 1] == 'X') {
        spec_digits(s, 16, from + 2, s.len() as int)
    } else if from < s.len() {
        spec_digits(s, 10, from, s.len() as int)
    } else {
        None
    }
}

/// The signed number that a text spells, if it spells one that fits.
pub open spec fn spec_parse_i64(s: Seq<char>) -> Option<i64> {
    if s.len() > 0 && s[0] == '-' {
        match spec_magnitude(s, 1) {
            Some(v) => if v <= i64::MAX {
                Some((-(v as int)) as i64)
            } else {
                None
            },
            None => None,
        }
    } else {
        match spec_magnitude(s, 0) {
            Some(v) => if v <= i64::MAX {
                Some(v as i64)
            } else {
                None
            },
            None => None,
        }
    }
}

/// A longer run of digits spells no smaller a number, and spells none if a shorter one does
/// not.
pub proof fn lemma_digits_grow(s: Seq<char>, base: nat, from: int, mid: int, to: int)
    requires
        0 <= from <= mid <= to <= s.len(),
        base > 0,
    ensures
        spec_digits(s, base, from, mid) is None ==> spec_digits(s, base, from, to) is None,
        spec_digits(s, base, from, to) is Some ==> spec_digits(s, base, from, mid) is Some
            && spec_digits(s, base, from, mid)->0 <= spec_digits(s, base, from, to)->0,
    decreases to - mid,
{
    if mid < to {
        lemma_digits_grow(s, base, from, mid, to - 1);
        if spec_digits(s, base, from, to) is Some {
            let v = spec_digits(s, base, from, to - 1)->0;
            assert(v <= v * base) by (nonlinear_arith)
                requires
                    base > 0,
            ;
        }
    }
}

/// The value of a digit.
fn digit(c: char, base: u64) -> (r: Option<u64>)
    requires
        base == 10 || base == 16,
    ensures
        match r {
            Some(d) => spec_digit(c, base as nat) == Some(d as nat) && d < base,
            None => spec_digit(c, base as nat) is None,
        },
{
    if '0' <= c && c <= '9' {
        Some((c as u64) - ('0' as u64))
    } else if base == 16 && 'a' <= c && c <= 'f' {
        Some((c as u64) - ('a' as u64) + 10)
    } else if base == 16 && 'A' <= c && c <= 'F' {
        Some((c as u64) - ('A' as u64) + 10)
    } else {
        None
    }
}

/// Reads the digits of `s` from `from` on, in a base of ten or sixteen.
fn digits(s: &str, n: usize, base: u64, from: usize) -> (r: Option<u64>)
    requires
        n == s@.len(),
        from <= n,
        base == 10 || base == 16,
    ensures
        match r {
            Some(v) => spec_digits(s@, base as nat, from as int, n as int) == Some(v as nat),
            None => match spec_digits(s@, base as nat, from as int, n as int) {
                Some(v) => v > u64::MAX,
                None => true,
            },
        },
{
    let mut acc: u64 = 0;
    let mut i: usize = from;
    while i < n
        invariant
            n == s@.len(),
            from <= i <= n,
            base == 10 || base == 16,
            spec_digits(s@, base as nat, from as int, i as int) == Some(acc as nat),
        decreases n - i,
    {
        let c = s.get_char(i);
        let d = match digit(c, base) {
            Some(d) => d,
            None => {
                proof {
                    lemma_digits_grow(s@, base as nat, from as int, i + 1, n as int);
                }
                return None;
            },
        };
        let next = match acc.checked_mul(base) {
            Some(v) => v.checked_add(d),
            None => None,
        };
        match next {
            Some(v) => {
                acc = v;
            },
            None => {
                proof {
                    lemma_digits_grow(s@, base as nat, from as int, i + 1, n as int);
                    assert(acc * base + d > u64::MAX);
                }
                return None;
            },
        }
        i += 1;
    }
    Some(acc)
}

/// Reads an unsigned decimal number.
pub fn parse_u64(s: &str) -> (r: Option<u64>)
    ensures
        r == spec_parse_u64(s@),
{
    let n = s.unicode_len();
    if n == 0 {
        None
    } else {
        digits(s, n, 10, 0)
    }
}

/// Reads the magnitude of a number from `from` on.
fn magnitude(s: &str, n: usize, from: usize) -> (r: Option<u64>)
    requires
        n == s@.len(),
        from <= n,
    ensures
        match r {
            Some(v) => spec_magnitude(s@, from as int) == Some(v as nat),
            None => match spec_magnitude(s@, from as int) {
                Some(v) => v > u64::MAX,
                None => true,
            },
        },
{
    if n - from > 2 && s.get_char(from) == '0' && (s.get_char(from + 1) == 'x' || s.get_char(
        from + 1,
    ) == 'X') {
        digits(s, n, 16, from + 2)
    } else if from < n {
        digits(s, n, 10, from)
    } else {
        None
    }
}

/// Reads a signed number: decimal, or hexadecimal after `0x`.
pub fn parse_i64(s: &str) -> (r: Option<i64>)
    ensures
        r == spec_parse_i64(s@),
{
    let n = s.unicode_len();
    if n > 0 && s.get_char(0) == '-' {
        match magnitude(s, n, 1) {
            Some(v) => if v <= 0x7fff_ffff_ffff_ffff {
                Some(-(v as i64))
            } else {
                None
            },
            None => None,
        }
    } else {
        match magnitude(s, n, 0) {
            Some(v) => if v <= 0x7fff_ffff_ffff_ffff {
                Some(v as i64)
            } else {
                None
            },
            None => None,
        }
    }
}

} // verus!
