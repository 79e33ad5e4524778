//! The notations in which a user may write a slot number.
use crate::name_codec::hex_digit_value;
use vstd::prelude::*;

verus! {

/// The format of the `BootNext` value.
#[derive(Debug, Clone, Copy, PartialEq, Eq, Structural)]
pub enum LoadOptionFormat {
    /// The value is a hex number.
    Hex,
    /// The value is a decimal number.
    Dec,
}

/// The base of a format.
pub open spec fn format_radix(f: LoadOptionFormat) -> u32 {
    match f {
        LoadOptionFormat::Hex => 16,
        LoadOptionFormat::Dec => 10,
    }
}

/// The value of `c` as a digit in base `radix` (at most 16), if it is one.
pub open spec fn digit_in_radix(c: char, radix: u32) -> Option<int> {
    match hex_digit_value(c) {
        Some(v) => if v < radix {
            Some(v)
        } else {
            None
        },
        None => None,
    }
}

/// The digits of a number as written: one leading `+` is allowed.
pub open spec fn unsigned_digits(s: Seq<char>) -> Seq<char> {
    if s.len() > 0 && s[0] == '+' {
        s.drop_first()
    } else {
        s
    }
}

/// Every character of `d` is a digit in base `radix`.
pub open spec fn all_digits(d: Seq<char>, radix: u32) -> bool {
    forall|i: int| 0 <= i < d.len() ==> (#[trigger] digit_in_radix(d[i], radix)) is Some
}

/// The number that the first `n` digits of `d` spell in base `radix`.
pub open spec fn prefix_value(d: Seq<char>, n: int, radix: u32) -> int
    decreases n,
{
    if n <= 0 {
        0
    } else {
        prefix_value(d, n - 1, radix) * radix + digit_in_radix(d[n - 1], radix)->Some_0
    }
}

/// The slot that `s` spells in base `radix`: an optional `+`, then one or
/// more digits, with a value that fits in 16 bits.
pub open spec fn parsed_slot(s: Seq<char>, radix: u32) -> Option<u16> {
    let d = unsigned_digits(s);
    if d.len() > 0 && all_digits(d, radix) && prefix_value(d, d.len() as int, radix) <= 0xFFFF {
        Some(prefix_value(d, d.len() as int, radix) as u16)
    } else {
        None
    }
}

/// A value that could not be read in the format requested.
#[derive(Debug, Clone, Copy, PartialEq, Eq, Structural)]
pub struct ParseBootNextError {
    /// The format in which the value was read.
    pub format: LoadOptionFormat,
}

/// A longer run of valid digits never spells a smaller number.
proof fn lemma_prefix_value_grows(d: Seq<char>, i: int, j: int, radix: u32)
    requires
        0 <= i <= j <= d.len(),
        all_digits(d, radix),
        radix >= 1,
    ensures
        prefix_value(d, i, radix) <= prefix_value(d, j, radix),
    decreases j - i,
{
    if i < j {
        lemma_prefix_value_grows(d, i, j - 1, radix);
        lemma_prefix_value_nonneg(d, j - 1, radix);
        assert(digit_in_radix(d[j - 1], radix) is Some);
        let p = prefix_value(d, j - 1, radix);
        assert(p * radix >= p) by (nonlinear_arith)
            requires
                p >= 0,
                radix >= 1,
        ;
    }
}

/// The number that valid digits spell is not negative.
proof fn lemma_prefix_value_nonneg(d: Seq<char>, n: int, radix: u32)
    requires
        0 <= n <= d.len(),
        all_digits(d, radix),
    ensures
        prefix_value(d, n, radix) >= 0,
    decreases n,
{
    if n > 0 {
        lemma_prefix_value_nonneg(d, n - 1, radix);
        assert(digit_in_radix(d[n - 1], radix) is Some);
        let p = prefix_value(d, n - 1, radix);
        assert(p * radix >= 0) by (nonlinear_arith)
            requires
                p >= 0,
        ;
    }
}

impl LoadOptionFormat {
    /// Radix of the underlying numeric format.
    pub fn radix(&self) -> (r: u32)
        ensures
            r == format_radix(*self),
    {
        match self {
            LoadOptionFormat::Hex => 16,
            LoadOptionFormat::Dec => 10,
        }
    }

    /// Parse the `BootNext` value using the format.
    pub fn parse_boot_next(&self, value: &str) -> (r: Result<u16, ParseBootNextError>)
        ensures
            match parsed_slot(value@, format_radix(*self)) {
                Some(n) => r == Ok::<u16, ParseBootNextError>(n),
                None => r == Err::<u16, ParseBootNextError>(ParseBootNextError { format: *self }),
            },
    {
        let radix = self.radix();
        let err = ParseBootNextError { format: *self };
        let len = value.unicode_len();
        let start: usize = if len > 0 && value.get_char(0) == '+' {
            1
        } else {
            0
        };
        let ghost d = unsigned_digits(value@);
        assert(d =~= value@.skip(start as int));
        if start >= len {
            return Err(err);
        }
        let mut acc: u32 = 0;
        let mut i: usize = start;
        while i < len
            invariant
                start <= i <= len,
                len == value@.len(),
                d == value@.skip(start as int),
                d == unsigned_digits(value@),
                radix == format_radix(*self),
                err == (ParseBootNextError { format: *self }),
                forall|j: int| 0 <= j < i - start ==> (#[trigger] digit_in_radix(d[j], radix)) is Some,
                acc as int == prefix_value(d, i - start, radix),
                acc <= 0xFFFF,
            decreases len - i,
        {
            let c = value.get_char(i);
            assert(c == d[i - start]);
            let digit: u32 = if '0' <= c && c <= '9' {
                c as u32 - '0' as u32
            } else if 'A' <= c && c <= 'F' {
                c as u32 - 'A' as u32 + 10
            } else if 'a' <= c && c <= 'f' {
                c as u32 - 'a' as u32 + 10
            } else {
                radix
            };
            if digit >= radix {
                assert(digit_in_radix(c, radix) is None);
                assert(!all_digits(d, radix));
                return Err(err);
            }
            assert(digit_in_radix(d[i - start], radix) == Some(digit as int));
            let next = acc * radix + digit;
            i = i + 1;
            assert(prefix_value(d, i - start, radix) == next);
            if next > 0xFFFF {
                proof {
                    if all_digits(d, radix) {
                        lemma_prefix_value_grows(d, i - start, d.len() as int, radix);
                    }
                }
                return Err(err);
            }
            acc = next;
        }
        assert(all_digits(d, radix));
        Ok(acc as u16)
    }
}

} // verus!
