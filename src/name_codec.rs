//! Mapping between slot numbers and the `Boot####` variable names.
use vstd::prelude::*;

verus! {

/// The four characters that start every load option variable name.
pub open spec fn boot_prefix() -> Seq<char> {
    seq!['B', 'o', 'o', 't']
}

/// The upper-case hexadecimal digit for `d` (`0 <= d < 16`).
pub open spec fn hex_digit_char(d: int) -> char {
    seq!['0', '1', '2', '3', '4', '5', '6', '7', '8', '9', 'A', 'B', 'C', 'D', 'E', 'F'][d]
}

/// The value of a hexadecimal digit of either case, or `None` for any other character.
pub open spec fn hex_digit_value(c: char) -> Option<int> {
    if '0' <= c && c <= '9' {
        Some(c as int - '0' as int)
    } else if 'A' <= c && c <= 'F' {
        Some(c as int - 'A' as int + 10)
    } else if 'a' <= c && c <= 'f' {
        Some(c as int - 'a' as int + 10)
    } else {
        None
    }
}

/// The four hexadecimal digits of a slot, most significant first.
pub open spec fn slot_digits(n: u16) -> Seq<char> {
    seq![
        hex_digit_char(n as int / 4096),
        hex_digit_char((n as int / 256) % 16),
        hex_digit_char((n as int / 16) % 16),
        hex_digit_char(n as int % 16),
    ]
}

/// The variable name of slot `n`: `Boot` followed by four upper-case hex digits.
pub open spec fn load_option_name(n: u16) -> Seq<char> {
    boot_prefix() + slot_digits(n)
}

/// Whether all four characters after the prefix are hexadecimal digits.
pub open spec fn has_hex_suffix(s: Seq<char>) -> bool {
    forall|i: int| 4 <= i < 8 ==> (#[trigger] hex_digit_value(s[i])) is Some
}

/// The number spelled by the four hexadecimal digits after the prefix.
pub open spec fn hex_suffix_value(s: Seq<char>) -> int {
    hex_digit_value(s[4])->Some_0 * 4096 + hex_digit_value(s[5])->Some_0 * 256
        + hex_digit_value(s[6])->Some_0 * 16 + hex_digit_value(s[7])->Some_0
}

/// The slot that a variable name stands for: `Boot` followed by exactly four
/// hexadecimal digits, or `None` for any other name.
pub open spec fn decoded_slot(s: Seq<char>) -> Option<u16> {
    if s.len() == 8 && s.subrange(0, 4) == boot_prefix() && has_hex_suffix(s) {
        Some(hex_suffix_value(s) as u16)
    } else {
        None
    }
}

/// The hex digit character for `d`, as a one-character string.
fn hex_digit_str(d: u16) -> (r: &'static str)
    requires
        d < 16,
    ensures
        r@ == seq![hex_digit_char(d as int)],
{
    let digits = "0123456789ABCDEF";
    proof {
        reveal_strlit("0123456789ABCDEF");
    }
    assert(digits.is_ascii());
    digits.substring_ascii(d as usize, d as usize + 1)
}

/// Format the number as a load option name.
pub fn format_load_option_name(num: u16) -> (r: String)
    ensures
        r@ == load_option_name(num),
{
    let mut name = String::from_str("Boot");
    proof {
        reveal_strlit("Boot");
    }
    name.append(hex_digit_str(num / 4096));
    name.append(hex_digit_str((num / 256) % 16));
    name.append(hex_digit_str((num / 16) % 16));
    name.append(hex_digit_str(num % 16));
    assert(name@ =~= load_option_name(num));
    name
}

/// The value of the hexadecimal digit `c`, if it is one.
fn hex_digit_of(c: char) -> (r: Option<u16>)
    ensures
        r matches Some(v) ==> hex_digit_value(c) == Some(v as int) && v < 16,
        r is None ==> hex_digit_value(c) is None,
{
    if '0' <= c && c <= '9' {
        Some((c as u32 - '0' as u32) as u16)
    } else if 'A' <= c && c <= 'F' {
        Some((c as u32 - 'A' as u32 + 10) as u16)
    } else if 'a' <= c && c <= 'f' {
        Some((c as u32 - 'a' as u32 + 10) as u16)
    } else {
        None
    }
}

/// Recognise a load option variable name and return its slot number.
pub fn parse_load_option_name(name: &str) -> (r: Option<u16>)
    ensures
        r == decoded_slot(name@),
{
    if name.unicode_len() != 8 {
        return None;
    }
    let c0 = name.get_char(0);
    let c1 = name.get_char(1);
    let c2 = name.get_char(2);
    let c3 = name.get_char(3);
    if c0 != 'B' || c1 != 'o' || c2 != 'o' || c3 != 't' {
        assert(name@.subrange(0, 4)[0] == c0);
        assert(name@.subrange(0, 4)[1] == c1);
        assert(name@.subrange(0, 4)[2] == c2);
        assert(name@.subrange(0, 4)[3] == c3);
        return None;
    }
    assert(name@.subrange(0, 4) =~= boot_prefix());
    let mut value: u16 = 0;
    let mut i: usize = 4;
    while i < 8
        invariant
            4 <= i <= 8,
            name@.len() == 8,
            forall|j: int| 4 <= j < i ==> (#[trigger] hex_digit_value(name@[j])) is Some,
            value as int == partial_hex_value(name@, i as int),
            value < pow16(i as int - 4),
        decreases 8 - i,
    {
        let c = name.get_char(i);
        match hex_digit_of(c) {
            None => {
                assert(!has_hex_suffix(name@));
                return None;
            },
            Some(d) => {
                assert(value * 16 + d < pow16(i as int - 3)) by (nonlinear_arith)
                    requires
                        value < pow16(i as int - 4),
                        d < 16,
                        pow16(i as int - 3) == pow16(i as int - 4) * 16,
                ;
                value = value * 16 + d;
            },
        }
        i = i + 1;
    }
    proof {
        reveal_with_fuel(partial_hex_value, 5);
    }
    assert(has_hex_suffix(name@));
    Some(value)
}

/// `16` to the power `k`, for the few `k` that a name holds.
pub open spec fn pow16(k: int) -> int {
    if k <= 0 {
        1
    } else if k == 1 {
        16
    } else if k == 2 {
        256
    } else if k == 3 {
        4096
    } else {
        65536
    }
}

/// The value of the hex digits from index 4 up to `i`.
pub open spec fn partial_hex_value(s: Seq<char>, i: int) -> int
    decreases i,
{
    if i <= 4 {
        0
    } else {
        partial_hex_value(s, i - 1) * 16 + hex_digit_value(s[i - 1])->Some_0
    }
}

/// A slot's name decodes back to the same slot.
pub proof fn lemma_name_round_trip(n: u16)
    ensures
        decoded_slot(load_option_name(n)) == Some(n),
{
    let s = load_option_name(n);
    assert(s.subrange(0, 4) =~= boot_prefix());
    let a = n as int / 4096;
    let b = (n as int / 256) % 16;
    let c = (n as int / 16) % 16;
    let d = n as int % 16;
    assert(a * 4096 + b * 256 + c * 16 + d == n as int) by (nonlinear_arith)
        requires
            a == n as int / 4096,
            b == (n as int / 256) % 16,
            c == (n as int / 16) % 16,
            d == n as int % 16,
            0 <= n as int <= 65535,
    ;
    assert(0 <= a < 16 && 0 <= b < 16 && 0 <= c < 16 && 0 <= d < 16);
    lemma_hex_digit_value_of_char(a);
    lemma_hex_digit_value_of_char(b);
    lemma_hex_digit_value_of_char(c);
    lemma_hex_digit_value_of_char(d);
    assert(s[4] == hex_digit_char(a));
    assert(s[5] == hex_digit_char(b));
    assert(s[6] == hex_digit_char(c));
    assert(s[7] == hex_digit_char(d));
}

/// Reading back a written hex digit gives its value.
proof fn lemma_hex_digit_value_of_char(d: int)
    requires
        0 <= d < 16,
    ensures
        hex_digit_value(hex_digit_char(d)) == Some(d),
{
}

} // verus!
