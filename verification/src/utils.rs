use vstd::prelude::*;

use crate::text::{parse_u32, parse_u32_chars, parse_u32_text};
use crate::utf16::{before_nul, decode_utf16_lossy, nul_position, trim, trim_bounds, utf16_decode_lossy};

verus! {

/// Returns true if the bit in position `bit` for `value` is set.
pub fn is_bit_set(value: u32, bit: u8) -> (res: bool)
    requires
        bit < 32,
    ensures
        res == (((value >> bit) & 1u32) == 1u32),
{
    let mask: u32 = 1u32 << bit;
    let res = (value & mask) != 0;
    assert(((value & (1u32 << bit)) != 0u32) == ((value >> bit) & 1u32 == 1u32)) by (bit_vector)
        requires
            bit < 32,
    ;
    res
}

/// The UTF-16 code units of one character: one unit inside the basic
/// multilingual plane, a surrogate pair outside it.
pub open spec fn utf16_units(c: char) -> Seq<u16> {
    let v = c as u32 as nat;
    if v < 0x10000 {
        seq![v as u16]
    } else {
        let w = (v - 0x10000) as nat;
        seq![(0xD800 + w / 0x400) as u16, (0xDC00 + w % 0x400) as u16]
    }
}

/// The UTF-16 encoding of a character sequence.
pub open spec fn utf16_encode(s: Seq<char>) -> Seq<u16>
    decreases s.len(),
{
    if s.len() == 0 {
        seq![]
    } else {
        utf16_encode(s.drop_last()) + utf16_units(s.last())
    }
}

/// Converts a string to a zero-terminated array of UTF-16 code units.
pub fn str_to_utf16vec(value: &str) -> (r: Vec<u16>)
    ensures
        r@ == utf16_encode(value@).push(0u16),
{
    let mut out: Vec<u16> = Vec::new();
    for c in iter: value.chars()
        invariant
            iter.seq() == value@,
            out@ == utf16_encode(value@.take(iter.index() as int)),
    {
        proof {
            let i = iter.index() as int;
            assert(value@.take(i + 1).drop_last() =~= value@.take(i));
        }
        let v: u32 = c as u32;
        if v < 0x10000 {
            out.push(v as u16);
        } else {
            let w: u32 = v - 0x10000;
            out.push((0xD800 + w / 0x400) as u16);
            out.push((0xDC00 + w % 0x400) as u16);
        }
    }
    proof {
        assert(value@.take(value@.len() as int) =~= value@);
    }
    out.push(0u16);
    out
}


/// The little-endian bytes of a sequence of 16-bit units, low byte first.
pub open spec fn le_bytes(units: Seq<u16>) -> Seq<u8>
    decreases units.len(),
{
    if units.len() == 0 {
        seq![]
    } else {
        le_bytes(units.drop_last()) + seq![
            (units.last() % 256) as u8,
            (units.last() / 256) as u8,
        ]
    }
}

/// The 16-bit units that little-endian bytes hold, read in pairs from the
/// front, low byte first; a last odd byte is ignored.
pub open spec fn le_units(bytes: Seq<u8>) -> Seq<u16>
    decreases bytes.len(),
{
    if bytes.len() < 2 {
        seq![]
    } else {
        seq![(bytes[0] + 256 * bytes[1]) as u16] + le_units(bytes.skip(2))
    }
}

/// The bytes of UTF-16 units in the little-endian layout that Windows
/// stores them in, two bytes per unit.
pub fn utf16_le_bytes(units: &[u16]) -> (r: Vec<u8>)
    ensures
        r@ == le_bytes(units@),
        r@.len() == 2 * units@.len(),
{
    let mut out: Vec<u8> = Vec::new();
    let n = units.len();
    let mut i: usize = 0;
    while i < n
        invariant
            n == units@.len(),
            i <= n,
            out@ == le_bytes(units@.take(i as int)),
            out@.len() == 2 * i,
        decreases n - i,
    {
        proof {
            assert(units@.take(i + 1).drop_last() =~= units@.take(i as int));
        }
        let u = units[i];
        out.push((u % 256) as u8);
        out.push((u / 256) as u8);
        i = i + 1;
    }
    proof {
        assert(units@.take(n as int) =~= units@);
    }
    out
}

/// Whether a build number, parsed from its text (`None` when the text is not
/// a number), belongs to Windows 11: a number from 22000 up. Text that is not
/// a number is taken to be Windows 11.
pub open spec fn is_windows_11_build(parsed: Option<u32>) -> bool {
    match parsed {
        Some(n) => n >= 22000,
        None => true,
    }
}

/// Whether a build number, written as text, belongs to Windows 11.
pub fn is_windows_11_build_text(text: &str) -> (r: bool)
    ensures
        r == is_windows_11_build(parse_u32_text(text@)),
{
    match parse_u32(text) {
        Some(n) => n >= 22000,
        None => true,
    }
}

/// Decides from the `CurrentBuildNumber` registry value (its raw UTF-16
/// buffer, or `None` when the registry could not be read) whether the system
/// is Windows 11 or later. The value is cut at its first zero unit, decoded
/// with unpaired surrogates replaced, stripped of surrounding white space and
/// parsed; every failure counts as Windows 11.
pub fn is_windows_11_from_registry(buffer: Option<&[u16]>) -> (r: bool)
    ensures
        r == match buffer {
            None => true,
            Some(b) => is_windows_11_build(
                parse_u32_text(trim(utf16_decode_lossy(before_nul(b@)))),
            ),
        },
{
    match buffer {
        None => true,
        Some(b) => {
            let end = nul_position(b);
            let units = vstd::slice::slice_subrange(b, 0, end);
            let decoded = decode_utf16_lossy(units);
            let (start, stop) = trim_bounds(decoded.as_slice());
            let trimmed = vstd::slice::slice_subrange(decoded.as_slice(), start, stop);
            match parse_u32_chars(trimmed) {
                Some(n) => n >= 22000,
                None => true,
            }
        },
    }
}

/// Whether the system counts as Windows 11 where no Windows registry is
/// available: always.
pub fn is_windows_11_or_greater() -> (r: bool)
    ensures
        r,
{
    true
}

} // verus!
