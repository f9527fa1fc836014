use vstd::prelude::*;

verus! {

/// Whether `v` is a Unicode scalar value, that is, the number of a `char`.
pub open spec fn is_scalar_value(v: u32) -> bool {
    v < 0xD800 || (0xE000 <= v && v <= 0x10FFFF)
}

/// `char::from_u32` gives the character with a number when that number is a
/// Unicode scalar value, and `None` otherwise, as its documentation states.
pub assume_specification[ core::char::from_u32 ](i: u32) -> (r: Option<char>)
    ensures
        r == (if is_scalar_value(i) {
            Some(i as char)
        } else {
            None
        }),
;

/// The part of a buffer before its first zero unit (the whole buffer when it
/// holds none).
pub open spec fn before_nul(units: Seq<u16>) -> Seq<u16>
    decreases units.len(),
{
    if units.len() == 0 {
        seq![]
    } else if units[0] == 0 {
        seq![]
    } else {
        seq![units[0]] + before_nul(units.drop_first())
    }
}

/// The number of units before the first zero unit of a buffer.
pub fn nul_position(units: &[u16]) -> (r: usize)
    ensures
        r <= units@.len(),
        units@.take(r as int) == before_nul(units@),
{
    let n = units.len();
    let mut i: usize = 0;
    proof {
        assert(units@.skip(0) =~= units@);
        assert(units@.take(0) + before_nul(units@) =~= before_nul(units@));
    }
    while i < n
        invariant
            n == units@.len(),
            i <= n,
            before_nul(units@) == units@.take(i as int) + before_nul(units@.skip(i as int)),
        decreases n - i,
    {
        proof {
            assert(units@.skip(i as int).drop_first() =~= units@.skip(i + 1));
            assert(units@.take(i as int) + seq![units@[i as int]] =~= units@.take(i + 1));
        }
        if units[i] == 0 {
            proof {
                assert(units@.take(i as int) + seq![] =~= units@.take(i as int));
            }
            return i;
        }
        i = i + 1;
    }
    proof {
        assert(units@.skip(n as int) =~= seq![]);
        assert(units@.take(i as int) + seq![] =~= units@.take(i as int));
    }
    n
}

/// Whether a UTF-16 unit opens a surrogate pair.
pub open spec fn is_high_surrogate(u: u16) -> bool {
    0xD800 <= u && u < 0xDC00
}

/// Whether a UTF-16 unit closes a surrogate pair.
pub open spec fn is_low_surrogate(u: u16) -> bool {
    0xDC00 <= u && u < 0xE000
}

/// The number of the character that a surrogate pair encodes.
pub open spec fn pair_value(high: u16, low: u16) -> nat {
    (0x10000 + (high - 0xD800) * 0x400 + (low - 0xDC00)) as nat
}

/// The character put in place of a unit that is not part of a valid
/// encoding.
pub open spec fn replacement_char() -> char {
    '\u{FFFD}'
}

/// The text that UTF-16 units decode to, each unpaired surrogate replaced by
/// U+FFFD: a unit outside the surrogate range is the character with its
/// number, a high surrogate followed by a low one is the character they
/// encode together, any other surrogate is replaced.
pub open spec fn utf16_decode_lossy(units: Seq<u16>) -> Seq<char>
    decreases units.len(),
{
    if units.len() == 0 {
        seq![]
    } else if units.len() > 1 && is_high_surrogate(units[0]) && is_low_surrogate(units[1]) {
        seq![pair_value(units[0], units[1]) as char] + utf16_decode_lossy(units.skip(2))
    } else if is_high_surrogate(units[0]) || is_low_surrogate(units[0]) {
        seq![replacement_char()] + utf16_decode_lossy(units.skip(1))
    } else {
        seq![units[0] as char] + utf16_decode_lossy(units.skip(1))
    }
}

/// Decodes UTF-16 units into characters as `String::from_utf16_lossy` does,
/// with every unpaired surrogate replaced by U+FFFD.
pub fn decode_utf16_lossy(units: &[u16]) -> (r: Vec<char>)
    ensures
        r@ == utf16_decode_lossy(units@),
{
    let n = units.len();
    let mut out: Vec<char> = Vec::new();
    let mut i: usize = 0;
    proof {
        assert(units@.skip(0) =~= units@);
    }
    while i < n
        invariant
            n == units@.len(),
            i <= n,
            utf16_decode_lossy(units@) == out@ + utf16_decode_lossy(units@.skip(i as int)),
        decreases n - i,
    {
        let ghost rest = units@.skip(i as int);
        let u = units[i];
        assert(rest[0] == u);
        if 0xD800 <= u && u < 0xDC00 && i + 1 < n && 0xDC00 <= units[i + 1] && units[i + 1] < 0xE000 {
            let low = units[i + 1];
            assert(rest[1] == low);
            assert(rest.skip(2) =~= units@.skip(i + 2));
            let v: u32 = 0x10000 + ((u - 0xD800) as u32) * 0x400 + ((low - 0xDC00) as u32);
            assert(v == pair_value(u, low));
            assert(0x10000 <= v <= 0x10FFFF);
            let c = core::char::from_u32(v).unwrap();
            proof {
                assert(out@.push(c) + utf16_decode_lossy(rest.skip(2)) =~= out@ + (seq![c]
                    + utf16_decode_lossy(rest.skip(2))));
            }
            out.push(c);
            i = i + 2;
        } else if 0xD800 <= u && u < 0xE000 {
            assert(rest.skip(1) =~= units@.skip(i + 1));
            proof {
                assert(out@.push(replacement_char()) + utf16_decode_lossy(rest.skip(1)) =~= out@
                    + (seq![replacement_char()] + utf16_decode_lossy(rest.skip(1))));
            }
            out.push('\u{FFFD}');
            i = i + 1;
        } else {
            assert(rest.skip(1) =~= units@.skip(i + 1));
            let c = core::char::from_u32(u as u32).unwrap();
            proof {
                assert(out@.push(c) + utf16_decode_lossy(rest.skip(1)) =~= out@ + (seq![c]
                    + utf16_decode_lossy(rest.skip(1))));
            }
            out.push(c);
            i = i + 1;
        }
    }
    proof {
        assert(units@.skip(n as int) =~= Seq::<u16>::empty());
        assert(out@ + Seq::<char>::empty() =~= out@);
    }
    out
}

/// Whether `c` has the Unicode White_Space property, which `char::is_whitespace`
/// tests.
pub open spec fn is_unicode_whitespace(c: char) -> bool {
    ||| ('\t' <= c && c <= '\r')
    ||| c == ' '
    ||| c == '\u{85}'
    ||| c == '\u{A0}'
    ||| c == '\u{1680}'
    ||| ('\u{2000}' <= c && c <= '\u{200A}')
    ||| c == '\u{2028}'
    ||| c == '\u{2029}'
    ||| c == '\u{202F}'
    ||| c == '\u{205F}'
    ||| c == '\u{3000}'
}

/// A text without its leading white space.
pub open spec fn trim_start(s: Seq<char>) -> Seq<char>
    decreases s.len(),
{
    if s.len() > 0 && is_unicode_whitespace(s[0]) {
        trim_start(s.drop_first())
    } else {
        s
    }
}

/// A text without its trailing white space.
pub open spec fn trim_end(s: Seq<char>) -> Seq<char>
    decreases s.len(),
{
    if s.len() > 0 && is_unicode_whitespace(s.last()) {
        trim_end(s.drop_last())
    } else {
        s
    }
}

/// A text without leading and trailing white space, as `str::trim` leaves it.
pub open spec fn trim(s: Seq<char>) -> Seq<char> {
    trim_end(trim_start(s))
}

fn is_whitespace_char(c: char) -> (r: bool)
    ensures
        r == is_unicode_whitespace(c),
{
    ('\t' <= c && c <= '\r') || c == ' ' || c == '\u{85}' || c == '\u{A0}' || c == '\u{1680}' || (
    '\u{2000}' <= c && c <= '\u{200A}') || c == '\u{2028}' || c == '\u{2029}' || c == '\u{202F}'
        || c == '\u{205F}' || c == '\u{3000}'
}

/// The bounds of the text that remains of `chars` once leading and trailing
/// white space is removed.
pub fn trim_bounds(chars: &[char]) -> (r: (usize, usize))
    ensures
        r.0 <= r.1 <= chars@.len(),
        r.0 == chars@.len() - trim_start(chars@).len(),
        chars@.subrange(r.0 as int, r.1 as int) == trim(chars@),
{
    let n = chars.len();
    let mut start: usize = 0;
    proof {
        assert(chars@.skip(0) =~= chars@);
    }
    while start < n && is_whitespace_char(chars[start])
        invariant
            n == chars@.len(),
            start <= n,
            trim_start(chars@) == trim_start(chars@.skip(start as int)),
        decreases n - start,
    {
        proof {
            assert(chars@.skip(start as int).drop_first() =~= chars@.skip(start + 1));
        }
        start = start + 1;
    }
    let ghost t = chars@.skip(start as int);
    proof {
        assert(trim_start(chars@) == t);
    }
    let mut end: usize = n;
    proof {
        assert(chars@.subrange(start as int, n as int) =~= t);
    }
    while end > start && is_whitespace_char(chars[end - 1])
        invariant
            n == chars@.len(),
            start <= end <= n,
            t == chars@.skip(start as int),
            trim_end(t) == trim_end(chars@.subrange(start as int, end as int)),
        decreases end,
    {
        proof {
            assert(chars@.subrange(start as int, end as int).drop_last() =~= chars@.subrange(
                start as int,
                end - 1,
            ));
        }
        end = end - 1;
    }
    (start, end)
}

} // verus!
