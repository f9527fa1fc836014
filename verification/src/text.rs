use vstd::prelude::*;

verus! {

/// The decimal digit character for `d` (meaningful for `d < 10`).
pub open spec fn digit_char(d: nat) -> char {
    (('0' as nat) + d) as char
}

/// The decimal representation of `n`, most significant digit first, with no
/// leading zeros (zero itself is written as a single `0`).
pub open spec fn decimal(n: nat) -> Seq<char>
    decreases n,
{
    if n < 10 {
        seq![digit_char(n)]
    } else {
        decimal(n / 10).push(digit_char(n % 10))
    }
}

/// The one-character string holding the digit `d`.
fn digit_str(d: usize) -> (r: &'static str)
    requires
        d < 10,
    ensures
        r@ == seq![digit_char(d as nat)],
{
    proof {
        reveal_strlit("0");
        reveal_strlit("1");
        reveal_strlit("2");
        reveal_strlit("3");
        reveal_strlit("4");
        reveal_strlit("5");
        reveal_strlit("6");
        reveal_strlit("7");
        reveal_strlit("8");
        reveal_strlit("9");
    }
    match d {
        0 => "0",
        1 => "1",
        2 => "2",
        3 => "3",
        4 => "4",
        5 => "5",
        6 => "6",
        7 => "7",
        8 => "8",
        _ => "9",
    }
}

/// Appends the decimal representation of `n` to `out`.
pub fn push_decimal(out: &mut String, n: usize)
    ensures
        final(out)@ == old(out)@ + decimal(n as nat),
    decreases n,
{
    if n >= 10 {
        push_decimal(out, n / 10);
    }
    out.append(digit_str(n % 10));
}


/// The characters of a string, in order.
pub fn chars_of(text: &str) -> (r: Vec<char>)
    ensures
        r@ == text@,
{
    let mut chars: Vec<char> = Vec::new();
    for c in iter: text.chars()
        invariant
            iter.seq() == text@,
            chars@ == text@.take(iter.index() as int),
    {
        proof {
            assert(text@.take(iter.index() + 1) =~= chars@.push(c));
        }
        chars.push(c);
    }
    proof {
        assert(text@.take(text@.len() as int) =~= text@);
    }
    chars
}

/// A text with every trailing backslash removed.
pub open spec fn trim_end_backslashes(s: Seq<char>) -> Seq<char>
    decreases s.len(),
{
    if s.len() > 0 && s.last() == '\\' {
        trim_end_backslashes(s.drop_last())
    } else {
        s
    }
}

/// The length of `chars` once its trailing backslashes are removed.
fn trimmed_len(chars: &Vec<char>) -> (r: usize)
    ensures
        r <= chars@.len(),
        chars@.take(r as int) == trim_end_backslashes(chars@),
{
    let mut end = chars.len();
    proof {
        assert(chars@.take(end as int) =~= chars@);
    }
    while end > 0 && chars[end - 1] == '\\'
        invariant
            end <= chars@.len(),
            trim_end_backslashes(chars@) == trim_end_backslashes(chars@.take(end as int)),
        decreases end,
    {
        proof {
            assert(chars@.take(end as int).drop_last() =~= chars@.take(end - 1));
        }
        end = end - 1;
    }
    end
}

/// Whether two mount points name the same place once trailing backslashes
/// are ignored (`E:` and `E:\` match).
pub fn mount_points_match(a: &str, b: &str) -> (r: bool)
    ensures
        r == (trim_end_backslashes(a@) == trim_end_backslashes(b@)),
{
    let ca = chars_of(a);
    let cb = chars_of(b);
    let la = trimmed_len(&ca);
    let lb = trimmed_len(&cb);
    if la != lb {
        proof {
            assert(trim_end_backslashes(a@).len() != trim_end_backslashes(b@).len());
        }
        return false;
    }
    let mut i: usize = 0;
    while i < la
        invariant
            la == lb,
            la <= ca@.len(),
            la <= cb@.len(),
            ca@.take(la as int) == trim_end_backslashes(a@),
            cb@.take(lb as int) == trim_end_backslashes(b@),
            i <= la,
            forall|j: int| 0 <= j < i ==> ca@[j] == cb@[j],
        decreases la - i,
    {
        if ca[i] != cb[i] {
            proof {
                assert(ca@.take(la as int)[i as int] == ca@[i as int]);
                assert(cb@.take(lb as int)[i as int] == cb@[i as int]);
            }
            return false;
        }
        i = i + 1;
    }
    proof {
        assert(ca@.take(la as int) =~= cb@.take(lb as int));
    }
    true
}

/// Whether `c` is one of the ASCII digits `0` to `9`.
pub open spec fn is_digit(c: char) -> bool {
    '0' <= c && c <= '9'
}

/// The value of a sequence of decimal digits, most significant first.
pub open spec fn digits_value(d: Seq<char>) -> nat
    decreases d.len(),
{
    if d.len() == 0 {
        0
    } else {
        digits_value(d.drop_last()) * 10 + (d.last() as nat - '0' as nat) as nat
    }
}

/// The digits that follow an optional leading `+` sign.
pub open spec fn unsigned_digits(s: Seq<char>) -> Seq<char> {
    if s.len() > 0 && s[0] == '+' {
        s.drop_first()
    } else {
        s
    }
}

/// What parsing `s` as a `u32` gives: an optional `+` sign, then one or more
/// ASCII digits whose value fits in 32 bits; anything else is refused.
pub open spec fn parse_u32_text(s: Seq<char>) -> Option<u32> {
    let d = unsigned_digits(s);
    if d.len() > 0 && (forall|i: int| 0 <= i < d.len() ==> is_digit(#[trigger] d[i]))
        && digits_value(d) <= u32::MAX {
        Some(digits_value(d) as u32)
    } else {
        None
    }
}

proof fn lemma_digits_value_prefix(d: Seq<char>, k: int)
    requires
        0 <= k <= d.len(),
        forall|i: int| 0 <= i < d.len() ==> is_digit(#[trigger] d[i]),
    ensures
        digits_value(d.take(k)) <= digits_value(d),
    decreases d.len(),
{
    if k < d.len() {
        let e = d.drop_last();
        assert(d.take(k) =~= e.take(k));
        lemma_digits_value_prefix(e, k);
    } else {
        assert(d.take(k) =~= d);
    }
}

/// Parses decimal text, given as its characters, into a `u32`.
pub fn parse_u32_chars(chars: &[char]) -> (r: Option<u32>)
    ensures
        r == parse_u32_text(chars@),
{
    let n = chars.len();
    let start: usize = if n > 0 && chars[0] == '+' { 1 } else { 0 };
    let ghost d = unsigned_digits(chars@);
    proof {
        assert(d =~= chars@.skip(start as int));
    }
    if start >= n {
        return None;
    }
    let mut acc: u32 = 0;
    let mut i: usize = start;
    while i < n
        invariant
            n == chars@.len(),
            start <= i <= n,
            d == chars@.skip(start as int),
            d == unsigned_digits(chars@),
            forall|j: int| 0 <= j < i - start ==> is_digit(#[trigger] d[j]),
            acc as nat == digits_value(d.take(i - start)),
        decreases n - i,
    {
        let c = chars[i];
        proof {
            assert(d[i - start] == c);
            assert(d.take(i - start + 1).drop_last() =~= d.take(i - start));
        }
        if c < '0' || c > '9' {
            proof {
                assert(!is_digit(d[i - start]));
            }
            return None;
        }
        let digit: u32 = (c as u32) - ('0' as u32);
        if acc > (u32::MAX - digit) / 10 {
            proof {
                assert(digits_value(d.take(i - start + 1)) > u32::MAX) by (nonlinear_arith)
                    requires
                        digits_value(d.take(i - start + 1)) == acc as nat * 10 + digit as nat,
                        acc > (u32::MAX - digit) / 10,
                        digit <= 9,
                ;
                if forall|j: int| 0 <= j < d.len() ==> is_digit(#[trigger] d[j]) {
                    lemma_digits_value_prefix(d, i - start + 1);
                    assert(digits_value(d) > u32::MAX);
                }
                assert(parse_u32_text(chars@) is None);
            }
            return None;
        }
        proof {
            assert(acc * 10 + digit <= u32::MAX) by (nonlinear_arith)
                requires
                    acc <= (u32::MAX - digit) / 10,
                    digit <= 9,
            ;
        }
        acc = acc * 10 + digit;
        i = i + 1;
    }
    proof {
        assert(d.take(n - start) =~= d);
    }
    Some(acc)
}

/// Parses decimal text into a `u32` as `str::parse::<u32>` does.
pub fn parse_u32(text: &str) -> (r: Option<u32>)
    ensures
        r == parse_u32_text(text@),
{
    let chars = chars_of(text);
    parse_u32_chars(chars.as_slice())
}

} // verus!
