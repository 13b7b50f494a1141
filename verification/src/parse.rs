//! Byte-level parsing helpers for the device enumerators, and the
//! small decimal formatting the error messages use.
//!
//! The device identifiers the platforms hand back (registry values,
//! `uevent` files, hardware-ID strings) are parsed here as plain byte
//! sequences, so that every decision the enumerators make is verified.

use vstd::prelude::*;
use vstd::string::StringExecFns;

verus! {

/// The character of one decimal digit.
pub open spec fn decimal_digit(d: nat) -> char {
    if d == 0 {
        '0'
    } else if d == 1 {
        '1'
    } else if d == 2 {
        '2'
    } else if d == 3 {
        '3'
    } else if d == 4 {
        '4'
    } else if d == 5 {
        '5'
    } else if d == 6 {
        '6'
    } else if d == 7 {
        '7'
    } else if d == 8 {
        '8'
    } else {
        '9'
    }
}

/// The decimal digit characters of `n`, most significant first.
pub open spec fn decimal_chars(n: nat) -> Seq<char>
    decreases n,
{
    if n < 10 {
        seq![decimal_digit(n)]
    } else {
        decimal_chars(n / 10).push(decimal_digit(n % 10))
    }
}

/// Appends the decimal digits of `n` to the string.
pub fn append_decimal(s: &mut String, n: u32)
    ensures
        final(s)@ == old(s)@ + decimal_chars(n as nat),
    decreases n,
{
    let ghost before_digits = s@;
    if n >= 10 {
        append_decimal(s, n / 10);
    }
    let d: u32 = n % 10;
    proof {
        reveal_strlit("0");
        reveal_strlit("1");
        reveal_strlit("2");
        reveal_strlit("3");
        reveal_strlit("4");
        reveal_strlit("5");
        reveal_strlit("6");
        reveal_strlit("7");
        reveal_strlit("8");
        reveal_strlit("9");
    }
    match d {
        0 => s.append("0"),
        1 => s.append("1"),
        2 => s.append("2"),
        3 => s.append("3"),
        4 => s.append("4"),
        5 => s.append("5"),
        6 => s.append("6"),
        7 => s.append("7"),
        8 => s.append("8"),
        _ => s.append("9"),
    }
    proof {
        assert(s@ =~= before_digits + decimal_chars(n as nat));
    }
}

/// An ASCII hexadecimal digit, upper or lower case.
pub open spec fn is_hex_digit(b: u8) -> bool {
    ||| (48 <= b <= 57)  // '0'..='9'
    ||| (97 <= b <= 102)  // 'a'..='f'
    ||| (65 <= b <= 70)  // 'A'..='F'
}

/// The numeric value of a hexadecimal digit.
pub open spec fn hex_digit_value(b: u8) -> nat {
    if 48 <= b <= 57 {
        (b - 48) as nat
    } else if 97 <= b <= 102 {
        (b - 87) as nat
    } else if 65 <= b <= 70 {
        (b - 55) as nat
    } else {
        0
    }
}

/// The value of a big-endian string of hexadecimal digits.
pub open spec fn hex_digits_value(s: Seq<u8>) -> nat
    decreases s.len(),
{
    if s.len() == 0 {
        0
    } else {
        hex_digits_value(s.drop_last()) * 16 + hex_digit_value(s.last())
    }
}

/// The digit string proper: a single leading `+` is allowed and skipped,
/// as the standard library's radix parsing does.
pub open spec fn hex_body(s: Seq<u8>) -> Seq<u8> {
    if s.len() > 0 && s[0] == 43 {  // '+'
        s.drop_first()
    } else {
        s
    }
}

/// Is `s` a hexadecimal numeral whose value fits in sixteen bits?
pub open spec fn is_valid_hex_u16(s: Seq<u8>) -> bool {
    let b = hex_body(s);
    &&& b.len() > 0
    &&& (forall|i: int| 0 <= i < b.len() ==> is_hex_digit(#[trigger] b[i]))
    &&& hex_digits_value(b) <= 0xFFFF
}

/// A digit string's value only grows as digits are appended.
proof fn lemma_hex_value_prefix_le(s: Seq<u8>, i: int)
    requires
        0 <= i <= s.len(),
    ensures
        hex_digits_value(s.take(i)) <= hex_digits_value(s),
    decreases s.len() - i,
{
    if i < s.len() {
        assert(s.take(i + 1).drop_last() =~= s.take(i));
        assert(s.take(i + 1).last() == s[i]);
        assert(hex_digits_value(s.take(i)) <= hex_digits_value(s.take(i + 1)));
        lemma_hex_value_prefix_le(s, i + 1);
    } else {
        assert(s.take(i) =~= s);
    }
}

/// Parses a hexadecimal numeral into a sixteen-bit value, with the
/// standard library's radix-parsing shape: an optional leading `+`, at
/// least one digit, and a value that must fit.
pub fn parse_hex_u16(s: &[u8]) -> (r: Option<u16>)
    ensures
        r is Some <==> is_valid_hex_u16(s@),
        r matches Some(v) ==> v == hex_digits_value(hex_body(s@)),
{
    let start: usize = if s.len() > 0 && s[0] == 43 {
        1
    } else {
        0
    };
    let ghost body = hex_body(s@);
    assert(body =~= s@.subrange(start as int, s@.len() as int));
    if s.len() == start {
        return None;
    }
    let mut acc: u32 = 0;
    let mut i: usize = start;
    while i < s.len()
        invariant
            start <= i <= s@.len(),
            body == hex_body(s@),
            body == s@.subrange(start as int, s@.len() as int),
            body.len() == s@.len() - start,
            forall|j: int| 0 <= j < i - start ==> is_hex_digit(#[trigger] body[j]),
            acc == hex_digits_value(body.take(i - start)),
            acc <= 0xFFFF,
        decreases s@.len() - i,
    {
        let b: u8 = s[i];
        assert(body[i - start] == b);
        let d: u32 = if 48 <= b && b <= 57 {
            (b - 48) as u32
        } else if 97 <= b && b <= 102 {
            (b - 87) as u32
        } else if 65 <= b && b <= 70 {
            (b - 55) as u32
        } else {
            proof {
                assert(!is_hex_digit(body[i - start]));
                assert(!is_valid_hex_u16(s@));
            }
            return None;
        };
        assert(is_hex_digit(b) && d == hex_digit_value(b));
        let next: u32 = acc * 16 + d;
        assert(body.take(i - start + 1).drop_last() =~= body.take(i - start));
        assert(body.take(i - start + 1).last() == body[i - start]);
        if next > 0xFFFF {
            proof {
                lemma_hex_value_prefix_le(body, i - start + 1);
                assert(hex_digits_value(body) > 0xFFFF);
                assert(!is_valid_hex_u16(s@));
            }
            return None;
        }
        acc = next;
        i = i + 1;
    }
    assert(body.take(i - start) =~= body);
    Some(acc as u16)
}

/// The parts of `s` between occurrences of the separator `sep`, in
/// order. A separator at either end or two adjacent separators produce
/// an empty part; the empty sequence has the single empty part.
pub open spec fn split_bytes(s: Seq<u8>, sep: u8) -> Seq<Seq<u8>>
    decreases s.len(),
{
    if s.len() == 0 {
        seq![Seq::<u8>::empty()]
    } else if s.last() == sep {
        split_bytes(s.drop_last(), sep).push(Seq::<u8>::empty())
    } else {
        let p = split_bytes(s.drop_last(), sep);
        p.update(p.len() - 1, p.last().push(s.last()))
    }
}

/// `split_bytes` always yields at least one part.
proof fn lemma_split_bytes_len(s: Seq<u8>, sep: u8)
    ensures
        split_bytes(s, sep).len() >= 1,
    decreases s.len(),
{
    if s.len() > 0 {
        lemma_split_bytes_len(s.drop_last(), sep);
    }
}

/// Splits `s` at every occurrence of `sep`.
pub fn split_on(s: &[u8], sep: u8) -> (r: Vec<Vec<u8>>)
    ensures
        r@.map_values(|part: Vec<u8>| part@) == split_bytes(s@, sep),
        r@.len() >= 1,
{
    let mut done: Vec<Vec<u8>> = Vec::new();
    let mut cur: Vec<u8> = Vec::new();
    let mut i: usize = 0;
    while i < s.len()
        invariant
            i <= s@.len(),
            done@.map_values(|part: Vec<u8>| part@).push(cur@) =~= split_bytes(
                s@.take(i as int),
                sep,
            ),
        decreases s@.len() - i,
    {
        proof {
            assert(s@.take(i + 1).drop_last() =~= s@.take(i as int));
            assert(s@.take(i + 1).last() == s@[i as int]);
        }
        if s[i] == sep {
            done.push(cur);
            cur = Vec::new();
            proof {
                assert(done@.map_values(|part: Vec<u8>| part@).push(cur@) =~= split_bytes(
                    s@.take(i + 1),
                    sep,
                ));
            }
        } else {
            let ghost before = done@.map_values(|part: Vec<u8>| part@).push(cur@);
            cur.push(s[i]);
            proof {
                let after = done@.map_values(|part: Vec<u8>| part@).push(cur@);
                assert(after =~= before.update(before.len() - 1, before.last().push(s@[i as int])));
                assert(after =~= split_bytes(s@.take(i + 1), sep));
            }
        }
        i = i + 1;
    }
    proof {
        assert(s@.take(i as int) =~= s@);
    }
    done.push(cur);
    proof {
        assert(done@.map_values(|part: Vec<u8>| part@) =~= split_bytes(s@, sep));
        lemma_split_bytes_len(s@, sep);
    }
    done
}

/// A line with a carriage return left by a CR-LF terminator has it
/// removed.
pub open spec fn strip_cr(l: Seq<u8>) -> Seq<u8> {
    if l.len() > 0 && l.last() == 13 {
        l.drop_last()
    } else {
        l
    }
}

/// The lines of `s`, as the standard library reads them: terminators
/// are a line feed or a carriage return followed by a line feed, and a
/// final terminator ends the text rather than opening an empty line.
pub open spec fn split_lines(s: Seq<u8>) -> Seq<Seq<u8>> {
    let parts = split_bytes(s, 10);
    if parts.last().len() == 0 {
        parts.drop_last().map_values(|l: Seq<u8>| strip_cr(l))
    } else {
        parts.subrange(0, parts.len() - 1).map_values(|l: Seq<u8>| strip_cr(l)).push(parts.last())
    }
}

/// The start of the last `/`-separated component of `path`: every byte
/// from the result on is a non-separator, and the result is either the
/// start of the path or preceded by a separator.
pub fn device_name_start(path: &[u8]) -> (r: usize)
    ensures
        r <= path@.len(),
        forall|j: int| r <= j < path@.len() ==> path@[j] != 47,
        r > 0 ==> path@[r - 1] == 47,
{
    let mut i: usize = path.len();
    while i > 0
        invariant
            i <= path@.len(),
            forall|j: int| i <= j < path@.len() ==> path@[j] != 47,
        decreases i,
    {
        if path[i - 1] == 47 {
            return i;
        }
        i = i - 1;
    }
    0
}

/// The bounds of `s` with every leading and trailing zero byte removed:
/// the result brackets the content, with only zero bytes outside it, and
/// is empty exactly when `s` is all zero bytes.
pub fn nul_trim_range(s: &[u8]) -> (r: (usize, usize))
    ensures
        r.0 <= r.1 <= s@.len(),
        forall|j: int| 0 <= j < r.0 ==> s@[j] == 0,
        forall|j: int| r.1 <= j < s@.len() ==> s@[j] == 0,
        r.0 < r.1 ==> s@[r.0 as int] != 0 && s@[r.1 - 1] != 0,
        r.0 == r.1 ==> r.0 == s@.len(),
{
    let mut a: usize = 0;
    while a < s.len() && s[a] == 0
        invariant
            a <= s@.len(),
            forall|j: int| 0 <= j < a ==> s@[j] == 0,
        decreases s@.len() - a,
    {
        a = a + 1;
    }
    if a == s.len() {
        return (a, a);
    }
    let mut b: usize = s.len();
    while b > a && s[b - 1] == 0
        invariant
            a <= b <= s@.len(),
            forall|j: int| b <= j < s@.len() ==> s@[j] == 0,
        decreases b,
    {
        b = b - 1;
    }
    (a, b)
}

} // verus!
