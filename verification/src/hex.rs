//! Hex text codecs: the gateway's addresses, hashes, call data and chain
//! ids travel as `0x`-prefixed hex strings, and quantities persisted by
//! the event store as base-10 text. Decoding and encoding are verified
//! against the specification functions below.

use vstd::prelude::*;
use vstd::string::StrSliceExecFns;
use vstd::string::StringExecFns;

verus! {

/// Whether `c` is an ASCII hex digit (either case).
pub open spec fn is_hex_digit(c: char) -> bool {
    ('0' as int <= c as int && c as int <= '9' as int) || ('a' as int <= c as int && c as int
        <= 'f' as int) || ('A' as int <= c as int && c as int <= 'F' as int)
}

/// The numeric value of a hex digit; 16 for any other character, which
/// `is_hex_digit` guards against wherever the value matters.
pub open spec fn hex_digit_val(c: char) -> int {
    if '0' as int <= c as int && c as int <= '9' as int {
        c as int - '0' as int
    } else if 'a' as int <= c as int && c as int <= 'f' as int {
        c as int - 'a' as int + 10
    } else if 'A' as int <= c as int && c as int <= 'F' as int {
        c as int - 'A' as int + 10
    } else {
        16
    }
}

/// Every character of `s` is a hex digit.
pub open spec fn all_hex(s: Seq<char>) -> bool {
    forall|i: int| 0 <= i < s.len() ==> is_hex_digit(s[i])
}

/// The byte written by the digit pair at positions `2*i` and `2*i + 1`.
pub open spec fn hex_byte_at(s: Seq<char>, i: int) -> u8 {
    (hex_digit_val(s[2 * i]) * 16 + hex_digit_val(s[2 * i + 1])) as u8
}

/// The bytes written by an even-length run of hex digits.
pub open spec fn hex_bytes_of(s: Seq<char>) -> Seq<u8> {
    Seq::new((s.len() / 2) as nat, |i: int| hex_byte_at(s, i))
}

/// `s` without a leading `0x`, where one is present.
pub open spec fn strip_hex_prefix(s: Seq<char>) -> Seq<char> {
    if s.len() >= 2 && s[0] == '0' && s[1] == 'x' {
        s.skip(2)
    } else {
        s
    }
}

/// The unsigned value of a run of hex digits, most significant first.
pub open spec fn hex_uint(s: Seq<char>) -> int
    decreases s.len(),
{
    if s.len() == 0 {
        0
    } else {
        hex_uint(s.drop_last()) * 16 + hex_digit_val(s.last())
    }
}

pub proof fn lemma_hex_uint_nonneg(s: Seq<char>)
    requires
        all_hex(s),
    ensures
        0 <= hex_uint(s),
    decreases s.len(),
{
    if s.len() > 0 {
        let t = s.drop_last();
        assert forall|i: int| 0 <= i < t.len() implies is_hex_digit(t[i]) by {
            assert(t[i] == s[i]);
        }
        lemma_hex_uint_nonneg(t);
        assert(is_hex_digit(s.last()));
    }
}

/// A run of hex digits is worth at least any of its prefixes.
pub proof fn lemma_hex_uint_take_le(s: Seq<char>, i: int)
    requires
        all_hex(s),
        0 <= i <= s.len(),
    ensures
        hex_uint(s.take(i)) <= hex_uint(s),
    decreases s.len() - i,
{
    if i < s.len() {
        let t1 = s.take(i + 1);
        let t0 = s.take(i);
        assert forall|j: int| 0 <= j < t0.len() implies is_hex_digit(t0[j]) by {
            assert(t0[j] == s[j]);
        }
        assert(t1.drop_last() =~= t0);
        assert(t1.last() == s[i]);
        lemma_hex_uint_nonneg(t0);
        assert(hex_uint(t0) <= hex_uint(t1));
        lemma_hex_uint_take_le(s, i + 1);
    } else {
        assert(s.take(i) =~= s);
    }
}

/// The digit value of `c`, or `None` where `c` is no hex digit.
pub fn hex_digit_value(c: char) -> (r: Option<u8>)
    ensures
        match r {
            Some(d) => is_hex_digit(c) && d as int == hex_digit_val(c),
            None => !is_hex_digit(c),
        },
{
    let v: u32 = c as u32;
    if 48 <= v && v <= 57 {
        Some((v - 48) as u8)
    } else if 97 <= v && v <= 102 {
        Some((v - 97 + 10) as u8)
    } else if 65 <= v && v <= 70 {
        Some((v - 65 + 10) as u8)
    } else {
        None
    }
}

/// Decodes hex text, with or without a `0x` prefix, into bytes. Succeeds
/// exactly on an even run of hex digits after the optional prefix.
pub fn decode_hex(s: &str) -> (r: Option<Vec<u8>>)
    ensures
        ({
            let h = strip_hex_prefix(s@);
            match r {
                Some(b) => h.len() % 2 == 0 && all_hex(h) && b@ == hex_bytes_of(h),
                None => !(h.len() % 2 == 0 && all_hex(h)),
            }
        }),
{
    let len = s.unicode_len();
    let start: usize = if len >= 2 && s.get_char(0) == '0' && s.get_char(1) == 'x' {
        2
    } else {
        0
    };
    let ghost h = strip_hex_prefix(s@);
    proof {
        assert(h =~= s@.skip(start as int));
    }
    if (len - start) % 2 != 0 {
        return None;
    }
    let mut out: Vec<u8> = Vec::new();
    let mut i: usize = start;
    while i < len
        invariant
            start <= i <= len,
            i % 2 == start % 2,
            (len - start) % 2 == 0,
            len == s@.len(),
            h == s@.skip(start as int),
            h == strip_hex_prefix(s@),
            h.len() == len - start,
            out@.len() == (i - start) / 2,
            forall|j: int| 0 <= j < out@.len() ==> out@[j] == hex_byte_at(h, j),
            forall|j: int| 0 <= j < i - start ==> is_hex_digit(h[j]),
        decreases len - i,
    {
        let c1 = s.get_char(i);
        let c2 = s.get_char(i + 1);
        proof {
            assert(h[i - start] == s@[i as int]);
            assert(h[i + 1 - start] == s@[i + 1]);
        }
        let d1 = match hex_digit_value(c1) {
            Some(d) => d,
            None => {
                proof {
                    assert(!is_hex_digit(h[i - start]));
                    assert(!all_hex(h));
                }
                return None;
            },
        };
        let d2 = match hex_digit_value(c2) {
            Some(d) => d,
            None => {
                proof {
                    assert(!is_hex_digit(h[i + 1 - start]));
                    assert(!all_hex(h));
                }
                return None;
            },
        };
        out.push(16 * d1 + d2);
        proof {
            assert(out@.last() == hex_byte_at(h, (i - start) / 2));
        }
        i = i + 2;
    }
    proof {
        assert(out@ =~= hex_bytes_of(h));
    }
    Some(out)
}

/// Decodes hex text into exactly `n` bytes; fails on any other length.
pub fn decode_hex_fixed(s: &str, n: usize) -> (r: Option<Vec<u8>>)
    ensures
        ({
            let h = strip_hex_prefix(s@);
            match r {
                Some(b) => b@.len() == n && h.len() == 2 * n && all_hex(h) && b@ == hex_bytes_of(h),
                None => !(h.len() == 2 * n && all_hex(h)),
            }
        }),
{
    match decode_hex(s) {
        Some(b) => {
            if b.len() == n {
                Some(b)
            } else {
                None
            }
        },
        None => None,
    }
}

/// Parses a strictly `0x`-prefixed hex chain id into a `u32`. Succeeds
/// exactly on `0x` followed by a nonempty run of hex digits whose value
/// fits in 32 bits.
pub fn parse_u32_hex(s: &str) -> (r: Option<u32>)
    ensures
        ({
            let d = s@.skip(2);
            let ok = s@.len() >= 3 && s@[0] == '0' && s@[1] == 'x' && all_hex(d) && hex_uint(d)
                <= u32::MAX;
            match r {
                Some(v) => ok && v as int == hex_uint(d),
                None => !ok,
            }
        }),
{
    let len = s.unicode_len();
    if len < 3 || s.get_char(0) != '0' || s.get_char(1) != 'x' {
        return None;
    }
    let ghost d = s@.skip(2);
    let mut acc: u32 = 0;
    let mut i: usize = 2;
    while i < len
        invariant
            2 <= i <= len,
            len == s@.len(),
            3 <= len,
            d == s@.skip(2),
            d.len() == len - 2,
            acc as int == hex_uint(d.take(i - 2)),
            forall|j: int| 0 <= j < i - 2 ==> is_hex_digit(d[j]),
        decreases len - i,
    {
        let c = s.get_char(i);
        proof {
            assert(d[i - 2] == s@[i as int]);
        }
        let dv = match hex_digit_value(c) {
            Some(v) => v,
            None => {
                proof {
                    assert(!is_hex_digit(d[i - 2]));
                    assert(!all_hex(d));
                }
                return None;
            },
        };
        proof {
            assert(d.take(i - 2 + 1).drop_last() =~= d.take(i - 2));
            assert(d.take(i - 2 + 1).last() == d[i - 2]);
        }
        if acc > (u32::MAX - dv as u32) / 16 {
            proof {
                let t = d.take(i - 1);
                assert forall|j: int| 0 <= j < t.len() implies is_hex_digit(t[j]) by {
                    assert(t[j] == d[j]);
                }
                assert(hex_uint(t) > u32::MAX);
                if all_hex(d) {
                    lemma_hex_uint_take_le(d, i - 1);
                }
            }
            return None;
        }
        acc = acc * 16 + dv as u32;
        i = i + 1;
    }
    proof {
        assert(d.take(len - 2) =~= d);
    }
    Some(acc)
}

/// The lowercase hex digit for a value below 16; `'?'` otherwise.
pub open spec fn hex_char_of(d: int) -> char {
    if d == 0 {
        '0'
    } else if d == 1 {
        '1'
    } else if d == 2 {
        '2'
    } else if d == 3 {
        '3'
    } else if d == 4 {
        '4'
    } else if d == 5 {
        '5'
    } else if d == 6 {
        '6'
    } else if d == 7 {
        '7'
    } else if d == 8 {
        '8'
    } else if d == 9 {
        '9'
    } else if d == 10 {
        'a'
    } else if d == 11 {
        'b'
    } else if d == 12 {
        'c'
    } else if d == 13 {
        'd'
    } else if d == 14 {
        'e'
    } else if d == 15 {
        'f'
    } else {
        '?'
    }
}

/// The lowercase hex text for `b`, two digits per byte.
pub open spec fn hex_str_of(b: Seq<u8>) -> Seq<char> {
    Seq::new(
        b.len() * 2,
        |i: int|
            if i % 2 == 0 {
                hex_char_of(b[i / 2] as int / 16)
            } else {
                hex_char_of(b[i / 2] as int % 16)
            },
    )
}

/// `s` with a `0x` prefix.
pub open spec fn hex_prefixed(s: Seq<char>) -> Seq<char> {
    seq!['0', 'x'] + s
}

/// The minimal hex text for `n`: no leading zeros, `0` for zero.
pub open spec fn uhex_chars(n: nat) -> Seq<char>
    decreases n,
{
    if n < 16 {
        seq![hex_char_of(n as int)]
    } else {
        uhex_chars(n / 16) + seq![hex_char_of((n % 16) as int)]
    }
}

/// The one-character string for the hex digit `d`.
fn hex_char_str(d: u8) -> (r: &'static str)
    requires
        d < 16,
    ensures
        r@ =~= seq![hex_char_of(d as int)],
{
    proof {
        reveal_strlit("0");
        reveal_strlit("1");
        reveal_strlit("2");
        reveal_strlit("3");
        reveal_strlit("4");
        reveal_strlit("5");
        reveal_strlit("6");
        reveal_strlit("7");
        reveal_strlit("8");
        reveal_strlit("9");
        reveal_strlit("a");
        reveal_strlit("b");
        reveal_strlit("c");
        reveal_strlit("d");
        reveal_strlit("e");
        reveal_strlit("f");
    }
    match d {
        0 => "0",
        1 => "1",
        2 => "2",
        3 => "3",
        4 => "4",
        5 => "5",
        6 => "6",
        7 => "7",
        8 => "8",
        9 => "9",
        10 => "a",
        11 => "b",
        12 => "c",
        13 => "d",
        14 => "e",
        _ => "f",
    }
}

/// Encodes bytes as `0x`-prefixed lowercase hex, two digits per byte.
pub fn encode_hex_prefixed(b: &Vec<u8>) -> (r: String)
    ensures
        r@ == hex_prefixed(hex_str_of(b@)),
{
    let mut out = String::new();
    out.append("0x");
    proof {
        reveal_strlit("0x");
        assert(out@ =~= seq!['0', 'x'] + hex_str_of(b@.take(0)));
    }
    let mut i: usize = 0;
    while i < b.len()
        invariant
            0 <= i <= b@.len(),
            out@ == seq!['0', 'x'] + hex_str_of(b@.take(i as int)),
        decreases b@.len() - i,
    {
        let hi = b[i] / 16;
        let lo = b[i] % 16;
        out.append(hex_char_str(hi));
        out.append(hex_char_str(lo));
        proof {
            assert(hex_str_of(b@.take(i + 1)) =~= hex_str_of(b@.take(i as int)) + seq![
                hex_char_of(b@[i as int] as int / 16),
                hex_char_of(b@[i as int] as int % 16),
            ]);
            assert(out@ =~= seq!['0', 'x'] + hex_str_of(b@.take(i + 1)));
        }
        i = i + 1;
    }
    proof {
        assert(b@.take(b@.len() as int) =~= b@);
    }
    out
}

/// Writes the minimal hex digits of `n` onto `out`.
fn push_uhex(n: u32, out: &mut String)
    ensures
        final (out)@ == old(out)@ + uhex_chars(n as nat),
    decreases n,
{
    if n < 16 {
        out.append(hex_char_str(n as u8));
    } else {
        push_uhex(n / 16, out);
        out.append(hex_char_str((n % 16) as u8));
        proof {
            assert(old(out)@ + uhex_chars((n / 16) as nat) + seq![
                hex_char_of((n % 16) as int),
            ] =~= old(out)@ + uhex_chars(n as nat));
        }
    }
}

/// Encodes `n` as minimal `0x`-prefixed lowercase hex (`0x0` for zero).
pub fn u32_to_hex_prefixed(n: u32) -> (r: String)
    ensures
        r@ == hex_prefixed(uhex_chars(n as nat)),
{
    let mut out = String::new();
    out.append("0x");
    proof {
        reveal_strlit("0x");
        assert(out@ =~= seq!['0', 'x']);
    }
    push_uhex(n, &mut out);
    proof {
        assert(out@ =~= hex_prefixed(uhex_chars(n as nat)));
    }
    out
}

} // verus!
