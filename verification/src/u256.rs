//! A 256-bit unsigned quantity, as token values and gas amounts carry it,
//! with verified decoding from the base-10 text the event store persists.

use vstd::prelude::*;
use vstd::arithmetic::div_mod::lemma_fundamental_div_mod;
use vstd::string::StrSliceExecFns;

verus! {

pub open spec fn p64() -> int {
    0x10000000000000000int
}

pub open spec fn p128() -> int {
    0x100000000000000000000000000000000int
}

pub open spec fn p192() -> int {
    0x1000000000000000000000000000000000000000000000000int
}

pub open spec fn p256() -> int {
    0x10000000000000000000000000000000000000000000000000000000000000000int
}

/// A 256-bit unsigned integer as four 64-bit limbs, least significant
/// first.
#[derive(Debug, PartialEq, Eq, Clone, Copy)]
pub struct U256 {
    pub w0: u64,
    pub w1: u64,
    pub w2: u64,
    pub w3: u64,
}

/// Whether `c` is a decimal digit.
pub open spec fn is_dec_digit(c: char) -> bool {
    '0' as int <= c as int && c as int <= '9' as int
}

pub open spec fn dec_digit_val(c: char) -> int {
    c as int - '0' as int
}

/// Every character of `s` is a decimal digit.
pub open spec fn all_dec(s: Seq<char>) -> bool {
    forall|i: int| 0 <= i < s.len() ==> is_dec_digit(s[i])
}

/// The unsigned value of a run of decimal digits, most significant first.
pub open spec fn dec_uint(s: Seq<char>) -> int
    decreases s.len(),
{
    if s.len() == 0 {
        0
    } else {
        dec_uint(s.drop_last()) * 10 + dec_digit_val(s.last())
    }
}

pub proof fn lemma_dec_uint_nonneg(s: Seq<char>)
    requires
        all_dec(s),
    ensures
        0 <= dec_uint(s),
    decreases s.len(),
{
    if s.len() > 0 {
        let t = s.drop_last();
        assert forall|i: int| 0 <= i < t.len() implies is_dec_digit(t[i]) by {
            assert(t[i] == s[i]);
        }
        lemma_dec_uint_nonneg(t);
        assert(is_dec_digit(s.last()));
    }
}

/// A run of decimal digits is worth at least any of its prefixes.
pub proof fn lemma_dec_uint_take_le(s: Seq<char>, i: int)
    requires
        all_dec(s),
        0 <= i <= s.len(),
    ensures
        dec_uint(s.take(i)) <= dec_uint(s),
    decreases s.len() - i,
{
    if i < s.len() {
        let t1 = s.take(i + 1);
        let t0 = s.take(i);
        assert forall|j: int| 0 <= j < t0.len() implies is_dec_digit(t0[j]) by {
            assert(t0[j] == s[j]);
        }
        assert(t1.drop_last() =~= t0);
        assert(t1.last() == s[i]);
        lemma_dec_uint_nonneg(t0);
        assert(dec_uint(t0) <= dec_uint(t1));
        lemma_dec_uint_take_le(s, i + 1);
    } else {
        assert(s.take(i) =~= s);
    }
}

impl U256 {
    /// The mathematical value of the four limbs.
    pub open spec fn as_int(self) -> int {
        self.w0 as int + self.w1 as int * p64() + self.w2 as int * p128() + self.w3 as int
            * p192()
    }

    pub fn zero() -> (r: U256)
        ensures
            r.as_int() == 0,
    {
        U256 { w0: 0, w1: 0, w2: 0, w3: 0 }
    }

    /// `10 * self + d`, or `None` where that no longer fits in 256 bits.
    fn mul10_add(self, d: u8) -> (r: Option<U256>)
        requires
            d < 10,
        ensures
            match r {
                Some(y) => y.as_int() == 10 * self.as_int() + d,
                None => 10 * self.as_int() + d >= p256(),
            },
    {
        let b: u128 = 0x10000000000000000;
        let p0: u128 = (self.w0 as u128) * 10 + (d as u128);
        let n0: u64 = (p0 % b) as u64;
        let c0: u64 = (p0 / b) as u64;
        let p1: u128 = (self.w1 as u128) * 10 + (c0 as u128);
        let n1: u64 = (p1 % b) as u64;
        let c1: u64 = (p1 / b) as u64;
        let p2: u128 = (self.w2 as u128) * 10 + (c1 as u128);
        let n2: u64 = (p2 % b) as u64;
        let c2: u64 = (p2 / b) as u64;
        let p3: u128 = (self.w3 as u128) * 10 + (c2 as u128);
        let n3: u64 = (p3 % b) as u64;
        let c3: u64 = (p3 / b) as u64;
        proof {
            lemma_fundamental_div_mod(p0 as int, p64());
            lemma_fundamental_div_mod(p1 as int, p64());
            lemma_fundamental_div_mod(p2 as int, p64());
            lemma_fundamental_div_mod(p3 as int, p64());
            assert(p0 as int == c0 as int * p64() + n0 as int);
            assert(p1 as int == c1 as int * p64() + n1 as int);
            assert(p2 as int == c2 as int * p64() + n2 as int);
            assert(p3 as int == c3 as int * p64() + n3 as int);
            assert(10 * self.as_int() + d == n0 as int + n1 as int * p64() + n2 as int * p128()
                + n3 as int * p192() + c3 as int * p256());
        }
        if c3 != 0 {
            None
        } else {
            Some(U256 { w0: n0, w1: n1, w2: n2, w3: n3 })
        }
    }

    /// Decodes base-10 text. Succeeds exactly on a nonempty run of
    /// decimal digits whose value fits in 256 bits.
    pub fn from_dec_str(s: &str) -> (r: Option<U256>)
        ensures
            ({
                let ok = s@.len() > 0 && all_dec(s@) && dec_uint(s@) < p256();
                match r {
                    Some(v) => ok && v.as_int() == dec_uint(s@),
                    None => !ok,
                }
            }),
    {
        let len = s.unicode_len();
        if len == 0 {
            return None;
        }
        let mut acc = U256::zero();
        let mut i: usize = 0;
        while i < len
            invariant
                0 <= i <= len,
                len == s@.len(),
                acc.as_int() == dec_uint(s@.take(i as int)),
                0 <= acc.as_int() < p256(),
                forall|j: int| 0 <= j < i ==> is_dec_digit(s@[j]),
            decreases len - i,
        {
            let c = s.get_char(i);
            let v: u32 = c as u32;
            if !(48 <= v && v <= 57) {
                proof {
                    assert(!is_dec_digit(s@[i as int]));
                    assert(!all_dec(s@));
                }
                return None;
            }
            let dv: u8 = (v - 48) as u8;
            proof {
                assert(s@.take(i + 1).drop_last() =~= s@.take(i as int));
                assert(s@.take(i + 1).last() == s@[i as int]);
            }
            acc = match acc.mul10_add(dv) {
                Some(y) => y,
                None => {
                    proof {
                        let t = s@.take(i + 1);
                        assert forall|j: int| 0 <= j < t.len() implies is_dec_digit(t[j]) by {
                            assert(t[j] == s@[j]);
                        }
                        assert(dec_uint(t) >= p256());
                        if all_dec(s@) {
                            lemma_dec_uint_take_le(s@, i + 1);
                        }
                    }
                    return None;
                },
            };
            i = i + 1;
        }
        proof {
            assert(s@.take(len as int) =~= s@);
        }
        Some(acc)
    }
}

} // verus!
