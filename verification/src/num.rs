//! Numeric tokens of the line protocol: decimal numbers such as `1.5`
//! are held as sign, integer mantissa and decimal scale; unsigned and
//! signed integer tokens are parsed with explicit range checks.

use vstd::prelude::*;

verus! {

/// A decimal number `(-1)^negative * mantissa / 10^scale`, the library's
/// plain-value stand-in for the fractional values of the line protocol.
#[derive(Clone, Copy, Debug, PartialEq, Eq, Structural)]
pub struct Decimal {
    pub negative: bool,
    pub mantissa: u64,
    pub scale: u32,
}

pub open spec fn is_digit(c: char) -> bool {
    48 <= c as u32 && c as u32 <= 57
}

pub open spec fn digit_val(c: char) -> nat {
    if is_digit(c) {
        (c as u32 - 48) as nat
    } else {
        0
    }
}

pub open spec fn all_digits(s: Seq<char>) -> bool {
    forall|k: int| 0 <= k < s.len() ==> is_digit(s[k])
}

/// The value of a digit string read in base 10.
pub open spec fn digits_val(s: Seq<char>) -> nat
    decreases s.len(),
{
    if s.len() == 0 {
        0
    } else {
        digits_val(s.drop_last()) * 10 + digit_val(s.last())
    }
}

/// Appending characters to a digit string never lowers its value.
proof fn lemma_digits_val_prefix(a: Seq<char>, c: Seq<char>)
    ensures
        digits_val(a + c) >= digits_val(a),
    decreases c.len(),
{
    if c.len() == 0 {
        assert(a + c =~= a);
    } else {
        lemma_digits_val_prefix(a, c.drop_last());
        assert((a + c).drop_last() =~= a + c.drop_last());
    }
}

/// Position of the first `.` in `b`, or `b.len()` if there is none.
pub open spec fn dot_pos(b: Seq<char>) -> int
    decreases b.len(),
{
    if b.len() == 0 {
        0
    } else if b[0] == '.' {
        0
    } else {
        1 + dot_pos(b.drop_first())
    }
}

proof fn lemma_dot_pos(b: Seq<char>)
    ensures
        0 <= dot_pos(b) <= b.len(),
        dot_pos(b) < b.len() ==> b[dot_pos(b)] == '.',
        forall|k: int| 0 <= k < dot_pos(b) ==> b[k] != '.',
    decreases b.len(),
{
    if b.len() == 0 {
    } else if b[0] == '.' {
    } else {
        lemma_dot_pos(b.drop_first());
        assert forall|k: int| 0 <= k < dot_pos(b) implies b[k] != '.' by {
            if k > 0 {
                assert(b.drop_first()[k - 1] != '.');
            }
        }
    }
}

pub open spec fn has_sign(s: Seq<char>) -> bool {
    s.len() > 0 && (s[0] == '+' || s[0] == '-')
}

pub open spec fn dec_negative(s: Seq<char>) -> bool {
    s.len() > 0 && s[0] == '-'
}

/// The token without its optional sign.
pub open spec fn sign_body(s: Seq<char>) -> Seq<char> {
    if has_sign(s) {
        s.drop_first()
    } else {
        s
    }
}

pub open spec fn dec_int_digits(b: Seq<char>) -> Seq<char> {
    b.take(dot_pos(b))
}

pub open spec fn dec_frac_digits(b: Seq<char>) -> Seq<char> {
    if dot_pos(b) < b.len() {
        b.skip(dot_pos(b) + 1)
    } else {
        Seq::empty()
    }
}

pub open spec fn dec_mantissa_digits(b: Seq<char>) -> Seq<char> {
    dec_int_digits(b) + dec_frac_digits(b)
}

/// A well-formed decimal token: an optional sign, then digits with at most
/// one dot among them and at least one digit, whose mantissa fits in 64 bits
/// and whose fractional length fits in 32 bits.
pub open spec fn dec_token_valid(s: Seq<char>) -> bool {
    let b = sign_body(s);
    &&& all_digits(dec_int_digits(b))
    &&& all_digits(dec_frac_digits(b))
    &&& dec_mantissa_digits(b).len() > 0
    &&& digits_val(dec_mantissa_digits(b)) <= u64::MAX
    &&& dec_frac_digits(b).len() <= u32::MAX
}

/// The decimal a valid token denotes.
pub open spec fn dec_of(s: Seq<char>) -> Decimal {
    let b = sign_body(s);
    Decimal {
        negative: dec_negative(s),
        mantissa: digits_val(dec_mantissa_digits(b)) as u64,
        scale: dec_frac_digits(b).len() as u32,
    }
}

fn char_digit(c: char) -> (r: Option<u64>)
    ensures
        r is Some <==> is_digit(c),
        r matches Some(d) ==> d == digit_val(c),
{
    let u = c as u32;
    if 48 <= u && u <= 57 {
        Some((u - 48) as u64)
    } else {
        None
    }
}

/// Parses `t` as a decimal token; `None` exactly on malformed or
/// out-of-range tokens.
pub fn parse_dec_token(t: &str) -> (r: Option<Decimal>)
    ensures
        r is Some <==> dec_token_valid(t@),
        r matches Some(d) ==> d == dec_of(t@),
{
    let n = t.unicode_len();
    let mut i0: usize = 0;
    let mut negative = false;
    if n > 0 {
        let c0 = t.get_char(0);
        if c0 == '+' {
            i0 = 1;
        } else if c0 == '-' {
            negative = true;
            i0 = 1;
        }
    }
    let ghost b = sign_body(t@);
    proof {
        assert(b =~= t@.skip(i0 as int));
        assert(negative == dec_negative(t@));
        lemma_dot_pos(b);
    }
    let mut j = i0;
    let mut mant: u64 = 0;
    let mut ndigits: usize = 0;
    let mut seen_dot = false;
    let mut scale: u32 = 0;
    let ghost mut dp: int = 0;
    proof {
        assert(b.take(0) =~= Seq::<char>::empty());
    }
    while j < n
        invariant
            n == t@.len(),
            b == t@.skip(i0 as int),
            b == sign_body(t@),
            negative == dec_negative(t@),
            b.len() == n - i0,
            i0 <= j <= n,
            i0 <= 1,
            !seen_dot ==> forall|k: int| 0 <= k < j - i0 ==> is_digit(b[k]),
            !seen_dot ==> mant == digits_val(b.take(j - i0)),
            !seen_dot ==> ndigits == j - i0,
            !seen_dot ==> scale == 0,
            seen_dot ==> 0 <= dp < j - i0,
            seen_dot ==> b[dp] == '.',
            seen_dot ==> forall|k: int| 0 <= k < j - i0 && k != dp ==> is_digit(b[k]),
            seen_dot ==> mant == digits_val(b.take(dp) + b.subrange(dp + 1, j - i0)),
            seen_dot ==> ndigits == j - i0 - 1,
            seen_dot ==> scale == j - i0 - 1 - dp,
        decreases n - j,
    {
        let ghost p = j - i0;
        proof {
            assert(b[p] == t@[j as int]);
        }
        let c = t.get_char(j);
        if c == '.' {
            if seen_dot {
                proof {
                    lemma_dot_pos(b);
                    assert(dot_pos(b) == dp);
                    assert(dec_frac_digits(b)[p - dp - 1] == '.');
                }
                return None;
            }
            seen_dot = true;
            proof {
                dp = p;
                assert(b.take(dp) + b.subrange(dp + 1, dp + 1) =~= b.take(dp));
            }
        } else {
            match char_digit(c) {
                None => {
                    proof {
                        lemma_dot_pos(b);
                        if seen_dot {
                            assert(dot_pos(b) == dp);
                            assert(!is_digit(dec_frac_digits(b)[p - dp - 1]));
                        } else {
                            assert(dot_pos(b) > p);
                            assert(!is_digit(dec_int_digits(b)[p]));
                        }
                    }
                    return None;
                },
                Some(d) => {
                    let ghost pref = if seen_dot {
                        b.take(dp) + b.subrange(dp + 1, p)
                    } else {
                        b.take(p)
                    };
                    proof {
                        assert(digits_val(pref.push(b[p])) == mant * 10 + d) by {
                            assert(pref.push(b[p]).drop_last() =~= pref);
                        }
                    }
                    if mant > (u64::MAX - d) / 10 {
                        proof {
                            lemma_dot_pos(b);
                            let md = dec_mantissa_digits(b);
                            if seen_dot {
                                assert(dot_pos(b) == dp);
                                assert(md =~= pref.push(b[p]) + b.subrange(p + 1, b.len() as int));
                            } else {
                                assert(dot_pos(b) > p);
                                assert(md =~= pref.push(b[p]) + (b.subrange(p + 1, dot_pos(b))
                                    + dec_frac_digits(b)));
                            }
                            lemma_digits_val_prefix(
                                pref.push(b[p]),
                                md.skip(pref.len() as int + 1),
                            );
                            assert(md =~= pref.push(b[p]) + md.skip(pref.len() as int + 1));
                            assert(mant * 10 + d > u64::MAX);
                            assert(digits_val(md) > u64::MAX);
                        }
                        return None;
                    }
                    mant = mant * 10 + d;
                    if seen_dot {
                        if scale == u32::MAX {
                            proof {
                                lemma_dot_pos(b);
                                assert(dot_pos(b) == dp);
                                assert(dec_frac_digits(b).len() == b.len() - dp - 1);
                                assert(b.len() - dp - 1 > u32::MAX);
                            }
                            return None;
                        }
                        scale = scale + 1;
                    }
                    ndigits = ndigits + 1;
                    proof {
                        if seen_dot {
                            assert(b.take(dp) + b.subrange(dp + 1, p + 1) =~= pref.push(b[p]));
                        } else {
                            assert(b.take(p + 1) =~= pref.push(b[p]));
                        }
                    }
                },
            }
        }
        j = j + 1;
    }
    proof {
        lemma_dot_pos(b);
        if seen_dot {
            assert(dot_pos(b) == dp);
            assert(dec_int_digits(b) =~= b.take(dp));
            assert(dec_frac_digits(b) =~= b.subrange(dp + 1, b.len() as int));
            assert(dec_mantissa_digits(b) =~= b.take(dp) + b.subrange(dp + 1, b.len() as int));
        } else {
            assert(dot_pos(b) == b.len());
            assert(dec_int_digits(b) =~= b);
            assert(dec_mantissa_digits(b) =~= b.take(b.len() as int));
        }
    }
    if ndigits == 0 {
        return None;
    }
    Some(Decimal { negative, mantissa: mant, scale })
}

/// A well-formed unsigned token: an optional `+`, then digits, whose value
/// fits in 64 bits.
pub open spec fn u64_token_valid(s: Seq<char>) -> bool {
    let b = if s.len() > 0 && s[0] == '+' {
        s.drop_first()
    } else {
        s
    };
    &&& b.len() > 0
    &&& all_digits(b)
    &&& digits_val(b) <= u64::MAX
}

pub open spec fn u64_of(s: Seq<char>) -> u64 {
    let b = if s.len() > 0 && s[0] == '+' {
        s.drop_first()
    } else {
        s
    };
    digits_val(b) as u64
}

fn parse_digits_range(t: &str, from: usize, to: usize) -> (r: Option<u64>)
    requires
        from <= to <= t@.len(),
    ensures
        r is Some <==> (from < to && all_digits(t@.subrange(from as int, to as int)) && digits_val(
            t@.subrange(from as int, to as int),
        ) <= u64::MAX),
        r matches Some(v) ==> v == digits_val(t@.subrange(from as int, to as int)),
{
    let ghost b = t@.subrange(from as int, to as int);
    if from == to {
        return None;
    }
    let mut j = from;
    let mut acc: u64 = 0;
    proof {
        assert(b.take(0) =~= Seq::<char>::empty());
    }
    while j < to
        invariant
            from <= j <= to <= t@.len(),
            b == t@.subrange(from as int, to as int),
            forall|k: int| 0 <= k < j - from ==> is_digit(b[k]),
            acc == digits_val(b.take(j - from)),
        decreases to - j,
    {
        let ghost p = j - from;
        proof {
            assert(b[p] == t@[j as int]);
        }
        let c = t.get_char(j);
        match char_digit(c) {
            None => {
                return None;
            },
            Some(d) => {
                proof {
                    assert(digits_val(b.take(p).push(b[p])) == acc * 10 + d) by {
                        assert(b.take(p).push(b[p]).drop_last() =~= b.take(p));
                    }
                }
                if acc > (u64::MAX - d) / 10 {
                    proof {
                        assert(b =~= b.take(p).push(b[p]) + b.skip(p + 1));
                        lemma_digits_val_prefix(b.take(p).push(b[p]), b.skip(p + 1));
                    }
                    return None;
                }
                acc = acc * 10 + d;
                proof {
                    assert(b.take(p + 1) =~= b.take(p).push(b[p]));
                }
            },
        }
        j = j + 1;
    }
    proof {
        assert(b.take(b.len() as int) =~= b);
    }
    Some(acc)
}

/// Parses `t` as an unsigned integer token; `None` exactly on malformed or
/// out-of-range tokens.
pub fn parse_u64_token(t: &str) -> (r: Option<u64>)
    ensures
        r is Some <==> u64_token_valid(t@),
        r matches Some(v) ==> v == u64_of(t@),
{
    let n = t.unicode_len();
    let mut i0: usize = 0;
    if n > 0 {
        if t.get_char(0) == '+' {
            i0 = 1;
        }
    }
    proof {
        if t@.len() > 0 && t@[0] == '+' {
            assert(t@.drop_first() =~= t@.subrange(1, t@.len() as int));
        } else {
            assert(t@ =~= t@.subrange(0, t@.len() as int));
        }
    }
    parse_digits_range(t, i0, n)
}

/// A well-formed signed 32-bit token: an optional sign, then digits, whose
/// value lies within the signed 32-bit range.
pub open spec fn i32_token_valid(s: Seq<char>) -> bool {
    let b = sign_body(s);
    &&& b.len() > 0
    &&& all_digits(b)
    &&& (if dec_negative(s) {
        digits_val(b) <= 0x8000_0000
    } else {
        digits_val(b) <= 0x7fff_ffff
    })
}

pub open spec fn i32_of(s: Seq<char>) -> int {
    let b = sign_body(s);
    if dec_negative(s) {
        -(digits_val(b) as int)
    } else {
        digits_val(b) as int
    }
}

/// Parses `t` as a signed 32-bit integer token; `None` exactly on malformed
/// or out-of-range tokens.
pub fn parse_i32_token(t: &str) -> (r: Option<i32>)
    ensures
        r is Some <==> i32_token_valid(t@),
        r matches Some(v) ==> v as int == i32_of(t@),
{
    let n = t.unicode_len();
    let mut i0: usize = 0;
    let mut negative = false;
    if n > 0 {
        let c0 = t.get_char(0);
        if c0 == '+' {
            i0 = 1;
        } else if c0 == '-' {
            negative = true;
            i0 = 1;
        }
    }
    proof {
        if has_sign(t@) {
            assert(sign_body(t@) =~= t@.subrange(1, t@.len() as int));
        } else {
            assert(sign_body(t@) =~= t@.subrange(0, t@.len() as int));
        }
    }
    match parse_digits_range(t, i0, n) {
        None => None,
        Some(v) => {
            if negative {
                if v > 0x8000_0000 {
                    None
                } else if v == 0x8000_0000 {
                    Some(i32::MIN)
                } else {
                    Some(-(v as i32))
                }
            } else {
                if v > 0x7fff_ffff {
                    None
                } else {
                    Some(v as i32)
                }
            }
        },
    }
}

} // verus!
