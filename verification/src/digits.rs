//! Exact parsing of decimal number text into micro-units.
//!
//! The measurement tool's numeric fields arrive as JSON number text:
//! a non-empty run of digits, optionally followed by a dot and a
//! non-empty run of fraction digits. This module turns such text into
//! an unsigned count of micro-units (millionths), keeping the first six
//! fraction digits and discarding the rest. Text in any other shape
//! (signs, exponents, a trailing dot) is rejected, as is a value too
//! large for `u64`.

use vstd::prelude::*;

verus! {

/// The decimal digits, as character codes.
pub open spec fn is_digit_char(c: char) -> bool {
    48 <= c as u32 && c as u32 <= 57
}

/// Numeric value of one decimal digit character.
pub open spec fn digit_val(c: char) -> int {
    c as u32 - 48
}

/// Every character of `s` is a decimal digit.
pub open spec fn all_digits(s: Seq<char>) -> bool {
    forall|i: int| 0 <= i < s.len() ==> is_digit_char(s[i])
}

/// The base-ten value of a digit string, most significant digit first.
pub open spec fn digits_val(s: Seq<char>) -> int
    decreases s.len(),
{
    if s.len() == 0 {
        0
    } else {
        digits_val(s.drop_last()) * 10 + digit_val(s.last())
    }
}

/// Ten to the `n`th power.
pub open spec fn pow10(n: nat) -> int
    decreases n,
{
    if n == 0 {
        1
    } else {
        10 * pow10((n - 1) as nat)
    }
}

/// Index of the first `'.'` in `s`, or `s.len()` if there is none.
pub open spec fn dot_pos(s: Seq<char>) -> int
    decreases s.len(),
{
    if s.len() == 0 {
        0
    } else if s[0] == '.' {
        0
    } else {
        1 + dot_pos(s.subrange(1, s.len() as int))
    }
}

/// Ten to any power is positive.
pub proof fn lemma_pow10_pos(n: nat)
    ensures
        pow10(n) >= 1,
    decreases n,
{
    if n > 0 {
        lemma_pow10_pos((n - 1) as nat);
    }
}

/// Powers of ten multiply by adding exponents.
pub proof fn lemma_pow10_mul(a: nat, b: nat)
    ensures
        pow10(a) * pow10(b) == pow10(a + b),
    decreases a,
{
    if a == 0 {
        assert(pow10(0) * pow10(b) == pow10(b));
    } else {
        lemma_pow10_mul((a - 1) as nat, b);
        assert(pow10(a) * pow10(b) == 10 * pow10((a - 1) as nat) * pow10(b));
        assert(10 * pow10((a - 1) as nat) * pow10(b) == 10 * (pow10((a - 1) as nat) * pow10(b)))
            by (nonlinear_arith);
        assert(pow10((a + b - 1) as nat) == pow10((a - 1) as nat) * pow10(b));
    }
}

/// A digit string's value is never negative.
pub proof fn lemma_digits_val_nonneg(s: Seq<char>)
    requires
        all_digits(s),
    ensures
        digits_val(s) >= 0,
    decreases s.len(),
{
    if s.len() > 0 {
        assert(all_digits(s.drop_last()));
        lemma_digits_val_nonneg(s.drop_last());
    }
}

/// A digit string's value is below ten to its length.
pub proof fn lemma_digits_val_upper(s: Seq<char>)
    requires
        all_digits(s),
    ensures
        digits_val(s) < pow10(s.len()),
    decreases s.len(),
{
    if s.len() == 0 {
    } else {
        assert(all_digits(s.drop_last()));
        lemma_digits_val_upper(s.drop_last());
        assert(digit_val(s.last()) <= 9);
        assert(digits_val(s.drop_last()) <= pow10((s.len() - 1) as nat) - 1);
        assert(digits_val(s.drop_last()) * 10 <= (pow10((s.len() - 1) as nat) - 1) * 10)
            by (nonlinear_arith)
            requires
                digits_val(s.drop_last()) <= pow10((s.len() - 1) as nat) - 1,
        ;
        assert((pow10((s.len() - 1) as nat) - 1) * 10 == pow10(s.len()) - 10);
    }
}

/// Extending a digit string on the right never lowers its value.
pub proof fn lemma_digits_val_prefix_le(s: Seq<char>, j: int)
    requires
        all_digits(s),
        0 <= j <= s.len(),
    ensures
        digits_val(s.subrange(0, j)) <= digits_val(s),
    decreases s.len() - j,
{
    if j == s.len() {
        assert(s.subrange(0, j) =~= s);
    } else {
        let p = s.subrange(0, j);
        let q = s.subrange(0, j + 1);
        assert(q.drop_last() =~= p);
        assert(all_digits(p));
        lemma_digits_val_nonneg(p);
        assert(digits_val(q) == digits_val(p) * 10 + digit_val(s[j]));
        assert(digits_val(p) * 10 >= digits_val(p)) by (nonlinear_arith)
            requires
                digits_val(p) >= 0,
        ;
        lemma_digits_val_prefix_le(s, j + 1);
    }
}

/// `dot_pos` finds exactly the first dot: if no dot stands before `j`,
/// and `j` is a dot or the end, then `dot_pos` is `j`.
pub proof fn lemma_dot_pos_is(s: Seq<char>, j: int)
    requires
        0 <= j <= s.len(),
        forall|i: int| 0 <= i < j ==> s[i] != '.',
        j < s.len() ==> s[j] == '.',
    ensures
        dot_pos(s) == j,
    decreases s.len(),
{
    if s.len() == 0 {
    } else if s[0] == '.' {
        assert(j == 0);
    } else {
        assert(j >= 1);
        let t = s.subrange(1, s.len() as int);
        assert(forall|i: int| 0 <= i < j - 1 ==> t[i] != '.');
        lemma_dot_pos_is(t, j - 1);
    }
}

/// Whether `s` is in the accepted decimal shape: a non-empty run of
/// digits, optionally followed by a dot and a non-empty run of digits.
pub open spec fn valid_decimal(s: Seq<char>) -> bool {
    let d = dot_pos(s);
    &&& d > 0
    &&& all_digits(s.subrange(0, d))
    &&& (d == s.len() || (d < s.len() - 1 && all_digits(s.subrange(d + 1, s.len() as int))))
}

/// The fraction digits of `s`: what follows the dot, or nothing.
pub open spec fn frac_digits(s: Seq<char>) -> Seq<char> {
    if dot_pos(s) == s.len() {
        Seq::empty()
    } else {
        s.subrange(dot_pos(s) + 1, s.len() as int)
    }
}

/// The value of a fraction-digit string in micro-units: the first six
/// digits, padded with zeros on the right to six places; digits past
/// the sixth are discarded.
pub open spec fn frac_micro(f: Seq<char>) -> int {
    if f.len() >= 6 {
        digits_val(f.subrange(0, 6))
    } else {
        digits_val(f) * pow10((6 - f.len()) as nat)
    }
}

/// The value of decimal text `s` in micro-units: the whole part times
/// one million, plus the first six fraction digits.
pub open spec fn decimal_micro_val(s: Seq<char>) -> int {
    digits_val(s.subrange(0, dot_pos(s))) * 1_000_000 + frac_micro(frac_digits(s))
}

/// Index of the first `'.'` of `s`, or its character length if none.
fn find_dot(s: &str) -> (d: usize)
    ensures
        d == dot_pos(s@),
        d <= s@.len(),
{
    let n = s.unicode_len();
    let mut i: usize = 0;
    while i < n
        invariant
            0 <= i <= n,
            n == s@.len(),
            forall|k: int| 0 <= k < i ==> s@[k] != '.',
        decreases n - i,
    {
        let c = s.get_char(i);
        if c == '.' {
            proof {
                lemma_dot_pos_is(s@, i as int);
            }
            return i;
        }
        i = i + 1;
    }
    proof {
        lemma_dot_pos_is(s@, n as int);
    }
    n
}

/// Whether every character of `s` between `from` and `to` is a digit.
fn check_digits_range(s: &str, from: usize, to: usize) -> (b: bool)
    requires
        from <= to <= s@.len(),
    ensures
        b == all_digits(s@.subrange(from as int, to as int)),
{
    let ghost f = s@.subrange(from as int, to as int);
    let mut i: usize = from;
    while i < to
        invariant
            from <= i <= to <= s@.len(),
            f == s@.subrange(from as int, to as int),
            forall|k: int| 0 <= k < i - from ==> is_digit_char(f[k]),
        decreases to - i,
    {
        let c = s.get_char(i);
        let code: u32 = c as u32;
        if code < 48 || code > 57 {
            assert(f[i - from] == s@[i as int]);
            return false;
        }
        assert(f[i - from] == s@[i as int]);
        i = i + 1;
    }
    true
}

/// Parses the digits of `s` between `from` and `to` as a base-ten
/// number. Returns the value exactly when every character in the range
/// is a digit and the value fits in `u64`; an empty range has value
/// zero.
fn parse_digits_range(s: &str, from: usize, to: usize) -> (r: Option<u64>)
    requires
        from <= to <= s@.len(),
    ensures
        r.is_some() <==> (all_digits(s@.subrange(from as int, to as int)) && digits_val(
            s@.subrange(from as int, to as int),
        ) <= u64::MAX),
        r matches Some(v) ==> v == digits_val(s@.subrange(from as int, to as int)),
{
    let ghost f = s@.subrange(from as int, to as int);
    let mut acc: u64 = 0;
    let mut i: usize = from;
    while i < to
        invariant
            from <= i <= to <= s@.len(),
            f == s@.subrange(from as int, to as int),
            all_digits(f.subrange(0, i - from)),
            acc == digits_val(f.subrange(0, i - from)),
        decreases to - i,
    {
        let ghost pre = f.subrange(0, i - from);
        let c = s.get_char(i);
        let code: u32 = c as u32;
        assert(f[i - from] == s@[i as int]);
        if code < 48 || code > 57 {
            assert(!is_digit_char(f[i - from]));
            return None;
        }
        let d: u64 = (code - 48) as u64;
        let ghost ext = f.subrange(0, i - from + 1);
        proof {
            assert(ext.drop_last() =~= pre);
            assert(ext.last() == f[i - from]);
            assert(digits_val(ext) == acc * 10 + d);
            assert(all_digits(ext));
        }
        if acc > u64::MAX / 10 {
            proof {
                assert(acc * 10 > u64::MAX);
                if all_digits(f) {
                    lemma_digits_val_prefix_le(f, i - from + 1);
                    assert(digits_val(f) > u64::MAX);
                }
            }
            return None;
        }
        let acc10: u64 = acc * 10;
        if d > u64::MAX - acc10 {
            proof {
                if all_digits(f) {
                    lemma_digits_val_prefix_le(f, i - from + 1);
                    assert(digits_val(f) > u64::MAX);
                }
            }
            return None;
        }
        acc = acc10 + d;
        i = i + 1;
    }
    proof {
        assert(f.subrange(0, to - from) =~= f);
    }
    Some(acc)
}

/// Ten to the `e`th power, for small `e`.
fn pow10_small(e: usize) -> (r: u64)
    requires
        e <= 6,
    ensures
        r == pow10(e as nat),
{
    proof {
        reveal_with_fuel(pow10, 7);
    }
    if e == 0 {
        1
    } else if e == 1 {
        10
    } else if e == 2 {
        100
    } else if e == 3 {
        1_000
    } else if e == 4 {
        10_000
    } else if e == 5 {
        100_000
    } else {
        1_000_000
    }
}

/// Parses decimal number text into micro-units (millionths).
///
/// Returns the exact value when `s` is a non-empty run of digits,
/// optionally followed by a dot and a non-empty run of fraction digits,
/// and the value fits in `u64`; fraction digits past the sixth are
/// discarded. Any other text — signs, exponents, a trailing dot,
/// anything non-numeric — yields `None`, as does overflow.
pub fn parse_decimal_micro(s: &str) -> (r: Option<u64>)
    ensures
        r.is_some() <==> (valid_decimal(s@) && decimal_micro_val(s@) <= u64::MAX),
        r matches Some(v) ==> v == decimal_micro_val(s@),
{
    let n = s.unicode_len();
    let d = find_dot(s);
    if d == 0 {
        return None;
    }
    if d < n && d + 1 == n {
        return None;
    }
    let ghost ip = s@.subrange(0, d as int);
    let iv_opt = parse_digits_range(s, 0, d);
    let iv: u64 = match iv_opt {
        Some(v) => v,
        None => {
            proof {
                // the whole part is malformed or alone overflows, so the
                // text is invalid or the value does not fit
                if valid_decimal(s@) {
                    lemma_digits_val_nonneg(ip);
                    if dot_pos(s@) == s@.len() {
                        assert(frac_digits(s@) =~= Seq::<char>::empty());
                    } else {
                        frac_micro_nonneg(frac_digits(s@));
                    }
                    assert(digits_val(ip) * 1_000_000 >= digits_val(ip));
                }
            }
            return None;
        },
    };
    let fm: u64 = if d == n {
        proof {
            assert(frac_digits(s@) =~= Seq::<char>::empty());
        }
        0
    } else {
        let ghost ff = frac_digits(s@);
        if !check_digits_range(s, d + 1, n) {
            proof {
                assert(s@.subrange(d + 1, n as int) == ff);
            }
            return None;
        }
        let flen = n - (d + 1);
        let k: usize = if flen < 6 {
            flen
        } else {
            6
        };
        let ghost fk = s@.subrange(d + 1, (d + 1 + k) as int);
        proof {
            assert(fk =~= ff.subrange(0, k as int));
            assert(all_digits(fk));
            lemma_digits_val_upper(fk);
            lemma_pow10_pos((6 - k) as nat);
            lemma_pow10_mul(k as nat, (6 - k) as nat);
            reveal_with_fuel(pow10, 7);
        }
        let fv_opt = parse_digits_range(s, d + 1, d + 1 + k);
        let fv: u64 = match fv_opt {
            Some(v) => v,
            None => {
                proof {
                    reveal_with_fuel(pow10, 7);
                    assert(digits_val(fk) < pow10(k as nat));
                    assert(pow10(k as nat) <= pow10(6)) by {
                        assert(pow10(k as nat) * pow10((6 - k) as nat) == pow10(6));
                        assert(pow10(k as nat) * pow10((6 - k) as nat) >= pow10(k as nat) * 1)
                            by (nonlinear_arith)
                            requires
                                pow10((6 - k) as nat) >= 1,
                                pow10(k as nat) >= 1,
                        ;
                    }
                    assert(false);
                }
                0
            },
        };
        let mult = pow10_small(6 - k);
        proof {
            assert(fv * mult < 1_000_000) by (nonlinear_arith)
                requires
                    fv < pow10(k as nat),
                    mult == pow10((6 - k) as nat),
                    pow10(k as nat) * pow10((6 - k) as nat) == 1_000_000,
                    pow10((6 - k) as nat) >= 1,
                    fv >= 0,
            ;
            if k == 6 {
                assert(ff.len() >= 6);
                assert(frac_micro(ff) == digits_val(ff.subrange(0, 6)));
                assert(mult == 1);
            } else {
                assert(ff.len() == k < 6);
                assert(fk =~= ff);
                assert(frac_micro(ff) == digits_val(ff) * pow10((6 - k) as nat));
            }
        }
        fv * mult
    };
    proof {
        assert(fm == frac_micro(frac_digits(s@)));
        assert(fm < 1_000_000);
        assert(valid_decimal(s@));
    }
    if iv > (u64::MAX - fm) / 1_000_000 {
        proof {
            assert(iv * 1_000_000 + fm > u64::MAX);
        }
        return None;
    }
    proof {
        assert(iv * 1_000_000 + fm <= u64::MAX);
    }
    Some(iv * 1_000_000 + fm)
}

/// The micro-unit value of a digit fraction is never negative.
pub proof fn frac_micro_nonneg(f: Seq<char>)
    requires
        all_digits(f),
    ensures
        frac_micro(f) >= 0,
{
    if f.len() >= 6 {
        assert(all_digits(f.subrange(0, 6)));
        lemma_digits_val_nonneg(f.subrange(0, 6));
    } else {
        lemma_digits_val_nonneg(f);
        lemma_pow10_pos((6 - f.len()) as nat);
        assert(digits_val(f) * pow10((6 - f.len()) as nat) >= 0) by (nonlinear_arith)
            requires
                digits_val(f) >= 0,
                pow10((6 - f.len()) as nat) >= 1,
        ;
    }
}

/// Parses a whole string of digits as a base-ten `u64`.
///
/// Returns the value exactly when `s` is non-empty, every character is
/// a digit, and the value fits in `u64`; otherwise `None`.
pub fn parse_u64_digits(s: &str) -> (r: Option<u64>)
    ensures
        r.is_some() <==> (s@.len() > 0 && all_digits(s@) && digits_val(s@) <= u64::MAX),
        r matches Some(v) ==> v == digits_val(s@),
{
    let n = s.unicode_len();
    if n == 0 {
        return None;
    }
    proof {
        assert(s@.subrange(0, n as int) =~= s@);
    }
    parse_digits_range(s, 0, n)
}

} // verus!
