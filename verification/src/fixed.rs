//! Fixed-point decimal amounts.
//!
//! Prices, sizes and balances are non-negative decimals with four
//! fractional digits, held in a `u64` scaled by [`SCALE`].  The venues
//! speak in decimal strings, so this module also provides a verified
//! parser and formatter for that representation.

use vstd::prelude::*;

verus! {

/// Number of fixed-point units per whole unit (four decimal places).
pub const SCALE: u64 = 10000;

/// Largest amount the library accepts: one billion whole units.
pub const AMOUNT_MAX: u64 = 10_000_000_000_000;

/// An amount is within the range the arithmetic below is proved for.
pub open spec fn amount_ok(v: u64) -> bool {
    v <= AMOUNT_MAX
}

/// Decimal digit characters.
pub open spec fn is_dec_digit(c: char) -> bool {
    '0' <= c && c <= '9'
}

/// Numeric value of one decimal digit character.
pub open spec fn dec_digit_val(c: char) -> int {
    c as u32 - '0' as u32
}

/// Every character of `s` is a decimal digit.
pub open spec fn all_dec_digits(s: Seq<char>) -> bool {
    forall|i: int| 0 <= i < s.len() ==> is_dec_digit(#[trigger] s[i])
}

/// Value of a sequence of decimal digits, most significant first.
pub open spec fn digits_val(s: Seq<char>) -> int
    decreases s.len(),
{
    if s.len() == 0 {
        0
    } else {
        digits_val(s.drop_last()) * 10 + dec_digit_val(s.last())
    }
}

/// Index of the first `'.'` in `s`, or `s.len()` if there is none.
pub open spec fn spec_dot_pos(s: Seq<char>) -> int
    decreases s.len(),
{
    if s.len() == 0 {
        0
    } else if s[0] == '.' {
        0
    } else {
        1 + spec_dot_pos(s.drop_first())
    }
}

/// The strings this library reads as fixed-point decimals: one to nine
/// integer digits, optionally followed by `'.'` and at least one more
/// digit.  No sign, whitespace or exponent.
pub open spec fn dec4_wf(s: Seq<char>) -> bool {
    let d = spec_dot_pos(s);
    &&& 1 <= d <= 9
    &&& all_dec_digits(s.take(d))
    &&& (d == s.len() || (d + 2 <= s.len() && all_dec_digits(s.skip(d + 1))))
}

/// Value contributed by the fractional digits, scaled to four places;
/// digits beyond the fourth are truncated (toward zero).
pub open spec fn frac4_val(s: Seq<char>) -> int {
    if s.len() >= 4 {
        digits_val(s.take(4))
    } else if s.len() == 3 {
        digits_val(s) * 10
    } else if s.len() == 2 {
        digits_val(s) * 100
    } else if s.len() == 1 {
        digits_val(s) * 1000
    } else {
        0
    }
}

/// Fixed-point value of a well-formed decimal string.
pub open spec fn dec4_val(s: Seq<char>) -> int {
    let d = spec_dot_pos(s);
    if d == s.len() {
        digits_val(s.take(d)) * (SCALE as int)
    } else {
        digits_val(s.take(d)) * (SCALE as int) + frac4_val(s.skip(d + 1))
    }
}

/// Append one ASCII piece to an ASCII string, keeping track of both views.
pub fn append_ascii(r: &mut String, s: &str)
    requires
        old(r).is_ascii(),
        s.is_ascii(),
    ensures
        final(r)@ == old(r)@ + s@,
        final(r).is_ascii(),
{
    let ghost pre = r@;
    r.append(s);
    proof {
        vstd::utf8::is_ascii_chars_concat(r@, pre, s@);
    }
}

fn dec_digit_at(s: &str, i: usize) -> (r: bool)
    requires
        s.is_ascii(),
        i < s@.len(),
    ensures
        r == is_dec_digit(s@[i as int]),
{
    let b = s.get_ascii(i);
    48 <= b && b <= 57
}

/// Powers of ten, for digit-count bounds.
pub open spec fn pow10(n: int) -> int
    decreases n,
{
    if n <= 0 {
        1
    } else {
        10 * pow10(n - 1)
    }
}

proof fn lemma_pow10_vals()
    ensures
        pow10(0) == 1,
        pow10(1) == 10,
        pow10(2) == 100,
        pow10(3) == 1000,
        pow10(4) == 10000,
        pow10(9) == 1_000_000_000,
        pow10(10) == 10_000_000_000,
{
    reveal_with_fuel(pow10, 12);
}

proof fn lemma_dot_pos_at(s: Seq<char>, i: int)
    requires
        0 <= i <= s.len(),
        forall|j: int| 0 <= j < i ==> s[j] != '.',
        i < s.len() ==> s[i] == '.',
    ensures
        spec_dot_pos(s) == i,
    decreases s.len(),
{
    if s.len() == 0 {
    } else if s[0] == '.' {
        assert(i == 0);
    } else {
        let t = s.drop_first();
        assert(forall|j: int| 0 <= j < i - 1 ==> t[j] == s[j + 1] && s[j + 1] != '.');
        lemma_dot_pos_at(t, i - 1);
    }
}

proof fn lemma_dot_pos_props(s: Seq<char>)
    ensures
        0 <= spec_dot_pos(s) <= s.len(),
        spec_dot_pos(s) < s.len() ==> s[spec_dot_pos(s)] == '.',
        forall|j: int| 0 <= j < spec_dot_pos(s) ==> s[j] != '.',
    decreases s.len(),
{
    if s.len() == 0 {
    } else if s[0] == '.' {
    } else {
        let t = s.drop_first();
        lemma_dot_pos_props(t);
        assert(forall|j: int| 1 <= j < spec_dot_pos(s) ==> s[j] == t[j - 1]);
    }
}

proof fn lemma_digit_prefix_no_dot(s: Seq<char>, d: int)
    requires
        0 <= d <= s.len(),
        all_dec_digits(s.take(d)),
    ensures
        forall|j: int| 0 <= j < d ==> s[j] != '.',
{
    assert forall|j: int| 0 <= j < d implies s[j] != '.' by {
        assert(s.take(d)[j] == s[j]);
        assert(is_dec_digit(s.take(d)[j]));
    }
}

proof fn lemma_digits_val_bound(s: Seq<char>)
    requires
        all_dec_digits(s),
    ensures
        0 <= digits_val(s),
        digits_val(s) < pow10(s.len() as int),
    decreases s.len(),
{
    if s.len() > 0 {
        assert(all_dec_digits(s.drop_last()));
        lemma_digits_val_bound(s.drop_last());
        assert(0 <= dec_digit_val(s.last()) <= 9);
    }
}

proof fn lemma_digits_val_extend(s: Seq<char>, i: int)
    requires
        0 <= i < s.len(),
    ensures
        digits_val(s.take(i + 1)) == digits_val(s.take(i)) * 10 + dec_digit_val(s[i]),
{
    assert(s.take(i + 1).drop_last() =~= s.take(i));
    assert(s.take(i + 1).last() == s[i]);
}

/// Parse a fixed-point decimal string.  Returns the amount exactly when
/// the string is well-formed per [`dec4_wf`]; fractional digits past the
/// fourth are truncated toward zero.
pub fn parse_dec4(s: &str) -> (r: Option<u64>)
    ensures
        r is Some <==> dec4_wf(s@),
        r is Some ==> r->0 == dec4_val(s@) && r->0 < 10_000_000_000_000_000,
{
    let len = s.unicode_len();
    proof {
        lemma_dot_pos_props(s@);
        lemma_pow10_vals();
    }
    if !s.is_ascii() {
        proof {
            if dec4_wf(s@) {
                let d = spec_dot_pos(s@);
                assert forall|i: int| 0 <= i < s@.len() implies '\0' <= #[trigger] s@[i]
                    <= '\u{7f}' by {
                    if i < d {
                        assert(s@.take(d)[i] == s@[i]);
                        assert(is_dec_digit(s@[i]));
                    } else if i == d {
                        assert(s@[i] == '.');
                    } else {
                        assert(s@.skip(d + 1)[i - d - 1] == s@[i]);
                        assert(is_dec_digit(s@[i]));
                    }
                }
                assert(vstd::utf8::is_ascii_chars(s@));
            }
        }
        return None;
    }
    let mut i: usize = 0;
    let mut acc: u64 = 0;
    while i < len && dec_digit_at(s, i)
        invariant
            s.is_ascii(),
            len == s@.len(),
            0 <= i <= len,
            all_dec_digits(s@.take(i as int)),
            i <= 10,
            acc == digits_val(s@.take(i as int)),
            acc < pow10(i as int),
            pow10(10) == 10_000_000_000,
        decreases len - i,
    {
        if i == 10 {
            // ten leading digits: the first dot, if any, comes too late
            // for the integer part to be at most nine digits
            proof {
                lemma_dot_pos_props(s@);
                if dec4_wf(s@) {
                    let d = spec_dot_pos(s@);
                    assert(s@.take(10)[d] == s@[d]);
                    assert(is_dec_digit(s@[d]));
                }
            }
            return None;
        }
        proof {
            lemma_digits_val_extend(s@, i as int);
            lemma_pow10_vals();
            assert(pow10(i as int) <= pow10(9)) by {
                reveal_with_fuel(pow10, 12);
            }
        }
        let b = s.get_ascii(i);
        acc = acc * 10 + (b - 48) as u64;
        i = i + 1;
        assert(all_dec_digits(s@.take(i as int)));
    }
    let d = i;
    proof {
        lemma_pow10_vals();
    }
    if d == 0 || d > 9 {
        proof {
            if dec4_wf(s@) {
                let dd = spec_dot_pos(s@);
                if d == 0 {
                    // first char is neither a digit nor would a leading
                    // dot give an integer part
                    if s@[0] != '.' {
                        assert(s@.take(dd)[0] == s@[0]);
                    }
                } else {
                    // d == 10: the dot position is at most 9, but the
                    // first ten characters are all digits
                    assert(s@.take(d as int)[dd] == s@[dd]);
                    assert(is_dec_digit(s@[dd]));
                }
            }
        }
        return None;
    }
    if i == len {
        proof {
            lemma_digit_prefix_no_dot(s@, d as int);
            lemma_dot_pos_at(s@, d as int);
            assert(s@.take(d as int) =~= s@);
            assert(pow10(d as int) <= pow10(9)) by {
                reveal_with_fuel(pow10, 12);
            }
        }
        return Some(acc * SCALE);
    }
    // a non-digit stopped the scan
    if s.get_ascii(i) != 46 {
        proof {
            if dec4_wf(s@) {
                let dd = spec_dot_pos(s@);
                if dd < d {
                    assert(s@.take(d as int)[dd] == s@[dd]);
                    assert(is_dec_digit(s@[dd]));
                } else if dd > d {
                    assert(s@.take(dd)[d as int] == s@[d as int]);
                }
            }
        }
        return None;
    }
    proof {
        lemma_digit_prefix_no_dot(s@, d as int);
        lemma_dot_pos_at(s@, d as int);
        assert(pow10(d as int) <= pow10(9)) by {
            reveal_with_fuel(pow10, 12);
        }
    }
    if i + 1 == len {
        // trailing dot with no fractional digits
        return None;
    }
    i = i + 1;
    let frac_start = i;
    let mut facc: u64 = 0;
    while i < len
        invariant
            s.is_ascii(),
            len == s@.len(),
            frac_start == d + 1,
            d < len,
            frac_start <= i <= len,
            spec_dot_pos(s@) == d,
            all_dec_digits(s@.subrange(frac_start as int, i as int)),
            facc == digits_val(
                s@.subrange(
                    frac_start as int,
                    if i - frac_start > 4 { frac_start + 4 } else { i as int },
                ),
            ),
            facc < 10000,
        decreases len - i,
    {
        let b = s.get_ascii(i);
        if b < 48 || b > 57 {
            proof {
                if dec4_wf(s@) {
                    assert(s@.skip(d + 1)[i - d - 1] == s@[i as int]);
                }
            }
            return None;
        }
        proof {
            let f0 = frac_start as int;
            lemma_pow10_vals();
            if i - frac_start < 4 {
                lemma_digits_val_extend(s@.subrange(f0, len as int), i - f0);
                assert(s@.subrange(f0, len as int).take(i - f0) =~= s@.subrange(f0, i as int));
                assert(s@.subrange(f0, len as int).take(i - f0 + 1) =~= s@.subrange(f0, i + 1));
                assert(s@.subrange(f0, len as int)[i - f0] == s@[i as int]);
                lemma_digits_val_bound(s@.subrange(f0, i as int));
                assert(pow10(i - f0) <= pow10(3)) by {
                    reveal_with_fuel(pow10, 12);
                }
            } else {
                assert(s@.subrange(f0, if i + 1 - f0 > 4 { f0 + 4 } else { i + 1 }) =~= s@.subrange(
                    f0,
                    if i - f0 > 4 { f0 + 4 } else { i as int },
                ));
            }
        }
        if i - frac_start < 4 {
            facc = facc * 10 + (b - 48) as u64;
        }
        i = i + 1;
        assert(all_dec_digits(s@.subrange(frac_start as int, i as int)));
    }
    let frac_len = len - frac_start;
    proof {
        lemma_pow10_vals();
        assert(s@.skip(d + 1) =~= s@.subrange(frac_start as int, len as int));
        if frac_len >= 4 {
            assert(s@.skip(d + 1).take(4) =~= s@.subrange(frac_start as int, frac_start + 4));
        } else {
            lemma_digits_val_bound(s@.subrange(frac_start as int, len as int));
            assert(pow10(frac_len as int) <= pow10(3)) by {
                reveal_with_fuel(pow10, 12);
            }
        }
    }
    let scaled: u64 = if frac_len >= 4 {
        facc
    } else if frac_len == 3 {
        facc * 10
    } else if frac_len == 2 {
        facc * 100
    } else {
        facc * 1000
    };
    assert(scaled == frac4_val(s@.skip(d + 1)));
    Some(acc * SCALE + scaled)
}

/// Character for one decimal digit value.
pub open spec fn spec_digit_char(d: int) -> char {
    if d == 0 {
        '0'
    } else if d == 1 {
        '1'
    } else if d == 2 {
        '2'
    } else if d == 3 {
        '3'
    } else if d == 4 {
        '4'
    } else if d == 5 {
        '5'
    } else if d == 6 {
        '6'
    } else if d == 7 {
        '7'
    } else if d == 8 {
        '8'
    } else {
        '9'
    }
}

/// Decimal text of a non-negative integer, no sign, no leading zeros
/// (except for zero itself).
pub open spec fn spec_uint_str(n: int) -> Seq<char>
    decreases n,
{
    if n < 10 {
        seq![spec_digit_char(n)]
    } else {
        spec_uint_str(n / 10) + seq![spec_digit_char(n % 10)]
    }
}

fn digit_str(d: u64) -> (r: &'static str)
    requires
        d < 10,
    ensures
        r@ =~= seq![spec_digit_char(d as int)],
        r.is_ascii(),
{
    let r = match d {
        0 => "0",
        1 => "1",
        2 => "2",
        3 => "3",
        4 => "4",
        5 => "5",
        6 => "6",
        7 => "7",
        8 => "8",
        _ => "9",
    };
    proof {
        reveal_strlit("0");
        reveal_strlit("1");
        reveal_strlit("2");
        reveal_strlit("3");
        reveal_strlit("4");
        reveal_strlit("5");
        reveal_strlit("6");
        reveal_strlit("7");
        reveal_strlit("8");
        reveal_strlit("9");
    }
    r
}

/// Decimal text of `n`, exactly as [`spec_uint_str`] describes it.
pub fn u64_str(n: u64) -> (r: String)
    ensures
        r@ == spec_uint_str(n as int),
        r.is_ascii(),
    decreases n,
{
    if n < 10 {
        digit_str(n).to_owned()
    } else {
        let mut r = u64_str(n / 10);
        append_ascii(&mut r, digit_str(n % 10));
        r
    }
}

/// The digits of a non-negative integer are decimal digit characters.
pub proof fn lemma_uint_str_digits(n: int)
    requires
        n >= 0,
    ensures
        all_dec_digits(spec_uint_str(n)),
        spec_uint_str(n).len() >= 1,
    decreases n,
{
    if n < 10 {
        assert(is_dec_digit(spec_digit_char(n)));
        assert(spec_uint_str(n) =~= seq![spec_digit_char(n)]);
    } else {
        lemma_uint_str_digits(n / 10);
        let a = spec_uint_str(n / 10);
        let s = spec_uint_str(n);
        assert(is_dec_digit(spec_digit_char(n % 10)));
        assert forall|i: int| 0 <= i < s.len() implies is_dec_digit(#[trigger] s[i]) by {
            if i < a.len() {
                assert(s[i] == a[i]);
            } else {
                assert(s[i] == spec_digit_char(n % 10));
            }
        }
    }
}

proof fn lemma_pow10_pos(k: int)
    ensures
        pow10(k) >= 1,
    decreases k,
{
    if k > 0 {
        lemma_pow10_pos(k - 1);
    }
}

/// The decimal text of `n` denotes `n`.
pub proof fn lemma_uint_str_val(n: int)
    requires
        n >= 0,
    ensures
        digits_val(spec_uint_str(n)) == n,
    decreases n,
{
    if n < 10 {
        let s = spec_uint_str(n);
        assert(s =~= seq![spec_digit_char(n)]);
        assert(s.drop_last() =~= Seq::<char>::empty());
        assert(s.last() == spec_digit_char(n));
        assert(dec_digit_val(spec_digit_char(n)) == n);
        assert(digits_val(s) == digits_val(s.drop_last()) * 10 + dec_digit_val(s.last()));
    } else {
        lemma_uint_str_val(n / 10);
        let s = spec_uint_str(n);
        assert(s.drop_last() =~= spec_uint_str(n / 10));
        assert(s.last() == spec_digit_char(n % 10));
        assert(dec_digit_val(spec_digit_char(n % 10)) == n % 10);
        assert(digits_val(s) == digits_val(s.drop_last()) * 10 + dec_digit_val(s.last()));
    }
}

/// A value below the `k`-th power of ten needs at most `k` digits.
proof fn lemma_uint_str_len_le(n: int, k: int)
    requires
        0 <= n,
        1 <= k,
        n < pow10(k),
    ensures
        spec_uint_str(n).len() <= k,
    decreases n,
{
    if n >= 10 {
        assert(pow10(1) == 10) by {
            reveal_with_fuel(pow10, 3);
        }
        assert(k != 1);
        assert(pow10(k) == 10 * pow10(k - 1));
        lemma_pow10_pos(k - 1);
        assert(n / 10 < pow10(k - 1)) by (nonlinear_arith)
            requires
                n < 10 * pow10(k - 1),
                0 <= n,
                pow10(k - 1) >= 1,
        ;
        lemma_uint_str_len_le(n / 10, k - 1);
    }
}

/// Exactly four digit characters: `n` zero-padded to four places.
pub open spec fn spec_pad4(n: int) -> Seq<char> {
    seq![
        spec_digit_char(n / 1000 % 10),
        spec_digit_char(n / 100 % 10),
        spec_digit_char(n / 10 % 10),
        spec_digit_char(n % 10),
    ]
}

/// The four padded characters are decimal digits.
pub proof fn lemma_pad4_digits(n: int)
    requires
        n >= 0,
    ensures
        all_dec_digits(spec_pad4(n)),
{
    assert(0 <= n / 1000 % 10 <= 9);
    assert(0 <= n / 100 % 10 <= 9);
    assert(0 <= n / 10 % 10 <= 9);
    assert(0 <= n % 10 <= 9);
}

/// Text of a fixed-point amount: integer part, `'.'`, then the four
/// fractional digits, zero-padded.
pub open spec fn spec_fmt_dec4(v: int) -> Seq<char> {
    spec_uint_str(v / (SCALE as int)) + seq!['.'] + spec_pad4(v % (SCALE as int))
}

/// The four padded characters denote the padded value.
proof fn lemma_pad4_val(n: int)
    requires
        0 <= n < 10000,
    ensures
        digits_val(spec_pad4(n)) == n,
{
    let d3 = n / 1000 % 10;
    let d2 = n / 100 % 10;
    let d1 = n / 10 % 10;
    let d0 = n % 10;
    let p3 = seq![spec_digit_char(d3)];
    let p2 = seq![spec_digit_char(d3), spec_digit_char(d2)];
    let p1 = seq![spec_digit_char(d3), spec_digit_char(d2), spec_digit_char(d1)];
    let p = spec_pad4(n);
    assert(p.drop_last() =~= p1 && p.last() == spec_digit_char(d0));
    assert(p1.drop_last() =~= p2 && p1.last() == spec_digit_char(d1));
    assert(p2.drop_last() =~= p3 && p2.last() == spec_digit_char(d2));
    assert(p3.drop_last() =~= Seq::<char>::empty() && p3.last() == spec_digit_char(d3));
    assert(0 <= d3 <= 9 && 0 <= d2 <= 9 && 0 <= d1 <= 9 && 0 <= d0 <= 9);
    assert(dec_digit_val(spec_digit_char(d3)) == d3);
    assert(dec_digit_val(spec_digit_char(d2)) == d2);
    assert(dec_digit_val(spec_digit_char(d1)) == d1);
    assert(dec_digit_val(spec_digit_char(d0)) == d0);
    assert(digits_val(Seq::<char>::empty()) == 0);
    assert(digits_val(p3) == digits_val(p3.drop_last()) * 10 + dec_digit_val(p3.last()));
    assert(digits_val(p3) == d3);
    assert(digits_val(p2) == digits_val(p3) * 10 + d2);
    assert(digits_val(p1) == digits_val(p2) * 10 + d1);
    assert(digits_val(p) == digits_val(p1) * 10 + d0);
    assert(((d3 * 10 + d2) * 10 + d1) * 10 + d0 == n) by (nonlinear_arith)
        requires
            0 <= n < 10000,
            d3 == n / 1000 % 10,
            d2 == n / 100 % 10,
            d1 == n / 10 % 10,
            d0 == n % 10,
    ;
}

/// Formatting an amount and reading the text back yields the amount:
/// what a venue is shown denotes exactly the fixed-point value quoted.
pub proof fn lemma_fmt_parse_round_trip(v: u64)
    requires
        v < 10_000_000_000_000,
    ensures
        dec4_wf(spec_fmt_dec4(v as int)),
        dec4_val(spec_fmt_dec4(v as int)) == v,
{
    let n = v as int;
    let u = spec_uint_str(n / 10000);
    let p = spec_pad4(n % 10000);
    let s = spec_fmt_dec4(n);
    lemma_uint_str_digits(n / 10000);
    lemma_pad4_digits(n % 10000);
    lemma_uint_str_val(n / 10000);
    lemma_pad4_val(n % 10000);
    lemma_pow10_vals();
    assert(n / 10000 < 1_000_000_000);
    lemma_uint_str_len_le(n / 10000, 9);
    let d = u.len() as int;
    assert forall|j: int| 0 <= j < d implies s[j] != '.' by {
        assert(s[j] == u[j]);
        assert(is_dec_digit(u[j]));
    }
    assert(s[d] == '.');
    lemma_dot_pos_at(s, d);
    assert(s.take(d) =~= u);
    assert(s.skip(d + 1) =~= p);
    assert(all_dec_digits(s.take(d)));
    assert(all_dec_digits(s.skip(d + 1)));
    assert(dec4_wf(s));
    assert(s.skip(d + 1).take(4) =~= p);
    assert(frac4_val(s.skip(d + 1)) == n % 10000);
    assert(dec4_val(s) == (n / 10000) * 10000 + n % 10000);
}

/// Format a fixed-point amount with all four fractional digits, the way
/// the venues expect prices to be written.
pub fn fmt_dec4(v: u64) -> (r: String)
    ensures
        r@ == spec_fmt_dec4(v as int),
        r.is_ascii(),
{
    let mut r = u64_str(v / SCALE);
    let f = v % SCALE;
    let dot = ".";
    proof {
        reveal_strlit(".");
    }
    append_ascii(&mut r, dot);
    append_ascii(&mut r, digit_str(f / 1000 % 10));
    append_ascii(&mut r, digit_str(f / 100 % 10));
    append_ascii(&mut r, digit_str(f / 10 % 10));
    append_ascii(&mut r, digit_str(f % 10));
    assert(r@ =~= spec_fmt_dec4(v as int));
    r
}

} // verus!
