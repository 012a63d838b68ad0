//! Radix string conversion and integer parsing, with exact specifications.
//!
//! The bearer-token codec is built on these conversions: secrets are
//! rendered in base 36 and base 20, identifiers in base 10 and base 16,
//! and session identifiers are parsed back from hexadecimal.

use vstd::prelude::*;

verus! {

use vstd::arithmetic::div_mod::lemma_div_decreases;

/// Character for one digit value below 36: `'0'..='9'` then `'a'..='z'`.
pub open spec fn digit_char(d: int) -> char {
    if d < 10 {
        (d + 48) as char
    } else {
        (d + 87) as char
    }
}

/// Little-endian digit characters of `v` in base `radix`; empty for zero.
pub open spec fn spec_chars_le(v: nat, radix: nat) -> Seq<char>
    decreases v,
    via spec_chars_le_decreases
{
    if radix < 2 || v == 0 {
        Seq::empty()
    } else {
        seq![digit_char((v % radix) as int)] + spec_chars_le(v / radix, radix)
    }
}

#[via_fn]
proof fn spec_chars_le_decreases(v: nat, radix: nat) {
    if radix >= 2 && v > 0 {
        lemma_div_decreases(v as int, radix as int);
    }
}

/// The base-`radix` representation of `v`: most significant digit first,
/// lowercase letters for digit values above nine, `"0"` for zero.
pub open spec fn spec_radix_str(v: nat, radix: nat) -> Seq<char> {
    if v == 0 {
        seq!['0']
    } else {
        spec_chars_le(v, radix).reverse()
    }
}

/// Executable form of [`digit_char`].
fn digit_char_exec(d: u8) -> (c: char)
    requires
        d < 36,
    ensures
        c == digit_char(d as int),
{
    if d < 10 {
        (48 + d) as char
    } else {
        (87 + d) as char
    }
}

/// Relies on `String::push`: appends the character to the end of the string.
#[verifier::external_body]
pub(crate) fn push_char(s: &mut String, c: char)
    ensures
        final(s)@ == old(s)@.push(c),
{
    s.push(c);
}

/// Convert an unsigned integer to a string with the specified radix.
pub fn to_string_radix_unsigned(value: u64, radix: u32) -> (s: String)
    requires
        2 <= radix <= 36,
    ensures
        s@ == spec_radix_str(value as nat, radix as nat),
        s@.len() >= 1,
{
    let mut digits: Vec<char> = Vec::new();
    let mut v: u64 = value;
    loop
        invariant_except_break
            2 <= radix <= 36,
            spec_chars_le(value as nat, radix as nat) =~= digits@ + spec_chars_le(
                v as nat,
                radix as nat,
            ),
            v == 0 ==> value == 0 && digits@.len() == 0,
        ensures
            digits@ =~= spec_radix_str(value as nat, radix as nat).reverse(),
        decreases v,
    {
        let d: u64 = v % (radix as u64);
        let ghost v_pre: nat = v as nat;
        let ghost digits_pre: Seq<char> = digits@;
        v = v / (radix as u64);
        digits.push(digit_char_exec(d as u8));
        proof {
            if v_pre > 0 {
                assert(spec_chars_le(v_pre, radix as nat) =~= seq![
                    digit_char((v_pre % (radix as nat)) as int),
                ] + spec_chars_le(v_pre / (radix as nat), radix as nat));
                lemma_div_decreases(v_pre as int, radix as int);
            }
        }
        if v == 0 {
            proof {
                if value == 0 {
                    assert(spec_chars_le(0, radix as nat) =~= Seq::<char>::empty());
                    if v_pre > 0 {
                        assert(spec_chars_le(v_pre, radix as nat).len() > 0);
                    }
                    assert(v_pre == 0);
                    assert(digits_pre.len() == 0);
                    vstd::arithmetic::div_mod::lemma_small_mod(0, radix as nat);
                    assert(d == 0);
                    assert(digits@ =~= seq![digit_char(0)]);
                    assert(digit_char(0) == 48 as char);
                    assert('0' == 48 as char);
                    assert(digits@ =~= seq!['0']);
                    assert(spec_radix_str(0, radix as nat) == seq!['0']);
                    assert(seq!['0'].reverse() =~= seq!['0']);
                } else {
                    assert(digits@ =~= spec_chars_le(value as nat, radix as nat));
                    assert(spec_radix_str(value as nat, radix as nat) == spec_chars_le(
                        value as nat,
                        radix as nat,
                    ).reverse());
                    assert(spec_chars_le(value as nat, radix as nat).reverse().reverse()
                        =~= spec_chars_le(value as nat, radix as nat));
                }
            }
            break;
        }
    }
    proof {
        assert(digits@.reverse() =~= spec_radix_str(value as nat, radix as nat)) by {
            let target = spec_radix_str(value as nat, radix as nat);
            assert(target.reverse().reverse() =~= target);
        }
    }
    let mut s = String::new();
    let mut i: usize = digits.len();
    while i > 0
        invariant
            i <= digits@.len(),
            s@ =~= digits@.subrange(i as int, digits@.len() as int).reverse(),
        decreases i,
    {
        i = i - 1;
        let c = digits[i];
        push_char(&mut s, c);
        proof {
            let tail = digits@.subrange(i + 1, digits@.len() as int);
            let cur = digits@.subrange(i as int, digits@.len() as int);
            assert(cur.reverse() =~= tail.reverse().push(digits@[i as int]));
        }
    }
    proof {
        assert(digits@.subrange(0, digits@.len() as int) =~= digits@);
    }
    s
}

/// Convert a nonnegative signed integer to a string with the specified radix.
pub fn to_string_radix_signed(value: i64, radix: u32) -> (s: String)
    requires
        2 <= radix <= 36,
        value >= 0,
    ensures
        s@ == spec_radix_str(value as nat, radix as nat),
        s@.len() >= 1,
{
    to_string_radix_unsigned(value as u64, radix)
}

// ---- properties of radix strings ----

/// Every character a radix string can contain: a decimal digit or a
/// lowercase letter.
pub open spec fn is_radix_char(c: char) -> bool {
    (48 <= (c as int) && (c as int) < 58) || (97 <= (c as int) && (c as int) < 123)
}

/// Radix strings consist of digit and lowercase-letter characters only.
pub proof fn lemma_chars_le_radix_chars(v: nat, radix: nat)
    requires
        2 <= radix <= 36,
    ensures
        forall|i: int|
            0 <= i < spec_chars_le(v, radix).len() ==> is_radix_char(
                #[trigger] spec_chars_le(v, radix)[i],
            ),
    decreases v,
{
    if v > 0 {
        lemma_div_decreases(v as int, radix as int);
        lemma_chars_le_radix_chars(v / radix, radix);
        let s = spec_chars_le(v, radix);
        let rest = spec_chars_le(v / radix, radix);
        assert forall|i: int| 0 <= i < s.len() implies is_radix_char(#[trigger] s[i]) by {
            if i == 0 {
                assert(s[0] == digit_char((v % radix) as int));
            } else {
                assert(s[i] == rest[i - 1]);
            }
        }
    }
}

/// Radix strings consist of digit and lowercase-letter characters only.
pub proof fn lemma_radix_str_chars(v: nat, radix: nat)
    requires
        2 <= radix <= 36,
    ensures
        forall|i: int|
            0 <= i < spec_radix_str(v, radix).len() ==> is_radix_char(
                #[trigger] spec_radix_str(v, radix)[i],
            ),
{
    lemma_chars_le_radix_chars(v, radix);
}

/// Distinct digit values below 36 have distinct characters.
pub proof fn lemma_digit_char_injective(d1: int, d2: int)
    requires
        0 <= d1 < 36,
        0 <= d2 < 36,
        d1 != d2,
    ensures
        digit_char(d1) != digit_char(d2),
{
}

/// Little-endian digit strings determine the value: distinct values give
/// distinct strings.
pub proof fn lemma_chars_le_injective(v1: nat, v2: nat, radix: nat)
    requires
        2 <= radix <= 36,
        v1 != v2,
    ensures
        spec_chars_le(v1, radix) != spec_chars_le(v2, radix),
    decreases v1 + v2,
{
    if v1 == 0 || v2 == 0 {
        assert(spec_chars_le(if v1 == 0 { v2 } else { v1 }, radix).len() > 0);
    } else {
        let s1 = spec_chars_le(v1, radix);
        let s2 = spec_chars_le(v2, radix);
        if v1 % radix != v2 % radix {
            lemma_digit_char_injective((v1 % radix) as int, (v2 % radix) as int);
            assert(s1[0] != s2[0]);
        } else {
            lemma_div_decreases(v1 as int, radix as int);
            lemma_div_decreases(v2 as int, radix as int);
            if v1 / radix == v2 / radix {
                vstd::arithmetic::div_mod::lemma_fundamental_div_mod(v1 as int, radix as int);
                vstd::arithmetic::div_mod::lemma_fundamental_div_mod(v2 as int, radix as int);
                assert(false);
            }
            lemma_chars_le_injective(v1 / radix, v2 / radix, radix);
            assert(s1.drop_first() =~= spec_chars_le(v1 / radix, radix));
            assert(s2.drop_first() =~= spec_chars_le(v2 / radix, radix));
            if s1 == s2 {
                assert(s1.drop_first() =~= s2.drop_first());
            }
        }
    }
}

/// Radix strings determine the value: distinct values give distinct strings.
pub proof fn lemma_radix_str_injective(v1: nat, v2: nat, radix: nat)
    requires
        2 <= radix <= 36,
        v1 != v2,
    ensures
        spec_radix_str(v1, radix) != spec_radix_str(v2, radix),
{
    let s1 = spec_chars_le(v1, radix);
    let s2 = spec_chars_le(v2, radix);
    if v1 == 0 || v2 == 0 {
        let w: nat = if v1 == 0 { v2 } else { v1 };
        let sw = spec_chars_le(w, radix);
        if sw.reverse() == seq!['0'] {
            assert(sw =~= sw.reverse().reverse());
            assert(sw =~= seq!['0']);
            assert(sw[0] == digit_char((w % radix) as int));
            if w % radix != 0 {
                lemma_digit_char_injective((w % radix) as int, 0);
                assert(digit_char(0) == '0');
                assert(false);
            }
            if w / radix != 0 {
                assert(spec_chars_le(w / radix, radix).len() > 0);
                assert(sw.len() >= 2);
                assert(false);
            }
            vstd::arithmetic::div_mod::lemma_fundamental_div_mod(w as int, radix as int);
            assert(w == 0);
            assert(false);
        }
    } else {
        lemma_chars_le_injective(v1, v2, radix);
        if s1.reverse() == s2.reverse() {
            assert(s1 =~= s1.reverse().reverse());
            assert(s2 =~= s2.reverse().reverse());
            assert(false);
        }
    }
}

/// Bound on the number of digits: a value below `radix^k` has at most `k`
/// little-endian digits.
pub proof fn lemma_chars_le_len(v: nat, radix: nat, k: nat)
    requires
        2 <= radix,
        v < vstd::arithmetic::power::pow(radix as int, k),
    ensures
        spec_chars_le(v, radix).len() <= k,
    decreases v,
{
    if v > 0 {
        vstd::arithmetic::power::lemma_pow0(radix as int);
        assert(k > 0);
        let p = vstd::arithmetic::power::pow(radix as int, (k - 1) as nat);
        assert(vstd::arithmetic::power::pow(radix as int, k) == radix * p) by {
            vstd::arithmetic::power::lemma_pow1(radix as int);
            vstd::arithmetic::power::lemma_pow_adds(radix as int, 1, (k - 1) as nat);
        }
        vstd::arithmetic::power::lemma_pow_positive(radix as int, (k - 1) as nat);
        assert(v / radix < p) by (nonlinear_arith)
            requires
                radix >= 2,
                p > 0,
                v < radix * p,
        ;
        lemma_div_decreases(v as int, radix as int);
        lemma_chars_le_len(v / radix, radix, (k - 1) as nat);
    }
}

// ---- parsing ----

/// Value of a single character as a digit in the given radix, or -1 when
/// the character is no digit of that radix. Letters of either case are
/// accepted, as `from_str_radix` accepts them.
pub open spec fn spec_digit_val(c: char, radix: nat) -> int {
    let v = if 48 <= (c as int) && (c as int) < 58 {
        (c as int) - 48
    } else if 97 <= (c as int) && (c as int) < 123 {
        (c as int) - 87
    } else if 65 <= (c as int) && (c as int) < 91 {
        (c as int) - 55
    } else {
        -1
    };
    if 0 <= v < radix {
        v
    } else {
        -1
    }
}

/// Whether every character of `s` is a digit of the given radix.
pub open spec fn spec_all_digits(s: Seq<char>, radix: nat) -> bool {
    forall|i: int| 0 <= i < s.len() ==> spec_digit_val(#[trigger] s[i], radix) >= 0
}

/// Value of a big-endian digit string, assuming every character is a digit.
pub open spec fn spec_digits_val(s: Seq<char>, radix: nat) -> int
    decreases s.len(),
{
    if s.len() == 0 {
        0
    } else {
        spec_digits_val(s.drop_last(), radix) * radix + spec_digit_val(s.last(), radix)
    }
}

/// The magnitude and sign a numeric string denotes: an optional single
/// `'+'` or `'-'` followed by at least one digit of the radix. `None` when
/// the string is not of that shape.
pub open spec fn spec_int_of_str(s: Seq<char>, radix: nat) -> Option<int> {
    let negative = s.len() > 0 && s[0] == '-';
    let digits = if s.len() > 0 && (s[0] == '-' || s[0] == '+') {
        s.drop_first()
    } else {
        s
    };
    if digits.len() == 0 || !spec_all_digits(digits, radix) {
        None
    } else if negative {
        Some(-spec_digits_val(digits, radix))
    } else {
        Some(spec_digits_val(digits, radix))
    }
}

/// What `i64::from_str_radix` returns: the denoted value when the string
/// is well-formed and the value fits in an `i64`, `None` otherwise.
pub open spec fn spec_parse_i64(s: Seq<char>, radix: nat) -> Option<i64> {
    match spec_int_of_str(s, radix) {
        None => None,
        Some(v) => if i64::MIN <= v <= i64::MAX {
            Some(v as i64)
        } else {
            None
        },
    }
}

/// Appending digits never shrinks the denoted magnitude.
proof fn lemma_digits_val_nonneg(s: Seq<char>, radix: nat)
    requires
        spec_all_digits(s, radix),
    ensures
        spec_digits_val(s, radix) >= 0,
    decreases s.len(),
{
    if s.len() > 0 {
        assert(spec_all_digits(s.drop_last(), radix));
        lemma_digits_val_nonneg(s.drop_last(), radix);
        assert(spec_digits_val(s.drop_last(), radix) * radix >= 0) by (nonlinear_arith)
            requires
                spec_digits_val(s.drop_last(), radix) >= 0,
                radix >= 0,
        ;
    }
}

/// A digit string that is too large already stays too large when more
/// digits follow.
proof fn lemma_digits_val_monotone(s: Seq<char>, radix: nat, n: int)
    requires
        2 <= radix,
        spec_all_digits(s, radix),
        0 <= n < s.len(),
    ensures
        spec_digits_val(s, radix) >= spec_digits_val(s.take(n + 1), radix),
    decreases s.len(),
{
    if n + 1 == s.len() {
        assert(s.take(n + 1) =~= s);
    } else {
        lemma_digits_val_monotone(s.drop_last(), radix, n);
        assert(s.drop_last().take(n + 1) =~= s.take(n + 1));
        assert(spec_all_digits(s.drop_last(), radix));
        lemma_digits_val_nonneg(s.drop_last(), radix);
        let d = spec_digits_val(s.drop_last(), radix);
        assert(d * radix >= d) by (nonlinear_arith)
            requires
                d >= 0,
                radix >= 2,
        ;
    }
}

/// Parse an integer from a string in the given radix, as
/// `i64::from_str_radix` does: an optional sign, then at least one digit;
/// `None` on any other shape and on overflow.
pub fn parse_i64_radix(s: &str, radix: u32) -> (r: Option<i64>)
    requires
        2 <= radix <= 36,
    ensures
        r == spec_parse_i64(s@, radix as nat),
{
    let len = s.unicode_len();
    let mut start: usize = 0;
    let mut negative = false;
    if len > 0 {
        let c0 = s.get_char(0);
        if c0 == '-' {
            negative = true;
            start = 1;
        } else if c0 == '+' {
            start = 1;
        }
    }
    let ghost digits: Seq<char> = if s@.len() > 0 && (s@[0] == '-' || s@[0] == '+') {
        s@.drop_first()
    } else {
        s@
    };
    if start >= len {
        return None;
    }
    let mut acc: u64 = 0;
    let mut i: usize = start;
    let limit: u64 = if negative {
        0x8000_0000_0000_0000
    } else {
        0x7FFF_FFFF_FFFF_FFFF
    };
    while i < len
        invariant
            2 <= radix <= 36,
            start <= i <= len,
            len == s@.len(),
            start == if s@.len() > 0 && (s@[0] == '-' || s@[0] == '+') {
                1int
            } else {
                0int
            },
            negative == (s@.len() > 0 && s@[0] == '-'),
            digits == s@.subrange(start as int, s@.len() as int),
            limit == if negative {
                0x8000_0000_0000_0000u64
            } else {
                0x7FFF_FFFF_FFFF_FFFFu64
            },
            spec_all_digits(digits.take(i - start), radix as nat),
            acc == spec_digits_val(digits.take(i - start), radix as nat),
            acc <= limit,
        decreases len - i,
    {
        let c = s.get_char(i);
        let dv = digit_value(c, radix);
        if dv < 0 {
            proof {
                assert(digits[i - start] == s@[i as int]);
            }
            return None;
        }
        let d = dv as u64;
        proof {
            assert(digits.take(i - start + 1) =~= digits.take(i - start).push(s@[i as int]));
            assert(digits.take(i - start + 1).drop_last() =~= digits.take(i - start));
        }
        if acc > (limit - d) / (radix as u64) {
            // the value no longer fits; more digits cannot shrink it
            proof {
                let pre = digits.take(i - start + 1);
                assert(spec_digits_val(pre, radix as nat) == acc * radix + d);
                assert(acc * radix + d > limit) by (nonlinear_arith)
                    requires
                        2 <= radix <= 36,
                        acc > ((limit - d) as int) / (radix as int),
                        0 <= d < radix,
                        d <= limit,
                ;
                if spec_all_digits(digits, radix as nat) {
                    lemma_digits_val_monotone(digits, radix as nat, i - start);
                    assert(spec_digits_val(digits, radix as nat) > limit);
                    let denoted = spec_int_of_str(s@, radix as nat);
                    assert(digits == if s@.len() > 0 && (s@[0] == '-' || s@[0] == '+') {
                        s@.drop_first()
                    } else {
                        s@
                    });
                    assert(digits.len() > 0);
                    if negative {
                        assert(denoted == Some(-spec_digits_val(digits, radix as nat)));
                        assert(denoted->0 < i64::MIN);
                    } else {
                        assert(denoted == Some(spec_digits_val(digits, radix as nat)));
                        assert(denoted->0 > i64::MAX);
                    }
                    assert(spec_parse_i64(s@, radix as nat) is None);
                } else {
                    assert(spec_int_of_str(s@, radix as nat) is None);
                    assert(spec_parse_i64(s@, radix as nat) is None);
                }
            }
            return None;
        }
        proof {
            assert(acc * radix + d <= limit) by (nonlinear_arith)
                requires
                    2 <= radix <= 36,
                    acc <= ((limit - d) as int) / (radix as int),
                    0 <= d < radix,
                    d <= limit,
            ;
        }
        acc = acc * (radix as u64) + d;
        i = i + 1;
    }
    proof {
        assert(digits.take(i - start) =~= digits);
    }
    if negative {
        if acc == 0x8000_0000_0000_0000 {
            Some(i64::MIN)
        } else {
            Some(-(acc as i64))
        }
    } else {
        Some(acc as i64)
    }
}

/// Executable digit value in the given radix; -1 for a non-digit.
fn digit_value(c: char, radix: u32) -> (v: i8)
    requires
        2 <= radix <= 36,
    ensures
        v == spec_digit_val(c, radix as nat),
{
    let v: i8 = if c >= '0' && c <= '9' {
        (c as u8 - 48) as i8
    } else if c >= 'a' && c <= 'z' {
        (c as u8 - 87) as i8
    } else if c >= 'A' && c <= 'Z' {
        (c as u8 - 55) as i8
    } else {
        -1
    };
    if v >= 0 && (v as u32) < radix {
        v
    } else {
        -1
    }
}

// ---- character case and string transforms ----

/// ASCII uppercase image of a character: lowercase letters are shifted,
/// every other character is unchanged.
pub open spec fn upper_char(c: char) -> char {
    if 97 <= (c as int) && (c as int) < 123 {
        ((c as int) - 32) as char
    } else {
        c
    }
}

/// ASCII lowercase image of a character: uppercase letters are shifted,
/// every other character is unchanged.
pub open spec fn lower_char(c: char) -> char {
    if 65 <= (c as int) && (c as int) < 91 {
        ((c as int) + 32) as char
    } else {
        c
    }
}

/// Charwise ASCII uppercase image of a string.
pub open spec fn spec_to_upper(s: Seq<char>) -> Seq<char> {
    s.map_values(|c: char| upper_char(c))
}

/// Charwise ASCII lowercase image of a string.
pub open spec fn spec_to_lower(s: Seq<char>) -> Seq<char> {
    s.map_values(|c: char| lower_char(c))
}

/// On the characters radix strings are made of, both case maps are
/// injective: distinct characters stay distinct.
pub proof fn lemma_case_fold_injective(c1: char, c2: char)
    requires
        is_radix_char(c1),
        is_radix_char(c2),
        c1 != c2,
    ensures
        upper_char(c1) != upper_char(c2),
        lower_char(c1) != lower_char(c2),
{
}

/// Executable form of [`upper_char`].
pub fn upper_char_exec(c: char) -> (r: char)
    ensures
        r == upper_char(c),
{
    if c >= 'a' && c <= 'z' {
        ((c as u8) - 32) as char
    } else {
        c
    }
}

/// Executable form of [`lower_char`].
pub fn lower_char_exec(c: char) -> (r: char)
    ensures
        r == lower_char(c),
{
    if c >= 'A' && c <= 'Z' {
        ((c as u8) + 32) as char
    } else {
        c
    }
}

/// Charwise ASCII uppercase of a string.
pub fn string_to_uppercase(s: &str) -> (r: String)
    ensures
        r@ == spec_to_upper(s@),
{
    let len = s.unicode_len();
    let mut r = String::new();
    let mut i: usize = 0;
    while i < len
        invariant
            i <= len,
            len == s@.len(),
            r@ =~= spec_to_upper(s@).take(i as int),
        decreases len - i,
    {
        let c = s.get_char(i);
        push_char(&mut r, upper_char_exec(c));
        proof {
            assert(spec_to_upper(s@).take(i + 1) =~= spec_to_upper(s@).take(i as int).push(
                upper_char(s@[i as int]),
            ));
        }
        i = i + 1;
    }
    proof {
        assert(spec_to_upper(s@).take(len as int) =~= spec_to_upper(s@));
    }
    r
}

/// Charwise ASCII lowercase of a string.
pub fn string_to_lowercase(s: &str) -> (r: String)
    ensures
        r@ == spec_to_lower(s@),
{
    let len = s.unicode_len();
    let mut r = String::new();
    let mut i: usize = 0;
    while i < len
        invariant
            i <= len,
            len == s@.len(),
            r@ =~= spec_to_lower(s@).take(i as int),
        decreases len - i,
    {
        let c = s.get_char(i);
        push_char(&mut r, lower_char_exec(c));
        proof {
            assert(spec_to_lower(s@).take(i + 1) =~= spec_to_lower(s@).take(i as int).push(
                lower_char(s@[i as int]),
            ));
        }
        i = i + 1;
    }
    proof {
        assert(spec_to_lower(s@).take(len as int) =~= spec_to_lower(s@));
    }
    r
}

/// The string with its characters in reverse order.
pub fn string_reverse(s: &str) -> (r: String)
    ensures
        r@ == s@.reverse(),
{
    let len = s.unicode_len();
    let mut r = String::new();
    let mut i: usize = len;
    while i > 0
        invariant
            i <= len,
            len == s@.len(),
            r@ =~= s@.subrange(i as int, len as int).reverse(),
        decreases i,
    {
        i = i - 1;
        let c = s.get_char(i);
        push_char(&mut r, c);
        proof {
            let tail = s@.subrange(i + 1, len as int);
            let cur = s@.subrange(i as int, len as int);
            assert(cur.reverse() =~= tail.reverse().push(s@[i as int]));
        }
    }
    proof {
        assert(s@.subrange(0, len as int) =~= s@);
    }
    r
}

/// Whether a character is a lowercase hexadecimal digit.
pub open spec fn is_hex_lower(c: char) -> bool {
    (48 <= (c as int) && (c as int) < 58) || (97 <= (c as int) && (c as int) < 103)
}

/// The bytes of a string all of whose characters are ASCII.
pub open spec fn ascii_bytes(s: Seq<char>) -> Seq<u8> {
    Seq::new(s.len(), |i: int| s[i] as u8)
}

/// Each byte read as one character.
pub open spec fn spec_chars_of_bytes(b: Seq<u8>) -> Seq<char> {
    Seq::new(b.len(), |i: int| b[i] as char)
}

/// Parse a decimal integer from raw bytes, each byte read as one
/// character; bytes outside ASCII are never digits, so such input yields
/// `None` exactly as it would after a failed text decoding.
pub fn parse_dec_i64_bytes(v: &[u8]) -> (r: Option<i64>)
    ensures
        r == spec_parse_i64(spec_chars_of_bytes(v@), 10),
{
    let len = v.len();
    let mut s = String::new();
    let mut i: usize = 0;
    while i < len
        invariant
            i <= len,
            len == v@.len(),
            s@ =~= spec_chars_of_bytes(v@).take(i as int),
        decreases len - i,
    {
        let b = v[i];
        push_char(&mut s, b as char);
        proof {
            assert(spec_chars_of_bytes(v@).take(i + 1) =~= spec_chars_of_bytes(v@).take(
                i as int,
            ).push(v@[i as int] as char));
        }
        i = i + 1;
    }
    proof {
        assert(spec_chars_of_bytes(v@).take(len as int) =~= spec_chars_of_bytes(v@));
    }
    parse_i64_radix(s.as_str(), 10)
}

/// Convert a hexadecimal string to an integer; zero when the string is not
/// a well-formed hexadecimal number or its value does not fit.
pub fn hex_to_int(hex: &str) -> (r: i64)
    ensures
        r == match spec_parse_i64(hex@, 16) {
            Some(v) => v,
            None => 0i64,
        },
{
    match parse_i64_radix(hex, 16) {
        Some(v) => v,
        None => 0,
    }
}

} // verus!
