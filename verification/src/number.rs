//! Decimal and hexadecimal numerals: reading a `u32` the way `str::parse`
//! does, writing one, recognising the text `f64::from_str` accepts, and the
//! fixed-width lower-case hexadecimal used in mock tokens.

use vstd::prelude::*;

use crate::error::{FloatFault, IntFault};
use crate::text::{lower_seq, lower_chars};

verus! {

pub open spec fn is_digit(c: char) -> bool {
    '0' <= c && c <= '9'
}

pub open spec fn digit_val(c: char) -> nat {
    ((c as u32) - ('0' as u32)) as nat
}

pub open spec fn all_digits(s: Seq<char>) -> bool {
    forall|i: int| 0 <= i < s.len() ==> is_digit(#[trigger] s[i])
}

/// The value of a string of decimal digits, most significant first.
pub open spec fn decimal_value(s: Seq<char>) -> nat
    decreases s.len(),
{
    if s.len() == 0 {
        0
    } else {
        decimal_value(s.drop_last()) * 10 + digit_val(s.last())
    }
}

/// What `str::parse::<u32>` gives: an optional `+`, then one or more ASCII
/// digits whose value fits in a `u32`.
pub open spec fn parse_u32_spec(s: Seq<char>) -> Option<u32> {
    let d = if s.len() > 0 && s[0] == '+' {
        s.drop_first()
    } else {
        s
    };
    if d.len() > 0 && all_digits(d) && decimal_value(d) <= u32::MAX {
        Some(decimal_value(d) as u32)
    } else {
        None
    }
}

/// The character of a decimal digit.
pub open spec fn digit_char(d: nat) -> char {
    ((48 + d) as u32) as char
}

/// The shortest decimal text of `n`, as `Display` writes an unsigned integer.
pub open spec fn decimal_text(n: nat) -> Seq<char>
    decreases n,
{
    if n < 10 {
        seq![digit_char(n)]
    } else {
        decimal_text(n / 10).push(digit_char(n % 10))
    }
}

proof fn lemma_decimal_value_grows(s: Seq<char>, i: int)
    requires
        0 <= i <= s.len(),
    ensures
        decimal_value(s.take(i)) <= decimal_value(s),
    decreases s.len() - i,
{
    if i < s.len() {
        assert(s.drop_last().take(i) == s.take(i));
        lemma_decimal_value_grows(s.drop_last(), i);
    } else {
        assert(s.take(i) == s);
    }
}

/// Reads an unsigned 32-bit decimal number as `str::parse::<u32>` does.
pub fn parse_u32(s: &[char]) -> (r: Option<u32>)
    ensures
        r == parse_u32_spec(s@),
{
    let n = s.len();
    let mut i: usize = 0;
    if n > 0 && s[0] == '+' {
        i = 1;
    }
    let start = i;
    let ghost d = if s@.len() > 0 && s@[0] == '+' {
        s@.drop_first()
    } else {
        s@
    };
    assert(d == s@.skip(start as int));
    if start == n {
        return None;
    }
    let mut acc: u64 = 0;
    while i < n
        invariant
            start <= i <= n == s@.len(),
            d == s@.skip(start as int),
            all_digits(s@.subrange(start as int, i as int)),
            acc == decimal_value(s@.subrange(start as int, i as int)),
            acc <= u32::MAX,
            d.len() > 0,
            parse_u32_spec(s@) == (if all_digits(d) && decimal_value(d) <= u32::MAX {
                Some(decimal_value(d) as u32)
            } else {
                None
            }),
        decreases n - i,
    {
        let c = s[i];
        let ghost pre = s@.subrange(start as int, i as int);
        let ghost next = s@.subrange(start as int, i + 1);
        assert(next.drop_last() == pre);
        assert(next == d.take(i + 1 - start));
        if !('0' <= c && c <= '9') {
            assert(!is_digit(d[i - start]));
            return None;
        }
        let v = (c as u32 - '0' as u32) as u64;
        acc = acc * 10 + v;
        if acc > 0xffff_ffff {
            proof {
                lemma_decimal_value_grows(d, i + 1 - start);
            }
            return None;
        }
        i = i + 1;
    }
    assert(s@.subrange(start as int, n as int) == d);
    Some(acc as u32)
}

/// Why digits `d[i..]`, read after the value of `d[..i]`, stop being a `u32`:
/// the first character that is not a digit, or the first digit that takes
/// the value past `u32::MAX`, whichever comes first.
pub open spec fn digits_fault(d: Seq<char>, i: int) -> IntFault
    decreases d.len() - i,
{
    if i < 0 || i >= d.len() {
        IntFault::InvalidDigit
    } else if !is_digit(d[i]) {
        IntFault::InvalidDigit
    } else if decimal_value(d.take(i + 1)) > u32::MAX {
        IntFault::PosOverflow
    } else {
        digits_fault(d, i + 1)
    }
}

/// Why `str::parse::<u32>` refuses text: empty text, else the first fault
/// among the digits after an optional leading `+` (a lone sign has none).
pub open spec fn u32_fault(s: Seq<char>) -> IntFault {
    if s.len() == 0 {
        IntFault::Empty
    } else if s[0] == '+' {
        digits_fault(s.drop_first(), 0)
    } else {
        digits_fault(s, 0)
    }
}

/// Why `str::parse::<f64>` refuses text: empty text, else not a number.
pub open spec fn float_fault(s: Seq<char>) -> FloatFault {
    if s.len() == 0 {
        FloatFault::Empty
    } else {
        FloatFault::Invalid
    }
}

/// The fault of text that is not a `u32`.
pub fn u32_fault_of(s: &[char]) -> (r: IntFault)
    requires
        parse_u32_spec(s@) is None,
    ensures
        r == u32_fault(s@),
{
    let n = s.len();
    if n == 0 {
        return IntFault::Empty;
    }
    let mut i: usize = 0;
    if s[0] == '+' {
        i = 1;
    }
    let start = i;
    let ghost d = if s@[0] == '+' {
        s@.drop_first()
    } else {
        s@
    };
    assert(d == s@.skip(start as int));
    let mut acc: u64 = 0;
    while i < n
        invariant
            start <= i <= n == s@.len(),
            n > 0,
            d == s@.skip(start as int),
            u32_fault(s@) == digits_fault(d, i - start),
            all_digits(d.take(i - start)),
            acc == decimal_value(d.take(i - start)),
            acc <= u32::MAX,
            parse_u32_spec(s@) is None,
            parse_u32_spec(s@) == (if d.len() > 0 && all_digits(d) && decimal_value(d) <= u32::MAX {
                Some(decimal_value(d) as u32)
            } else {
                None::<u32>
            }),
        decreases n - i,
    {
        let ghost k = i - start;
        let c = s[i];
        assert(c == d[k]);
        if !('0' <= c && c <= '9') {
            return IntFault::InvalidDigit;
        }
        assert(d.take(k + 1).drop_last() == d.take(k));
        let v = (c as u32 - '0' as u32) as u64;
        acc = acc * 10 + v;
        if acc > 0xffff_ffff {
            return IntFault::PosOverflow;
        }
        assert(all_digits(d.take(k + 1))) by {
            assert forall|j: int| 0 <= j < k + 1 implies is_digit(#[trigger] d.take(k + 1)[j]) by {
                if j < k {
                    assert(d.take(k + 1)[j] == d.take(k)[j]);
                }
            }
        }
        i = i + 1;
    }
    assert(d.take(n - start) == d);
    proof {
        if d.len() == 0 {
            assert(digits_fault(d, 0) == IntFault::InvalidDigit);
        }
    }
    IntFault::InvalidDigit
}

/// The fault of text that is not a floating-point number.
pub fn float_fault_of(s: &[char]) -> (r: FloatFault)
    ensures
        r == float_fault(s@),
{
    if s.len() == 0 {
        FloatFault::Empty
    } else {
        FloatFault::Invalid
    }
}

/// The decimal text of a `usize`, as `Display` writes it.
pub fn usize_chars(n: usize) -> (r: Vec<char>)
    ensures
        r@ == decimal_text(n as nat),
    decreases n,
{
    if n < 10 {
        let c = (48u8 + n as u8) as char;
        let mut v: Vec<char> = Vec::new();
        v.push(c);
        assert(v@ == seq![digit_char(n as nat)]);
        v
    } else {
        let mut v = usize_chars(n / 10);
        let c = (48u8 + (n % 10) as u8) as char;
        v.push(c);
        v
    }
}

proof fn lemma_digit_char(d: nat)
    requires
        d < 10,
    ensures
        is_digit(digit_char(d)),
        digit_val(digit_char(d)) == d,
        digit_char(d) != '+',
{
    assert((((48 + d) as u32) as char) as u32 == 48 + d);
}

pub proof fn lemma_decimal_text_len(n: nat)
    ensures
        decimal_text(n).len() >= 1,
    decreases n,
{
    if n >= 10 {
        lemma_decimal_text_len(n / 10);
    }
}

/// The decimal text of `n`, as `n.to_string()` writes it.
pub fn decimal_chars(n: u32) -> (r: Vec<char>)
    ensures
        r@ == decimal_text(n as nat),
    decreases n,
{
    if n < 10 {
        let c = (48u8 + n as u8) as char;
        let mut v: Vec<char> = Vec::new();
        v.push(c);
        assert(v@ == seq![digit_char(n as nat)]);
        v
    } else {
        let mut v = decimal_chars(n / 10);
        let c = (48u8 + (n % 10) as u8) as char;
        v.push(c);
        v
    }
}

/// Writing `n` in decimal and reading it back gives `n`.
pub proof fn lemma_decimal_text_parses(n: u32)
    ensures
        parse_u32_spec(decimal_text(n as nat)) == Some(n),
{
    lemma_decimal_text_digits(n as nat);
    lemma_decimal_text_len(n as nat);
}

pub proof fn lemma_decimal_text_digits(n: nat)
    ensures
        all_digits(decimal_text(n)),
        decimal_value(decimal_text(n)) == n,
        decimal_text(n)[0] != '+',
    decreases n,
{
    if n >= 10 {
        lemma_decimal_text_digits(n / 10);
        lemma_decimal_text_len(n / 10);
        let t = decimal_text(n);
        assert(t.drop_last() == decimal_text(n / 10));
        assert(t[0] == decimal_text(n / 10)[0]);
        lemma_digit_char(n % 10);
        assert(t.last() == digit_char(n % 10));
        assert(decimal_value(t) == decimal_value(t.drop_last()) * 10 + digit_val(t.last()));
        assert(n == (n / 10) * 10 + n % 10);
    } else {
        lemma_digit_char(n);
        let t = decimal_text(n);
        assert(t.drop_last() =~= Seq::<char>::empty());
        assert(decimal_value(t.drop_last()) == 0);
        assert(decimal_value(t) == decimal_value(t.drop_last()) * 10 + digit_val(t.last()));
    }
}


pub open spec fn is_sign(c: char) -> bool {
    c == '+' || c == '-'
}

/// Digits with at most one decimal point and at least one digit.
pub open spec fn is_mantissa(m: Seq<char>) -> bool {
    &&& forall|i: int| 0 <= i < m.len() ==> is_digit(#[trigger] m[i]) || m[i] == '.'
    &&& forall|i: int, j: int| 0 <= i < j < m.len() && #[trigger] m[i] == '.' ==> #[trigger] m[j] != '.'
    &&& exists|i: int| 0 <= i < m.len() && is_digit(#[trigger] m[i])
}

/// An optional sign followed by one or more digits.
pub open spec fn is_exponent(x: Seq<char>) -> bool {
    let d = if x.len() > 0 && is_sign(x[0]) {
        x.drop_first()
    } else {
        x
    };
    d.len() > 0 && all_digits(d)
}

/// A decimal number with an optional exponent introduced by `e`.
pub open spec fn is_number(b: Seq<char>) -> bool {
    ||| is_mantissa(b)
    ||| exists|k: int|
        0 <= k < b.len() && #[trigger] b[k] == 'e' && is_mantissa(b.take(k)) && is_exponent(
            b.skip(k + 1),
        )
}

/// The text that `f64::from_str` accepts, by the grammar its documentation
/// gives: after ASCII lower-casing, an optional sign, then `inf`, `infinity`,
/// `nan` or a decimal number with an optional exponent.
pub open spec fn is_float_text(s: Seq<char>) -> bool {
    let t = lower_seq(s);
    let b = if t.len() > 0 && is_sign(t[0]) {
        t.drop_first()
    } else {
        t
    };
    ||| b == seq!['i', 'n', 'f']
    ||| b == seq!['i', 'n', 'f', 'i', 'n', 'i', 't', 'y']
    ||| b == seq!['n', 'a', 'n']
    ||| is_number(b)
}

fn is_mantissa_at(b: &[char], from: usize, to: usize) -> (r: bool)
    requires
        from <= to <= b@.len(),
    ensures
        r == is_mantissa(b@.subrange(from as int, to as int)),
{
    let ghost m = b@.subrange(from as int, to as int);
    let mut i = from;
    let mut dot = false;
    let mut digit = false;
    while i < to
        invariant
            from <= i <= to <= b@.len(),
            m == b@.subrange(from as int, to as int),
            forall|j: int| 0 <= j < i - from ==> is_digit(#[trigger] m[j]) || m[j] == '.',
            forall|p: int, q: int|
                0 <= p < q < i - from && #[trigger] m[p] == '.' ==> #[trigger] m[q] != '.',
            dot == (exists|j: int| 0 <= j < i - from && #[trigger] m[j] == '.'),
            digit == (exists|j: int| 0 <= j < i - from && is_digit(#[trigger] m[j])),
        decreases to - i,
    {
        let c = b[i];
        assert(m[i - from] == c);
        if '0' <= c && c <= '9' {
            digit = true;
        } else if c == '.' {
            if dot {
                let ghost p = choose|j: int| 0 <= j < i - from && #[trigger] m[j] == '.';
                assert(m[p] == '.' && m[i - from] == '.');
                return false;
            }
            dot = true;
        } else {
            return false;
        }
        i = i + 1;
    }
    digit
}

fn is_exponent_at(b: &[char], from: usize) -> (r: bool)
    requires
        from <= b@.len(),
    ensures
        r == is_exponent(b@.skip(from as int)),
{
    let ghost x = b@.skip(from as int);
    let mut i = from;
    if i < b.len() && (b[i] == '+' || b[i] == '-') {
        i = i + 1;
    }
    let start = i;
    let ghost d = if x.len() > 0 && is_sign(x[0]) {
        x.drop_first()
    } else {
        x
    };
    assert(d == b@.skip(start as int));
    if start == b.len() {
        return false;
    }
    while i < b.len()
        invariant
            start <= i <= b@.len(),
            d == b@.skip(start as int),
            d.len() > 0,
            x == b@.skip(from as int),
            is_exponent(x) == all_digits(d),
            forall|j: int| 0 <= j < i - start ==> is_digit(#[trigger] d[j]),
        decreases b@.len() - i,
    {
        if !('0' <= b[i] && b[i] <= '9') {
            assert(!is_digit(d[i - start]));
            return false;
        }
        i = i + 1;
    }
    true
}

/// Whether `s` is text that `f64::from_str` accepts.
pub fn is_float_chars(s: &[char]) -> (r: bool)
    ensures
        r == is_float_text(s@),
{
    let t = lower_chars(s);
    let n = t.len();
    let mut start: usize = 0;
    if n > 0 && (t[0] == '+' || t[0] == '-') {
        start = 1;
    }
    let ghost b = if t@.len() > 0 && is_sign(t@[0]) {
        t@.drop_first()
    } else {
        t@
    };
    assert(b == t@.skip(start as int));
    let m = n - start;
    if m == 3 && t[start] == 'i' && t[start + 1] == 'n' && t[start + 2] == 'f' {
        assert(b =~= seq!['i', 'n', 'f']);
        return true;
    }
    if m == 8 && t[start] == 'i' && t[start + 1] == 'n' && t[start + 2] == 'f' && t[start + 3]
        == 'i' && t[start + 4] == 'n' && t[start + 5] == 'i' && t[start + 6] == 't' && t[start
        + 7] == 'y' {
        assert(b =~= seq!['i', 'n', 'f', 'i', 'n', 'i', 't', 'y']);
        return true;
    }
    if m == 3 && t[start] == 'n' && t[start + 1] == 'a' && t[start + 2] == 'n' {
        assert(b =~= seq!['n', 'a', 'n']);
        return true;
    }
    assert(b != seq!['i', 'n', 'f']) by {
        if b == seq!['i', 'n', 'f'] {
            assert(b[0] == t@[start as int] && b[1] == t@[start + 1] && b[2] == t@[start + 2]);
        }
    }
    assert(b != seq!['i', 'n', 'f', 'i', 'n', 'i', 't', 'y']) by {
        if b == seq!['i', 'n', 'f', 'i', 'n', 'i', 't', 'y'] {
            assert(b[0] == t@[start as int] && b[1] == t@[start + 1] && b[2] == t@[start + 2]);
            assert(b[3] == t@[start + 3] && b[4] == t@[start + 4] && b[5] == t@[start + 5]);
            assert(b[6] == t@[start + 6] && b[7] == t@[start + 7]);
        }
    }
    assert(b != seq!['n', 'a', 'n']) by {
        if b == seq!['n', 'a', 'n'] {
            assert(b[0] == t@[start as int] && b[1] == t@[start + 1] && b[2] == t@[start + 2]);
        }
    }
    let mut k = start;
    while k < n && t[k] != 'e'
        invariant
            start <= k <= n == t@.len(),
            forall|j: int| start <= j < k ==> #[trigger] t@[j] != 'e',
        decreases n - k,
    {
        k = k + 1;
    }
    if k == n {
        assert(t@.subrange(start as int, n as int) == b);
        let r = is_mantissa_at(&t, start, n);
        assert(!exists|k2: int| 0 <= k2 < b.len() && #[trigger] b[k2] == 'e' && is_mantissa(b.take(k2)) && is_exponent(b.skip(k2 + 1))) by {
            assert forall|k2: int| 0 <= k2 < b.len() implies #[trigger] b[k2] != 'e' by {
                assert(b[k2] == t@[start + k2]);
            }
        }
        r
    } else {
        let ghost kk = (k - start) as int;
        assert(t@.subrange(start as int, k as int) == b.take(kk));
        assert(t@.skip(k + 1) == b.skip(kk + 1));
        assert(b[kk] == 'e');
        let r = is_mantissa_at(&t, start, k) && is_exponent_at(&t, k + 1);
        assert(!is_mantissa(b)) by {
            if is_mantissa(b) {
                assert(is_digit(b[kk]) || b[kk] == '.');
            }
        }
        assert(r == is_number(b)) by {
            if !r && is_number(b) {
                let k2 = choose|k2: int| 0 <= k2 < b.len() && #[trigger] b[k2] == 'e' && is_mantissa(b.take(k2)) && is_exponent(b.skip(k2 + 1));
                if k2 < kk {
                    assert(b[k2] == t@[start + k2]);
                } else if k2 > kk {
                    assert(b.take(k2)[kk] == 'e');
                }
            }
        }
        r
    }
}


/// The decimal text of an integer, with a leading `-` when it is negative.
pub open spec fn int_text(i: int) -> Seq<char> {
    if i < 0 {
        seq!['-'] + decimal_text((-i) as nat)
    } else {
        decimal_text(i as nat)
    }
}

/// The decimal text of `v`, as `v.to_string()` writes it.
pub fn i8_text(v: i8) -> (r: String)
    ensures
        r@ == int_text(v as int),
{
    let m: u32 = if v < 0 {
        (-(v as i32)) as u32
    } else {
        v as u32
    };
    let digits = decimal_chars(m);
    let mut r = String::new();
    if v < 0 {
        r.push('-');
    }
    let mut i: usize = 0;
    while i < digits.len()
        invariant
            i <= digits@.len(),
            r@ == (if v < 0 { seq!['-'] } else { Seq::<char>::empty() }) + digits@.take(i as int),
        decreases digits@.len() - i,
    {
        r.push(digits[i]);
        assert(digits@.take(i + 1) == digits@.take(i as int).push(digits@[i as int]));
        i = i + 1;
    }
    assert(digits@.take(digits@.len() as int) == digits@);
    r
}


/// The character of a hexadecimal digit, lower case.
pub open spec fn hex_char(d: nat) -> char {
    if d < 10 {
        digit_char(d)
    } else {
        ((87 + d) as u32) as char
    }
}

/// The lowest `k` hexadecimal digits of `n`, most significant first, as
/// `format!("{:0k$x}", n)` writes a number below `16^k`.
pub open spec fn hex_text(n: nat, k: nat) -> Seq<char>
    decreases k,
{
    if k == 0 {
        Seq::empty()
    } else {
        hex_text(n / 16, (k - 1) as nat).push(hex_char(n % 16))
    }
}

/// The lowest `k` hexadecimal digits of `n`, lower case and zero-padded.
pub fn hex_chars(n: u64, k: usize) -> (r: Vec<char>)
    ensures
        r@ == hex_text(n as nat, k as nat),
    decreases k,
{
    if k == 0 {
        Vec::new()
    } else {
        let mut v = hex_chars(n / 16, k - 1);
        let d = (n % 16) as u8;
        let c = if d < 10 {
            (48u8 + d) as char
        } else {
            (87u8 + d) as char
        };
        v.push(c);
        v
    }
}

proof fn lemma_hex_char_injective(a: nat, b: nat)
    requires
        a < 16,
        b < 16,
        hex_char(a) == hex_char(b),
    ensures
        a == b,
{
    assert((((48 + a) as u32) as char) as u32 == 48 + a);
    assert((((48 + b) as u32) as char) as u32 == 48 + b);
    assert((((87 + a) as u32) as char) as u32 == 87 + a);
    assert((((87 + b) as u32) as char) as u32 == 87 + b);
}

/// Numbers below `16^k` with the same `k` hexadecimal digits are equal.
pub proof fn lemma_hex_text_injective(n: nat, m: nat, k: nat)
    requires
        hex_text(n, k) == hex_text(m, k),
        n < pow16(k),
        m < pow16(k),
    ensures
        n == m,
    decreases k,
{
    if k > 0 {
        let a = hex_text(n, k);
        let b = hex_text(m, k);
        let p = pow16((k - 1) as nat);
        assert(a.drop_last() =~= hex_text(n / 16, (k - 1) as nat));
        assert(b.drop_last() =~= hex_text(m / 16, (k - 1) as nat));
        assert(a.last() == b.last());
        lemma_hex_char_injective(n % 16, m % 16);
        assert(n / 16 < p) by (nonlinear_arith)
            requires
                n < 16 * p,
        ;
        assert(m / 16 < p) by (nonlinear_arith)
            requires
                m < 16 * p,
        ;
        lemma_hex_text_injective(n / 16, m / 16, (k - 1) as nat);
        assert(n == 16 * (n / 16) + n % 16);
        assert(m == 16 * (m / 16) + m % 16);
    }
}

/// Sixteen to the power `k`.
pub open spec fn pow16(k: nat) -> nat
    decreases k,
{
    if k == 0 {
        1
    } else {
        16 * pow16((k - 1) as nat)
    }
}


/// The characters that can occur in lower-cased float text.
pub open spec fn float_char(c: char) -> bool {
    ||| is_digit(c)
    ||| c == '.'
    ||| c == 'e'
    ||| is_sign(c)
    ||| c == 'i'
    ||| c == 'n'
    ||| c == 'f'
    ||| c == 't'
    ||| c == 'y'
    ||| c == 'a'
}

proof fn lemma_number_chars(b: Seq<char>)
    requires
        is_number(b),
    ensures
        b.len() > 0,
        forall|j: int| 0 <= j < b.len() ==> float_char(#[trigger] b[j]),
{
    if is_mantissa(b) {
        assert forall|j: int| 0 <= j < b.len() implies float_char(#[trigger] b[j]) by {
            assert(is_digit(b[j]) || b[j] == '.');
        }
    } else {
        let k = choose|k: int|
            0 <= k < b.len() && #[trigger] b[k] == 'e' && is_mantissa(b.take(k)) && is_exponent(
                b.skip(k + 1),
            );
        let m = b.take(k);
        let x = b.skip(k + 1);
        assert forall|j: int| 0 <= j < b.len() implies float_char(#[trigger] b[j]) by {
            if j < k {
                assert(b[j] == m[j]);
                assert(is_digit(m[j]) || m[j] == '.');
            } else if j > k {
                assert(b[j] == x[j - k - 1]);
                if j - k - 1 == 0 && is_sign(x[0]) {
                } else {
                    let d = if x.len() > 0 && is_sign(x[0]) {
                        x.drop_first()
                    } else {
                        x
                    };
                    if x.len() > 0 && is_sign(x[0]) {
                        assert(x[j - k - 1] == d[j - k - 2]);
                        assert(is_digit(d[j - k - 2]));
                    } else {
                        assert(is_digit(d[j - k - 1]));
                    }
                }
            }
        }
    }
}

/// Float text is not empty, and holds no comma and no whitespace.
pub proof fn lemma_float_text_plain(s: Seq<char>)
    requires
        is_float_text(s),
    ensures
        s.len() > 0,
        forall|i: int| 0 <= i < s.len() ==> #[trigger] s[i] != ',' && !crate::text::is_ws(s[i]),
{
    let t = lower_seq(s);
    let signed = t.len() > 0 && is_sign(t[0]);
    let b = if signed {
        t.drop_first()
    } else {
        t
    };
    if is_number(b) {
        lemma_number_chars(b);
    }
    assert(b.len() > 0);
    assert forall|j: int| 0 <= j < b.len() implies float_char(#[trigger] b[j]) by {
        if !is_number(b) {
            if b =~= seq!['i', 'n', 'f'] {
            } else if b =~= seq!['i', 'n', 'f', 'i', 'n', 'i', 't', 'y'] {
            } else {
                assert(b =~= seq!['n', 'a', 'n']);
            }
        }
    }
    assert forall|i: int| 0 <= i < s.len() implies #[trigger] s[i] != ',' && !crate::text::is_ws(
        s[i],
    ) by {
        assert(t[i] == crate::text::lower(s[i]));
        if signed {
            if i > 0 {
                assert(t[i] == b[i - 1]);
            }
        } else {
            assert(t[i] == b[i]);
        }
        assert(float_char(t[i]));
    }
}

} // verus!
