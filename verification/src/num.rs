//! Verified rendering and parsing of decimal and hexadecimal numbers.

use vstd::prelude::*;
use vstd::string::*;

verus! {

/// The decimal digit character for `d` (0 to 9).
pub open spec fn digit_char(d: int) -> char {
    if d == 0 {
        '0'
    } else if d == 1 {
        '1'
    } else if d == 2 {
        '2'
    } else if d == 3 {
        '3'
    } else if d == 4 {
        '4'
    } else if d == 5 {
        '5'
    } else if d == 6 {
        '6'
    } else if d == 7 {
        '7'
    } else if d == 8 {
        '8'
    } else if d == 9 {
        '9'
    } else {
        '?'
    }
}

/// The decimal rendering of `n`, most significant digit first.
pub open spec fn dec_spec(n: nat) -> Seq<char>
    decreases n,
{
    if n < 10 {
        seq![digit_char(n as int)]
    } else {
        dec_spec(n / 10).push(digit_char((n % 10) as int))
    }
}

/// The decimal rendering of a signed value: a minus sign, then the magnitude.
pub open spec fn dec_int_spec(v: int) -> Seq<char> {
    if v >= 0 {
        dec_spec(v as nat)
    } else {
        seq!['-'] + dec_spec((-v) as nat)
    }
}

fn dec_digit(d: u64) -> (r: char)
    requires
        d < 10,
    ensures
        r == digit_char(d as int),
{
    if d == 0 {
        '0'
    } else if d == 1 {
        '1'
    } else if d == 2 {
        '2'
    } else if d == 3 {
        '3'
    } else if d == 4 {
        '4'
    } else if d == 5 {
        '5'
    } else if d == 6 {
        '6'
    } else if d == 7 {
        '7'
    } else if d == 8 {
        '8'
    } else {
        '9'
    }
}

/// Renders `n` in decimal.
pub fn u64_to_string(n: u64) -> (r: String)
    ensures
        r@ == dec_spec(n as nat),
    decreases n,
{
    if n < 10 {
        let mut s = String::new();
        s.push(dec_digit(n));
        s
    } else {
        let mut s = u64_to_string(n / 10);
        s.push(dec_digit(n % 10));
        s
    }
}

/// Renders `v` in decimal, with a leading minus sign when negative.
pub fn i64_to_string(v: i64) -> (r: String)
    ensures
        r@ == dec_int_spec(v as int),
{
    if v >= 0 {
        u64_to_string(v as u64)
    } else {
        let mag: u64 = ((-(v + 1)) as u64) + 1;
        let mut s = String::new();
        s.push('-');
        let digits = u64_to_string(mag);
        s.append(digits.as_str());
        proof {
            assert(s@ =~= dec_int_spec(v as int));
        }
        s
    }
}

/// Renders `v` in decimal, with a leading minus sign when negative.
pub fn i32_to_string(v: i32) -> (r: String)
    ensures
        r@ == dec_int_spec(v as int),
{
    i64_to_string(v as i64)
}

/// The lowercase hexadecimal digit character for `d` (0 to 15).
pub open spec fn hex_digit_char(d: int) -> char {
    if d < 10 {
        digit_char(d)
    } else if d == 10 {
        'a'
    } else if d == 11 {
        'b'
    } else if d == 12 {
        'c'
    } else if d == 13 {
        'd'
    } else if d == 14 {
        'e'
    } else if d == 15 {
        'f'
    } else {
        '?'
    }
}

/// The hexadecimal rendering of `n`, most significant digit first.
pub open spec fn hex_spec(n: nat) -> Seq<char>
    decreases n,
{
    if n < 16 {
        seq![hex_digit_char(n as int)]
    } else {
        hex_spec(n / 16).push(hex_digit_char((n % 16) as int))
    }
}

/// A run of `k` zero characters.
pub open spec fn zero_pad(k: int) -> Seq<char> {
    Seq::new(if k > 0 {
        k as nat
    } else {
        0
    }, |i: int| '0')
}

/// `n` as a `0x`-prefixed hexadecimal literal, zero-padded to four digits:
/// the shape of a rendered message identifier.
pub open spec fn hex4_spec(n: nat) -> Seq<char> {
    seq!['0', 'x'] + zero_pad(4 - hex_spec(n).len()) + hex_spec(n)
}

fn hex_digit(d: u64) -> (r: char)
    requires
        d < 16,
    ensures
        r == hex_digit_char(d as int),
{
    if d < 10 {
        dec_digit(d)
    } else if d == 10 {
        'a'
    } else if d == 11 {
        'b'
    } else if d == 12 {
        'c'
    } else if d == 13 {
        'd'
    } else if d == 14 {
        'e'
    } else {
        'f'
    }
}

fn hex_u64_digits(n: u64) -> (r: String)
    ensures
        r@ == hex_spec(n as nat),
    decreases n,
{
    if n < 16 {
        let mut s = String::new();
        s.push(hex_digit(n));
        s
    } else {
        let mut s = hex_u64_digits(n / 16);
        s.push(hex_digit(n % 16));
        s
    }
}

proof fn lemma_hex_len(n: nat)
    ensures
        hex_spec(n).len() >= 1,
        n < 0x10 ==> hex_spec(n).len() == 1,
        0x10 <= n < 0x100 ==> hex_spec(n).len() == 2,
        0x100 <= n < 0x1000 ==> hex_spec(n).len() == 3,
        0x1000 <= n ==> hex_spec(n).len() >= 4,
    decreases n,
{
    if n >= 16 {
        lemma_hex_len(n / 16);
    }
}

/// Renders `n` as `0x`-prefixed hexadecimal, zero-padded to four digits.
pub fn hex4_u32(n: u32) -> (r: String)
    ensures
        r@ == hex4_spec(n as nat),
{
    let digits = hex_u64_digits(n as u64);
    let mut s = String::new();
    s.push('0');
    s.push('x');
    proof {
        lemma_hex_len(n as nat);
    }
    if n < 0x10 {
        s.push('0');
        s.push('0');
        s.push('0');
    } else if n < 0x100 {
        s.push('0');
        s.push('0');
    } else if n < 0x1000 {
        s.push('0');
    }
    s.append(digits.as_str());
    proof {
        assert(s@ =~= hex4_spec(n as nat));
    }
    s
}

/// Whether `c` is a decimal digit.
pub open spec fn is_digit(c: char) -> bool {
    c == '0' || c == '1' || c == '2' || c == '3' || c == '4' || c == '5' || c == '6' || c == '7'
        || c == '8' || c == '9'
}

/// The value of the decimal digit `c`.
pub open spec fn digit_val(c: char) -> int {
    if c == '0' {
        0
    } else if c == '1' {
        1
    } else if c == '2' {
        2
    } else if c == '3' {
        3
    } else if c == '4' {
        4
    } else if c == '5' {
        5
    } else if c == '6' {
        6
    } else if c == '7' {
        7
    } else if c == '8' {
        8
    } else if c == '9' {
        9
    } else {
        -1
    }
}

/// The decimal digit value of `c`, if it is one.
pub fn digit_of(c: char) -> (r: Option<u64>)
    ensures
        is_digit(c) ==> r == Some(digit_val(c) as u64),
        !is_digit(c) ==> r is None,
{
    match c {
        '0' => Some(0),
        '1' => Some(1),
        '2' => Some(2),
        '3' => Some(3),
        '4' => Some(4),
        '5' => Some(5),
        '6' => Some(6),
        '7' => Some(7),
        '8' => Some(8),
        '9' => Some(9),
        _ => None,
    }
}

/// Whether `c` is a hexadecimal digit, upper or lower case.
pub open spec fn is_hex_digit(c: char) -> bool {
    is_digit(c) || c == 'a' || c == 'b' || c == 'c' || c == 'd' || c == 'e' || c == 'f' || c == 'A'
        || c == 'B' || c == 'C' || c == 'D' || c == 'E' || c == 'F'
}

/// Whether `c` is a hexadecimal digit.
pub fn hex_digit_check(c: char) -> (r: bool)
    ensures
        r == is_hex_digit(c),
{
    match c {
        '0' | '1' | '2' | '3' | '4' | '5' | '6' | '7' | '8' | '9' => true,
        'a' | 'b' | 'c' | 'd' | 'e' | 'f' => true,
        'A' | 'B' | 'C' | 'D' | 'E' | 'F' => true,
        _ => false,
    }
}

/// Whether `s` is one or more decimal digits.
pub open spec fn all_digits(s: Seq<char>) -> bool {
    s.len() > 0 && (forall|k: int| 0 <= k < s.len() ==> is_digit(s[k]))
}

/// The numeric value of a digit string, most significant digit first.
pub open spec fn digits_val(s: Seq<char>) -> nat
    decreases s.len(),
{
    if s.len() == 0 {
        0
    } else {
        digits_val(s.drop_last()) * 10 + (if is_digit(s.last()) {
            digit_val(s.last()) as nat
        } else {
            0
        })
    }
}

proof fn lemma_digits_val_mono(s: Seq<char>, i: int)
    requires
        0 <= i <= s.len(),
    ensures
        digits_val(s.take(i)) <= digits_val(s),
    decreases s.len() - i,
{
    if i < s.len() {
        lemma_digits_val_mono(s, i + 1);
        assert(s.take(i + 1).drop_last() =~= s.take(i));
        assert(digits_val(s.take(i)) <= digits_val(s.take(i + 1)));
    } else {
        assert(s.take(i) =~= s);
    }
}

/// The digit part of `s` once an optional sign is stripped; `None` when the
/// remainder is not one or more digits.
pub open spec fn unsigned_body(s: Seq<char>) -> Seq<char> {
    if s.len() > 0 && (s[0] == '+' || s[0] == '-') {
        s.skip(1)
    } else {
        s
    }
}

/// Whether `s` begins with a minus sign.
pub open spec fn has_minus(s: Seq<char>) -> bool {
    s.len() > 0 && s[0] == '-'
}

/// What `str::parse::<u64>` returns on `s`: an optional plus sign and
/// digits whose value fits.
pub open spec fn parse_u64_spec(s: Seq<char>) -> Option<u64> {
    let d = if s.len() > 0 && s[0] == '+' {
        s.skip(1)
    } else {
        s
    };
    if all_digits(d) && digits_val(d) <= u64::MAX {
        Some(digits_val(d) as u64)
    } else {
        None
    }
}

/// What `str::parse::<u32>` returns on `s`.
pub open spec fn parse_u32_spec(s: Seq<char>) -> Option<u32> {
    let d = if s.len() > 0 && s[0] == '+' {
        s.skip(1)
    } else {
        s
    };
    if all_digits(d) && digits_val(d) <= u32::MAX {
        Some(digits_val(d) as u32)
    } else {
        None
    }
}

/// What `str::parse::<i64>` returns on `s`: an optional sign and digits
/// whose signed value fits.
pub open spec fn parse_i64_spec(s: Seq<char>) -> Option<i64> {
    let d = unsigned_body(s);
    if all_digits(d) {
        if has_minus(s) {
            if digits_val(d) <= 0x8000_0000_0000_0000 {
                Some((-(digits_val(d) as int)) as i64)
            } else {
            None
            }
        } else {
            if digits_val(d) <= i64::MAX {
                Some(digits_val(d) as i64)
            } else {
                None
            }
        }
    } else {
        None
    }
}

/// What `str::parse::<i32>` returns on `s`.
pub open spec fn parse_i32_spec(s: Seq<char>) -> Option<i32> {
    let d = unsigned_body(s);
    if all_digits(d) {
        if has_minus(s) {
            if digits_val(d) <= 0x8000_0000 {
                Some((-(digits_val(d) as int)) as i32)
            } else {
                None
            }
        } else {
            if digits_val(d) <= i32::MAX {
                Some(digits_val(d) as i32)
            } else {
                None
            }
        }
    } else {
        None
    }
}

/// Index of the first exponent marker (`e` or `E`) at or after `i`, or the
/// length.
pub open spec fn find_exp_idx(s: Seq<char>, i: int) -> int
    decreases s.len() - i,
{
    if 0 <= i < s.len() {
        if s[i] == 'e' || s[i] == 'E' {
            i
        } else {
            find_exp_idx(s, i + 1)
        }
    } else {
        i
    }
}

/// A valid floating-point mantissa: digits with at most one decimal point
/// and at least one digit.
pub open spec fn mantissa_ok(m: Seq<char>) -> bool {
    let dot = crate::text::find_char_idx(m, '.', 0);
    if dot < m.len() {
        m.len() >= 2 && (forall|k: int| 0 <= k < m.len() && k != dot ==> is_digit(m[k]))
    } else {
        all_digits(m)
    }
}

/// A valid floating-point exponent: an optional sign, then digits.
pub open spec fn exp_ok(e: Seq<char>) -> bool {
    if e.len() > 0 && (e[0] == '+' || e[0] == '-') {
        all_digits(e.skip(1))
    } else {
        all_digits(e)
    }
}

/// Whether `str::parse::<f64>` accepts `s`: an optional sign, then one of
/// the keywords `inf`, `infinity`, `nan` (case-insensitive) or a mantissa
/// with an optional exponent. The parse never fails on range, only on
/// shape, so acceptance is purely syntactic.
pub open spec fn float_ok(s: Seq<char>) -> bool {
    let b = if s.len() > 0 && (s[0] == '+' || s[0] == '-') {
        s.skip(1)
    } else {
        s
    };
    if crate::text::lower_spec(b) == "inf"@ || crate::text::lower_spec(b) == "infinity"@
        || crate::text::lower_spec(b) == "nan"@ {
        true
    } else {
        let ei = find_exp_idx(b, 0);
        if ei < b.len() {
            mantissa_ok(b.take(ei)) && exp_ok(b.skip(ei + 1))
        } else {
            mantissa_ok(b)
        }
    }
}

/// Whether every character of `s@.skip(from)` is a digit, and there is at
/// least one.
fn all_digits_check(s: &str, from: usize) -> (r: bool)
    requires
        from <= s@.len(),
    ensures
        r == all_digits(s@.skip(from as int)),
{
    let len = s.unicode_len();
    if from == len {
        return false;
    }
    let mut i: usize = from;
    while i < len
        invariant
            len == s@.len(),
            from <= i <= len,
            from < len,
            forall|k: int| 0 <= k < i - from ==> is_digit(s@.skip(from as int)[k]),
        decreases len - i,
    {
        proof {
            assert(s@.skip(from as int)[i - from] == s@[i as int]);
        }
        match digit_of(s.get_char(i)) {
            Some(_) => {},
            None => {
                return false;
            },
        }
        i = i + 1;
    }
    true
}

/// Finds the first exponent marker in `s`, if any.
fn find_exp(s: &str) -> (r: Option<usize>)
    ensures
        match r {
            Some(i) => i < s@.len() && find_exp_idx(s@, 0) == i,
            None => find_exp_idx(s@, 0) == s@.len(),
        },
{
    let len = s.unicode_len();
    let mut i: usize = 0;
    while i < len
        invariant
            len == s@.len(),
            0 <= i <= len,
            find_exp_idx(s@, 0) == find_exp_idx(s@, i as int),
        decreases len - i,
    {
        let c = s.get_char(i);
        if c == 'e' || c == 'E' {
            return Some(i);
        }
        i = i + 1;
    }
    None
}

/// Whether `m` is a valid floating-point mantissa.
fn mantissa_check(m: &str) -> (r: bool)
    ensures
        r == mantissa_ok(m@),
{
    let len = m.unicode_len();
    match crate::text::find_char(m, '.') {
        Some(dot) => {
            if len < 2 {
                return false;
            }
            let mut i: usize = 0;
            while i < len
                invariant
                    len == m@.len(),
                    0 <= i <= len,
                    dot < len,
                    m@[dot as int] == '.',
                    crate::text::find_char_idx(m@, '.', 0) == dot,
                    forall|k: int| 0 <= k < i && k != dot ==> is_digit(m@[k]),
                decreases len - i,
            {
                if i != dot {
                    match digit_of(m.get_char(i)) {
                        Some(_) => {},
                        None => {
                            return false;
                        },
                    }
                }
                i = i + 1;
            }
            true
        },
        None => {
            proof {
                assert(m@.skip(0) =~= m@);
            }
            all_digits_check(m, 0)
        },
    }
}

/// Whether `str::parse::<f64>` would accept `s`.
pub fn is_float_str(s: &str) -> (r: bool)
    ensures
        r == float_ok(s@),
{
    let len = s.unicode_len();
    let from: usize = if len > 0 {
        let c0 = s.get_char(0);
        if c0 == '+' || c0 == '-' {
            1
        } else {
            0
        }
    } else {
        0
    };
    let body = s.substring_char(from, len);
    proof {
        if from == 0 {
            assert(body@ =~= s@);
        } else {
            assert(body@ =~= s@.skip(1));
        }
    }
    let lowered = crate::text::lower_str(body);
    if crate::text::str_eq(lowered.as_str(), "inf") || crate::text::str_eq(
        lowered.as_str(),
        "infinity",
    ) || crate::text::str_eq(lowered.as_str(), "nan") {
        return true;
    }
    let blen = body.unicode_len();
    match find_exp(body) {
        Some(ei) => {
            let mant = body.substring_char(0, ei);
            proof {
                assert(mant@ =~= body@.take(ei as int));
            }
            if !mantissa_check(mant) {
                return false;
            }
            let e = body.substring_char(ei + 1, blen);
            proof {
                assert(e@ =~= body@.skip(ei + 1 as int));
            }
            let elen = e.unicode_len();
            if elen > 0 {
                let e0 = e.get_char(0);
                if e0 == '+' || e0 == '-' {
                    all_digits_check(e, 1)
                } else {
                    proof {
                        assert(e@.skip(0) =~= e@);
                    }
                    all_digits_check(e, 0)
                }
            } else {
                proof {
                    assert(e@.skip(0) =~= e@);
                }
                false
            }
        },
        None => mantissa_check(body),
    }
}

/// The magnitude of the digit run `s@.skip(from)`, capped: `None` when the
/// value exceeds `bound` or some character is not a digit or the run is empty.
fn parse_magnitude(s: &str, from: usize, bound: u64) -> (r: Option<u64>)
    requires
        from <= s@.len(),
        bound >= 10,
    ensures
        ({
            let d = s@.skip(from as int);
            match r {
                Some(v) => all_digits(d) && digits_val(d) == v && v <= bound,
                None => !(all_digits(d) && digits_val(d) <= bound),
            }
        }),
{
    let len = s.unicode_len();
    if from == len {
        return None;
    }
    let ghost d = s@.skip(from as int);
    let mut acc: u64 = 0;
    let mut i: usize = from;
    while i < len
        invariant
            len == s@.len(),
            from <= i <= len,
            from < len,
            d == s@.skip(from as int),
            bound >= 10,
            acc == digits_val(d.take(i - from)),
            acc <= bound,
            forall|k: int| 0 <= k < i - from ==> is_digit(d[k]),
        decreases len - i,
    {
        let c = s.get_char(i);
        proof {
            assert(d[i - from] == s@[i as int]);
        }
        let dv = match digit_of(c) {
            Some(v) => v,
            None => {
                return None;
            },
        };
        proof {
            assert(is_digit(c));
            assert(dv < 10);
        }
        proof {
            assert(d.take(i - from + 1).drop_last() =~= d.take(i - from));
            assert(d.take(i - from + 1).last() == d[i - from]);
        }
        if acc > (bound - dv) / 10 {
            proof {
                assert(digits_val(d.take(i - from + 1)) == acc * 10 + dv);
                assert(digits_val(d.take(i - from + 1)) > bound) by (nonlinear_arith)
                    requires
                        digits_val(d.take(i - from + 1)) == acc * 10 + dv,
                        acc > (bound - dv) / 10,
                        dv < 10,
                        acc <= bound,
                ;
                lemma_digits_val_mono(d, i - from + 1);
            }
            return None;
        }
        acc = acc * 10 + dv;
        i = i + 1;
    }
    proof {
        assert(d.take(len - from) =~= d);
    }
    Some(acc)
}

/// Parses `s` as `str::parse::<u64>` would.
pub fn parse_u64_str(s: &str) -> (r: Option<u64>)
    ensures
        r == parse_u64_spec(s@),
{
    let len = s.unicode_len();
    let from: usize = if len > 0 && s.get_char(0) == '+' {
        1
    } else {
        0
    };
    proof {
        if from == 0 {
            assert(s@.skip(0) =~= s@);
        }
    }
    parse_magnitude(s, from, u64::MAX)
}

/// Parses `s` as `str::parse::<u32>` would.
pub fn parse_u32_str(s: &str) -> (r: Option<u32>)
    ensures
        r == parse_u32_spec(s@),
{
    let len = s.unicode_len();
    let from: usize = if len > 0 && s.get_char(0) == '+' {
        1
    } else {
        0
    };
    proof {
        if from == 0 {
            assert(s@.skip(0) =~= s@);
        }
    }
    match parse_magnitude(s, from, 0xFFFF_FFFF) {
        Some(v) => Some(v as u32),
        None => None,
    }
}

/// Parses `s` as `str::parse::<i64>` would.
pub fn parse_i64_str(s: &str) -> (r: Option<i64>)
    ensures
        r == parse_i64_spec(s@),
{
    let len = s.unicode_len();
    let negative = len > 0 && s.get_char(0) == '-';
    let signed = negative || (len > 0 && s.get_char(0) == '+');
    let from: usize = if signed {
        1
    } else {
        0
    };
    proof {
        if from == 0 {
            assert(s@.skip(0) =~= s@);
        }
    }
    if negative {
        match parse_magnitude(s, from, 0x8000_0000_0000_0000) {
            Some(v) => {
                if v == 0x8000_0000_0000_0000 {
                    Some(i64::MIN)
                } else {
                    Some(-(v as i64))
                }
            },
            None => None,
        }
    } else {
        match parse_magnitude(s, from, 0x7FFF_FFFF_FFFF_FFFF) {
            Some(v) => Some(v as i64),
            None => None,
        }
    }
}

/// Parses `s` as `str::parse::<i32>` would.
pub fn parse_i32_str(s: &str) -> (r: Option<i32>)
    ensures
        r == parse_i32_spec(s@),
{
    let len = s.unicode_len();
    let negative = len > 0 && s.get_char(0) == '-';
    let signed = negative || (len > 0 && s.get_char(0) == '+');
    let from: usize = if signed {
        1
    } else {
        0
    };
    proof {
        if from == 0 {
            assert(s@.skip(0) =~= s@);
        }
    }
    if negative {
        match parse_magnitude(s, from, 0x8000_0000) {
            Some(v) => {
                if v == 0x8000_0000 {
                    Some(i32::MIN)
                } else {
                    Some(-(v as i32))
                }
            },
            None => None,
        }
    } else {
        match parse_magnitude(s, from, 0x7FFF_FFFF) {
            Some(v) => Some(v as i32),
            None => None,
        }
    }
}

} // verus!
