//! Numeric and boolean literals.
//!
//! Vendors write the same number as `#x0230`, `0x230`, `x230` or `560`, and
//! the same flag as `1` or `true`. Every such text of a raw document is read
//! here, so that nothing else in the crate depends on a dialect.
use crate::error::{result_view, Error, ErrorView, LiteralFault, Width};
use vstd::prelude::*;
use vstd::string::*;

verus! {

/// Value of `c` as a digit in base `radix`, where it is one. Letters stand for
/// ten and above, in either case.
pub open spec fn digit_value(c: char, radix: nat) -> Option<nat> {
    let d: int = if '0' <= c <= '9' {
        c as int - '0' as int
    } else if 'a' <= c <= 'f' {
        c as int - 'a' as int + 10
    } else if 'A' <= c <= 'F' {
        c as int - 'A' as int + 10
    } else {
        radix as int
    };
    if d < radix {
        Some(d as nat)
    } else {
        None
    }
}

/// At least one character, each of them a digit in base `radix`.
pub open spec fn is_digits(s: Seq<char>, radix: nat) -> bool {
    &&& s.len() > 0
    &&& forall|i: int| 0 <= i < s.len() ==> digit_value(#[trigger] s[i], radix) is Some
}

/// The number that the digits of `s` denote in base `radix`, most significant
/// digit first.
pub open spec fn digits_value(s: Seq<char>, radix: nat) -> nat
    decreases s.len(),
{
    if s.len() == 0 {
        0
    } else {
        let d: nat = match digit_value(s.last(), radix) {
            Some(d) => d,
            None => 0,
        };
        digits_value(s.drop_last(), radix) * radix + d
    }
}

/// Number of characters of the mark that announces a hexadecimal number at the
/// start of `s`: `x`, `#x` or `0x`, the letter in either case. 0 where `s` has
/// no such mark.
pub open spec fn hex_prefix_len(s: Seq<char>) -> nat {
    if s.len() >= 1 && (s[0] == 'x' || s[0] == 'X') {
        1
    } else if s.len() >= 2 && (s[0] == '#' || s[0] == '0') && (s[1] == 'x' || s[1] == 'X') {
        2
    } else {
        0
    }
}

/// The number that `s` denotes: hexadecimal after a mark, decimal without one.
/// `None` where `s` is not a number of either form.
pub open spec fn literal_value(s: Seq<char>) -> Option<nat> {
    let k = hex_prefix_len(s);
    let radix: nat = if k > 0 {
        16
    } else {
        10
    };
    let body = s.skip(k as int);
    if is_digits(body, radix) {
        Some(digits_value(body, radix))
    } else {
        None
    }
}

/// What reading `s` into an unsigned integer of the given width gives.
pub open spec fn parse_unsigned(s: Seq<char>, width: Width) -> Result<u32, ErrorView> {
    match literal_value(s) {
        None => Err(ErrorView::InvalidNumericLiteral(s, width, LiteralFault::Malformed)),
        Some(n) => if n <= width.max_value() {
            Ok(n as u32)
        } else {
            Err(ErrorView::InvalidNumericLiteral(s, width, LiteralFault::Overflow))
        },
    }
}

/// What reading `s` into a `u8` gives.
pub open spec fn parse_u8(s: Seq<char>) -> Result<u8, ErrorView> {
    match parse_unsigned(s, Width::W8) {
        Ok(n) => Ok(n as u8),
        Err(e) => Err(e),
    }
}

/// What reading `s` into a `u16` gives.
pub open spec fn parse_u16(s: Seq<char>) -> Result<u16, ErrorView> {
    match parse_unsigned(s, Width::W16) {
        Ok(n) => Ok(n as u16),
        Err(e) => Err(e),
    }
}

/// What reading `s` into a `u32` gives.
pub open spec fn parse_u32(s: Seq<char>) -> Result<u32, ErrorView> {
    parse_unsigned(s, Width::W32)
}

/// One of the marks `#x`, `#X`, `0x`, `0X`, `x` and `X`.
pub open spec fn is_hex_prefix(p: Seq<char>) -> bool {
    ||| p == seq!['#', 'x']
    ||| p == seq!['#', 'X']
    ||| p == seq!['0', 'x']
    ||| p == seq!['0', 'X']
    ||| p == seq!['x']
    ||| p == seq!['X']
}

/// `s` is a mark followed by hexadecimal digits.
pub open spec fn is_hex_literal(s: Seq<char>) -> bool {
    exists|p: Seq<char>, body: Seq<char>|
        is_hex_prefix(p) && is_digits(body, 16) && s == #[trigger] (p + body)
}

/// `s` is a numeric literal: a mark followed by hexadecimal digits, or decimal
/// digits alone.
pub open spec fn is_numeric_literal(s: Seq<char>) -> bool {
    is_hex_literal(s) || is_digits(s, 10)
}

/// The lower-case form of an ASCII capital; any other character unchanged.
pub open spec fn ascii_lower(c: char) -> char {
    if 'A' <= c <= 'Z' {
        ((c as u8 + 32) as u8) as char
    } else {
        c
    }
}

/// `s` spells the lower-case word `token`, in whatever case.
pub open spec fn spells(s: Seq<char>, token: Seq<char>) -> bool {
    &&& s.len() == token.len()
    &&& forall|i: int| 0 <= i < s.len() ==> ascii_lower(#[trigger] s[i]) == token[i]
}

/// `s` is a way of writing "true": `1`, or `true` in whatever case.
pub open spec fn is_true_token(s: Seq<char>) -> bool {
    spells(s, seq!['1']) || spells(s, seq!['t', 'r', 'u', 'e'])
}

/// `s` is a way of writing "false": `0`, or `false` in whatever case.
pub open spec fn is_false_token(s: Seq<char>) -> bool {
    spells(s, seq!['0']) || spells(s, seq!['f', 'a', 'l', 's', 'e'])
}

/// What reading `s` as a boolean gives.
pub open spec fn parse_boolean(s: Seq<char>) -> Result<bool, ErrorView> {
    if is_true_token(s) {
        Ok(true)
    } else if is_false_token(s) {
        Ok(false)
    } else {
        Err(ErrorView::InvalidBooleanLiteral(s))
    }
}

/// A mark followed by hexadecimal digits reads as the number that the digits
/// denote in base 16: into any width that the number fits, and as an overflow
/// into a width that it does not fit.
pub proof fn hex_literal_reads_in_base_16(p: Seq<char>, body: Seq<char>, width: Width)
    requires
        is_hex_prefix(p),
        is_digits(body, 16),
    ensures
        literal_value(p + body) == Some(digits_value(body, 16)),
        digits_value(body, 16) <= width.max_value() ==> parse_unsigned(p + body, width) == Ok::<
            u32,
            ErrorView,
        >(digits_value(body, 16) as u32),
        digits_value(body, 16) > width.max_value() ==> parse_unsigned(p + body, width) == Err::<
            u32,
            ErrorView,
        >(ErrorView::InvalidNumericLiteral(p + body, width, LiteralFault::Overflow)),
{
    let s = p + body;
    assert(s[0] == p[0]);
    if p.len() == 2 {
        assert(s[1] == p[1]);
    }
    assert(hex_prefix_len(s) == p.len());
    assert(s.skip(p.len() as int) =~= body);
}

/// Decimal digits alone read as the number that they denote in base 10: into
/// any width that the number fits, and as an overflow into a width that it
/// does not fit.
pub proof fn decimal_literal_reads_in_base_10(s: Seq<char>, width: Width)
    requires
        is_digits(s, 10),
    ensures
        literal_value(s) == Some(digits_value(s, 10)),
        digits_value(s, 10) <= width.max_value() ==> parse_unsigned(s, width) == Ok::<
            u32,
            ErrorView,
        >(digits_value(s, 10) as u32),
        digits_value(s, 10) > width.max_value() ==> parse_unsigned(s, width) == Err::<
            u32,
            ErrorView,
        >(ErrorView::InvalidNumericLiteral(s, width, LiteralFault::Overflow)),
{
    assert(digit_value(s[0], 10) is Some);
    if s.len() >= 2 {
        assert(digit_value(s[1], 10) is Some);
    }
    assert(hex_prefix_len(s) == 0);
    assert(s.skip(0) =~= s);
}

/// A text that is no numeric literal is turned down as malformed, whatever the
/// width.
pub proof fn other_text_is_malformed(s: Seq<char>, width: Width)
    requires
        !is_numeric_literal(s),
    ensures
        parse_unsigned(s, width) == Err::<u32, ErrorView>(
            ErrorView::InvalidNumericLiteral(s, width, LiteralFault::Malformed),
        ),
{
    if literal_value(s) is Some {
        let k = hex_prefix_len(s) as int;
        if k > 0 {
            let p = s.take(k);
            let body = s.skip(k);
            assert(p + body =~= s);
            if k == 1 {
                assert(p =~= seq![s[0]]);
            } else {
                assert(p =~= seq![s[0], s[1]]);
            }
            assert(is_hex_prefix(p));
            assert(is_hex_literal(s));
        } else {
            assert(s.skip(0) =~= s);
        }
    }
}

/// `1`, `true` and `True` read as true; `0`, `false` and `False` read as
/// false; a text that spells none of the four words, in whatever case, is
/// turned down.
pub proof fn boolean_literals(s: Seq<char>)
    ensures
        s == seq!['1'] || s == seq!['t', 'r', 'u', 'e'] || s == seq!['T', 'r', 'u', 'e']
            ==> parse_boolean(s) == Ok::<bool, ErrorView>(true),
        s == seq!['0'] || s == seq!['f', 'a', 'l', 's', 'e'] || s == seq!['F', 'a', 'l', 's', 'e']
            ==> parse_boolean(s) == Ok::<bool, ErrorView>(false),
        !is_true_token(s) && !is_false_token(s) ==> parse_boolean(s) == Err::<bool, ErrorView>(
            ErrorView::InvalidBooleanLiteral(s),
        ),
        !(is_true_token(s) && is_false_token(s)),
{
    if s == seq!['0'] || s == seq!['f', 'a', 'l', 's', 'e'] || s == seq!['F', 'a', 'l', 's', 'e'] {
        assert(is_false_token(s));
    }
    if is_true_token(s) && is_false_token(s) {
        assert(ascii_lower(s[0]) == '1' || ascii_lower(s[0]) == 't');
        assert(ascii_lower(s[0]) == '0' || ascii_lower(s[0]) == 'f');
    }
}

/// Appending a digit multiplies the value by the radix and adds the digit.
proof fn lemma_digits_value_push(s: Seq<char>, c: char, radix: nat)
    ensures
        digits_value(s.push(c), radix) == digits_value(s, radix) * radix + match digit_value(
            c,
            radix,
        ) {
            Some(d) => d,
            None => 0,
        },
{
    assert(s.push(c).drop_last() =~= s);
    assert(s.push(c).last() == c);
}

/// A text with a character beyond ASCII is no numeric literal.
proof fn lemma_literal_is_ascii(s: Seq<char>)
    requires
        literal_value(s) is Some,
    ensures
        vstd::utf8::is_ascii_chars(s),
{
    let k = hex_prefix_len(s) as int;
    let body = s.skip(k);
    assert forall|i: int| 0 <= i < s.len() implies '\0' <= #[trigger] s[i] <= '\u{7f}' by {
        if i >= k {
            assert(body[i - k] == s[i]);
            assert(digit_value(body[i - k], 16) is Some || digit_value(body[i - k], 10) is Some);
        }
    }
}

/// The error for a text that is no number, or one too large.
fn invalid_numeric(v: &str, width: Width, fault: LiteralFault) -> (e: Error)
    ensures
        e.deep_view() == ErrorView::InvalidNumericLiteral(v@, width, fault),
{
    Error::InvalidNumericLiteral(v.to_owned(), width, fault)
}

/// The digit that an ASCII byte stands for in base 10 or 16.
fn ascii_digit(b: u8, radix: u32) -> (d: Option<u32>)
    requires
        radix == 10 || radix == 16,
    ensures
        match d {
            Some(n) => digit_value(b as char, radix as nat) == Some(n as nat) && n < radix,
            None => digit_value(b as char, radix as nat) is None,
        },
{
    let n: u32 = if 0x30 <= b && b <= 0x39 {
        (b - 0x30) as u32
    } else if 0x61 <= b && b <= 0x66 {
        (b - 0x61) as u32 + 10
    } else if 0x41 <= b && b <= 0x46 {
        (b - 0x41) as u32 + 10
    } else {
        radix
    };
    if n < radix {
        Some(n)
    } else {
        None
    }
}

/// Reads a numeric literal into an unsigned integer of the given width.
///
/// After one of the marks `#x`, `0x` and `x` (the letter in either case) the
/// digits are hexadecimal; without a mark they are decimal. No sign, no blank
/// and no separator is accepted, and at least one digit is required.
pub fn from_hex_dec_value(v: &str, width: Width) -> (r: Result<u32, Error>)
    ensures
        result_view(r) == parse_unsigned(v@, width),
{
    if !v.is_ascii() {
        proof {
            if literal_value(v@) is Some {
                lemma_literal_is_ascii(v@);
            }
        }
        return Err(invalid_numeric(v, width, LiteralFault::Malformed));
    }
    let n: usize = v.unicode_len();
    let start: usize = if n >= 1 && (v.get_ascii(0) == 0x78 || v.get_ascii(0) == 0x58) {
        1
    } else if n >= 2 && (v.get_ascii(0) == 0x23 || v.get_ascii(0) == 0x30) && (v.get_ascii(1)
        == 0x78 || v.get_ascii(1) == 0x58) {
        2
    } else {
        0
    };
    let radix: u32 = if start > 0 {
        16
    } else {
        10
    };
    assert(start == hex_prefix_len(v@));
    if start == n {
        return Err(invalid_numeric(v, width, LiteralFault::Malformed));
    }
    let max: u32 = width.limit();
    let ghost body = v@.skip(start as int);
    let mut acc: u32 = 0;
    let mut fits: bool = true;
    let mut i: usize = start;
    while i < n
        invariant
            start <= i <= n,
            n == v@.len(),
            is_ascii(v),
            start == hex_prefix_len(v@),
            radix == if start > 0 { 16u32 } else { 10u32 },
            max == width.max_value(),
            body == v@.skip(start as int),
            forall|j: int| 0 <= j < i - start ==> digit_value(#[trigger] body[j], radix as nat) is Some,
            fits ==> acc == digits_value(body.take(i - start), radix as nat) && acc <= max,
            !fits ==> digits_value(body.take(i - start), radix as nat) > max,
        decreases n - i,
    {
        let b: u8 = v.get_ascii(i);
        assert(b as char == body[i - start]);
        let digit = ascii_digit(b, radix);
        proof {
            lemma_digits_value_push(body.take(i - start), body[i - start], radix as nat);
            assert(body.take(i - start).push(body[i - start]) =~= body.take(i - start + 1));
        }
        match digit {
            None => {
                assert(digit_value(body[i - start], radix as nat) is None);
                return Err(invalid_numeric(v, width, LiteralFault::Malformed));
            },
            Some(d) => {
                if fits {
                    let next: u64 = acc as u64 * radix as u64 + d as u64;
                    if next > max as u64 {
                        fits = false;
                    } else {
                        acc = next as u32;
                    }
                } else {
                    assert(digits_value(body.take(i - start), radix as nat) * radix
                        >= digits_value(body.take(i - start), radix as nat)) by (nonlinear_arith)
                        requires
                            radix >= 1,
                    ;
                }
            },
        }
        i += 1;
    }
    assert(body.take(n - start) =~= body);
    if fits {
        Ok(acc)
    } else {
        Err(invalid_numeric(v, width, LiteralFault::Overflow))
    }
}

/// Reads a numeric literal into a `u32`.
pub fn u32_from_hex_dec_value(v: &str) -> (r: Result<u32, Error>)
    ensures
        result_view(r) == parse_u32(v@),
{
    from_hex_dec_value(v, Width::W32)
}

/// Reads a numeric literal into a `u16`.
pub fn u16_from_hex_dec_value(v: &str) -> (r: Result<u16, Error>)
    ensures
        result_view(r) == parse_u16(v@),
{
    match from_hex_dec_value(v, Width::W16) {
        Ok(n) => Ok(n as u16),
        Err(e) => Err(e),
    }
}

/// Reads a numeric literal into a `u8`.
pub fn u8_from_hex_dec_value(v: &str) -> (r: Result<u8, Error>)
    ensures
        result_view(r) == parse_u8(v@),
{
    match from_hex_dec_value(v, Width::W8) {
        Ok(n) => Ok(n as u8),
        Err(e) => Err(e),
    }
}

/// The lower-case form of an ASCII capital; any other character unchanged.
fn to_ascii_lower(c: char) -> (l: char)
    ensures
        l == ascii_lower(c),
{
    if 'A' <= c && c <= 'Z' {
        ((c as u8) + 32) as char
    } else {
        c
    }
}

/// Whether `v` spells the lower-case word `token`, in whatever case.
fn spells_token(v: &str, token: &str) -> (b: bool)
    ensures
        b == spells(v@, token@),
{
    let n: usize = token.unicode_len();
    if v.unicode_len() != n {
        return false;
    }
    let mut i: usize = 0;
    while i < n
        invariant
            i <= n,
            n == v@.len(),
            n == token@.len(),
            forall|j: int| 0 <= j < i ==> ascii_lower(#[trigger] v@[j]) == token@[j],
        decreases n - i,
    {
        if to_ascii_lower(v.get_char(i)) != token.get_char(i) {
            return false;
        }
        i += 1;
    }
    true
}

/// Reads a boolean literal: `1` and `true` are true, `0` and `false` are
/// false, the words in whatever case.
pub fn bool_from_str(v: &str) -> (r: Result<bool, Error>)
    ensures
        result_view(r) == parse_boolean(v@),
{
    proof {
        reveal_strlit("1");
        reveal_strlit("true");
        reveal_strlit("0");
        reveal_strlit("false");
        assert("1"@ =~= seq!['1']);
        assert("true"@ =~= seq!['t', 'r', 'u', 'e']);
        assert("0"@ =~= seq!['0']);
        assert("false"@ =~= seq!['f', 'a', 'l', 's', 'e']);
    }
    if spells_token(v, "1") || spells_token(v, "true") {
        Ok(true)
    } else if spells_token(v, "0") || spells_token(v, "false") {
        Ok(false)
    } else {
        Err(Error::InvalidBooleanLiteral(v.to_owned()))
    }
}

} // verus!
