//! The text of literal values: quoted strings and byte strings with their
//! escapes, integers in decimal, and tuples of constants.

use crate::ast::{Constant, Integer};
use crate::error::{first_error, UnparseError};
use crate::text::{join, optional};
use vstd::prelude::*;
use vstd::std_specs::iter::IteratorSpec;
use vstd::string::*;
use vstd::utf8::valid_utf8;

verus! {

/// The character of a digit below sixteen: `0` to `9`, then `a` to `f`.
pub open spec fn digit_char(d: int) -> char {
    if d < 10 {
        (d + 48) as char
    } else {
        (d + 87) as char
    }
}

/// A natural number in decimal, without leading zeros.
pub open spec fn nat_decimal(n: nat) -> Seq<char>
    decreases n,
{
    if n < 10 {
        seq![digit_char(n as int)]
    } else {
        nat_decimal(n / 10).push(digit_char((n % 10) as int))
    }
}

/// An integer in decimal: a minus sign before the magnitude of a negative
/// one.
pub open spec fn int_decimal(v: int) -> Seq<char> {
    if v < 0 {
        seq!['-'] + nat_decimal((-v) as nat)
    } else {
        nat_decimal(v as nat)
    }
}

/// The number that limbs in base 2^32 stand for, least significant first.
pub open spec fn limbs_value(limbs: Seq<u32>) -> nat
    decreases limbs.len(),
{
    if limbs.len() == 0 {
        0
    } else {
        limbs[0] as nat + 0x1_0000_0000 * limbs_value(limbs.drop_first())
    }
}

impl Integer {
    /// The integer that the sign and the limbs stand for.
    pub open spec fn value(&self) -> int {
        if self.negative {
            -(limbs_value(self.magnitude@) as int)
        } else {
            limbs_value(self.magnitude@) as int
        }
    }
}

/// The escape `\xNN` of a byte.
pub open spec fn hex_escape(b: u8) -> Seq<char> {
    seq!['\\', 'x', digit_char((b / 16) as int), digit_char((b % 16) as int)]
}

/// How one byte stands in a literal quoted with `quote`: the backslash and
/// the quote behind a backslash, line feed, carriage return and tab by
/// their letters, every other byte outside the printable ASCII range by
/// its hexadecimal escape, and a printable one as it is.
pub open spec fn escape_byte(b: u8, quote: char) -> Seq<char> {
    let c = b as char;
    if c == '\\' {
        seq!['\\', '\\']
    } else if c == quote {
        seq!['\\', quote]
    } else if c == '\n' {
        seq!['\\', 'n']
    } else if c == '\r' {
        seq!['\\', 'r']
    } else if c == '\t' {
        seq!['\\', 't']
    } else if b < 32 || b >= 127 {
        hex_escape(b)
    } else {
        seq![c]
    }
}

/// How one character stands in a string literal quoted with `quote`: an
/// ASCII character as its byte does, any other as it is.
pub open spec fn escape_char(c: char, quote: char) -> Seq<char> {
    if (c as u32) < 128 {
        escape_byte(c as u8, quote)
    } else {
        seq![c]
    }
}

/// The escaped forms of the first `n` characters, one after the other.
pub open spec fn escaped_chars_upto(s: Seq<char>, quote: char, n: nat) -> Seq<char>
    decreases n,
{
    if n == 0 || n > s.len() {
        Seq::empty()
    } else {
        escaped_chars_upto(s, quote, (n - 1) as nat) + escape_char(s[n - 1], quote)
    }
}

/// The escaped forms of the first `n` bytes, one after the other.
pub open spec fn escaped_bytes_upto(s: Seq<u8>, quote: char, n: nat) -> Seq<char>
    decreases n,
{
    if n == 0 || n > s.len() {
        Seq::empty()
    } else {
        escaped_bytes_upto(s, quote, (n - 1) as nat) + escape_byte(s[n - 1], quote)
    }
}

/// The quote for a literal: the single quote, unless the content holds a
/// single quote and no double quote.
pub open spec fn quote_choice(has_single: bool, has_double: bool) -> char {
    if has_single && !has_double {
        '"'
    } else {
        '\''
    }
}

/// A string as a quoted literal.
pub open spec fn str_literal(s: Seq<char>) -> Seq<char> {
    let quote = quote_choice(s.contains('\''), s.contains('"'));
    seq![quote] + escaped_chars_upto(s, quote, s.len()) + seq![quote]
}

/// A byte string as a quoted literal with the prefix `b`.
pub open spec fn bytes_literal(s: Seq<u8>) -> Seq<char> {
    let quote = quote_choice(s.contains(39u8), s.contains(34u8));
    seq!['b', quote] + escaped_bytes_upto(s, quote, s.len()) + seq![quote]
}

/// The texts of a list of constants.
pub open spec fn constants_texts(items: Seq<Constant>) -> Seq<Seq<char>>
    decreases items, 1nat,
{
    Seq::new(
        items.len(),
        |i: int|
            if 0 <= i < items.len() {
                constant_text(items[i])
            } else {
                Seq::empty()
            },
    )
}

/// The text of a constant.
///
/// `None`, `True`, `False` and `...` by their words; a string and a byte
/// string as quoted literals; an integer in decimal; a floating-point
/// number by its given text; an imaginary number by its text and `j`, with
/// a real part as a parenthesised sum; a tuple in parentheses, its items
/// separated by commas, with a comma after a single item.
pub open spec fn constant_text(c: Constant) -> Seq<char>
    decreases c, 0nat,
{
    match c {
        Constant::NoneValue => "None"@,
        Constant::Bool(b) => if b {
            "True"@
        } else {
            "False"@
        },
        Constant::Str(s) => str_literal(s@),
        Constant::Bytes(b) => bytes_literal(b@),
        Constant::Int(i) => int_decimal(i.value()),
        Constant::Tuple(items) => "("@ + join(constants_texts(items@), ", "@) + optional(
            items@.len() == 1,
            ","@,
        ) + ")"@,
        Constant::Float(t) => t@,
        Constant::Complex { re, im } => match re {
            Some(r) => "("@ + r@ + "+"@ + im@ + "j)"@,
            None => im@ + "j"@,
        },
        Constant::Ellipsis => "..."@,
    }
}

/// The failures of a list of constants.
pub open spec fn constants_errors(items: Seq<Constant>) -> Seq<Option<UnparseError>>
    decreases items, 1nat,
{
    Seq::new(
        items.len(),
        |i: int|
            if 0 <= i < items.len() {
                constant_error(items[i])
            } else {
                None
            },
    )
}

/// Why a constant cannot be rendered, if it cannot: it is, or the first
/// failing item of a tuple is, a byte string that is not valid UTF-8.
pub open spec fn constant_error(c: Constant) -> Option<UnparseError>
    decreases c, 0nat,
{
    match c {
        Constant::Bytes(b) => if valid_utf8(b@) {
            None
        } else {
            Some(UnparseError::EncodingError)
        },
        Constant::Tuple(items) => first_error(constants_errors(items@)),
        _ => None,
    }
}

/// Appends one character. Wraps `String::push`, of which the contract
/// claims that the text afterwards is the text before with `c` at its end.
#[verifier::external_body]
pub(crate) fn push_char(out: &mut String, c: char)
    ensures
        final(out)@ == old(out)@.push(c),
{
    out.push(c)
}

/// Tells whether bytes are well-formed UTF-8. Wraps `core::str::from_utf8`,
/// of which the contract claims that it succeeds exactly on well-formed
/// UTF-8.
#[verifier::external_body]
pub(crate) fn is_utf8(bytes: &Vec<u8>) -> (ok: bool)
    ensures
        ok == valid_utf8(bytes@),
{
    match core::str::from_utf8(bytes.as_slice()) {
        Ok(_) => true,
        Err(_) => false,
    }
}

/// The decimal text of a magnitude. Wraps `BigUint::from_slice`, which
/// reads the limbs as a number in base 2^32 with the least significant limb
/// first, and the `to_string` of that number, of which the contract claims
/// that it is the number in decimal without leading zeros, `0` for zero.
#[verifier::external_body]
pub(crate) fn magnitude_decimal(limbs: &Vec<u32>) -> (text: String)
    ensures
        text@ == nat_decimal(limbs_value(limbs@)),
{
    rustpython_ast::bigint::BigUint::from_slice(limbs.as_slice()).to_string()
}

/// Limbs stand for zero exactly when each of them is zero.
pub proof fn lemma_limbs_zero(limbs: Seq<u32>)
    ensures
        limbs_value(limbs) == 0 <==> forall|i: int| 0 <= i < limbs.len() ==> limbs[i] == 0,
    decreases limbs.len(),
{
    if limbs.len() > 0 {
        let rest = limbs.drop_first();
        lemma_limbs_zero(rest);
        if limbs_value(limbs) == 0 {
            assert(limbs[0] == 0 && limbs_value(rest) == 0) by (nonlinear_arith)
                requires
                    limbs[0] as nat + 0x1_0000_0000 * limbs_value(rest) == 0,
            ;
            assert forall|i: int| 0 <= i < limbs.len() implies limbs[i] == 0 by {
                if i > 0 {
                    assert(rest[i - 1] == limbs[i]);
                }
            }
        }
        if forall|i: int| 0 <= i < limbs.len() ==> limbs[i] == 0 {
            assert forall|i: int| 0 <= i < rest.len() implies rest[i] == 0 by {
                assert(rest[i] == limbs[i + 1]);
            }
        }
    }
}

impl Integer {
    /// Whether the integer is zero.
    pub fn is_zero(&self) -> (zero: bool)
        ensures
            zero == (self.value() == 0),
    {
        let mut i: usize = 0;
        while i < self.magnitude.len()
            invariant
                i <= self.magnitude.len(),
                forall|j: int| 0 <= j < i ==> self.magnitude@[j] == 0,
            decreases self.magnitude.len() - i,
        {
            if self.magnitude[i] != 0 {
                proof {
                    lemma_limbs_zero(self.magnitude@);
                }
                return false;
            }
            i += 1;
        }
        proof {
            lemma_limbs_zero(self.magnitude@);
        }
        true
    }

    /// The integer in decimal.
    pub fn to_decimal(&self) -> (text: String)
        ensures
            text@ == int_decimal(self.value()),
    {
        let digits = magnitude_decimal(&self.magnitude);
        if self.negative && !self.is_zero() {
            let mut text = String::new();
            push_char(&mut text, '-');
            text.append(digits.as_str());
            assert(text@ =~= int_decimal(self.value()));
            text
        } else {
            digits
        }
    }
}

/// The digit character of a value below sixteen.
fn hex_digit(d: u8) -> (c: char)
    requires
        d < 16,
    ensures
        c == digit_char(d as int),
{
    if d < 10 {
        (d + 48) as char
    } else {
        (d + 87) as char
    }
}

/// Appends the escaped form of one byte.
fn push_escaped_byte(out: &mut String, b: u8, quote: char)
    ensures
        final(out)@ == old(out)@ + escape_byte(b, quote),
{
    let c = b as char;
    if c == '\\' {
        push_char(out, '\\');
        push_char(out, '\\');
    } else if c == quote {
        push_char(out, '\\');
        push_char(out, quote);
    } else if c == '\n' {
        push_char(out, '\\');
        push_char(out, 'n');
    } else if c == '\r' {
        push_char(out, '\\');
        push_char(out, 'r');
    } else if c == '\t' {
        push_char(out, '\\');
        push_char(out, 't');
    } else if b < 32 || b >= 127 {
        push_char(out, '\\');
        push_char(out, 'x');
        push_char(out, hex_digit(b / 16));
        push_char(out, hex_digit(b % 16));
    } else {
        push_char(out, c);
    }
    assert(out@ =~= old(out)@ + escape_byte(b, quote));
}

/// Appends the escaped form of one character.
fn push_escaped_char(out: &mut String, c: char, quote: char)
    ensures
        final(out)@ == old(out)@ + escape_char(c, quote),
{
    let code = c as u32;
    if code < 128 {
        push_escaped_byte(out, code as u8, quote);
    } else {
        push_char(out, c);
        assert(out@ =~= old(out)@ + escape_char(c, quote));
    }
}

/// Whether `c` occurs in `s`.
fn has_char(s: &str, c: char) -> (found: bool)
    ensures
        found == s@.contains(c),
{
    let mut found = false;
    for x in it: s.chars()
        invariant
            it.seq() == s@,
            found == (exists|j: int| 0 <= j < it.index() && s@[j] == c),
    {
        if x == c {
            found = true;
        }
    }
    found
}

/// Whether `b` occurs in `s`.
fn has_byte(s: &Vec<u8>, b: u8) -> (found: bool)
    ensures
        found == s@.contains(b),
{
    let mut found = false;
    let mut i: usize = 0;
    while i < s.len()
        invariant
            i <= s.len(),
            found == (exists|j: int| 0 <= j < i && s@[j] == b),
        decreases s.len() - i,
    {
        if s[i] == b {
            found = true;
        }
        i += 1;
    }
    found
}

/// The quote for a literal whose content holds a single or a double quote
/// as told.
fn choose_quote(has_single: bool, has_double: bool) -> (quote: char)
    ensures
        quote == quote_choice(has_single, has_double),
{
    if has_single && !has_double {
        '"'
    } else {
        '\''
    }
}

/// Writes a string as a quoted literal.
pub fn quote_str(s: &str) -> (text: String)
    ensures
        text@ == str_literal(s@),
{
    let quote = choose_quote(has_char(s, '\''), has_char(s, '"'));
    let mut text = String::new();
    push_char(&mut text, quote);
    for c in it: s.chars()
        invariant
            it.seq() == s@,
            text@ == seq![quote] + escaped_chars_upto(s@, quote, it.index() as nat),
    {
        push_escaped_char(&mut text, c, quote);
        assert(text@ =~= seq![quote] + escaped_chars_upto(s@, quote, (it.index() + 1) as nat));
    }
    push_char(&mut text, quote);
    assert(text@ =~= str_literal(s@));
    text
}

/// Writes a byte string as a quoted literal with the prefix `b`.
pub fn quote_bytes(s: &Vec<u8>) -> (text: String)
    ensures
        text@ == bytes_literal(s@),
{
    let quote = choose_quote(has_byte(s, 39u8), has_byte(s, 34u8));
    let mut text = String::new();
    push_char(&mut text, 'b');
    push_char(&mut text, quote);
    let mut i: usize = 0;
    while i < s.len()
        invariant
            i <= s.len(),
            text@ == seq!['b', quote] + escaped_bytes_upto(s@, quote, i as nat),
        decreases s.len() - i,
    {
        push_escaped_byte(&mut text, s[i], quote);
        i += 1;
        assert(text@ =~= seq!['b', quote] + escaped_bytes_upto(s@, quote, i as nat));
    }
    push_char(&mut text, quote);
    assert(text@ =~= bytes_literal(s@));
    text
}

} // verus!
