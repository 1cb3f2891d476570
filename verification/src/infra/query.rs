//! The query part of a resource's address: filters, ordering and the other
//! clauses that the store understands.
//!
//! Every value that a filter compares with goes through one function,
//! [`filter`], which percent-encodes it.

use vstd::prelude::*;
use vstd::utf8::encode_utf8;
use crate::text::decimal_text;
use crate::text::int_text;
use crate::text::is_digit;
use crate::text::lemma_decimal_text_is_digits;
use crate::text::integer_text;

verus! {

/// Whether the byte stands for itself in an encoded value: an ASCII letter
/// or digit, or one of `-`, `.`, `_`, `~`.
pub open spec fn is_unreserved(byte: u8) -> bool {
    ||| 0x30 <= byte <= 0x39
    ||| 0x41 <= byte <= 0x5a
    ||| 0x61 <= byte <= 0x7a
    ||| byte == 0x2d
    ||| byte == 0x2e
    ||| byte == 0x5f
    ||| byte == 0x7e
}

/// The upper-case hexadecimal digit of a value in 0..=15.
pub open spec fn hex_digit(nibble: u8) -> char {
    if nibble < 10 {
        ((0x30 + nibble) as u8) as char
    } else {
        ((0x41 + nibble - 10) as u8) as char
    }
}

/// One byte as an encoded value shows it: itself if unreserved, else a
/// percent sign and its two hexadecimal digits.
pub open spec fn escaped_byte(byte: u8) -> Seq<char> {
    if is_unreserved(byte) {
        seq![byte as char]
    } else {
        seq!['%', hex_digit(byte / 16), hex_digit(byte % 16)]
    }
}

/// The bytes, each as an encoded value shows it.
pub open spec fn escaped_bytes(bytes: Seq<u8>) -> Seq<char>
    decreases bytes.len(),
{
    if bytes.len() == 0 {
        seq![]
    } else {
        escaped_byte(bytes.first()) + escaped_bytes(bytes.drop_first())
    }
}

/// The text, percent-encoded byte by byte over its UTF-8 form.
pub open spec fn percent_encoded(text: Seq<char>) -> Seq<char> {
    escaped_bytes(encode_utf8(text))
}

/// `urlencoding::encode` percent-encodes every byte of the text's UTF-8 form
/// except ASCII letters and digits and `-`, `.`, `_`, `~`, with upper-case
/// hexadecimal digits.
#[verifier::external_body]
fn percent_encode(text: &str) -> (r: String)
    ensures
        r@ == percent_encoded(text@),
{
    urlencoding::encode(text).into_owned()
}

/// Whether the character stands for itself in an encoded value.
pub open spec fn is_unreserved_char(c: char) -> bool {
    (c as u32) < 128 && is_unreserved(c as u8)
}

/// Whether every character of the text stands for itself in an encoded value.
pub open spec fn all_unreserved(text: Seq<char>) -> bool {
    forall|i: int| 0 <= i < text.len() ==> is_unreserved_char(#[trigger] text[i])
}

/// Whether every character of the text is a percent sign or stands for itself.
pub open spec fn all_safe(text: Seq<char>) -> bool {
    forall|i: int| 0 <= i < text.len() ==> (#[trigger] text[i]) == '%' || is_unreserved_char(text[i])
}

proof fn lemma_escaped_byte_is_safe(byte: u8)
    ensures
        all_safe(escaped_byte(byte)),
{
    if !is_unreserved(byte) {
        let high = hex_digit(byte / 16);
        let low = hex_digit(byte % 16);
        assert(is_unreserved_char(high));
        assert(is_unreserved_char(low));
    }
}

proof fn lemma_escaped_bytes_are_safe(bytes: Seq<u8>)
    ensures
        all_safe(escaped_bytes(bytes)),
    decreases bytes.len(),
{
    if bytes.len() > 0 {
        lemma_escaped_byte_is_safe(bytes.first());
        lemma_escaped_bytes_are_safe(bytes.drop_first());
    }
}

/// An encoded value holds nothing but percent signs and characters that
/// stand for themselves. So no character of a value can end its clause,
/// start another one, or be read as anything but a part of the value.
pub proof fn lemma_encoded_value_is_safe(value: Seq<char>)
    ensures
        all_safe(percent_encoded(value)),
        !percent_encoded(value).contains('&'),
        !percent_encoded(value).contains('='),
        !percent_encoded(value).contains('?'),
        !percent_encoded(value).contains('#'),
        !percent_encoded(value).contains('/'),
        !percent_encoded(value).contains('+'),
        !percent_encoded(value).contains(' '),
{
    lemma_escaped_bytes_are_safe(encode_utf8(value));
}

proof fn lemma_unreserved_char_is_its_byte(c: char)
    requires
        is_unreserved_char(c),
    ensures
        '\0' <= c,
        c <= '\u{7f}',
        (c as u8) as char == c,
        escaped_byte(c as u8) == seq![c],
{
    vstd::utf8::char_u32_cast(c, c as u32);
    assert((c as u8) as u32 == c as u32);
    assert(((c as u8) as u32) as char == c);
}

proof fn lemma_unreserved_bytes_unchanged(bytes: Seq<u8>, text: Seq<char>)
    requires
        all_unreserved(text),
        bytes.len() == text.len(),
        forall|i: int| 0 <= i < text.len() ==> text[i] as u8 == bytes[i],
    ensures
        escaped_bytes(bytes) == text,
    decreases bytes.len(),
{
    if bytes.len() > 0 {
        assert(is_unreserved_char(text[0]));
        lemma_unreserved_char_is_its_byte(text[0]);
        assert(bytes.first() == text[0] as u8);
        lemma_unreserved_bytes_unchanged(bytes.drop_first(), text.drop_first());
        assert(text == seq![text[0]] + text.drop_first());
    }
}

/// A value made of unreserved characters only is its own encoding.
pub proof fn lemma_unreserved_value_unchanged(value: Seq<char>)
    requires
        all_unreserved(value),
    ensures
        percent_encoded(value) == value,
{
    assert(vstd::utf8::is_ascii_chars(value)) by {
        assert forall|i: int| 0 <= i < value.len() implies '\0' <= #[trigger] value[i]
            <= '\u{7f}' by {
            lemma_unreserved_char_is_its_byte(value[i]);
        }
    }
    vstd::utf8::is_ascii_chars_encode_utf8(value);
    lemma_unreserved_bytes_unchanged(encode_utf8(value), value);
}

/// A digit stands for itself in an encoded value, and so does a hyphen.
pub proof fn lemma_digits_are_unreserved(c: char)
    requires
        is_digit(c) || c == '-',
    ensures
        is_unreserved_char(c),
{
}

/// The decimal text of an integer is its own encoding: a key in a filter
/// reads as the number itself.
pub proof fn lemma_integer_unchanged(value: int)
    ensures
        percent_encoded(int_text(value)) == int_text(value),
{
    let text = int_text(value);
    assert(all_unreserved(text)) by {
        if value < 0 {
            lemma_decimal_text_is_digits((-value) as nat);
            let digits = decimal_text((-value) as nat);
            assert forall|i: int| 0 <= i < text.len() implies is_unreserved_char(
                #[trigger] text[i],
            ) by {
                if i > 0 {
                    assert(text[i] == digits[i - 1]);
                    lemma_digits_are_unreserved(digits[i - 1]);
                }
            }
        } else {
            lemma_decimal_text_is_digits(value as nat);
            assert forall|i: int| 0 <= i < text.len() implies is_unreserved_char(
                #[trigger] text[i],
            ) by {
                lemma_digits_are_unreserved(text[i]);
            }
        }
    }
    lemma_unreserved_value_unchanged(text);
}

/// How a filter compares a column with a value.
#[derive(Debug, Clone, Copy, PartialEq, Eq)]
pub enum Comparison {
    /// The column equals the value.
    Eq,
    /// The column is greater than or equal to the value.
    Gte,
    /// The column is less than or equal to the value.
    Lte,
}

/// The store's word for a comparison.
pub open spec fn comparison_text(comparison: Comparison) -> Seq<char> {
    match comparison {
        Comparison::Eq => "eq"@,
        Comparison::Gte => "gte"@,
        Comparison::Lte => "lte"@,
    }
}

/// The clause that keeps the rows whose column compares so with the value.
pub open spec fn filter_text(column: Seq<char>, comparison: Comparison, value: Seq<char>) -> Seq<char> {
    column + "="@ + comparison_text(comparison) + "."@ + percent_encoded(value)
}

/// The clause that keeps the rows whose column compares so with the value.
/// The value is percent-encoded, so that no character of it can end the
/// clause or start another one.
pub fn filter(column: &str, comparison: Comparison, value: &str) -> (r: String)
    ensures
        r@ == filter_text(column@, comparison, value@),
{
    let mut clause = String::from_str(column);
    clause.append("=");
    match comparison {
        Comparison::Eq => clause.append("eq"),
        Comparison::Gte => clause.append("gte"),
        Comparison::Lte => clause.append("lte"),
    }
    clause.append(".");
    let encoded = percent_encode(value);
    clause.append(encoded.as_str());
    clause
}

/// The clause that keeps the rows whose column equals the number.
pub fn filter_integer(column: &str, value: i64) -> (r: String)
    ensures
        r@ == filter_text(column@, Comparison::Eq, int_text(value as int)),
{
    let number = integer_text(value);
    filter(column, Comparison::Eq, number.as_str())
}

/// The clause that names the columns to return.
pub open spec fn select_text(columns: Seq<char>) -> Seq<char> {
    "select="@ + columns
}

/// The clause that names the columns to return; `*` stands for all of them.
pub fn select(columns: &str) -> (r: String)
    ensures
        r@ == select_text(columns@),
{
    let mut clause = String::from_str("select=");
    clause.append(columns);
    clause
}

/// The clause that orders the rows by a column, smallest first.
pub open spec fn order_ascending_text(column: Seq<char>) -> Seq<char> {
    "order="@ + column + ".asc"@
}

/// The clause that orders the rows by a column, smallest first.
pub fn order_ascending(column: &str) -> (r: String)
    ensures
        r@ == order_ascending_text(column@),
{
    let mut clause = String::from_str("order=");
    clause.append(column);
    clause.append(".asc");
    clause
}

/// The clause that bounds the number of rows.
pub open spec fn limit_text(rows: u32) -> Seq<char> {
    "limit="@ + int_text(rows as int)
}

/// The clause that bounds the number of rows.
pub fn limit(rows: u32) -> (r: String)
    ensures
        r@ == limit_text(rows),
{
    let mut clause = String::from_str("limit=");
    let number = integer_text(rows as i64);
    clause.append(number.as_str());
    clause
}

/// The clause that names the columns whose uniqueness decides a conflict.
pub open spec fn on_conflict_text(columns: Seq<char>) -> Seq<char> {
    "on_conflict="@ + columns
}

/// The clause that names the columns whose uniqueness decides a conflict.
pub fn on_conflict(columns: &str) -> (r: String)
    ensures
        r@ == on_conflict_text(columns@),
{
    let mut clause = String::from_str("on_conflict=");
    clause.append(columns);
    clause
}

/// The clauses with an ampersand between each two of them.
pub open spec fn joined(clauses: Seq<Seq<char>>) -> Seq<char>
    decreases clauses.len(),
{
    if clauses.len() == 0 {
        seq![]
    } else if clauses.len() == 1 {
        clauses[0]
    } else {
        joined(clauses.drop_last()) + "&"@ + clauses.last()
    }
}

/// A resource with its clauses: the resource alone if there is none, else
/// the resource, a question mark and the clauses joined.
pub open spec fn resource_path_text(resource: Seq<char>, clauses: Seq<Seq<char>>) -> Seq<char> {
    if clauses.len() == 0 {
        resource
    } else {
        resource + "?"@ + joined(clauses)
    }
}

/// The texts of the clauses.
pub open spec fn clause_texts(clauses: Seq<String>) -> Seq<Seq<char>> {
    clauses.map_values(|clause: String| clause@)
}

/// The path of a resource with the given clauses as its query.
pub fn resource_path(resource: &str, clauses: &Vec<String>) -> (r: String)
    ensures
        r@ == resource_path_text(resource@, clause_texts(clauses@)),
{
    let mut path = String::from_str(resource);
    let mut i: usize = 0;
    while i < clauses.len()
        invariant
            i <= clauses.len(),
            path@ == resource_path_text(resource@, clause_texts(clauses@.take(i as int))),
        decreases clauses.len() - i,
    {
        let ghost done = clause_texts(clauses@.take(i as int));
        let ghost next = clause_texts(clauses@.take(i + 1));
        assert(next.drop_last() == done);
        assert(next.last() == clauses@[i as int]@);
        if i == 0 {
            path.append("?");
        } else {
            path.append("&");
        }
        path.append(clauses[i].as_str());
        i += 1;
    }
    assert(clauses@.take(i as int) == clauses@);
    path
}

} // verus!
