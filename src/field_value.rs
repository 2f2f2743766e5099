use vstd::prelude::*;

use crate::decimal::{decimal_in_range, decimal_text, lemma_decimal_round_trip};

verus! {

/// A value that a text field holds: it is written to text, read back from
/// text, and compared against bounds.
pub trait FieldValue: Sized + Copy {
    /// The value that `text` denotes, if `text` is a valid form of one.
    spec fn parse_spec(text: Seq<char>) -> Option<Self>;

    /// The canonical text of `v`.
    spec fn format_spec(v: Self) -> Seq<char>;

    /// Whether `a` comes before `b` in the value order.
    spec fn below(a: Self, b: Self) -> bool;

    fn parse_text(text: &str) -> (r: Option<Self>)
        ensures
            r == Self::parse_spec(text@),
    ;

    fn format_text(&self) -> (r: String)
        ensures
            r@ == Self::format_spec(*self),
    ;

    fn is_below(&self, other: &Self) -> (r: bool)
        ensures
            r == Self::below(*self, *other),
    ;

    /// The canonical text of a value reads back as that value.
    proof fn lemma_format_parse(v: Self)
        ensures
            Self::parse_spec(Self::format_spec(v)) == Some(v),
    ;

    /// Empty text denotes no value.
    proof fn lemma_empty_unparsable()
        ensures
            Self::parse_spec(Seq::empty()) is None,
    ;
}

/// Relies on `str::parse::<i32>`: an optional sign and decimal digits whose value fits.
#[verifier::external_body]
fn parse_i32(text: &str) -> (r: Option<i32>)
    ensures
        r == (match decimal_in_range(text@, i32::MIN as int, i32::MAX as int) {
            Some(n) => Some(n as i32),
            None => None,
        }),
{
    text.parse::<i32>().ok()
}

/// Relies on `i32::to_string`: the decimal form, with `-` for a negative value.
#[verifier::external_body]
fn format_i32(v: i32) -> (r: String)
    ensures
        r@ == decimal_text(v as int),
{
    v.to_string()
}

/// Relies on `str::parse::<i64>`: an optional sign and decimal digits whose value fits.
#[verifier::external_body]
fn parse_i64(text: &str) -> (r: Option<i64>)
    ensures
        r == (match decimal_in_range(text@, i64::MIN as int, i64::MAX as int) {
            Some(n) => Some(n as i64),
            None => None,
        }),
{
    text.parse::<i64>().ok()
}

/// Relies on `i64::to_string`: the decimal form, with `-` for a negative value.
#[verifier::external_body]
fn format_i64(v: i64) -> (r: String)
    ensures
        r@ == decimal_text(v as int),
{
    v.to_string()
}

/// Relies on `str::parse::<u32>`: an optional `+` and decimal digits whose value fits.
#[verifier::external_body]
fn parse_u32(text: &str) -> (r: Option<u32>)
    ensures
        r == (match decimal_in_range(text@, 0, u32::MAX as int) {
            Some(n) => Some(n as u32),
            None => None,
        }),
{
    text.parse::<u32>().ok()
}

/// Relies on `u32::to_string`: the decimal form.
#[verifier::external_body]
fn format_u32(v: u32) -> (r: String)
    ensures
        r@ == decimal_text(v as int),
{
    v.to_string()
}

/// Relies on `str::parse::<u64>`: an optional `+` and decimal digits whose value fits.
#[verifier::external_body]
fn parse_u64(text: &str) -> (r: Option<u64>)
    ensures
        r == (match decimal_in_range(text@, 0, u64::MAX as int) {
            Some(n) => Some(n as u64),
            None => None,
        }),
{
    text.parse::<u64>().ok()
}

/// Relies on `u64::to_string`: the decimal form.
#[verifier::external_body]
fn format_u64(v: u64) -> (r: String)
    ensures
        r@ == decimal_text(v as int),
{
    v.to_string()
}

impl FieldValue for i32 {
    open spec fn parse_spec(text: Seq<char>) -> Option<i32> {
        match decimal_in_range(text, i32::MIN as int, i32::MAX as int) {
            Some(n) => Some(n as i32),
            None => None,
        }
    }

    open spec fn format_spec(v: i32) -> Seq<char> {
        decimal_text(v as int)
    }

    open spec fn below(a: i32, b: i32) -> bool {
        a < b
    }

    fn parse_text(text: &str) -> (r: Option<i32>) {
        parse_i32(text)
    }

    fn format_text(&self) -> (r: String) {
        format_i32(*self)
    }

    fn is_below(&self, other: &i32) -> (r: bool) {
        *self < *other
    }

    proof fn lemma_format_parse(v: i32) {
        lemma_decimal_round_trip(v as int, i32::MIN as int, i32::MAX as int);
    }

    proof fn lemma_empty_unparsable() {
    }
}

impl FieldValue for i64 {
    open spec fn parse_spec(text: Seq<char>) -> Option<i64> {
        match decimal_in_range(text, i64::MIN as int, i64::MAX as int) {
            Some(n) => Some(n as i64),
            None => None,
        }
    }

    open spec fn format_spec(v: i64) -> Seq<char> {
        decimal_text(v as int)
    }

    open spec fn below(a: i64, b: i64) -> bool {
        a < b
    }

    fn parse_text(text: &str) -> (r: Option<i64>) {
        parse_i64(text)
    }

    fn format_text(&self) -> (r: String) {
        format_i64(*self)
    }

    fn is_below(&self, other: &i64) -> (r: bool) {
        *self < *other
    }

    proof fn lemma_format_parse(v: i64) {
        lemma_decimal_round_trip(v as int, i64::MIN as int, i64::MAX as int);
    }

    proof fn lemma_empty_unparsable() {
    }
}

impl FieldValue for u32 {
    open spec fn parse_spec(text: Seq<char>) -> Option<u32> {
        match decimal_in_range(text, 0, u32::MAX as int) {
            Some(n) => Some(n as u32),
            None => None,
        }
    }

    open spec fn format_spec(v: u32) -> Seq<char> {
        decimal_text(v as int)
    }

    open spec fn below(a: u32, b: u32) -> bool {
        a < b
    }

    fn parse_text(text: &str) -> (r: Option<u32>) {
        parse_u32(text)
    }

    fn format_text(&self) -> (r: String) {
        format_u32(*self)
    }

    fn is_below(&self, other: &u32) -> (r: bool) {
        *self < *other
    }

    proof fn lemma_format_parse(v: u32) {
        lemma_decimal_round_trip(v as int, 0, u32::MAX as int);
    }

    proof fn lemma_empty_unparsable() {
    }
}

impl FieldValue for u64 {
    open spec fn parse_spec(text: Seq<char>) -> Option<u64> {
        match decimal_in_range(text, 0, u64::MAX as int) {
            Some(n) => Some(n as u64),
            None => None,
        }
    }

    open spec fn format_spec(v: u64) -> Seq<char> {
        decimal_text(v as int)
    }

    open spec fn below(a: u64, b: u64) -> bool {
        a < b
    }

    fn parse_text(text: &str) -> (r: Option<u64>) {
        parse_u64(text)
    }

    fn format_text(&self) -> (r: String) {
        format_u64(*self)
    }

    fn is_below(&self, other: &u64) -> (r: bool) {
        *self < *other
    }

    proof fn lemma_format_parse(v: u64) {
        lemma_decimal_round_trip(v as int, 0, u64::MAX as int);
    }

    proof fn lemma_empty_unparsable() {
    }
}

} // verus!
