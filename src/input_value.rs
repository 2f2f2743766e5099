use vstd::prelude::*;

use crate::field_value::FieldValue;
use crate::validators::{validate_text, validation_of, ValueValidationResult, ValueValidator};

verus! {

/// What a text field state holds: the text it started with, the current
/// text, and the optional bounds.
pub struct FieldModel<T> {
    pub init: Seq<char>,
    pub text: Seq<char>,
    pub min: Option<T>,
    pub max: Option<T>,
}

/// The text that a field made from the text `src` starts with: `src` itself
/// when it denotes a value, else nothing.
pub open spec fn start_text<T: FieldValue>(src: Seq<char>) -> Seq<char> {
    if T::parse_spec(src) is Some {
        src
    } else {
        Seq::empty()
    }
}

/// A field made from a value holds its canonical text, which reads back as
/// that same value.
pub proof fn lemma_value_round_trip<T: FieldValue>(v: T)
    ensures
        T::parse_spec(T::format_spec(v)) == Some(v),
{
    T::lemma_format_parse(v);
}

/// A field made from non-empty text that denotes no value starts empty, and
/// so holds no value.
pub proof fn lemma_unparsable_start<T: FieldValue>(src: Seq<char>)
    requires
        src.len() > 0,
        T::parse_spec(src) is None,
    ensures
        start_text::<T>(src) == Seq::<char>::empty(),
        T::parse_spec(start_text::<T>(src)) is None,
{
    T::lemma_empty_unparsable();
}

/// A field whose text must denote a value of `T`, kept as the text the user
/// typed and parsed whenever the value is asked for.
#[derive(Clone, Debug, PartialEq, Eq)]
pub struct InputValue<T: FieldValue> {
    init_value: String,
    value: String,
    min_value: Option<T>,
    max_value: Option<T>,
}

impl<T: FieldValue> View for InputValue<T> {
    type V = FieldModel<T>;

    closed spec fn view(&self) -> FieldModel<T> {
        FieldModel {
            init: self.init_value@,
            text: self.value@,
            min: self.min_value,
            max: self.max_value,
        }
    }
}

impl<T: FieldValue> InputValue<T> {
    /// The value that the current text denotes.
    pub open spec fn value_spec(&self) -> Option<T> {
        T::parse_spec(self@.text)
    }

    /// A field that starts with the canonical text of `src`.
    pub fn new(src: T) -> (r: Self)
        ensures
            r@.init == T::format_spec(src),
            r@.text == T::format_spec(src),
            r@.min is None,
            r@.max is None,
            r.value_spec() == Some(src),
    {
        let text = src.format_text();
        proof {
            T::lemma_format_parse(src);
        }
        InputValue { init_value: text.clone(), value: text, min_value: None, max_value: None }
    }

    /// A field that starts with `src` if it denotes a value, else with empty text.
    pub fn from_str(src: &str) -> (r: Self)
        ensures
            r@.text == start_text::<T>(src@),
            r@.init == r@.text,
            r@.min is None,
            r@.max is None,
    {
        let text = match T::parse_text(src) {
            Some(_) => src.to_string(),
            None => String::new(),
        };
        InputValue { init_value: text.clone(), value: text, min_value: None, max_value: None }
    }

    pub fn get_value(&self) -> (r: Option<T>)
        ensures
            r == self.value_spec(),
    {
        T::parse_text(self.value.as_str())
    }

    pub fn set_min_value_mut(&mut self, min_value: T)
        ensures
            final(self)@.min == Some(min_value),
            final(self)@.max == old(self)@.max,
            final(self)@.init == old(self)@.init,
            final(self)@.text == old(self)@.text,
    {
        self.min_value = Some(min_value);
    }

    pub fn set_max_value_mut(&mut self, max_value: T)
        ensures
            final(self)@.max == Some(max_value),
            final(self)@.min == old(self)@.min,
            final(self)@.init == old(self)@.init,
            final(self)@.text == old(self)@.text,
    {
        self.max_value = Some(max_value);
    }

    /// Replaces the current text as it is; checking waits for `validate`.
    pub fn set_string_value(&mut self, value: String)
        ensures
            final(self)@.text == value@,
            final(self)@.init == old(self)@.init,
            final(self)@.min == old(self)@.min,
            final(self)@.max == old(self)@.max,
    {
        self.value = value;
    }

    pub fn validate(&self) -> (r: Result<(), ValueValidationResult>)
        ensures
            r == validation_of(self@.text, self@.min, self@.max),
    {
        validate_text(self.value.as_str(), &self.min_value, &self.max_value)
    }

    /// The current text.
    pub fn as_str(&self) -> (r: &str)
        ensures
            r@ == self@.text,
    {
        self.value.as_str()
    }
}

impl<T: FieldValue> ValueValidator for InputValue<T> {
    open spec fn validation_spec(&self) -> Result<(), ValueValidationResult> {
        validation_of(self@.text, self@.min, self@.max)
    }

    fn validate_value(&self) -> (r: Result<(), ValueValidationResult>) {
        self.validate()
    }
}

} // verus!
