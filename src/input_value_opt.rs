use vstd::prelude::*;

use crate::field_value::FieldValue;
use crate::input_value::FieldModel;
use crate::validators::{validate_text, validation_of, ValueValidationResult, ValueValidator};

verus! {

/// Whether a field may be saved: nothing to save while the text is the one it
/// started with; otherwise yes when the text is valid or has been cleared.
pub open spec fn save_verdict<T: FieldValue>(m: FieldModel<T>) -> Option<bool> {
    if m.init == m.text {
        None
    } else {
        Some(
            match validation_of(m.text, m.min, m.max) {
                Ok(_) => true,
                Err(ValueValidationResult::Empty) => true,
                Err(_) => false,
            },
        )
    }
}

/// There is nothing to save exactly when the text is the one the field
/// started with; clearing a field that had text can be saved; changing it to
/// non-empty text that fails validation cannot.
pub proof fn lemma_save_verdict<T: FieldValue>(m: FieldModel<T>)
    ensures
        save_verdict(m) is None <==> m.text == m.init,
        m.init.len() > 0 && m.text.len() == 0 ==> save_verdict(m) == Some(true),
        m.text != m.init && m.text.len() > 0 && validation_of(m.text, m.min, m.max) is Err
            ==> save_verdict(m) == Some(false),
{
    if m.init.len() > 0 && m.text.len() == 0 {
        assert(m.text != m.init);
    }
}

/// A field whose text denotes a value of `T` or, when empty, no value at all.
#[derive(Clone, Debug, PartialEq, Eq)]
pub struct InputValueOpt<T: FieldValue> {
    init_value: String,
    value: String,
    min_value: Option<T>,
    max_value: Option<T>,
}

impl<T: FieldValue> View for InputValueOpt<T> {
    type V = FieldModel<T>;

    closed spec fn view(&self) -> FieldModel<T> {
        FieldModel {
            init: self.init_value@,
            text: self.value@,
            min: self.min_value,
            max: self.max_value,
        }
    }
}

impl<T: FieldValue> InputValueOpt<T> {
    /// The value that the current text denotes.
    pub open spec fn value_spec(&self) -> Option<T> {
        T::parse_spec(self@.text)
    }

    /// A field that starts with the canonical text of `src`, or empty for `None`.
    pub fn new(src: Option<T>) -> (r: Self)
        ensures
            r@.text == (match src {
                Some(v) => T::format_spec(v),
                None => Seq::<char>::empty(),
            }),
            r@.init == r@.text,
            r@.min is None,
            r@.max is None,
            r.value_spec() == src,
    {
        let text = match src {
            Some(v) => {
                proof {
                    T::lemma_format_parse(v);
                }
                v.format_text()
            },
            None => {
                proof {
                    T::lemma_empty_unparsable();
                }
                String::new()
            },
        };
        InputValueOpt { init_value: text.clone(), value: text, min_value: None, max_value: None }
    }

    pub fn get_value(&self) -> (r: Option<T>)
        ensures
            r == self.value_spec(),
    {
        T::parse_text(self.value.as_str())
    }

    pub fn set_min_value_mut(&mut self, min_value: T)
        ensures
            final(self)@.min == Some(min_value),
            final(self)@.max == old(self)@.max,
            final(self)@.init == old(self)@.init,
            final(self)@.text == old(self)@.text,
    {
        self.min_value = Some(min_value);
    }

    pub fn set_max_value_mut(&mut self, max_value: T)
        ensures
            final(self)@.max == Some(max_value),
            final(self)@.min == old(self)@.min,
            final(self)@.init == old(self)@.init,
            final(self)@.text == old(self)@.text,
    {
        self.max_value = Some(max_value);
    }

    /// Replaces the current text as it is.
    pub fn set_value(&mut self, value: String)
        ensures
            final(self)@.text == value@,
            final(self)@.init == old(self)@.init,
            final(self)@.min == old(self)@.min,
            final(self)@.max == old(self)@.max,
    {
        self.value = value;
    }

    pub fn value_can_be_saved(&self) -> (r: Option<bool>)
        ensures
            r == save_verdict(self@),
    {
        if self.init_value == self.value {
            return None;
        }
        let ok = match self.validate() {
            Ok(_) => true,
            Err(ValueValidationResult::Empty) => true,
            Err(_) => false,
        };
        Some(ok)
    }

    pub fn validate(&self) -> (r: Result<(), ValueValidationResult>)
        ensures
            r == validation_of(self@.text, self@.min, self@.max),
    {
        validate_text(self.value.as_str(), &self.min_value, &self.max_value)
    }

    /// The current text.
    pub fn as_str(&self) -> (r: &str)
        ensures
            r@ == self@.text,
    {
        self.value.as_str()
    }
}

impl<T: FieldValue> ValueValidator for InputValueOpt<T> {
    open spec fn validation_spec(&self) -> Result<(), ValueValidationResult> {
        validation_of(self@.text, self@.min, self@.max)
    }

    fn validate_value(&self) -> (r: Result<(), ValueValidationResult>) {
        self.validate()
    }
}

} // verus!
