use vstd::prelude::*;

use crate::field_value::FieldValue;

verus! {

/// Why a field's text does not hold an acceptable value.
#[derive(Clone, Copy, Debug, PartialEq, Eq, Structural)]
pub enum ValueValidationResult {
    Empty,
    IllegalChars,
    MinValueViolation,
    MaxValueViolation,
}

/// A field state that can say whether its current text is acceptable.
pub trait ValueValidator {
    /// The verdict on the current state.
    spec fn validation_spec(&self) -> Result<(), ValueValidationResult>;

    fn validate_value(&self) -> (r: Result<(), ValueValidationResult>)
        ensures
            r == self.validation_spec(),
    ;
}

/// The verdict on `text` under the optional bounds `min` and `max`: emptiness
/// first, then whether it parses, then the lower bound, then the upper one.
pub open spec fn validation_of<T: FieldValue>(
    text: Seq<char>,
    min: Option<T>,
    max: Option<T>,
) -> Result<(), ValueValidationResult> {
    if text.len() == 0 {
        Err(ValueValidationResult::Empty)
    } else {
        match T::parse_spec(text) {
            None => Err(ValueValidationResult::IllegalChars),
            Some(v) => if min is Some && T::below(v, min.unwrap()) {
                Err(ValueValidationResult::MinValueViolation)
            } else if max is Some && T::below(max.unwrap(), v) {
                Err(ValueValidationResult::MaxValueViolation)
            } else {
                Ok(())
            },
        }
    }
}

/// Text that denotes a value between the bounds passes; below the lower bound
/// it fails on the lower bound; otherwise above the upper bound it fails on
/// the upper bound.
pub proof fn lemma_bounds<T: FieldValue>(text: Seq<char>, v: T, min: T, max: T)
    requires
        T::parse_spec(text) == Some(v),
    ensures
        !T::below(v, min) && !T::below(max, v) ==> validation_of(text, Some(min), Some(max))
            == Ok::<(), ValueValidationResult>(()),
        T::below(v, min) ==> validation_of(text, Some(min), Some(max)) == Err::<
            (),
            ValueValidationResult,
        >(ValueValidationResult::MinValueViolation),
        !T::below(v, min) && T::below(max, v) ==> validation_of(text, Some(min), Some(max))
            == Err::<(), ValueValidationResult>(ValueValidationResult::MaxValueViolation),
{
    T::lemma_empty_unparsable();
    if text.len() == 0 {
        assert(text =~= Seq::<char>::empty());
    }
}

/// Emptiness is reported before anything else, and text that denotes no value
/// before any bound.
pub proof fn lemma_check_order<T: FieldValue>(text: Seq<char>, min: Option<T>, max: Option<T>)
    ensures
        text.len() == 0 ==> validation_of(text, min, max) == Err::<(), ValueValidationResult>(
            ValueValidationResult::Empty,
        ),
        text.len() > 0 && T::parse_spec(text) is None ==> validation_of(text, min, max) == Err::<
            (),
            ValueValidationResult,
        >(ValueValidationResult::IllegalChars),
{
}

/// Checks `text` against the bounds, in the order that `validation_of` gives.
pub fn validate_text<T: FieldValue>(text: &str, min: &Option<T>, max: &Option<T>) -> (r: Result<
    (),
    ValueValidationResult,
>)
    ensures
        r == validation_of(text@, *min, *max),
{
    if text.is_empty() {
        return Err(ValueValidationResult::Empty);
    }
    let v = match T::parse_text(text) {
        Some(v) => v,
        None => {
            return Err(ValueValidationResult::IllegalChars);
        },
    };
    if let Some(lo) = min {
        if v.is_below(lo) {
            return Err(ValueValidationResult::MinValueViolation);
        }
    }
    if let Some(hi) = max {
        if hi.is_below(&v) {
            return Err(ValueValidationResult::MaxValueViolation);
        }
    }
    Ok(())
}

/// The message shown under a field for a failed validation; emptiness has none.
pub fn validation_message(reason: ValueValidationResult) -> (r: &'static str)
    ensures
        reason == ValueValidationResult::Empty ==> r@ == Seq::<char>::empty(),
        reason == ValueValidationResult::IllegalChars ==> r@ == "invalid value"@,
        reason == ValueValidationResult::MinValueViolation ==> r@ == "min value violation"@,
        reason == ValueValidationResult::MaxValueViolation ==> r@ == "max value violation"@,
{
    match reason {
        ValueValidationResult::Empty => {
            proof {
                reveal_strlit("");
            }
            ""
        },
        ValueValidationResult::IllegalChars => "invalid value",
        ValueValidationResult::MinValueViolation => "min value violation",
        ValueValidationResult::MaxValueViolation => "max value violation",
    }
}

/// Whether a failed validation marks the field as wrong: every reason but emptiness.
pub fn is_highlighted(reason: ValueValidationResult) -> (r: bool)
    ensures
        r == (reason != ValueValidationResult::Empty),
{
    match reason {
        ValueValidationResult::Empty => false,
        _ => true,
    }
}

} // verus!
