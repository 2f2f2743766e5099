use vstd::prelude::*;

use crate::enum_iterator::EnumIterator;

verus! {

/// The option text that a selection control shows for "nothing selected".
pub const NULL_VALUE: &'static str = "---NULL---";

/// Whether the text a selection control reported is the "nothing selected" marker.
pub fn is_null_choice(text: &str) -> (r: bool)
    ensures
        r == (text@ == NULL_VALUE@),
{
    crate::text::same_text(text, NULL_VALUE)
}

/// Whether a selection state is acceptable: always when an empty pick is
/// allowed, otherwise only when something is picked.
pub open spec fn selection_ok<TItem>(allow_null_result: bool, selected: Option<TItem>) -> bool {
    allow_null_result || selected is Some
}

/// With no pick, a selection is acceptable only when the policy allows it;
/// when the policy allows it, every selection is acceptable.
pub proof fn lemma_null_policy<TItem>(allow_null_result: bool, selected: Option<TItem>)
    ensures
        !allow_null_result && selected is None ==> !selection_ok(allow_null_result, selected),
        allow_null_result ==> selection_ok(allow_null_result, selected),
{
}

/// An optional pick among a list of options, with a policy on whether no pick
/// is acceptable.
#[derive(Debug, Clone)]
pub struct SelectEnumValue<TItem> {
    selected: Option<TItem>,
    all_options: Vec<TItem>,
    allow_null_result: bool,
}

impl<TItem> SelectEnumValue<TItem> {
    pub closed spec fn selected_spec(&self) -> Option<TItem> {
        self.selected
    }

    pub closed spec fn options_spec(&self) -> Seq<TItem> {
        self.all_options@
    }

    pub closed spec fn allows_null(&self) -> bool {
        self.allow_null_result
    }

    /// A selection over the options of `TEnumIterator`, holding `item`; no pick
    /// is acceptable until `allow_null_result` says otherwise.
    pub fn new<TEnumIterator: EnumIterator<TItem = TItem>>(item: Option<TItem>) -> (r: Self)
        ensures
            r.selected_spec() == item,
            r.options_spec() == TEnumIterator::all_spec(),
            r.allows_null(),
    {
        let items = TEnumIterator::get_all();
        SelectEnumValue { selected: item, all_options: items, allow_null_result: true }
    }

    /// A selection over an explicit list of options, such as a part of a domain.
    pub fn with_options(item: Option<TItem>, options: Vec<TItem>) -> (r: Self)
        ensures
            r.selected_spec() == item,
            r.options_spec() == options@,
            r.allows_null(),
    {
        SelectEnumValue { selected: item, all_options: options, allow_null_result: true }
    }

    pub fn allow_null_result(self, value: bool) -> (r: Self)
        ensures
            r.allows_null() == value,
            r.selected_spec() == self.selected_spec(),
            r.options_spec() == self.options_spec(),
    {
        let mut s = self;
        s.allow_null_result = value;
        s
    }

    pub fn validation_ok(&self) -> (r: bool)
        ensures
            r == selection_ok(self.allows_null(), self.selected_spec()),
    {
        if self.allow_null_result {
            return true;
        }
        self.selected.is_some()
    }

    pub fn get_all(&self) -> (r: &[TItem])
        ensures
            r@ == self.options_spec(),
    {
        self.all_options.as_slice()
    }

    pub fn get_value(&self) -> (r: Option<&TItem>)
        ensures
            r is Some <==> self.selected_spec() is Some,
            r is Some ==> *r->0 == self.selected_spec()->0,
    {
        self.selected.as_ref()
    }

    pub fn set_value(&mut self, value: Option<TItem>)
        ensures
            final(self).selected_spec() == value,
            final(self).options_spec() == old(self).options_spec(),
            final(self).allows_null() == old(self).allows_null(),
    {
        self.selected = value;
    }
}

} // verus!
