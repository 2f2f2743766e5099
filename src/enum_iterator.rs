use vstd::prelude::*;

verus! {

/// A type whose values are drawn from a fixed, ordered list of options.
pub trait EnumIterator {
    type TItem;

    /// Every option, in order.
    spec fn all_spec() -> Seq<Self::TItem>;

    /// The option that this value stands for.
    spec fn item_spec(&self) -> Self::TItem;

    fn get_value(&self) -> (r: Self::TItem)
        ensures
            r == self.item_spec(),
    ;

    fn get_all() -> (r: Vec<Self::TItem>)
        ensures
            r@ == Self::all_spec(),
    ;
}

/// An optional pick among the options of an enumerated type.
#[derive(Debug, Clone)]
pub struct OptValueSelector<TItem> {
    selected: Option<TItem>,
    all_options: Vec<TItem>,
}

impl<TItem> OptValueSelector<TItem> {
    pub closed spec fn selected_spec(&self) -> Option<TItem> {
        self.selected
    }

    pub closed spec fn options_spec(&self) -> Seq<TItem> {
        self.all_options@
    }

    /// A selector over the options of `TEnumIterator`, holding `item`.
    pub fn new<TEnumIterator: EnumIterator<TItem = TItem>>(item: Option<TItem>) -> (r: Self)
        ensures
            r.selected_spec() == item,
            r.options_spec() == TEnumIterator::all_spec(),
    {
        let items = TEnumIterator::get_all();
        OptValueSelector { selected: item, all_options: items }
    }

    pub fn get_all(&self) -> (r: &[TItem])
        ensures
            r@ == self.options_spec(),
    {
        self.all_options.as_slice()
    }

    pub fn get_value(&self) -> (r: Option<&TItem>)
        ensures
            r is Some <==> self.selected_spec() is Some,
            r is Some ==> *r->0 == self.selected_spec()->0,
    {
        self.selected.as_ref()
    }

    pub fn set_value(&mut self, value: Option<TItem>)
        ensures
            final(self).selected_spec() == value,
            final(self).options_spec() == old(self).options_spec(),
    {
        self.selected = value;
    }
}

} // verus!
