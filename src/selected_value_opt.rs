use vstd::pervasive::cloned;
use vstd::prelude::*;

use crate::text::same_text;

verus! {

/// An item of a grouped selection list: a stable identifier and the text shown.
pub trait SelectValue {
    spec fn id_spec(&self) -> Seq<char>;

    spec fn value_spec(&self) -> Seq<char>;

    fn get_id(&self) -> (r: &str)
        ensures
            r@ == self.id_spec(),
    ;

    fn get_value(&self) -> (r: &str)
        ensures
            r@ == self.value_spec(),
    ;
}

/// An item of a selection list that holds its identifier and shown text.
#[derive(Debug, PartialEq, Eq)]
pub struct SelectOption {
    pub id: String,
    pub value: String,
}

impl SelectOption {
    pub fn new(id: String, value: String) -> (r: Self)
        ensures
            r.id@ == id@,
            r.value@ == value@,
    {
        SelectOption { id, value }
    }
}

impl Clone for SelectOption {
    fn clone(&self) -> (r: Self)
        ensures
            r == *self,
    {
        SelectOption { id: self.id.clone(), value: self.value.clone() }
    }
}

impl SelectValue for SelectOption {
    open spec fn id_spec(&self) -> Seq<char> {
        self.id@
    }

    open spec fn value_spec(&self) -> Seq<char> {
        self.value@
    }

    fn get_id(&self) -> (r: &str) {
        self.id.as_str()
    }

    fn get_value(&self) -> (r: &str) {
        self.value.as_str()
    }
}

/// A copy of a `SelectOption` keeps its identifier.
pub proof fn lemma_option_copy_keeps_id(a: SelectOption, b: SelectOption)
    requires
        cloned(a, b),
    ensures
        b.id_spec() == a.id_spec(),
{
}

/// A named group of items, in the order they are shown.
pub struct SelectItemsGroup<TValue: SelectValue> {
    pub name: &'static str,
    pub values: Vec<TValue>,
}

impl<TValue: SelectValue> SelectItemsGroup<TValue> {
    pub fn new(name: &'static str, values: Vec<TValue>) -> (r: Self)
        ensures
            r.name == name,
            r.values@ == values@,
    {
        SelectItemsGroup { name, values }
    }
}

impl<TValue: SelectValue> From<Vec<TValue>> for SelectItemsGroup<TValue> {
    /// An unnamed group of `values`.
    fn from(values: Vec<TValue>) -> (r: Self) {
        SelectItemsGroup { name: "", values }
    }
}

impl<TValue: SelectValue> vstd::std_specs::convert::FromSpecImpl<Vec<TValue>> for SelectItemsGroup<TValue> {
    open spec fn obeys_from_spec() -> bool {
        true
    }

    open spec fn from_spec(values: Vec<TValue>) -> Self {
        SelectItemsGroup { name: "", values }
    }
}

/// The items of all groups, group after group.
pub open spec fn items_of<TValue: SelectValue>(groups: Seq<SelectItemsGroup<TValue>>) -> Seq<TValue>
    decreases groups.len(),
{
    if groups.len() == 0 {
        Seq::empty()
    } else {
        items_of(groups.drop_last()) + groups.last().values@
    }
}

/// Whether some item has the identifier `id`.
pub open spec fn has_id<TValue: SelectValue>(items: Seq<TValue>, id: Seq<char>) -> bool {
    exists|i: int| 0 <= i < items.len() && #[trigger] items[i].id_spec() == id
}

/// Whether `i` is the first position of an item with the identifier `id`.
pub open spec fn first_with_id<TValue: SelectValue>(items: Seq<TValue>, id: Seq<char>, i: int) -> bool {
    &&& 0 <= i < items.len()
    &&& items[i].id_spec() == id
    &&& forall|j: int| 0 <= j < i ==> #[trigger] items[j].id_spec() != id
}

/// The identifier that a caller asks for, as text.
pub open spec fn id_view(id: Option<&str>) -> Option<Seq<char>> {
    match id {
        Some(s) => Some(s@),
        None => None,
    }
}

/// How a selection changes when the item with identifier `id` is asked for:
/// no identifier clears it; otherwise the first item with that identifier is
/// copied in; when none has it, the selection stays as it was.
pub open spec fn selection_after<TValue: SelectValue + Clone>(
    items: Seq<TValue>,
    before: Option<TValue>,
    id: Option<Seq<char>>,
    after: Option<TValue>,
) -> bool {
    match id {
        None => after is None,
        Some(id) => if has_id(items, id) {
            &&& after is Some
            &&& exists|i: int| first_with_id(items, id, i) && cloned(items[i], after->0)
        } else {
            after == before
        },
    }
}

/// Selecting nothing clears the selection; selecting an identifier that an
/// item has selects an item with that identifier, when copies of an item keep
/// its identifier; selecting one that no item has keeps the selection.
pub proof fn lemma_selection<TValue: SelectValue + Clone>(
    items: Seq<TValue>,
    before: Option<TValue>,
    id: Option<Seq<char>>,
    after: Option<TValue>,
)
    requires
        selection_after(items, before, id, after),
    ensures
        id is None ==> after is None,
        id is Some && has_id(items, id->0) && (forall|a: TValue, b: TValue|
            #[trigger] cloned(a, b) ==> b.id_spec() == a.id_spec()) ==> after is Some
            && after->0.id_spec() == id->0,
        id is Some && !has_id(items, id->0) ==> after == before,
{
    if id is Some && has_id(items, id->0) {
        let i = choose|i: int| first_with_id(items, id->0, i) && cloned(items[i], after->0);
    }
}

proof fn lemma_items_of_concat<TValue: SelectValue>(
    a: Seq<SelectItemsGroup<TValue>>,
    b: Seq<SelectItemsGroup<TValue>>,
)
    ensures
        items_of(a + b) == items_of(a) + items_of(b),
    decreases b.len(),
{
    if b.len() == 0 {
        assert(a + b =~= a);
        assert(items_of(a) + items_of(b) =~= items_of(a));
    } else {
        lemma_items_of_concat(a, b.drop_last());
        assert((a + b).drop_last() =~= a + b.drop_last());
        assert((a + b).last() == b.last());
        assert(items_of(a) + items_of(b) =~= items_of(a) + items_of(b.drop_last())
            + b.last().values@);
    }
}

proof fn lemma_items_of_prefix<TValue: SelectValue>(groups: Seq<SelectItemsGroup<TValue>>, g: int)
    requires
        0 <= g < groups.len(),
    ensures
        items_of(groups.subrange(0, g + 1)) == items_of(groups.subrange(0, g))
            + groups[g].values@,
{
    assert(groups.subrange(0, g + 1).drop_last() =~= groups.subrange(0, g));
}

/// Named groups of items, with at most one item selected; the selected item
/// is a copy taken when it was selected.
pub struct SelectedValueOpt<TValue: SelectValue + Clone> {
    groups: Vec<SelectItemsGroup<TValue>>,
    selected: Option<TValue>,
}

impl<TValue: SelectValue + Clone> Default for SelectedValueOpt<TValue> {
    fn default() -> (r: Self)
        ensures
            r.groups_spec().len() == 0,
            r.selected_spec() is None,
    {
        SelectedValueOpt { groups: Vec::new(), selected: None }
    }
}

impl<TValue: SelectValue + Clone> SelectedValueOpt<TValue> {
    pub closed spec fn groups_spec(&self) -> Seq<SelectItemsGroup<TValue>> {
        self.groups@
    }

    pub closed spec fn selected_spec(&self) -> Option<TValue> {
        self.selected
    }

    pub fn new(groups: Vec<SelectItemsGroup<TValue>>) -> (r: Self)
        ensures
            r.groups_spec() == groups@,
            r.selected_spec() is None,
    {
        SelectedValueOpt { groups, selected: None }
    }

    /// The groups, with the item that has the identifier of `selected` selected.
    pub fn new_with_selected<TSelected: SelectValue>(
        groups: Vec<SelectItemsGroup<TValue>>,
        selected: Option<&TSelected>,
    ) -> (r: Self)
        ensures
            r.groups_spec() == groups@,
            selection_after(
                items_of(groups@),
                None,
                match selected {
                    Some(s) => Some(s.id_spec()),
                    None => None,
                },
                r.selected_spec(),
            ),
    {
        let mut result = Self::new(groups);
        if let Some(selected) = selected {
            let id = selected.get_id();
            result.set_selected(Some(id));
        } else {
            result.set_selected(None);
        }
        result
    }

    /// Selects the first item, over all groups in order, whose identifier is
    /// `id`; `None` clears the selection, and an identifier that no item has
    /// leaves it as it was.
    pub fn set_selected(&mut self, id: Option<&str>)
        ensures
            final(self).groups_spec() == old(self).groups_spec(),
            selection_after(
                items_of(old(self).groups_spec()),
                old(self).selected_spec(),
                id_view(id),
                final(self).selected_spec(),
            ),
    {
        match id {
            None => {
                self.selected = None;
            },
            Some(wanted) => {
                self.select_by_id(wanted);
            },
        }
    }

    /// Selects the first item whose identifier is `wanted`, if there is one.
    fn select_by_id(&mut self, wanted: &str)
        ensures
            final(self).groups_spec() == old(self).groups_spec(),
            selection_after(
                items_of(old(self).groups_spec()),
                old(self).selected_spec(),
                Some(wanted@),
                final(self).selected_spec(),
            ),
    {
        let ghost groups = self.groups@;
        let mut g: usize = 0;
        while g < self.groups.len()
            invariant
                self.groups@ == groups,
                self.selected == old(self).selected,
                groups == old(self).groups@,
                g <= groups.len(),
                !has_id(items_of(groups.subrange(0, g as int)), wanted@),
            decreases groups.len() - g,
        {
            let group = &self.groups[g];
            let ghost before = items_of(groups.subrange(0, g as int));
            let mut k: usize = 0;
            while k < group.values.len()
                invariant
                    self.groups@ == groups,
                    self.selected == old(self).selected,
                    groups == old(self).groups@,
                    g < groups.len(),
                    *group == groups[g as int],
                    before == items_of(groups.subrange(0, g as int)),
                    !has_id(before, wanted@),
                    k <= group.values@.len(),
                    forall|j: int| 0 <= j < k ==> #[trigger] group.values@[j].id_spec() != wanted@,
                decreases group.values@.len() - k,
            {
                let item = &group.values[k];
                if same_text(item.get_id(), wanted) {
                    let copy = item.clone();
                    proof {
                        let all = items_of(groups);
                        let n = before.len() + k;
                        lemma_items_of_prefix(groups, g as int);
                        lemma_items_of_concat(
                            groups.subrange(0, g + 1),
                            groups.subrange(g + 1, groups.len() as int),
                        );
                        assert(groups.subrange(0, g + 1) + groups.subrange(
                            g + 1,
                            groups.len() as int,
                        ) =~= groups);
                        assert(all[n] == *item);
                        assert forall|j: int| 0 <= j < n implies #[trigger] all[j].id_spec()
                            != wanted@ by {
                            if j < before.len() {
                                assert(all[j] == before[j]);
                            } else {
                                assert(all[j] == group.values@[j - before.len()]);
                            }
                        }
                        assert(cloned(*item, copy));
                        assert(first_with_id(all, wanted@, n) && cloned(all[n], copy));
                        assert(has_id(all, wanted@));
                    }
                    self.selected = Some(copy);
                    return ;
                }
                k = k + 1;
            }
            proof {
                lemma_items_of_prefix(groups, g as int);
                let after = items_of(groups.subrange(0, g + 1));
                assert forall|j: int| 0 <= j < after.len() implies #[trigger] after[j].id_spec()
                    != wanted@ by {
                    if j >= before.len() {
                        assert(after[j] == group.values@[j - before.len()]);
                    }
                }
            }
            g = g + 1;
        }
        proof {
            assert(groups.subrange(0, groups.len() as int) =~= groups);
        }
    }

    pub fn get_selected(&self) -> (r: Option<&TValue>)
        ensures
            r is Some <==> self.selected_spec() is Some,
            r is Some ==> *r->0 == self.selected_spec()->0,
    {
        self.selected.as_ref()
    }

    /// Appends a group after the others.
    pub fn push(&mut self, group: SelectItemsGroup<TValue>)
        ensures
            final(self).groups_spec() == old(self).groups_spec().push(group),
            final(self).selected_spec() == old(self).selected_spec(),
    {
        self.groups.push(group);
    }

    /// Appends an item to the first group, making an unnamed first group when
    /// there is none.
    pub fn push_item(&mut self, value: TValue)
        ensures
            final(self).selected_spec() == old(self).selected_spec(),
            old(self).groups_spec().len() == 0 ==> {
                &&& final(self).groups_spec().len() == 1
                &&& final(self).groups_spec()[0].name@ == Seq::<char>::empty()
                &&& final(self).groups_spec()[0].values@ == seq![value]
            },
            old(self).groups_spec().len() > 0 ==> {
                &&& final(self).groups_spec().len() == old(self).groups_spec().len()
                &&& final(self).groups_spec()[0].name == old(self).groups_spec()[0].name
                &&& final(self).groups_spec()[0].values@ == old(self).groups_spec()[0].values@.push(
                    value,
                )
                &&& forall|i: int|
                    1 <= i < final(self).groups_spec().len() ==> #[trigger] final(self).groups_spec()[i]
                        == old(self).groups_spec()[i]
            },
    {
        if self.groups.len() == 0 {
            let name = "";
            proof {
                reveal_strlit("");
            }
            self.groups.push(SelectItemsGroup { name, values: vec![value] });
        } else {
            let mut first = self.groups.remove(0);
            first.values.push(value);
            self.groups.insert(0, first);
        }
    }

    pub fn get_items(&self) -> (r: &[SelectItemsGroup<TValue>])
        ensures
            r@ == self.groups_spec(),
    {
        self.groups.as_slice()
    }
}

} // verus!
