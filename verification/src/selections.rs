//! The cursor of every menu: which of its selectable entries is highlighted.
//!
//! The registry is kept by menu identifier, so that drawing a menu again does
//! not move its cursor. An index counts the entries on which the cursor can
//! rest and skips labels, headlines and images.
use crate::types::{item_models, ItemModel, MenuItem, NavigationEvent};
use crate::widget_id::WidgetId;
use bevy::utils::HashMap;
use vstd::prelude::*;

verus! {

/// The positions in `items` of the entries on which the cursor can rest, in
/// rising order.
pub open spec fn selectable_positions<S, A>(items: Seq<ItemModel<S, A>>) -> Seq<int>
    decreases items.len(),
{
    if items.len() == 0 {
        Seq::<int>::empty()
    } else if items.last().selectable() {
        selectable_positions(items.drop_last()).push(items.len() - 1)
    } else {
        selectable_positions(items.drop_last())
    }
}

/// How many entries of `items` the cursor can rest on.
pub open spec fn selectable_count<S, A>(items: Seq<ItemModel<S, A>>) -> nat {
    selectable_positions(items).len()
}

/// The entry on which a cursor with the index `index` rests.
pub open spec fn selectable_at<S, A>(items: Seq<ItemModel<S, A>>, index: int) -> ItemModel<S, A> {
    items[selectable_positions(items)[index]]
}

/// The least index from `from` on whose entry yields a selection, if there
/// is one.
pub open spec fn first_yielding<S, A>(items: Seq<ItemModel<S, A>>, from: nat) -> Option<nat>
    decreases selectable_count(items) - from,
{
    if from >= selectable_count(items) {
        None
    } else if !(selectable_at(items, from as int).selection() is Nothing) {
        Some(from)
    } else {
        first_yielding(items, from + 1)
    }
}

/// Where the cursor of a menu stands that the registry does not know yet:
/// on the first selectable entry that yields a selection, and at 0 where
/// there is none.
pub open spec fn default_index<S, A>(items: Seq<ItemModel<S, A>>) -> nat {
    match first_yielding(items, 0) {
        Some(index) => index,
        None => 0,
    }
}

/// Where the cursor of the menu `id` stands: where the registry says, and at
/// the default where the registry has no entry for it.
pub open spec fn resolved_index<S, A>(
    entries: Map<Seq<char>, usize>,
    id: Seq<char>,
    items: Seq<ItemModel<S, A>>,
) -> nat {
    if entries.contains_key(id) {
        entries[id] as nat
    } else {
        default_index(items)
    }
}

/// Where a cursor at `index` in a menu of `count` selectable entries stands
/// after `event`: one up unless it is at the top, one down unless it is at
/// the bottom, and where it was for the other events.
pub open spec fn moved_index(event: NavigationEvent, index: nat, count: nat) -> nat {
    match event {
        NavigationEvent::Up => if index > 0 {
            (index - 1) as nat
        } else {
            index
        },
        NavigationEvent::Down => if index + 1 < count {
            index + 1
        } else {
            index
        },
        NavigationEvent::Select => index,
        NavigationEvent::Back => index,
    }
}

/// Every selectable position lies in the menu, holds a selectable entry, and
/// the positions rise.
pub proof fn lemma_selectable_positions<S, A>(items: Seq<ItemModel<S, A>>)
    ensures
        selectable_count(items) <= items.len(),
        forall|k: int|
            0 <= k < selectable_count(items) ==> {
                &&& 0 <= #[trigger] selectable_positions(items)[k] < items.len()
                &&& items[selectable_positions(items)[k]].selectable()
            },
        forall|j: int, k: int|
            0 <= j < k < selectable_count(items) ==> selectable_positions(items)[j]
                < selectable_positions(items)[k],
        forall|p: int|
            0 <= p < items.len() && #[trigger] items[p].selectable()
                ==> selectable_positions(items).contains(p),
    decreases items.len(),
{
    if items.len() > 0 {
        let front = items.drop_last();
        lemma_selectable_positions(front);
        let positions = selectable_positions(items);
        assert forall|p: int| 0 <= p < items.len() && #[trigger] items[p].selectable() implies positions.contains(p) by {
            if p < front.len() {
                assert(front[p].selectable());
                let k = choose|k: int|
                    0 <= k < selectable_positions(front).len() && selectable_positions(front)[k]
                        == p;
                assert(positions[k] == p);
            } else {
                assert(positions[positions.len() - 1] == p);
            }
        }
    }
}

/// The positions in the first `n + 1` entries are those in the first `n`,
/// and `n` behind them where the cursor can rest on entry `n`.
pub proof fn lemma_selectable_positions_step<S, A>(items: Seq<ItemModel<S, A>>, n: int)
    requires
        0 <= n < items.len(),
    ensures
        selectable_positions(items.take(n + 1)) == if items[n].selectable() {
            selectable_positions(items.take(n)).push(n)
        } else {
            selectable_positions(items.take(n))
        },
{
    assert(items.take(n + 1).drop_last() == items.take(n));
}

/// The cursor of a menu with at least one selectable entry starts on one of
/// them, and that entry yields a selection.
pub proof fn lemma_default_index_in_range<S, A>(items: Seq<ItemModel<S, A>>)
    requires
        selectable_count(items) >= 1,
    ensures
        default_index(items) < selectable_count(items),
        !(selectable_at(items, default_index(items) as int).selection() is Nothing),
{
    lemma_selectable_positions(items);
}

/// The highlighted index of every menu that the cursor has visited, kept in
/// a hash map of `bevy::utils`. Verified code reaches the map through
/// `registry_new`, `registry_get` and `registry_insert` alone.
#[verifier::external_body]
pub struct Selections {
    map: HashMap<WidgetId, usize>,
}

/// What the registry holds: for the text of each identifier that it knows,
/// the index that was last stored under it.
pub uninterp spec fn selection_entries(selections: Selections) -> Map<Seq<char>, usize>;

impl View for Selections {
    type V = Map<Seq<char>, usize>;

    open spec fn view(&self) -> Map<Seq<char>, usize> {
        selection_entries(*self)
    }
}

/// Makes the map with `HashMap::default` of `bevy::utils`, which creates an
/// empty map.
#[verifier::external_body]
fn registry_new() -> (registry: Selections)
    ensures
        selection_entries(registry) == (Map::<Seq<char>, usize>::empty()),
{
    Selections { map: HashMap::default() }
}

/// Looks `id` up with `HashMap::get` of `bevy::utils`, which finds the value
/// stored under a key equal to `id` and reports none where no such key is in
/// the map. Identifiers are equal when their texts are, and equal
/// identifiers hash alike.
#[verifier::external_body]
fn registry_get(selections: &Selections, id: &WidgetId) -> (index: Option<usize>)
    ensures
        index == if selection_entries(*selections).contains_key(id@) {
            Some(selection_entries(*selections)[id@])
        } else {
            None
        },
{
    selections.map.get(id).copied()
}

/// Stores with `HashMap::insert` of `bevy::utils`, which puts `index` under
/// `id`, in place of the value of a key equal to `id` where the map has one,
/// and leaves every other key as it is.
#[verifier::external_body]
fn registry_insert(selections: &mut Selections, id: WidgetId, index: usize)
    ensures
        selection_entries(*final(selections)) == selection_entries(*old(selections)).insert(
            id@,
            index,
        ),
{
    selections.map.insert(id, index);
}

impl Default for Selections {
    fn default() -> (selections: Self)
        ensures
            selections@ == (Map::<Seq<char>, usize>::empty()),
    {
        registry_new()
    }
}

impl Selections {
    /// A registry that knows no menu.
    pub fn new() -> (selections: Self)
        ensures
            selections@ == (Map::<Seq<char>, usize>::empty()),
    {
        registry_new()
    }

    /// The index stored for the menu `id`, if there is one.
    pub fn get(&self, id: &WidgetId) -> (index: Option<usize>)
        ensures
            index == if self@.contains_key(id@) {
                Some(self@[id@])
            } else {
                None
            },
    {
        registry_get(self, id)
    }

    /// Stores `index` for the menu `id`, whether or not one was stored
    /// before. No other menu's index changes.
    pub fn set(&mut self, id: WidgetId, index: usize)
        ensures
            final(self)@ == old(self)@.insert(id@, index),
    {
        registry_insert(self, id, index);
    }

    /// Where the cursor of the menu `id` with the entries `items` stands.
    /// A lookup stores nothing: a menu that the registry does not know
    /// yet is still unknown afterwards.
    pub fn get_or_default<S: Copy, A: Copy>(&self, id: &WidgetId, items: &[MenuItem<S, A>]) -> (index:
        usize)
        ensures
            index == resolved_index(self@, id@, item_models(items@)),
    {
        match self.get(id) {
            Some(index) => index,
            None => first_yielding_index(items),
        }
    }
}

/// The index of the first selectable entry that yields a selection, and 0
/// where there is none.
fn first_yielding_index<S: Copy, A: Copy>(items: &[MenuItem<S, A>]) -> (index: usize)
    ensures
        index == default_index(item_models(items@)),
{
    let ghost models = item_models(items@);
    let mut seen: usize = 0;
    let mut i: usize = 0;
    while i < items.len()
        invariant
            i <= items.len(),
            models == item_models(items@),
            seen == selectable_count(models.take(i as int)),
            seen <= i,
            forall|k: int|
                0 <= k < seen ==> (#[trigger] selectable_at(models, k)).selection() is Nothing,
        decreases items.len() - i,
    {
        proof {
            lemma_selectable_positions_step(models, i as int);
            lemma_positions_of_prefix(models, i as int + 1);
            lemma_positions_of_prefix(models, i as int);
        }
        if items[i].is_selectable() {
            if !items[i].as_selection().is_none() {
                proof {
                    let upto = selectable_positions(models.take(i as int + 1));
                    assert(upto[seen as int] == i);
                    assert(selectable_positions(models)[seen as int] == upto[seen as int]);
                    assert(models[i as int] == items@[i as int]@);
                    assert(!(selectable_at(models, seen as int).selection() is Nothing));
                    lemma_first_yielding_from(models, seen as nat);
                }
                return seen;
            }
            seen += 1;
        }
        i += 1;
    }
    proof {
        assert(models.take(items.len() as int) == models);
        lemma_first_yielding_from(models, seen as nat);
    }
    0
}

/// The selectable positions of a prefix are the first of the whole menu's.
pub proof fn lemma_positions_of_prefix<S, A>(items: Seq<ItemModel<S, A>>, n: int)
    requires
        0 <= n <= items.len(),
    ensures
        selectable_positions(items.take(n)).is_prefix_of(selectable_positions(items)),
    decreases items.len() - n,
{
    if n == items.len() {
        assert(items.take(n) == items);
    } else {
        lemma_selectable_positions_step(items, n);
        lemma_positions_of_prefix(items, n + 1);
    }
}

/// Where no entry before `from` yields a selection, the first that does is
/// the first from `from` on.
proof fn lemma_first_yielding_from<S, A>(items: Seq<ItemModel<S, A>>, from: nat)
    requires
        from <= selectable_count(items),
        forall|k: int|
            0 <= k < from ==> (#[trigger] selectable_at(items, k)).selection() is Nothing,
    ensures
        first_yielding(items, 0) == first_yielding(items, from),
    decreases from,
{
    if from > 0 {
        lemma_first_yielding_from(items, (from - 1) as nat);
        assert(selectable_at(items, from - 1).selection() is Nothing);
    }
}

} // verus!
