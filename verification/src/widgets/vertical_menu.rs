//! One menu as a vertical list: how a navigation event moves its cursor, and
//! which rows the renderer has to draw for it.
use crate::selections::{
    lemma_selectable_positions, lemma_selectable_positions_step, moved_index, resolved_index,
    selectable_at, selectable_count, selectable_positions, Selections,
};
use crate::traits::{lawful_eq, ScreenTrait};
use crate::types::{
    item_models, lemma_selection_eq, HostKey, ItemModel, MenuItem, MenuSelection, NavigationEvent,
};
use crate::widget_id::WidgetId;
use vstd::prelude::*;

verus! {

/// How a row is drawn.
#[derive(Debug, Clone, Copy, PartialEq, Eq, Structural)]
pub enum RowKind {
    Button,
    Label,
    Headline,
    Image,
}

/// One row of a laid-out menu.
#[derive(Debug)]
pub struct MenuRow<S> where S: ScreenTrait {
    /// The position of the entry in the menu.
    pub item: usize,
    /// How the row is drawn.
    pub kind: RowKind,
    /// How many selectable entries stand above the row. For a button this is
    /// the index under which the registry knows it.
    pub index: usize,
    /// What choosing the row yields.
    pub selection: MenuSelection<S, S::Action>,
    /// Whether the cursor is on the row.
    pub focussed: bool,
}

/// How an entry is drawn: screens and actions as buttons, the rest as what
/// they are.
pub open spec fn row_kind<S, A>(item: ItemModel<S, A>) -> RowKind {
    match item {
        ItemModel::Screen(_) => RowKind::Button,
        ItemModel::Action(_) => RowKind::Button,
        ItemModel::Label => RowKind::Label,
        ItemModel::Headline => RowKind::Headline,
        ItemModel::Image => RowKind::Image,
    }
}

/// Whether the cursor is on `item` when it rests on an entry that yields
/// `selected`: the entry yields the same, and is no label.
pub open spec fn is_focussed<S, A>(item: ItemModel<S, A>, selected: MenuSelection<S, A>) -> bool {
    selected == item.selection() && !(item is Label)
}

/// The row that the renderer draws for entry `i` of `items` while the cursor
/// is at `cursor`. In a menu without a selectable entry the cursor is on no
/// row.
pub open spec fn row_at<S: ScreenTrait>(
    items: Seq<ItemModel<S, S::Action>>,
    cursor: int,
    i: int,
) -> MenuRow<S> {
    MenuRow {
        item: i as usize,
        kind: row_kind(items[i]),
        index: selectable_count(items.take(i)) as usize,
        selection: items[i].selection(),
        focussed: selectable_count(items) > 0 && is_focussed(
            items[i],
            selectable_at(items, cursor).selection(),
        ),
    }
}

/// Whether `rows` are the rows of the menu `items` while its cursor is at
/// `cursor`: one row for each entry, in order. Which row the cursor is on
/// is told by comparing selections, so it is stated where they compare
/// lawfully.
pub open spec fn laid_out<S: ScreenTrait>(
    rows: Seq<MenuRow<S>>,
    items: Seq<ItemModel<S, S::Action>>,
    cursor: int,
) -> bool {
    &&& rows.len() == items.len()
    &&& forall|i: int|
        0 <= i < rows.len() ==> {
            &&& (#[trigger] rows[i]).item == row_at(items, cursor, i).item
            &&& rows[i].kind == row_at(items, cursor, i).kind
            &&& rows[i].index == row_at(items, cursor, i).index
            &&& rows[i].selection == row_at(items, cursor, i).selection
            &&& lawful_eq::<S>() ==> rows[i] == row_at(items, cursor, i)
        }
}

/// A menu that is about to be laid out or navigated.
pub struct VerticalMenu<'a, S> where S: ScreenTrait {
    /// The identifier under which the registry knows the menu.
    pub id: WidgetId,
    /// The entries of the menu.
    pub items: &'a [MenuItem<S, S::Action>],
    /// What the host should use in place of the usual layout.
    pub style: Option<HostKey>,
    /// What the host should draw behind the menu.
    pub background: Option<HostKey>,
}

impl<'a, S: ScreenTrait> VerticalMenu<'a, S> {
    /// Whether the cursor of the menu `id` rests on one of `items`: the
    /// condition under which the menu can be laid out and navigated.
    pub open spec fn cursor_on_entry(
        entries: Map<Seq<char>, usize>,
        id: Seq<char>,
        items: Seq<ItemModel<S, S::Action>>,
    ) -> bool {
        resolved_index(entries, id, items) < selectable_count(items)
    }

    /// Whether the menu `id` can be navigated: it has no selectable entry,
    /// so that there is nothing for a cursor to do, or its cursor rests on
    /// one of its entries.
    pub open spec fn cursor_fits(
        entries: Map<Seq<char>, usize>,
        id: Seq<char>,
        items: Seq<ItemModel<S, S::Action>>,
    ) -> bool {
        selectable_count(items) > 0 ==> Self::cursor_on_entry(entries, id, items)
    }

    /// The registry once `event` was applied to the menu `id`: the index to
    /// which the event has moved the cursor is written under `id`. Where
    /// the menu has no selectable entry no index is computed, and the
    /// registry stays as it is.
    pub open spec fn entries_after(
        entries: Map<Seq<char>, usize>,
        id: Seq<char>,
        items: Seq<ItemModel<S, S::Action>>,
        event: NavigationEvent,
    ) -> Map<Seq<char>, usize> {
        if selectable_count(items) == 0 {
            entries
        } else {
            entries.insert(
                id,
                moved_index(event, resolved_index(entries, id, items), selectable_count(items)) as usize,
            )
        }
    }

    /// What `event` chooses in the menu `id`: on `Select` the selection of
    /// the entry under the cursor, and nothing otherwise. Nothing can be
    /// chosen in a menu without a selectable entry.
    pub open spec fn chosen_by(
        entries: Map<Seq<char>, usize>,
        id: Seq<char>,
        items: Seq<ItemModel<S, S::Action>>,
        event: NavigationEvent,
    ) -> Option<MenuSelection<S, S::Action>> {
        if event == NavigationEvent::Select && selectable_count(items) > 0 {
            Some(selectable_at(items, resolved_index(entries, id, items) as int).selection())
        } else {
            None
        }
    }

    /// Tests [`Self::cursor_fits`]. It fails for a menu that has lost the
    /// entry on which its cursor was left.
    pub fn can_navigate(
        id: &WidgetId,
        items: &'a [MenuItem<S, S::Action>],
        selections: &Selections,
    ) -> (ok: bool)
        ensures
            ok == Self::cursor_fits(selections@, id@, item_models(items@)),
    {
        let (selected_idx, selectables) = Self::current_selection(id, items, selections);
        selectables.len() == 0 || selected_idx < selectables.len()
    }

    /// Tests [`Self::cursor_on_entry`]. It fails for a menu without a
    /// selectable entry, and for one that has lost the entry on which its
    /// cursor was left.
    pub fn has_cursor(
        id: &WidgetId,
        items: &'a [MenuItem<S, S::Action>],
        selections: &Selections,
    ) -> (ok: bool)
        ensures
            ok == Self::cursor_on_entry(selections@, id@, item_models(items@)),
    {
        let (selected_idx, selectables) = Self::current_selection(id, items, selections);
        selected_idx < selectables.len()
    }

    /// Whether `index` is the index of one of the selectable entries of
    /// `items`.
    pub fn has_entry(items: &'a [MenuItem<S, S::Action>], index: usize) -> (ok: bool)
        ensures
            ok == (index < selectable_count(item_models(items@))),
    {
        let ghost models = item_models(items@);
        let mut count: usize = 0;
        let mut i: usize = 0;
        while i < items.len()
            invariant
                i <= items.len(),
                models == item_models(items@),
                count == selectable_count(models.take(i as int)),
                count <= i,
            decreases items.len() - i,
        {
            proof {
                lemma_selectable_positions_step(models, i as int);
                assert(models[i as int] == items@[i as int]@);
            }
            if items[i].is_selectable() {
                count += 1;
            }
            i += 1;
        }
        proof {
            assert(models.take(items.len() as int) == models);
        }
        index < count
    }

    /// Lays the menu out: one row for each entry, in order. A menu without
    /// entries is not drawn and has no rows, and in a menu without a
    /// selectable entry no row has the cursor.
    pub fn build(self, selections: &Selections) -> (rows: Vec<MenuRow<S>>)
        requires
            Self::cursor_fits(selections@, self.id@, item_models(self.items@)),
        ensures
            laid_out(
                rows@,
                item_models(self.items@),
                resolved_index(selections@, self.id@, item_models(self.items@)) as int,
            ),
    {
        let VerticalMenu { id, items, .. } = self;
        let mut rows: Vec<MenuRow<S>> = Vec::new();
        if items.len() == 0 {
            return rows;
        }
        let ghost models = item_models(items@);
        let (selected_idx, selectables) = Self::current_selection(&id, items, selections);
        proof {
            lemma_selectable_positions(models);
        }
        let selectable = selectables.len() > 0;
        let selected = if selectable {
            items[selectables[selected_idx]].as_selection()
        } else {
            MenuSelection::Nothing
        };
        let mut index: usize = 0;
        let mut i: usize = 0;
        while i < items.len()
            invariant
                i <= items.len(),
                models == item_models(items@),
                selected_idx == resolved_index(selections@, id@, models),
                selectable == (selectable_count(models) > 0),
                selectable ==> selected_idx < selectable_count(models),
                selectable ==> selected == selectable_at(models, selected_idx as int).selection(),
                index == selectable_count(models.take(i as int)),
                index <= i,
                rows@.len() == i,
                forall|j: int|
                    0 <= j < i ==> {
                        &&& (#[trigger] rows@[j]).item == row_at(models, selected_idx as int, j).item
                        &&& rows@[j].kind == row_at(models, selected_idx as int, j).kind
                        &&& rows@[j].index == row_at(models, selected_idx as int, j).index
                        &&& rows@[j].selection == row_at(models, selected_idx as int, j).selection
                        &&& lawful_eq::<S>() ==> rows@[j] == row_at(models, selected_idx as int, j)
                    },
            decreases items.len() - i,
        {
            let item = &items[i];
            let is_label = item.is_label();
            let item_selection = item.as_selection();
            proof {
                if lawful_eq::<S>() {
                    lemma_selection_eq::<S>(selected, item_selection);
                }
                lemma_selectable_positions_step(models, i as int);
                assert(models[i as int] == items@[i as int]@);
            }
            let focussed = selectable && (selected == item_selection) && !is_label;
            let kind = match item {
                MenuItem::Screen(_, _, _) => RowKind::Button,
                MenuItem::Action(_, _, _) => RowKind::Button,
                MenuItem::Label(_, _) => RowKind::Label,
                MenuItem::Headline(_, _) => RowKind::Headline,
                MenuItem::Image(_, _) => RowKind::Image,
            };
            let counts = !item_selection.is_none();
            rows.push(MenuRow { item: i, kind, index, selection: item_selection, focussed });
            // Only selectable entries count, so that a button's index is the
            // one under which the registry knows it.
            if counts {
                index += 1;
            }
            i += 1;
        }
        rows
    }

    /// Applies a navigation event to the menu `id` with the entries `items`.
    ///
    /// `Up` and `Down` move the cursor by one entry and stop at the ends of
    /// the menu. `Select` leaves it where it is and yields the selection of
    /// the entry under it. `Back` leaves it where it is. In every case the
    /// index of the cursor is written to the registry.
    ///
    /// A menu without a selectable entry, such as one without entries at
    /// all, takes every event in silence: nothing is chosen, no index is
    /// computed and the registry stays as it is.
    pub fn apply_event(
        event: &NavigationEvent,
        id: WidgetId,
        items: &'a [MenuItem<S, S::Action>],
        selections: &mut Selections,
    ) -> (chosen: Option<MenuSelection<S, S::Action>>)
        requires
            Self::cursor_fits(old(selections)@, id@, item_models(items@)),
        ensures
            final(selections)@ == Self::entries_after(
                old(selections)@,
                id@,
                item_models(items@),
                *event,
            ),
            Self::cursor_fits(final(selections)@, id@, item_models(items@)),
            selectable_count(item_models(items@)) == 0 ==> {
                &&& chosen is None
                &&& final(selections)@ == old(selections)@
            },
            *event != NavigationEvent::Select ==> chosen is None,
            lawful_eq::<S>() ==> chosen == Self::chosen_by(
                old(selections)@,
                id@,
                item_models(items@),
                *event,
            ),
    {
        let ghost models = item_models(items@);
        let ghost name = id@;
        let ghost before = selections@;
        let (index, selectables) = Self::current_selection(&id, items, selections);
        if selectables.len() == 0 {
            return None;
        }
        let mut selectable_index = index;
        proof {
            lemma_selectable_positions(models);
        }
        let mut select_navigation = false;
        let mut selected = items[selectables[selectable_index]].as_selection();
        match event {
            NavigationEvent::Up => {
                if selectable_index > 0 {
                    selectable_index -= 1;
                }
            },
            NavigationEvent::Down => {
                if selectable_index < selectables.len() - 1 {
                    selectable_index += 1;
                }
            },
            NavigationEvent::Select => {
                select_navigation = true;
            },
            NavigationEvent::Back => {},
        }
        let landed = items[selectables[selectable_index]].as_selection();
        if !landed.is_none() {
            selected = landed;
        }
        selections.set(id, selectable_index);
        if !select_navigation {
            return None;
        }
        let ghost target = selectable_positions(models)[index as int];
        let mut i: usize = 0;
        while i < items.len()
            invariant
                i <= items.len(),
                models == item_models(items@),
                selected == selectable_at(models, index as int).selection(),
                index < selectable_count(models),
                target == selectable_positions(models)[index as int],
                0 <= target < items.len(),
                models[target].selectable(),
                lawful_eq::<S>() ==> i <= target,
                *event == NavigationEvent::Select,
                name == id@,
                before == old(selections)@,
                index == resolved_index(before, name, models),
                selections@ == before.insert(name, index),
            decreases items.len() - i,
        {
            let item = &items[i];
            let is_label = item.is_label();
            let item_selection = item.as_selection();
            proof {
                if lawful_eq::<S>() {
                    lemma_selection_eq::<S>(selected, item_selection);
                }
                assert(models[i as int] == items@[i as int]@);
            }
            let focussed = (selected == item_selection) && !is_label;
            if !is_label && focussed {
                return Some(item_selection);
            }
            i += 1;
        }
        None
    }

    /// The index of the cursor of the menu `id`, and the positions in `items`
    /// of the entries on which a cursor can rest.
    fn current_selection(
        id: &WidgetId,
        items: &'a [MenuItem<S, S::Action>],
        selections: &Selections,
    ) -> (current: (usize, Vec<usize>))
        ensures
            current.0 == resolved_index(selections@, id@, item_models(items@)),
            current.1@.len() == selectable_count(item_models(items@)),
            forall|k: int|
                0 <= k < current.1@.len() ==> #[trigger] current.1@[k] == selectable_positions(
                    item_models(items@),
                )[k],
    {
        let ghost models = item_models(items@);
        let mut selectables: Vec<usize> = Vec::new();
        let mut i: usize = 0;
        while i < items.len()
            invariant
                i <= items.len(),
                models == item_models(items@),
                selectables@.len() == selectable_count(models.take(i as int)),
                forall|k: int|
                    0 <= k < selectables@.len() ==> #[trigger] selectables@[k]
                        == selectable_positions(models.take(i as int))[k],
            decreases items.len() - i,
        {
            proof {
                lemma_selectable_positions_step(models, i as int);
                assert(models[i as int] == items@[i as int]@);
            }
            if items[i].is_selectable() {
                selectables.push(i);
            }
            i += 1;
        }
        proof {
            assert(models.take(items.len() as int) == models);
        }
        let selected_idx = selections.get_or_default(id, items);
        (selected_idx, selectables)
    }
}

} // verus!
