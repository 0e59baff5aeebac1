//! The data that describes a menu: its entries, what selecting one of them
//! yields, and the events that move through it.
use crate::text::{IntoWidgetLabel, WidgetLabel};
use crate::traits::{lawful_eq, ScreenTrait};
use crate::widget_id::{IntoWidgetId, WidgetId};
use vstd::laws_eq::obeys_concrete_eq;
use vstd::prelude::*;
use vstd::std_specs::cmp::PartialEqSpec;

verus! {

/// Names a value that the host keeps for the renderer: an image, a font, a
/// colour, a size or a layout. The library carries such keys and never looks
/// behind them.
#[derive(Debug, Clone, Copy, PartialEq, Eq, Hash, Structural)]
pub struct HostKey(pub u64);

/// What moves through a menu. Keyboard, gamepad and pointer input all end up
/// as one of these.
#[derive(Debug, Clone, Copy, PartialEq, Eq, Structural)]
pub enum NavigationEvent {
    Up,
    Down,
    Select,
    Back,
}

/// Tells the renderer that what it last drew is out of date.
#[derive(Debug, Clone, Copy, PartialEq, Eq, Structural)]
pub struct RedrawEvent;

/// The icon in front of a menu entry.
#[derive(Debug, Clone, Copy, PartialEq, Eq, Structural)]
pub enum MenuIcon {
    NoIcon,
    Checked,
    Unchecked,
    Back,
    Controls,
    Sound,
    Players,
    Settings,
    Other(HostKey),
}

/// What choosing a menu entry yields: an action to carry out, a screen to
/// open, or nothing.
#[derive(Debug)]
pub enum MenuSelection<S, A> {
    Action(A),
    Screen(S),
    Nothing,
}

impl<S: Copy, A: Copy> Clone for MenuSelection<S, A> {
    fn clone(&self) -> (copy: Self)
        ensures
            copy == *self,
    {
        match self {
            MenuSelection::Action(action) => MenuSelection::Action(*action),
            MenuSelection::Screen(screen) => MenuSelection::Screen(*screen),
            MenuSelection::Nothing => MenuSelection::Nothing,
        }
    }
}

impl<S: PartialEq, A: PartialEq> PartialEq for MenuSelection<S, A> {
    fn eq(&self, other: &Self) -> (same: bool) {
        match (self, other) {
            (MenuSelection::Action(a1), MenuSelection::Action(a2)) => a1 == a2,
            (MenuSelection::Screen(s1), MenuSelection::Screen(s2)) => s1 == s2,
            (MenuSelection::Nothing, MenuSelection::Nothing) => true,
            _ => false,
        }
    }
}

impl<S: PartialEq, A: PartialEq> vstd::std_specs::cmp::PartialEqSpecImpl for MenuSelection<S, A> {
    open spec fn obeys_eq_spec() -> bool {
        S::obeys_eq_spec() && A::obeys_eq_spec()
    }

    open spec fn eq_spec(&self, other: &Self) -> bool {
        match (*self, *other) {
            (MenuSelection::Action(a1), MenuSelection::Action(a2)) => a1.eq_spec(&a2),
            (MenuSelection::Screen(s1), MenuSelection::Screen(s2)) => s1.eq_spec(&s2),
            (MenuSelection::Nothing, MenuSelection::Nothing) => true,
            _ => false,
        }
    }
}

impl<S, A> MenuSelection<S, A> {
    /// Whether this is no selection at all.
    pub fn is_none(&self) -> (none: bool)
        ensures
            none == (*self is Nothing),
    {
        match self {
            MenuSelection::Nothing => true,
            _ => false,
        }
    }
}

/// Where screens and actions compare lawfully, so do selections.
pub proof fn lemma_selection_eq<S: ScreenTrait>(
    a: MenuSelection<S, S::Action>,
    b: MenuSelection<S, S::Action>,
)
    requires
        lawful_eq::<S>(),
    ensures
        MenuSelection::<S, S::Action>::obeys_eq_spec(),
        a.eq_spec(&b) == (a == b),
{
    reveal(obeys_concrete_eq);
}

/// One entry of a menu. Screens and actions can be selected; labels,
/// headlines and images are only shown.
#[derive(Debug)]
pub enum MenuItem<S, A> {
    Screen(WidgetLabel, MenuIcon, S),
    Action(WidgetLabel, MenuIcon, A),
    Label(WidgetLabel, MenuIcon),
    Headline(WidgetLabel, MenuIcon),
    Image(HostKey, Option<HostKey>),
}

/// What the navigation rules read of a menu entry: its kind and, where it
/// has one, the screen or action that it carries.
pub enum ItemModel<S, A> {
    Screen(S),
    Action(A),
    Label,
    Headline,
    Image,
}

impl<S, A> ItemModel<S, A> {
    /// What choosing this entry yields.
    pub open spec fn selection(self) -> MenuSelection<S, A> {
        match self {
            ItemModel::Screen(screen) => MenuSelection::Screen(screen),
            ItemModel::Action(action) => MenuSelection::Action(action),
            ItemModel::Label => MenuSelection::Nothing,
            ItemModel::Headline => MenuSelection::Nothing,
            ItemModel::Image => MenuSelection::Nothing,
        }
    }

    /// Whether the cursor can rest on this entry.
    pub open spec fn selectable(self) -> bool {
        self is Screen || self is Action
    }
}

impl<S, A> View for MenuItem<S, A> {
    type V = ItemModel<S, A>;

    open spec fn view(&self) -> ItemModel<S, A> {
        match *self {
            MenuItem::Screen(_, _, screen) => ItemModel::Screen(screen),
            MenuItem::Action(_, _, action) => ItemModel::Action(action),
            MenuItem::Label(_, _) => ItemModel::Label,
            MenuItem::Headline(_, _) => ItemModel::Headline,
            MenuItem::Image(_, _) => ItemModel::Image,
        }
    }
}

impl<S: Copy, A: Copy> MenuItem<S, A> {
    /// This entry with `icon` in place of its own. An image stays as it is.
    pub open spec fn spec_with_icon(self, icon: MenuIcon) -> Self {
        match self {
            MenuItem::Screen(label, _, screen) => MenuItem::Screen(label, icon, screen),
            MenuItem::Action(label, _, action) => MenuItem::Action(label, icon, action),
            MenuItem::Label(label, _) => MenuItem::Label(label, icon),
            MenuItem::Headline(label, _) => MenuItem::Headline(label, icon),
            MenuItem::Image(image, layout) => MenuItem::Image(image, layout),
        }
    }

    /// An entry that opens `screen`.
    pub fn screen(s: impl IntoWidgetLabel, screen: S) -> (item: Self)
        ensures
            item matches MenuItem::Screen(label, icon, target) && label@ == s.label()
                && icon == MenuIcon::NoIcon && target == screen,
    {
        MenuItem::Screen(s.into_widget_label(), MenuIcon::NoIcon, screen)
    }

    /// An entry that carries out `action`.
    pub fn action(s: impl IntoWidgetLabel, action: A) -> (item: Self)
        ensures
            item matches MenuItem::Action(label, icon, target) && label@ == s.label()
                && icon == MenuIcon::NoIcon && target == action,
    {
        MenuItem::Action(s.into_widget_label(), MenuIcon::NoIcon, action)
    }

    /// A line of text that cannot be selected.
    pub fn label(s: impl IntoWidgetLabel) -> (item: Self)
        ensures
            item matches MenuItem::Label(label, icon) && label@ == s.label() && icon
                == MenuIcon::NoIcon,
    {
        MenuItem::Label(s.into_widget_label(), MenuIcon::NoIcon)
    }

    /// A headline that cannot be selected.
    pub fn headline(s: impl IntoWidgetLabel) -> (item: Self)
        ensures
            item matches MenuItem::Headline(label, icon) && label@ == s.label() && icon
                == MenuIcon::NoIcon,
    {
        MenuItem::Headline(s.into_widget_label(), MenuIcon::NoIcon)
    }

    /// A decorative image that cannot be selected.
    pub fn image(s: HostKey) -> (item: Self)
        ensures
            item == MenuItem::<S, A>::Image(s, None),
    {
        MenuItem::Image(s, None)
    }

    /// Replaces the icon. An image has no icon and stays as it is.
    pub fn with_icon(self, icon: MenuIcon) -> (item: Self)
        ensures
            item == self.spec_with_icon(icon),
    {
        match self {
            MenuItem::Screen(a, _, b) => MenuItem::Screen(a, icon, b),
            MenuItem::Action(a, _, b) => MenuItem::Action(a, icon, b),
            MenuItem::Label(a, _) => MenuItem::Label(a, icon),
            MenuItem::Headline(a, _) => MenuItem::Headline(a, icon),
            MenuItem::Image(a, b) => MenuItem::Image(a, b),
        }
    }

    /// Gives the entry the icon of a ticked or an empty box.
    pub fn checked(self, checked: bool) -> (item: Self)
        ensures
            item == self.spec_with_icon(
                if checked {
                    MenuIcon::Checked
                } else {
                    MenuIcon::Unchecked
                },
            ),
    {
        if checked {
            self.with_icon(MenuIcon::Checked)
        } else {
            self.with_icon(MenuIcon::Unchecked)
        }
    }

    /// What choosing this entry yields.
    pub fn as_selection(&self) -> (selection: MenuSelection<S, A>)
        ensures
            selection == self@.selection(),
    {
        match self {
            MenuItem::Screen(_, _, a) => MenuSelection::Screen(*a),
            MenuItem::Action(_, _, a) => MenuSelection::Action(*a),
            MenuItem::Label(_, _) => MenuSelection::Nothing,
            MenuItem::Headline(_, _) => MenuSelection::Nothing,
            MenuItem::Image(_, _) => MenuSelection::Nothing,
        }
    }

    /// Whether the cursor can rest on this entry.
    pub fn is_selectable(&self) -> (selectable: bool)
        ensures
            selectable == self@.selectable(),
    {
        match self {
            MenuItem::Label(_, _) => false,
            MenuItem::Headline(_, _) => false,
            MenuItem::Image(_, _) => false,
            _ => true,
        }
    }

    /// Whether this entry is a plain label.
    pub fn is_label(&self) -> (label: bool)
        ensures
            label == (self@ is Label),
    {
        match self {
            MenuItem::Label(_, _) => true,
            _ => false,
        }
    }
}

/// The entries of a menu as the navigation rules read them.
pub open spec fn item_models<S, A>(entries: Seq<MenuItem<S, A>>) -> Seq<ItemModel<S, A>> {
    Seq::new(entries.len(), |i: int| entries[i]@)
}

/// What the navigation rules read of a menu: the text of its identifier and
/// its entries in order.
pub struct MenuModel<S, A> {
    pub id: Seq<char>,
    pub entries: Seq<ItemModel<S, A>>,
}

/// One screen's content: an identifier that stays the same from one redraw
/// to the next, the entries in the order in which they are shown, and what
/// the host should use in place of the usual layout and background.
#[derive(Debug)]
pub struct Menu<S, A> {
    pub id: WidgetId,
    pub entries: Vec<MenuItem<S, A>>,
    pub style: Option<HostKey>,
    pub background: Option<HostKey>,
}

impl<S, A> View for Menu<S, A> {
    type V = MenuModel<S, A>;

    open spec fn view(&self) -> MenuModel<S, A> {
        MenuModel { id: self.id@, entries: item_models(self.entries@) }
    }
}

impl<S, A> Menu<S, A> {
    /// A menu with the usual layout and background.
    pub fn new(id: impl IntoWidgetId, entries: Vec<MenuItem<S, A>>) -> (menu: Self)
        ensures
            menu.id@ == id.name(),
            menu.entries == entries,
            menu.style is None,
            menu.background is None,
    {
        let id = id.into_widget_id();
        Menu { id, entries, style: None, background: None }
    }

    /// Sets the background that the host draws behind the menu.
    pub fn with_background(self, bg: HostKey) -> (menu: Self)
        ensures
            menu.id == self.id,
            menu.entries == self.entries,
            menu.style == self.style,
            menu.background == Some(bg),
    {
        let mut menu = self;
        menu.background = Some(bg);
        menu
    }

    /// Sets the layout that the host gives the menu.
    pub fn with_style(self, style: HostKey) -> (menu: Self)
        ensures
            menu.id == self.id,
            menu.entries == self.entries,
            menu.style == Some(style),
            menu.background == self.background,
    {
        let mut menu = self;
        menu.style = Some(style);
        menu
    }
}

} // verus!
