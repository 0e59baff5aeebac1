//! A data-driven navigation menu: screens described as plain data, a stack of
//! the screens that are open, a cursor per menu, and the rules by which
//! navigation events move through them.
pub mod assets;
pub mod helpers;
pub mod laws;
pub mod menu;
pub mod menu_state;
pub mod navigation_menu;
pub mod selections;
pub mod systems;
pub mod text;
pub mod traits;
pub mod types;
pub mod widget_id;
pub mod widgets;

pub use assets::{AssetSlot, AssetSource, MenuAssets, MenuOptions};
pub use menu_state::MenuState;
pub use navigation_menu::{MenuFrame, NavigationMenu};
pub use selections::Selections;
pub use systems::{
    input_system, is_pressable, keyboard_input_system, mouse_system, redraw_system,
    ButtonComponent, Deflection, GamepadInput, Highlight, Interaction, KeyboardInput,
    MouseOutcome,
};
pub use text::{IntoWidgetLabel, RichTextEntry, WidgetLabel};
pub use traits::{ActionTrait, EventSink, ScreenTrait};
pub use types::{HostKey, Menu, MenuIcon, MenuItem, MenuSelection, NavigationEvent, RedrawEvent};
pub use widgets::{MenuRow, RowKind, VerticalMenu};
pub use widget_id::{IntoWidgetId, WidgetId};
