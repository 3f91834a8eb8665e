//! Application menu model and menu-triggered command dispatch.
//!
//! The menu is a plain value built by [`AppMenu::get_menu`]; each interactive
//! entry carries a [`Command`] whose rendering is the namespaced identifier the
//! frontend subscribes to. [`AppMenu::on_menu_event`] decides what a single
//! activation does, given the build variant and whether the devtools panel is
//! currently open.
pub mod command;
pub mod dispatch;
pub mod menu;

pub use command::Command;
pub use dispatch::MenuAction;
pub use menu::{AppMenu, BuildVariant, MenuEntry, MenuTree, NativeAction, Submenu};
