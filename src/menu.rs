//! The menu tree: submenus of command items, platform actions and separators.
use vstd::prelude::*;

use crate::command::{command_id, lemma_command_id_injective, Command};

verus! {

/// Whether the developer tooling (the Debug submenu, devtools toggling) is exposed.
#[derive(Clone, Copy, Debug, PartialEq, Eq, Structural)]
pub enum BuildVariant {
    Debug,
    Release,
}

impl BuildVariant {
    /// A debug build, or a build whose devtools were explicitly enabled, is `Debug`.
    pub fn resolve(debug_build: bool, devtools_enabled: bool) -> (r: BuildVariant)
        ensures
            r == (if debug_build || devtools_enabled {
                BuildVariant::Debug
            } else {
                BuildVariant::Release
            }),
    {
        if debug_build || devtools_enabled {
            BuildVariant::Debug
        } else {
            BuildVariant::Release
        }
    }
}

/// An entry whose behaviour the host platform carries out without dispatch.
#[derive(Clone, Debug, PartialEq, Eq)]
pub enum NativeAction {
    /// The About entry, labelled with the application's name.
    About(String),
    Services,
    Hide,
    HideOthers,
    Quit,
    Undo,
    Redo,
    Cut,
    Copy,
    Paste,
    SelectAll,
    EnterFullScreen,
    Minimize,
    Zoom,
}

/// A native action as the contracts see it: labels as character sequences.
pub enum NativeActionView {
    About(Seq<char>),
    Services,
    Hide,
    HideOthers,
    Quit,
    Undo,
    Redo,
    Cut,
    Copy,
    Paste,
    SelectAll,
    EnterFullScreen,
    Minimize,
    Zoom,
}

impl View for NativeAction {
    type V = NativeActionView;

    open spec fn view(&self) -> NativeActionView {
        match self {
            NativeAction::About(name) => NativeActionView::About(name@),
            NativeAction::Services => NativeActionView::Services,
            NativeAction::Hide => NativeActionView::Hide,
            NativeAction::HideOthers => NativeActionView::HideOthers,
            NativeAction::Quit => NativeActionView::Quit,
            NativeAction::Undo => NativeActionView::Undo,
            NativeAction::Redo => NativeActionView::Redo,
            NativeAction::Cut => NativeActionView::Cut,
            NativeAction::Copy => NativeActionView::Copy,
            NativeAction::Paste => NativeActionView::Paste,
            NativeAction::SelectAll => NativeActionView::SelectAll,
            NativeAction::EnterFullScreen => NativeActionView::EnterFullScreen,
            NativeAction::Minimize => NativeActionView::Minimize,
            NativeAction::Zoom => NativeActionView::Zoom,
        }
    }
}

/// One entry of a submenu.
#[derive(Clone, Debug, PartialEq, Eq)]
pub enum MenuEntry {
    /// An interactive entry: activating it dispatches `command`.
    Item { command: Command, label: String, accelerator: Option<String> },
    Native(NativeAction),
    Separator,
}

/// A menu entry as the contracts see it.
pub enum MenuEntryView {
    Item { command: Command, label: Seq<char>, accelerator: Option<Seq<char>> },
    Native(NativeActionView),
    Separator,
}

/// An optional text as an optional character sequence.
pub open spec fn option_text_view(o: Option<String>) -> Option<Seq<char>> {
    match o {
        Some(s) => Some(s@),
        None => None,
    }
}

impl View for MenuEntry {
    type V = MenuEntryView;

    open spec fn view(&self) -> MenuEntryView {
        match self {
            MenuEntry::Item { command, label, accelerator } => MenuEntryView::Item {
                command: *command,
                label: label@,
                accelerator: option_text_view(*accelerator),
            },
            MenuEntry::Native(a) => MenuEntryView::Native(a@),
            MenuEntry::Separator => MenuEntryView::Separator,
        }
    }
}

/// A labelled, ordered group of entries.
#[derive(Clone, Debug, PartialEq, Eq)]
pub struct Submenu {
    pub label: String,
    pub entries: Vec<MenuEntry>,
}

/// A submenu as the contracts see it.
pub struct SubmenuView {
    pub label: Seq<char>,
    pub entries: Seq<MenuEntryView>,
}

impl View for Submenu {
    type V = SubmenuView;

    open spec fn view(&self) -> SubmenuView {
        SubmenuView { label: self.label@, entries: self.entries@.map_values(|e: MenuEntry| e@) }
    }
}

impl Submenu {
    /// An empty submenu.
    pub fn new(label: &str) -> (r: Submenu)
        ensures
            r@ == (SubmenuView { label: label@, entries: Seq::empty() }),
    {
        let r = Submenu { label: label.to_owned(), entries: Vec::new() };
        assert(r@.entries =~= Seq::empty());
        r
    }

    /// This submenu with `entry` appended.
    pub fn add(self, entry: MenuEntry) -> (r: Submenu)
        ensures
            r@ == (SubmenuView { label: self@.label, entries: self@.entries.push(entry@) }),
    {
        let ghost before = self@.entries;
        let mut r = self;
        r.entries.push(entry);
        assert(r@.entries =~= before.push(entry@));
        r
    }
}

/// The whole menu: its top-level submenus, in order.
#[derive(Clone, Debug, PartialEq, Eq)]
pub struct MenuTree {
    pub submenus: Vec<Submenu>,
}

impl View for MenuTree {
    type V = Seq<SubmenuView>;

    open spec fn view(&self) -> Seq<SubmenuView> {
        self.submenus@.map_values(|s: Submenu| s@)
    }
}

impl MenuTree {
    /// A menu with no submenus.
    pub fn new() -> (r: MenuTree)
        ensures
            r@ == Seq::<SubmenuView>::empty(),
    {
        let r = MenuTree { submenus: Vec::new() };
        assert(r@ =~= Seq::<SubmenuView>::empty());
        r
    }

    /// This menu with `submenu` appended.
    pub fn add_submenu(self, submenu: Submenu) -> (r: MenuTree)
        ensures
            r@ == self@.push(submenu@),
    {
        let ghost before = self@;
        let mut r = self;
        r.submenus.push(submenu);
        assert(r@ =~= before.push(submenu@));
        r
    }
}

pub open spec fn item_view(command: Command, label: Seq<char>, accelerator: Option<Seq<char>>) -> MenuEntryView {
    MenuEntryView::Item { command, label, accelerator }
}

pub open spec fn native_view(action: NativeActionView) -> MenuEntryView {
    MenuEntryView::Native(action)
}

/// About, Settings, the platform's services and hide actions, Quit.
pub open spec fn application_model(app_name: Seq<char>) -> SubmenuView {
    SubmenuView {
        label: ""@,
        entries: seq![
            native_view(NativeActionView::About(app_name)),
            MenuEntryView::Separator,
            item_view(Command::Settings, "Settings"@, Some("cmdOrControl+,"@)),
            MenuEntryView::Separator,
            native_view(NativeActionView::Services),
            native_view(NativeActionView::Hide),
            native_view(NativeActionView::HideOthers),
            MenuEntryView::Separator,
            native_view(NativeActionView::Quit),
        ],
    }
}

/// Editor files, then projects, then closing editors.
pub open spec fn file_model() -> SubmenuView {
    SubmenuView {
        label: "File"@,
        entries: seq![
            item_view(Command::FileNew, "New File"@, Some("cmdOrControl+N"@)),
            item_view(Command::FileSave, "Save"@, Some("cmdOrControl+S"@)),
            item_view(Command::FileMarkdown, "Save File as Markdown..."@, None),
            MenuEntryView::Separator,
            item_view(Command::ProjectNew, "New Project"@, None),
            item_view(Command::ProjectOpen, "Open Project"@, None),
            item_view(Command::ProjectClose, "Close Project"@, None),
            MenuEntryView::Separator,
            item_view(Command::FileClose, "Close Editor"@, Some("cmdOrControl+W"@)),
            item_view(Command::FileCloseAll, "Close All Editors"@, None),
        ],
    }
}

/// Undo, redo and the clipboard, all carried out by the platform.
pub open spec fn edit_model() -> SubmenuView {
    SubmenuView {
        label: "Edit"@,
        entries: seq![
            native_view(NativeActionView::Undo),
            native_view(NativeActionView::Redo),
            MenuEntryView::Separator,
            native_view(NativeActionView::Cut),
            native_view(NativeActionView::Copy),
            native_view(NativeActionView::Paste),
            native_view(NativeActionView::SelectAll),
        ],
    }
}

pub open spec fn references_model() -> SubmenuView {
    SubmenuView {
        label: "References"@,
        entries: seq![
            item_view(Command::ReferencesOpen, "Open"@, Some("cmdOrControl+R"@)),
            item_view(Command::ReferencesUpload, "Upload..."@, None),
        ],
    }
}

pub open spec fn view_model() -> SubmenuView {
    SubmenuView {
        label: "View"@,
        entries: seq![
            native_view(NativeActionView::EnterFullScreen),
            item_view(Command::ViewNotifications, "Notifications"@, Some("F11"@)),
        ],
    }
}

pub open spec fn window_model() -> SubmenuView {
    SubmenuView {
        label: "Window"@,
        entries: seq![
            native_view(NativeActionView::Minimize),
            native_view(NativeActionView::Zoom),
        ],
    }
}

/// The developer console, present only in the `Debug` variant.
pub open spec fn debug_model() -> SubmenuView {
    SubmenuView {
        label: "Debug"@,
        entries: seq![
            item_view(Command::ConsoleToggle, "Toggle Console"@, Some("F12"@)),
            item_view(Command::ConsoleClear, "Clear Console"@, Some("Shift+F12"@)),
        ],
    }
}

/// The menu built for `app_name` in `variant`.
pub open spec fn menu_model(app_name: Seq<char>, variant: BuildVariant) -> Seq<SubmenuView> {
    let base = seq![
        application_model(app_name),
        file_model(),
        edit_model(),
        references_model(),
        view_model(),
        window_model(),
    ];
    if variant == BuildVariant::Debug {
        base.push(debug_model())
    } else {
        base
    }
}

/// The commands of the items among `entries`, in order.
pub open spec fn item_commands(entries: Seq<MenuEntryView>) -> Seq<Command>
    decreases entries.len(),
{
    if entries.len() == 0 {
        Seq::empty()
    } else {
        let rest = item_commands(entries.drop_first());
        match entries[0] {
            MenuEntryView::Item { command, .. } => seq![command] + rest,
            _ => rest,
        }
    }
}

/// The commands of all items of `tree`, submenu by submenu.
pub open spec fn tree_commands(tree: Seq<SubmenuView>) -> Seq<Command>
    decreases tree.len(),
{
    if tree.len() == 0 {
        Seq::empty()
    } else {
        item_commands(tree[0].entries) + tree_commands(tree.drop_first())
    }
}

/// The identifiers of all items of `tree`.
pub open spec fn tree_ids(tree: Seq<SubmenuView>) -> Seq<Seq<char>> {
    tree_commands(tree).map_values(|c: Command| command_id(c))
}

/// The item commands of the menu without its Debug submenu, in menu order.
pub open spec fn release_commands() -> Seq<Command> {
    seq![
        Command::Settings,
        Command::FileNew,
        Command::FileSave,
        Command::FileMarkdown,
        Command::ProjectNew,
        Command::ProjectOpen,
        Command::ProjectClose,
        Command::FileClose,
        Command::FileCloseAll,
        Command::ReferencesOpen,
        Command::ReferencesUpload,
        Command::ViewNotifications,
    ]
}

proof fn lemma_tree_commands(app_name: Seq<char>, variant: BuildVariant)
    ensures
        tree_commands(menu_model(app_name, variant)) == (if variant == BuildVariant::Debug {
            release_commands() + seq![Command::ConsoleToggle, Command::ConsoleClear]
        } else {
            release_commands()
        }),
{
    reveal_with_fuel(item_commands, 11);
    reveal_with_fuel(tree_commands, 8);
    assert(item_commands(application_model(app_name).entries) =~= seq![Command::Settings]);
    assert(item_commands(file_model().entries) =~= seq![
        Command::FileNew,
        Command::FileSave,
        Command::FileMarkdown,
        Command::ProjectNew,
        Command::ProjectOpen,
        Command::ProjectClose,
        Command::FileClose,
        Command::FileCloseAll,
    ]);
    assert(item_commands(edit_model().entries) =~= Seq::<Command>::empty());
    assert(item_commands(references_model().entries) =~= seq![
        Command::ReferencesOpen,
        Command::ReferencesUpload,
    ]);
    assert(item_commands(view_model().entries) =~= seq![Command::ViewNotifications]);
    assert(item_commands(window_model().entries) =~= Seq::<Command>::empty());
    assert(item_commands(debug_model().entries) =~= seq![
        Command::ConsoleToggle,
        Command::ConsoleClear,
    ]);
    assert(tree_commands(menu_model(app_name, variant)) =~= (if variant == BuildVariant::Debug {
        release_commands() + seq![Command::ConsoleToggle, Command::ConsoleClear]
    } else {
        release_commands()
    }));
}

/// Whether the menu built for `variant` has an item for `c`: the console
/// commands exist only in the `Debug` variant.
pub open spec fn in_menu(c: Command, variant: BuildVariant) -> bool {
    variant == BuildVariant::Debug || (c != Command::ConsoleToggle && c != Command::ConsoleClear)
}

/// The menu built for `variant` has an item for a command exactly when
/// `in_menu` admits it.
pub proof fn lemma_menu_commands(app_name: Seq<char>, variant: BuildVariant)
    ensures
        forall|c: Command|
            tree_commands(menu_model(app_name, variant)).contains(c) <==> in_menu(c, variant),
{
    lemma_tree_commands(app_name, variant);
    let cs = tree_commands(menu_model(app_name, variant));
    assert forall|c: Command| cs.contains(c) <==> in_menu(c, variant) by {
        if cs.contains(c) {
            let i = choose|i: int| 0 <= i < cs.len() && cs[i] == c;
            if variant == BuildVariant::Release {
                assert(release_commands()[i] == c);
            }
        }
        if in_menu(c, variant) {
            match c {
            Command::Settings => assert(cs[0] == c),
            Command::FileNew => assert(cs[1] == c),
            Command::FileSave => assert(cs[2] == c),
            Command::FileMarkdown => assert(cs[3] == c),
            Command::ProjectNew => assert(cs[4] == c),
            Command::ProjectOpen => assert(cs[5] == c),
            Command::ProjectClose => assert(cs[6] == c),
            Command::FileClose => assert(cs[7] == c),
            Command::FileCloseAll => assert(cs[8] == c),
            Command::ReferencesOpen => assert(cs[9] == c),
            Command::ReferencesUpload => assert(cs[10] == c),
            Command::ViewNotifications => assert(cs[11] == c),
                Command::ConsoleToggle => assert(cs[12] == c),
                Command::ConsoleClear => assert(cs[13] == c),
            }
        }
    }
}

/// No two items of a built menu share an identifier, in either variant.
pub proof fn lemma_item_ids_unique(app_name: Seq<char>, variant: BuildVariant)
    ensures
        tree_ids(menu_model(app_name, variant)).no_duplicates(),
{
    lemma_tree_commands(app_name, variant);
    let cs = tree_commands(menu_model(app_name, variant));
    assert(cs.no_duplicates());
    let ids = tree_ids(menu_model(app_name, variant));
    assert forall|i: int, j: int| 0 <= i < ids.len() && 0 <= j < ids.len() && i != j implies ids[i]
        != ids[j] by {
        lemma_command_id_injective(cs[i], cs[j]);
    }
}

/// A release menu has no Debug submenu. A debug menu has exactly one, the last,
/// whose only entries are Toggle Console and Clear Console, in that order.
pub proof fn lemma_debug_submenu_only_in_debug(app_name: Seq<char>)
    ensures
        forall|i: int|
            0 <= i < menu_model(app_name, BuildVariant::Release).len() ==> menu_model(
                app_name,
                BuildVariant::Release,
            )[i].label != "Debug"@,
        ({
            let t = menu_model(app_name, BuildVariant::Debug);
            &&& t.last().label == "Debug"@
            &&& forall|i: int| 0 <= i < t.len() - 1 ==> t[i].label != "Debug"@
            &&& t.last().entries.len() == 2
            &&& item_commands(t.last().entries) == seq![
                Command::ConsoleToggle,
                Command::ConsoleClear,
            ]
        }),
{
    reveal_strlit("Debug");
    reveal_strlit("");
    reveal_strlit("File");
    reveal_strlit("Edit");
    reveal_strlit("References");
    reveal_strlit("View");
    reveal_strlit("Window");
    reveal_with_fuel(item_commands, 3);
    let r = menu_model(app_name, BuildVariant::Release);
    let t = menu_model(app_name, BuildVariant::Debug);
    assert forall|i: int| 0 <= i < r.len() implies r[i].label != "Debug"@ && t[i].label
        != "Debug"@ by {
        assert(r[i] == t[i]);
        if i == 0 {
            assert(r[i].label.len() == 0);
        } else if i == 1 {
            assert(r[i].label.len() == 4);
        } else if i == 2 {
            assert(r[i].label.len() == 4);
        } else if i == 3 {
            assert(r[i].label.len() == 10);
        } else if i == 4 {
            assert(r[i].label.len() == 4);
        } else {
            assert(r[i].label.len() == 6);
        }
    }
    assert(item_commands(debug_model().entries) =~= seq![
        Command::ConsoleToggle,
        Command::ConsoleClear,
    ]);
}

fn item(command: Command, label: &str) -> (r: MenuEntry)
    ensures
        r@ == item_view(command, label@, None),
{
    MenuEntry::Item { command, label: label.to_owned(), accelerator: None }
}

fn shortcut_item(command: Command, label: &str, accelerator: &str) -> (r: MenuEntry)
    ensures
        r@ == item_view(command, label@, Some(accelerator@)),
{
    MenuEntry::Item { command, label: label.to_owned(), accelerator: Some(accelerator.to_owned()) }
}

fn application_submenu(app_name: &str) -> (r: Submenu)
    ensures
        r@ == application_model(app_name@),
{
    let r = Submenu::new("")
        .add(MenuEntry::Native(NativeAction::About(app_name.to_owned())))
        .add(MenuEntry::Separator)
        .add(shortcut_item(Command::Settings, "Settings", "cmdOrControl+,"))
        .add(MenuEntry::Separator)
        .add(MenuEntry::Native(NativeAction::Services))
        .add(MenuEntry::Native(NativeAction::Hide))
        .add(MenuEntry::Native(NativeAction::HideOthers))
        .add(MenuEntry::Separator)
        .add(MenuEntry::Native(NativeAction::Quit));
    assert(r@.entries =~= application_model(app_name@).entries);
    r
}

fn file_submenu() -> (r: Submenu)
    ensures
        r@ == file_model(),
{
    let r = Submenu::new("File")
        .add(shortcut_item(Command::FileNew, "New File", "cmdOrControl+N"))
        .add(shortcut_item(Command::FileSave, "Save", "cmdOrControl+S"))
        .add(item(Command::FileMarkdown, "Save File as Markdown..."))
        .add(MenuEntry::Separator)
        .add(item(Command::ProjectNew, "New Project"))
        .add(item(Command::ProjectOpen, "Open Project"))
        .add(item(Command::ProjectClose, "Close Project"))
        .add(MenuEntry::Separator)
        .add(shortcut_item(Command::FileClose, "Close Editor", "cmdOrControl+W"))
        .add(item(Command::FileCloseAll, "Close All Editors"));
    assert(r@.entries =~= file_model().entries);
    r
}

fn edit_submenu() -> (r: Submenu)
    ensures
        r@ == edit_model(),
{
    let r = Submenu::new("Edit")
        .add(MenuEntry::Native(NativeAction::Undo))
        .add(MenuEntry::Native(NativeAction::Redo))
        .add(MenuEntry::Separator)
        .add(MenuEntry::Native(NativeAction::Cut))
        .add(MenuEntry::Native(NativeAction::Copy))
        .add(MenuEntry::Native(NativeAction::Paste))
        .add(MenuEntry::Native(NativeAction::SelectAll));
    assert(r@.entries =~= edit_model().entries);
    r
}

fn references_submenu() -> (r: Submenu)
    ensures
        r@ == references_model(),
{
    let r = Submenu::new("References")
        .add(shortcut_item(Command::ReferencesOpen, "Open", "cmdOrControl+R"))
        .add(item(Command::ReferencesUpload, "Upload..."));
    assert(r@.entries =~= references_model().entries);
    r
}

fn view_submenu() -> (r: Submenu)
    ensures
        r@ == view_model(),
{
    let r = Submenu::new("View")
        .add(MenuEntry::Native(NativeAction::EnterFullScreen))
        .add(shortcut_item(Command::ViewNotifications, "Notifications", "F11"));
    assert(r@.entries =~= view_model().entries);
    r
}

fn window_submenu() -> (r: Submenu)
    ensures
        r@ == window_model(),
{
    let r = Submenu::new("Window")
        .add(MenuEntry::Native(NativeAction::Minimize))
        .add(MenuEntry::Native(NativeAction::Zoom));
    assert(r@.entries =~= window_model().entries);
    r
}

fn debug_submenu() -> (r: Submenu)
    ensures
        r@ == debug_model(),
{
    let r = Submenu::new("Debug")
        .add(shortcut_item(Command::ConsoleToggle, "Toggle Console", "F12"))
        .add(shortcut_item(Command::ConsoleClear, "Clear Console", "Shift+F12"));
    assert(r@.entries =~= debug_model().entries);
    r
}

/// The application's menu and the handling of its activations.
pub struct AppMenu {}

impl AppMenu {
    /// Builds the menu for an application named `app_name`.
    pub fn get_menu(app_name: &str, variant: BuildVariant) -> (r: MenuTree)
        ensures
            r@ == menu_model(app_name@, variant),
    {
        let mut menu = MenuTree::new()
            .add_submenu(application_submenu(app_name))
            .add_submenu(file_submenu())
            .add_submenu(edit_submenu())
            .add_submenu(references_submenu())
            .add_submenu(view_submenu())
            .add_submenu(window_submenu());
        let ghost base = menu@;
        assert(base =~= menu_model(app_name@, BuildVariant::Release));
        if variant == BuildVariant::Debug {
            menu = menu.add_submenu(debug_submenu());
        }
        menu
    }
}

} // verus!
