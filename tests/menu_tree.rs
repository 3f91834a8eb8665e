use refstudio_menu::{AppMenu, BuildVariant, Command, MenuEntry, MenuTree, NativeAction, Submenu};

fn labels(tree: &MenuTree) -> Vec<String> {
    tree.submenus.iter().map(|s| s.label.clone()).collect()
}

fn item_ids(tree: &MenuTree) -> Vec<String> {
    let mut ids = Vec::new();
    for submenu in &tree.submenus {
        for entry in &submenu.entries {
            if let MenuEntry::Item { command, .. } = entry {
                ids.push(command.id().to_string());
            }
        }
    }
    ids
}

fn find<'a>(tree: &'a MenuTree, label: &str) -> &'a Submenu {
    tree.submenus.iter().find(|s| s.label == label).unwrap()
}

fn item(command: Command, label: &str, accelerator: Option<&str>) -> MenuEntry {
    MenuEntry::Item {
        command,
        label: label.to_string(),
        accelerator: accelerator.map(|a| a.to_string()),
    }
}

#[test]
fn release_menu_has_no_debug_submenu() {
    let tree = AppMenu::get_menu("Studio", BuildVariant::Release);
    assert_eq!(labels(&tree), vec!["", "File", "Edit", "References", "View", "Window"]);
    assert!(!item_ids(&tree).iter().any(|id| id.contains("/debug/")));
}

#[test]
fn debug_menu_has_one_debug_submenu_with_two_ids() {
    let tree = AppMenu::get_menu("Studio", BuildVariant::Debug);
    assert_eq!(
        labels(&tree),
        vec!["", "File", "Edit", "References", "View", "Window", "Debug"]
    );
    assert_eq!(tree.submenus.iter().filter(|s| s.label == "Debug").count(), 1);
    let debug = find(&tree, "Debug");
    let ids: Vec<&str> = debug
        .entries
        .iter()
        .map(|e| match e {
            MenuEntry::Item { command, .. } => command.id(),
            _ => panic!("the Debug submenu holds items only"),
        })
        .collect();
    assert_eq!(
        ids,
        vec![
            "refstudio://menu/debug/console/toggle",
            "refstudio://menu/debug/console/clear"
        ]
    );
}

#[test]
fn item_ids_are_unique_in_both_variants() {
    for variant in [BuildVariant::Debug, BuildVariant::Release] {
        let ids = item_ids(&AppMenu::get_menu("Studio", variant));
        let mut sorted = ids.clone();
        sorted.sort();
        sorted.dedup();
        assert_eq!(sorted.len(), ids.len());
    }
    assert_eq!(item_ids(&AppMenu::get_menu("Studio", BuildVariant::Debug)).len(), 14);
    assert_eq!(item_ids(&AppMenu::get_menu("Studio", BuildVariant::Release)).len(), 12);
}

#[test]
fn studio_about_label_and_debug_accelerators() {
    let tree = AppMenu::get_menu("Studio", BuildVariant::Debug);
    assert_eq!(
        tree.submenus[0].entries[0],
        MenuEntry::Native(NativeAction::About("Studio".to_string()))
    );
    let debug = find(&tree, "Debug");
    assert_eq!(
        debug.entries,
        vec![
            item(Command::ConsoleToggle, "Toggle Console", Some("F12")),
            item(Command::ConsoleClear, "Clear Console", Some("Shift+F12")),
        ]
    );
}

#[test]
fn empty_app_name_still_renders_about() {
    let tree = AppMenu::get_menu("", BuildVariant::Release);
    assert_eq!(
        tree.submenus[0].entries[0],
        MenuEntry::Native(NativeAction::About(String::new()))
    );
}

#[test]
fn application_submenu_layout() {
    let tree = AppMenu::get_menu("Studio", BuildVariant::Release);
    assert_eq!(
        tree.submenus[0].entries,
        vec![
            MenuEntry::Native(NativeAction::About("Studio".to_string())),
            MenuEntry::Separator,
            item(Command::Settings, "Settings", Some("cmdOrControl+,")),
            MenuEntry::Separator,
            MenuEntry::Native(NativeAction::Services),
            MenuEntry::Native(NativeAction::Hide),
            MenuEntry::Native(NativeAction::HideOthers),
            MenuEntry::Separator,
            MenuEntry::Native(NativeAction::Quit),
        ]
    );
}

#[test]
fn file_submenu_layout() {
    let tree = AppMenu::get_menu("Studio", BuildVariant::Release);
    assert_eq!(
        find(&tree, "File").entries,
        vec![
            item(Command::FileNew, "New File", Some("cmdOrControl+N")),
            item(Command::FileSave, "Save", Some("cmdOrControl+S")),
            item(Command::FileMarkdown, "Save File as Markdown...", None),
            MenuEntry::Separator,
            item(Command::ProjectNew, "New Project", None),
            item(Command::ProjectOpen, "Open Project", None),
            item(Command::ProjectClose, "Close Project", None),
            MenuEntry::Separator,
            item(Command::FileClose, "Close Editor", Some("cmdOrControl+W")),
            item(Command::FileCloseAll, "Close All Editors", None),
        ]
    );
}

#[test]
fn edit_references_view_window_layout() {
    let tree = AppMenu::get_menu("Studio", BuildVariant::Release);
    assert_eq!(
        find(&tree, "Edit").entries,
        vec![
            MenuEntry::Native(NativeAction::Undo),
            MenuEntry::Native(NativeAction::Redo),
            MenuEntry::Separator,
            MenuEntry::Native(NativeAction::Cut),
            MenuEntry::Native(NativeAction::Copy),
            MenuEntry::Native(NativeAction::Paste),
            MenuEntry::Native(NativeAction::SelectAll),
        ]
    );
    assert_eq!(
        find(&tree, "References").entries,
        vec![
            item(Command::ReferencesOpen, "Open", Some("cmdOrControl+R")),
            item(Command::ReferencesUpload, "Upload...", None),
        ]
    );
    assert_eq!(
        find(&tree, "View").entries,
        vec![
            MenuEntry::Native(NativeAction::EnterFullScreen),
            item(Command::ViewNotifications, "Notifications", Some("F11")),
        ]
    );
    assert_eq!(
        find(&tree, "Window").entries,
        vec![
            MenuEntry::Native(NativeAction::Minimize),
            MenuEntry::Native(NativeAction::Zoom),
        ]
    );
}

#[test]
fn variant_resolution() {
    assert_eq!(BuildVariant::resolve(true, false), BuildVariant::Debug);
    assert_eq!(BuildVariant::resolve(false, true), BuildVariant::Debug);
    assert_eq!(BuildVariant::resolve(true, true), BuildVariant::Debug);
    assert_eq!(BuildVariant::resolve(false, false), BuildVariant::Release);
}

#[test]
fn builders_append_in_order() {
    let submenu = Submenu::new("Extra")
        .add(MenuEntry::Separator)
        .add(MenuEntry::Native(NativeAction::Quit));
    assert_eq!(submenu.label, "Extra");
    assert_eq!(
        submenu.entries,
        vec![MenuEntry::Separator, MenuEntry::Native(NativeAction::Quit)]
    );
    let tree = MenuTree::new().add_submenu(submenu.clone());
    assert_eq!(tree.submenus, vec![submenu]);
}
