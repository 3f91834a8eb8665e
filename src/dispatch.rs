//! What a single menu activation does, given the build variant and the state of
//! the devtools panel.
use vstd::prelude::*;

use crate::command::{command_id, command_of, lemma_command_id_injective, lemma_command_of_id, Command};
use crate::menu::{in_menu, lemma_menu_commands, menu_model, tree_commands, tree_ids, AppMenu, BuildVariant};

verus! {

/// The effect one activation asks of the main window.
#[derive(Clone, Copy, Debug, PartialEq, Eq, Structural)]
pub enum MenuAction {
    /// Emit a payload-less event named by the command's identifier.
    Forward(Command),
    /// Open the devtools panel and give the window input focus.
    OpenDevtools,
    /// Close the devtools panel.
    CloseDevtools,
    /// Do nothing: the identifier names no item of the menu.
    Ignore,
}

/// The action for an activation of `id` in a process built as `variant`, while
/// the devtools panel is open or not. Identifiers of no item of that variant's
/// menu are ignored.
pub open spec fn action_for(id: Seq<char>, variant: BuildVariant, devtools_open: bool) -> MenuAction {
    match command_of(id) {
        Some(c) => if !in_menu(c, variant) {
            MenuAction::Ignore
        } else if c == Command::ConsoleToggle {
            if devtools_open {
                MenuAction::CloseDevtools
            } else {
                MenuAction::OpenDevtools
            }
        } else {
            MenuAction::Forward(c)
        },
        None => MenuAction::Ignore,
    }
}

impl AppMenu {
    /// Decides what the activation of the entry with identifier `id` does in a
    /// process built as `variant`.
    pub fn on_menu_event(id: &str, variant: BuildVariant, devtools_open: bool) -> (r: MenuAction)
        ensures
            r == action_for(id@, variant, devtools_open),
    {
        match Command::from_id(id) {
            Some(c) => {
                let console = c == Command::ConsoleToggle || c == Command::ConsoleClear;
                if variant == BuildVariant::Release && console {
                    MenuAction::Ignore
                } else if c == Command::ConsoleToggle {
                    if devtools_open {
                        MenuAction::CloseDevtools
                    } else {
                        MenuAction::OpenDevtools
                    }
                } else {
                    MenuAction::Forward(c)
                }
            },
            None => MenuAction::Ignore,
        }
    }
}

/// What the main window shows of the activations handled so far.
pub struct WindowModel {
    pub devtools_open: bool,
    pub focused: bool,
    /// The names of the events emitted, oldest first; none carries a payload.
    pub events: Seq<Seq<char>>,
}

/// The window after it carried out `a`.
pub open spec fn perform(w: WindowModel, a: MenuAction) -> WindowModel {
    match a {
        MenuAction::Forward(c) => WindowModel { events: w.events.push(command_id(c)), ..w },
        MenuAction::OpenDevtools => WindowModel { devtools_open: true, focused: true, ..w },
        MenuAction::CloseDevtools => WindowModel { devtools_open: false, ..w },
        MenuAction::Ignore => w,
    }
}

/// The window after the activation of `id` in a process built as `variant`.
pub open spec fn handle(w: WindowModel, variant: BuildVariant, id: Seq<char>) -> WindowModel {
    perform(w, action_for(id, variant, w.devtools_open))
}

/// The window after the activations of `ids`, in order.
pub open spec fn handle_all(w: WindowModel, variant: BuildVariant, ids: Seq<Seq<char>>) -> WindowModel
    decreases ids.len(),
{
    if ids.len() == 0 {
        w
    } else {
        handle_all(handle(w, variant, ids[0]), variant, ids.drop_first())
    }
}

proof fn lemma_handle_all_single(w: WindowModel, variant: BuildVariant, id: Seq<char>)
    ensures
        handle_all(w, variant, seq![id]) == handle(w, variant, id),
{
    let ids = seq![id];
    assert(ids.drop_first() =~= Seq::<Seq<char>>::empty());
    assert(handle_all(handle(w, variant, id), variant, ids.drop_first()) == handle(w, variant, id));
}

proof fn lemma_handle_all_append(
    w: WindowModel,
    variant: BuildVariant,
    a: Seq<Seq<char>>,
    b: Seq<Seq<char>>,
)
    ensures
        handle_all(w, variant, a + b) == handle_all(handle_all(w, variant, a), variant, b),
    decreases a.len(),
{
    if a.len() == 0 {
        assert(a + b =~= b);
    } else {
        assert((a + b)[0] == a[0]);
        assert((a + b).drop_first() =~= a.drop_first() + b);
        lemma_handle_all_append(handle(w, variant, a[0]), variant, a.drop_first(), b);
    }
}

/// Activations of identifiers other than the toggle's leave the devtools panel
/// and the window's focus as they were.
pub proof fn lemma_others_keep_devtools(w: WindowModel, variant: BuildVariant, ids: Seq<Seq<char>>)
    requires
        forall|i: int| 0 <= i < ids.len() ==> ids[i] != command_id(Command::ConsoleToggle),
    ensures
        handle_all(w, variant, ids).devtools_open == w.devtools_open,
        handle_all(w, variant, ids).focused == w.focused,
    decreases ids.len(),
{
    if ids.len() > 0 {
        assert(ids[0] != command_id(Command::ConsoleToggle));
        assert(command_of(ids[0]) != Some(Command::ConsoleToggle));
        assert forall|i: int| 0 <= i < ids.drop_first().len() implies ids.drop_first()[i]
            != command_id(Command::ConsoleToggle) by {
            assert(ids.drop_first()[i] == ids[i + 1]);
        }
        lemma_others_keep_devtools(handle(w, variant, ids[0]), variant, ids.drop_first());
    }
}

/// In a debug process, from a closed panel, the toggle opens the devtools and
/// focuses the window; a second toggle closes them again, however many Clear
/// Console activations came in between.
pub proof fn lemma_toggle_round_trip(w: WindowModel, clears: nat)
    requires
        !w.devtools_open,
    ensures
        ({
            let debug = BuildVariant::Debug;
            let toggle = seq![command_id(Command::ConsoleToggle)];
            let between = Seq::new(clears, |i: int| command_id(Command::ConsoleClear));
            &&& handle_all(w, debug, toggle).devtools_open
            &&& handle_all(w, debug, toggle).focused
            &&& handle_all(w, debug, toggle + between).devtools_open
            &&& handle_all(w, debug, toggle + between).focused
            &&& !handle_all(w, debug, toggle + between + toggle).devtools_open
        }),
{
    let debug = BuildVariant::Debug;
    let toggle = seq![command_id(Command::ConsoleToggle)];
    let between = Seq::new(clears, |i: int| command_id(Command::ConsoleClear));
    lemma_command_of_id(Command::ConsoleToggle);
    lemma_command_id_injective(Command::ConsoleToggle, Command::ConsoleClear);
    lemma_handle_all_single(w, debug, command_id(Command::ConsoleToggle));
    let opened = handle_all(w, debug, toggle);
    lemma_handle_all_append(w, debug, toggle, between);
    lemma_others_keep_devtools(opened, debug, between);
    lemma_handle_all_append(w, debug, toggle + between, toggle);
    let after = handle_all(w, debug, toggle + between);
    lemma_handle_all_single(after, debug, command_id(Command::ConsoleToggle));
}

/// An identifier of an item of the menu built for `variant`, other than the
/// toggle's, is forwarded as exactly one event of that name, and the devtools
/// panel is left alone.
pub proof fn lemma_forward_one_event(
    w: WindowModel,
    app_name: Seq<char>,
    variant: BuildVariant,
    id: Seq<char>,
)
    requires
        tree_ids(menu_model(app_name, variant)).contains(id),
        id != command_id(Command::ConsoleToggle),
    ensures
        handle(w, variant, id) == (WindowModel { events: w.events.push(id), ..w }),
{
    lemma_menu_commands(app_name, variant);
    let cs = tree_commands(menu_model(app_name, variant));
    let i = choose|i: int|
        0 <= i < tree_ids(menu_model(app_name, variant)).len() && tree_ids(
            menu_model(app_name, variant),
        )[i] == id;
    let c = cs[i];
    assert(cs.contains(c));
    lemma_command_of_id(c);
}

/// An identifier of no item of the menu built for `variant` changes nothing.
pub proof fn lemma_unknown_id_ignored(
    w: WindowModel,
    app_name: Seq<char>,
    variant: BuildVariant,
    id: Seq<char>,
)
    requires
        !tree_ids(menu_model(app_name, variant)).contains(id),
    ensures
        handle(w, variant, id) == w,
{
    lemma_menu_commands(app_name, variant);
    let cs = tree_commands(menu_model(app_name, variant));
    let ids = tree_ids(menu_model(app_name, variant));
    if let Some(c) = command_of(id) {
        if in_menu(c, variant) {
            assert(cs.contains(c));
            let j = choose|j: int| 0 <= j < cs.len() && cs[j] == c;
            assert(ids[j] == id);
        }
    }
}

/// No identifier that the menu built for `variant` carries is ignored by the
/// dispatcher in that variant.
pub proof fn lemma_menu_ids_recognised(app_name: Seq<char>, variant: BuildVariant, devtools_open: bool)
    ensures
        forall|i: int|
            0 <= i < tree_ids(menu_model(app_name, variant)).len() ==> action_for(
                #[trigger] tree_ids(menu_model(app_name, variant))[i],
                variant,
                devtools_open,
            ) != MenuAction::Ignore,
{
    lemma_menu_commands(app_name, variant);
    let cs = tree_commands(menu_model(app_name, variant));
    let ids = tree_ids(menu_model(app_name, variant));
    assert forall|i: int| 0 <= i < ids.len() implies action_for(
        #[trigger] ids[i],
        variant,
        devtools_open,
    ) != MenuAction::Ignore by {
        assert(cs.contains(cs[i]));
        lemma_command_of_id(cs[i]);
    }
}

} // verus!
