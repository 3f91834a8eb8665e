//! The closed vocabulary of menu commands and their string identifiers.
use vstd::prelude::*;
use vstd::string::*;

verus! {

/// Every interactive menu entry triggers exactly one of these commands.
#[derive(Clone, Copy, Debug, PartialEq, Eq, Structural)]
pub enum Command {
    Settings,
    FileNew,
    FileSave,
    FileMarkdown,
    ProjectNew,
    ProjectOpen,
    ProjectClose,
    FileClose,
    FileCloseAll,
    ReferencesOpen,
    ReferencesUpload,
    ViewNotifications,
    ConsoleToggle,
    ConsoleClear,
}

/// The identifier under which a command is installed in the menu and
/// forwarded to the frontend.
pub open spec fn command_id(c: Command) -> Seq<char> {
    match c {
        Command::Settings => "refstudio://menu/settings"@,
        Command::FileNew => "refstudio://menu/file/new"@,
        Command::FileSave => "refstudio://menu/file/save"@,
        Command::FileMarkdown => "refstudio://menu/file/markdown"@,
        Command::ProjectNew => "refstudio://menu/file/project/new"@,
        Command::ProjectOpen => "refstudio://menu/file/project/open"@,
        Command::ProjectClose => "refstudio://menu/file/project/close"@,
        Command::FileClose => "refstudio://menu/file/close"@,
        Command::FileCloseAll => "refstudio://menu/file/close/all"@,
        Command::ReferencesOpen => "refstudio://menu/references/open"@,
        Command::ReferencesUpload => "refstudio://menu/references/upload"@,
        Command::ViewNotifications => "refstudio://menu/view/notifications"@,
        Command::ConsoleToggle => "refstudio://menu/debug/console/toggle"@,
        Command::ConsoleClear => "refstudio://menu/debug/console/clear"@,
    }
}

/// The command whose identifier is `s`, if there is one.
pub open spec fn command_of(s: Seq<char>) -> Option<Command> {
    if exists|c: Command| #[trigger] command_id(c) == s {
        Some(choose|c: Command| #[trigger] command_id(c) == s)
    } else {
        None
    }
}

/// Distinct commands have distinct identifiers.
pub proof fn lemma_command_id_injective(a: Command, b: Command)
    ensures
        command_id(a) == command_id(b) ==> a == b,
{
    reveal_strlit("refstudio://menu/settings");
    reveal_strlit("refstudio://menu/file/new");
    reveal_strlit("refstudio://menu/file/save");
    reveal_strlit("refstudio://menu/file/markdown");
    reveal_strlit("refstudio://menu/file/project/new");
    reveal_strlit("refstudio://menu/file/project/open");
    reveal_strlit("refstudio://menu/file/project/close");
    reveal_strlit("refstudio://menu/file/close");
    reveal_strlit("refstudio://menu/file/close/all");
    reveal_strlit("refstudio://menu/references/open");
    reveal_strlit("refstudio://menu/references/upload");
    reveal_strlit("refstudio://menu/view/notifications");
    reveal_strlit("refstudio://menu/debug/console/toggle");
    reveal_strlit("refstudio://menu/debug/console/clear");
    if command_id(a) == command_id(b) {
        assert(command_id(a).len() == command_id(b).len());
        assert(command_id(a)[17] == command_id(b)[17]);
    }
}

/// Each command is recognised by its own identifier.
pub proof fn lemma_command_of_id(c: Command)
    ensures
        command_of(command_id(c)) == Some(c),
{
    let d = choose|d: Command| #[trigger] command_id(d) == command_id(c);
    lemma_command_id_injective(c, d);
}

/// Whether two strings hold the same characters.
fn same_text(a: &str, b: &str) -> (r: bool)
    ensures
        r == (a@ == b@),
{
    let n = a.unicode_len();
    if n != b.unicode_len() {
        return false;
    }
    let mut i: usize = 0;
    while i < n
        invariant
            n == a@.len(),
            n == b@.len(),
            i <= n,
            forall|j: int| 0 <= j < i ==> a@[j] == b@[j],
        decreases n - i,
    {
        if a.get_char(i) != b.get_char(i) {
            return false;
        }
        i += 1;
    }
    assert(a@ =~= b@);
    true
}

/// A list that holds every command.
fn every_command() -> (r: Vec<Command>)
    ensures
        forall|c: Command| r@.contains(c),
{
    let r = vec![
        Command::Settings,
        Command::FileNew,
        Command::FileSave,
        Command::FileMarkdown,
        Command::ProjectNew,
        Command::ProjectOpen,
        Command::ProjectClose,
        Command::FileClose,
        Command::FileCloseAll,
        Command::ReferencesOpen,
        Command::ReferencesUpload,
        Command::ViewNotifications,
        Command::ConsoleToggle,
        Command::ConsoleClear,
    ];
    assert forall|c: Command| r@.contains(c) by {
        match c {
                Command::Settings => assert(r@[0] == c),
                Command::FileNew => assert(r@[1] == c),
                Command::FileSave => assert(r@[2] == c),
                Command::FileMarkdown => assert(r@[3] == c),
                Command::ProjectNew => assert(r@[4] == c),
                Command::ProjectOpen => assert(r@[5] == c),
                Command::ProjectClose => assert(r@[6] == c),
                Command::FileClose => assert(r@[7] == c),
                Command::FileCloseAll => assert(r@[8] == c),
                Command::ReferencesOpen => assert(r@[9] == c),
                Command::ReferencesUpload => assert(r@[10] == c),
                Command::ViewNotifications => assert(r@[11] == c),
                Command::ConsoleToggle => assert(r@[12] == c),
                Command::ConsoleClear => assert(r@[13] == c),
        }
    }
    r
}

impl Command {
    /// The identifier of this command.
    pub fn id(&self) -> (r: &'static str)
        ensures
            r@ == command_id(*self),
    {
        match self {
            Command::Settings => "refstudio://menu/settings",
            Command::FileNew => "refstudio://menu/file/new",
            Command::FileSave => "refstudio://menu/file/save",
            Command::FileMarkdown => "refstudio://menu/file/markdown",
            Command::ProjectNew => "refstudio://menu/file/project/new",
            Command::ProjectOpen => "refstudio://menu/file/project/open",
            Command::ProjectClose => "refstudio://menu/file/project/close",
            Command::FileClose => "refstudio://menu/file/close",
            Command::FileCloseAll => "refstudio://menu/file/close/all",
            Command::ReferencesOpen => "refstudio://menu/references/open",
            Command::ReferencesUpload => "refstudio://menu/references/upload",
            Command::ViewNotifications => "refstudio://menu/view/notifications",
            Command::ConsoleToggle => "refstudio://menu/debug/console/toggle",
            Command::ConsoleClear => "refstudio://menu/debug/console/clear",
        }
    }

    /// The command with identifier `id`, or `None` where no command has it.
    pub fn from_id(id: &str) -> (r: Option<Command>)
        ensures
            r == command_of(id@),
    {
        let all = every_command();
        let mut i: usize = 0;
        while i < all.len()
            invariant
                i <= all@.len(),
                forall|c: Command| all@.contains(c),
                forall|j: int| 0 <= j < i ==> command_id(#[trigger] all@[j]) != id@,
            decreases all@.len() - i,
        {
            let c = all[i];
            if same_text(c.id(), id) {
                proof {
                    let d = choose|d: Command| #[trigger] command_id(d) == id@;
                    lemma_command_id_injective(c, d);
                }
                return Some(c);
            }
            i += 1;
        }
        assert forall|c: Command| command_id(c) != id@ by {
            assert(all@.contains(c));
            let j = choose|j: int| 0 <= j < all@.len() && all@[j] == c;
            assert(command_id(all@[j]) != id@);
        }
        None
    }
}

} // verus!
