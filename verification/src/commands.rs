//! What the running instance is asked to do, from its command line.
//!
//! The app is single-instance: a later invocation's command line is
//! forwarded to the running process, which is how `doo capture` from the
//! global shortcut reaches it.
use vstd::prelude::*;
use vstd::string::*;

verus! {

/// The application id under which the single instance registers.
pub const APP_ID: &'static str = "dev.rahul.doo";

/// What the running instance does next.
#[derive(Debug, Clone, Copy, PartialEq, Eq, Structural)]
pub enum AppAction {
    /// Pop up the quick-capture entry.
    ShowCapture,
    /// Open the task list.
    ShowTasks,
    /// Open no window, just stay resident (autostart).
    StayResident,
    /// Quit the resident instance.
    Quit,
}

/// What a command line (program name first) asks for: `capture` pops the
/// capture entry, `--background` opens nothing, anything else (or nothing)
/// opens the task list.
pub open spec fn action_for_args(args: Seq<Seq<char>>) -> AppAction {
    if args.len() > 1 && args[1] == "capture"@ {
        AppAction::ShowCapture
    } else if args.len() > 1 && args[1] == "--background"@ {
        AppAction::StayResident
    } else {
        AppAction::ShowTasks
    }
}

/// The action depends on the first argument after the program name alone,
/// never on the program's path (which the registered shortcut sets to the
/// running binary).
pub proof fn routing_ignores_the_program_name(args: Seq<Seq<char>>, other: Seq<Seq<char>>)
    requires
        args.len() > 1,
        other.len() > 1,
        args[1] == other[1],
    ensures
        action_for_args(args) == action_for_args(other),
{
}

/// What each command line asks for: `capture` after any program name pops the
/// capture entry, `--background` stays resident without a window, and
/// anything else, or no argument at all, opens the task list.
pub proof fn routing_by_first_argument(args: Seq<Seq<char>>)
    ensures
        args.len() > 1 && args[1] == "capture"@ ==> action_for_args(args) == AppAction::ShowCapture,
        args.len() > 1 && args[1] == "--background"@ ==> action_for_args(args)
            == AppAction::StayResident,
        args.len() <= 1 ==> action_for_args(args) == AppAction::ShowTasks,
        args.len() > 1 && args[1] != "capture"@ && args[1] != "--background"@ ==> action_for_args(args)
            == AppAction::ShowTasks,
{
    reveal_strlit("capture");
    reveal_strlit("--background");
    assert("capture"@ != "--background"@) by {
        assert("capture"@[0] != "--background"@[0]);
    }
}

/// Routes a command line (program name first) to what the instance does.
pub fn route_command_line(args: &Vec<String>) -> (action: AppAction)
    ensures
        action == action_for_args(args@.map_values(|a: String| a@)),
{
    let ghost texts = args@.map_values(|a: String| a@);
    if args.len() > 1 {
        assert(texts[1] == args@[1]@);
        if args[1] == String::from_str("capture") {
            return AppAction::ShowCapture;
        }
        if args[1] == String::from_str("--background") {
            return AppAction::StayResident;
        }
    }
    AppAction::ShowTasks
}

} // verus!
