//! What the program is asked to do, and how its views take turns.

use crate::paths::{as_path, path_of, same_components, same_path};
use crate::state::{Exit, State, View};
use crate::text::same_text;
use std::path::PathBuf;
use vstd::prelude::*;
use vstd::string::*;
use vstd::view::View as _;

verus! {

/// How often the source-control view reads the git status again while idle, in milliseconds.
pub const REFRESH_EVERY: u64 = 1500;

/// What the program is asked to do. All but the last three answer a launcher on the standard
/// output.
#[derive(Debug, PartialEq, Eq)]
pub enum Mode {
    /// What to do about the sidebar, or about source control, in a tab or workspace.
    LaunchDecision { git: bool, scope: String },
    FocusedPane { scope: String },
    PaneHasToken { pane_id: String },
    EventScope,
    OpenPlan,
    EventKind,
    FocusedTab,
    AutoOpen,
    FocusOnOpen,
    DockRight,
    /// Show previews; where they are asked for is an argument, or else in the environment.
    Preview { control: Option<String> },
    Unknown { argument: String },
    /// Run the sidebar, pinned to a view or not.
    Sidebar { pinned: Option<View> },
}

/// What the program is asked to do.
pub enum Task {
    LaunchDecision { git: bool, scope: Seq<char> },
    FocusedPane { scope: Seq<char> },
    PaneHasToken { pane_id: Seq<char> },
    EventScope,
    OpenPlan,
    EventKind,
    FocusedTab,
    AutoOpen,
    FocusOnOpen,
    DockRight,
    Preview { control: Option<Seq<char>> },
    Unknown { argument: Seq<char> },
    Sidebar { pinned: Option<View> },
}

impl Mode {
    pub open spec fn view(&self) -> Task {
        match self {
            Mode::LaunchDecision { git, scope } => Task::LaunchDecision { git: *git, scope: scope@ },
            Mode::FocusedPane { scope } => Task::FocusedPane { scope: scope@ },
            Mode::PaneHasToken { pane_id } => Task::PaneHasToken { pane_id: pane_id@ },
            Mode::EventScope => Task::EventScope,
            Mode::OpenPlan => Task::OpenPlan,
            Mode::EventKind => Task::EventKind,
            Mode::FocusedTab => Task::FocusedTab,
            Mode::AutoOpen => Task::AutoOpen,
            Mode::FocusOnOpen => Task::FocusOnOpen,
            Mode::DockRight => Task::DockRight,
            Mode::Preview { control } => Task::Preview {
                control: match control {
                    Some(text) => Some(text@),
                    None => None,
                },
            },
            Mode::Unknown { argument } => Task::Unknown { argument: argument@ },
            Mode::Sidebar { pinned } => Task::Sidebar { pinned: *pinned },
        }
    }
}

/// The argument at `index` behind the program's name; nothing where there is none.
pub open spec fn argument_text(args: Seq<String>, index: int) -> Seq<char> {
    if 0 <= index < args.len() {
        args[index]@
    } else {
        Seq::empty()
    }
}

/// The argument at `index` behind the program's name, or an empty text.
fn argument(args: &Vec<String>, index: usize) -> (r: String)
    ensures
        r@ == argument_text(args@, index as int),
{
    if index < args.len() {
        args[index].clone()
    } else {
        String::new()
    }
}

/// What arguments ask for. Without arguments the sidebar runs; a view that is not known is not
/// pinned.
pub open spec fn task_of(args: Seq<String>, control_env: Option<Seq<char>>) -> Task {
    let mode = argument_text(args, 0);
    if args.len() == 0 {
        Task::Sidebar { pinned: None }
    } else if mode == "--launch-decision"@ {
        Task::LaunchDecision {
            git: args.len() > 1 && args[1]@ == "git"@,
            scope: argument_text(args, 2),
        }
    } else if mode == "--focused-pane"@ {
        Task::FocusedPane { scope: argument_text(args, 1) }
    } else if mode == "--pane-has-token"@ {
        Task::PaneHasToken { pane_id: argument_text(args, 1) }
    } else if mode == "--event-scope"@ {
        Task::EventScope
    } else if mode == "--open-plan"@ {
        Task::OpenPlan
    } else if mode == "--event-kind"@ {
        Task::EventKind
    } else if mode == "--focused-tab"@ {
        Task::FocusedTab
    } else if mode == "--auto-open"@ {
        Task::AutoOpen
    } else if mode == "--focus-on-open"@ {
        Task::FocusOnOpen
    } else if mode == "--dock-right"@ {
        Task::DockRight
    } else if mode == "--preview"@ {
        Task::Preview {
            control: if args.len() > 1 {
                Some(args[1]@)
            } else {
                control_env
            },
        }
    } else if mode == "--view"@ {
        Task::Sidebar {
            pinned: if args.len() > 1 {
                View::flagged(args[1]@)
            } else {
                None
            },
        }
    } else {
        Task::Unknown { argument: mode }
    }
}

/// What the arguments behind the program's name ask for. `control_env` is where the environment
/// says previews are asked for.
pub fn parse_mode(args: &Vec<String>, control_env: Option<String>) -> (r: Mode)
    ensures
        r@ == task_of(
            args@,
            match control_env {
                Some(text) => Some(text@),
                None => None,
            },
        ),
{
    if args.len() == 0 {
        return Mode::Sidebar { pinned: None };
    }
    let mode = args[0].as_str();
    if same_text(mode, "--launch-decision") {
        let git = args.len() > 1 && same_text(args[1].as_str(), "git");
        Mode::LaunchDecision { git, scope: argument(args, 2) }
    } else if same_text(mode, "--focused-pane") {
        Mode::FocusedPane { scope: argument(args, 1) }
    } else if same_text(mode, "--pane-has-token") {
        Mode::PaneHasToken { pane_id: argument(args, 1) }
    } else if same_text(mode, "--event-scope") {
        Mode::EventScope
    } else if same_text(mode, "--open-plan") {
        Mode::OpenPlan
    } else if same_text(mode, "--event-kind") {
        Mode::EventKind
    } else if same_text(mode, "--focused-tab") {
        Mode::FocusedTab
    } else if same_text(mode, "--auto-open") {
        Mode::AutoOpen
    } else if same_text(mode, "--focus-on-open") {
        Mode::FocusOnOpen
    } else if same_text(mode, "--dock-right") {
        Mode::DockRight
    } else if same_text(mode, "--preview") {
        let control = if args.len() > 1 {
            Some(args[1].clone())
        } else {
            control_env
        };
        Mode::Preview { control }
    } else if same_text(mode, "--view") {
        let pinned = if args.len() > 1 {
            View::from_view_flag(args[1].as_str())
        } else {
            None
        };
        Mode::Sidebar { pinned }
    } else {
        Mode::Unknown { argument: args[0].clone() }
    }
}

/// The answer to `--auto-open` and `--focus-on-open`.
pub fn switch_answer(on: bool) -> (r: &'static str)
    ensures
        r@ == if on {
            "on"@
        } else {
            "off"@
        },
{
    if on {
        "on"
    } else {
        "off"
    }
}

/// The answer to `--pane-has-token`.
pub fn token_answer(present: bool) -> (r: &'static str)
    ensures
        r@ == if present {
            "yes"@
        } else {
            "no"@
        },
{
    if present {
        "yes"
    } else {
        "no"
    }
}

/// The answer to `--dock-right`.
pub fn dock_answer(state: State) -> (r: &'static str)
    ensures
        r@ == if state.dock_right {
            "right"@
        } else {
            "left"@
        },
{
    if state.dock_right {
        "right"
    } else {
        "left"
    }
}

/// The view to start with: the pinned one, else the one shown last where the unified sidebar is
/// on, else the Explorer.
pub fn starting_view(pinned: Option<View>, state: State) -> (r: View)
    ensures
        r == match pinned {
            Some(view) => view,
            None => if state.merged {
                state.active
            } else {
                View::Explorer
            },
        },
{
    match pinned {
        Some(view) => view,
        None => if state.merged {
            state.active
        } else {
            View::Explorer
        },
    }
}

/// The view that runs next when one ended; none where the program ends.
pub fn next_view(view: View, exit: Exit) -> (r: Option<View>)
    ensures
        r == match exit {
            Exit::Quit => None,
            Exit::Switch => Some(view.other_view()),
        },
{
    match exit {
        Exit::Quit => None,
        Exit::Switch => Some(view.other()),
    }
}

/// Whether the pane is closed when a view ended: it is a shell that was told to run the program,
/// so ending alone would leave a bare prompt behind.
pub fn closes_pane(exit: Exit) -> (r: bool)
    ensures
        r == (exit == Exit::Quit),
{
    exit == Exit::Quit
}

/// Whether the source-control view ends: only when its state was saved, or a draft would be lost.
pub fn scm_exit(exit: Exit, saved: bool) -> (r: Option<Exit>)
    ensures
        r == if saved {
            Some(exit)
        } else {
            None
        },
{
    if saved {
        Some(exit)
    } else {
        None
    }
}

/// How long the source-control view waits for an event, given how long ago it read the git
/// status, in milliseconds.
pub fn scm_timeout(elapsed: u64) -> (r: u64)
    ensures
        r == if elapsed < REFRESH_EVERY {
            REFRESH_EVERY - elapsed
        } else {
            0
        },
{
    REFRESH_EVERY.saturating_sub(elapsed)
}

/// Whether the source-control view reads the git status again.
pub fn scm_tick_is_due(elapsed: u64) -> (r: bool)
    ensures
        r == (elapsed >= REFRESH_EVERY),
{
    elapsed >= REFRESH_EVERY
}

/// Whether the root of a view moved, so that it is to be remembered.
pub fn root_moved(remembered: &PathBuf, root: &PathBuf) -> (r: bool)
    ensures
        r == !same_components(path_of(*root), path_of(*remembered)),
{
    !same_path(as_path(root), as_path(remembered))
}

} // verus!
