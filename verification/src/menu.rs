//! The context menu: its entries and moving through them.

use vstd::prelude::*;
use vstd::string::*;

verus! {

/// What a menu entry does.
#[derive(Clone, Copy, PartialEq, Eq, Debug, Structural)]
pub enum MenuAction {
    NewFile,
    NewFolder,
    CopyPath,
    CopyRelativePath,
    Rename,
    Delete,
    OpenExternal,
    Stage,
    Reveal,
    ChangeFolder,
    ChangeFolderTyped,
}

/// A line of the menu.
#[derive(Clone, Copy, PartialEq, Eq, Debug)]
pub enum MenuEntry {
    Action(MenuAction, &'static str),
    Separator,
}

/// The label of an action.
pub open spec fn action_label(action: MenuAction) -> Seq<char> {
    match action {
        MenuAction::NewFile => "New File…"@,
        MenuAction::NewFolder => "New Folder…"@,
        MenuAction::CopyPath => "Copy Path"@,
        MenuAction::CopyRelativePath => "Copy Relative Path"@,
        MenuAction::Rename => "Rename…"@,
        MenuAction::Delete => "Delete"@,
        MenuAction::OpenExternal => "Open Externally"@,
        MenuAction::Stage => "Stage Changes"@,
        MenuAction::Reveal => "Reveal in File Manager"@,
        MenuAction::ChangeFolder => "Change Folder…"@,
        MenuAction::ChangeFolderTyped => "Type a Folder…"@,
    }
}

/// The label of an action.
fn label_of_action(action: MenuAction) -> (r: &'static str)
    ensures
        r@ == action_label(action),
{
    match action {
        MenuAction::NewFile => "New File…",
        MenuAction::NewFolder => "New Folder…",
        MenuAction::CopyPath => "Copy Path",
        MenuAction::CopyRelativePath => "Copy Relative Path",
        MenuAction::Rename => "Rename…",
        MenuAction::Delete => "Delete",
        MenuAction::OpenExternal => "Open Externally",
        MenuAction::Stage => "Stage Changes",
        MenuAction::Reveal => "Reveal in File Manager",
        MenuAction::ChangeFolder => "Change Folder…",
        MenuAction::ChangeFolderTyped => "Type a Folder…",
    }
}

/// The entry of an action.
fn entry(action: MenuAction) -> (r: MenuEntry)
    ensures
        r matches MenuEntry::Action(a, label) && a == action && label@ == action_label(action),
{
    MenuEntry::Action(action, label_of_action(action))
}

/// What a line that can be chosen does, and what it is called.
pub struct MenuItem {
    pub action: MenuAction,
    pub label: Seq<char>,
}

/// The line of an action.
pub open spec fn item(action: MenuAction) -> Option<MenuItem> {
    Some(MenuItem { action, label: action_label(action) })
}

/// The lines of a menu; a separator cannot be chosen.
#[verifier::opaque]
pub open spec fn menu_lines(entries: Seq<MenuEntry>) -> Seq<Option<MenuItem>> {
    entries.map_values(
        |entry: MenuEntry|
            match entry {
                MenuEntry::Action(action, label) => Some(MenuItem { action, label: label@ }),
                MenuEntry::Separator => None,
            },
    )
}

/// The lines of the menu for a target: `None` stands for the workspace root, else whether
/// the target is a directory.
pub open spec fn listed_lines(target: Option<bool>, in_repo: bool) -> Seq<Option<MenuItem>> {
    let create = seq![item(MenuAction::NewFile), item(MenuAction::NewFolder), None::<MenuItem>];
    match target {
        None => create + seq![
            item(MenuAction::Reveal),
            item(MenuAction::ChangeFolder),
            item(MenuAction::ChangeFolderTyped),
        ],
        Some(is_dir) => create + seq![
            item(MenuAction::CopyPath),
            item(MenuAction::CopyRelativePath),
            None,
        ] + (if is_dir {
            Seq::empty()
        } else {
            seq![item(MenuAction::OpenExternal)]
        }) + (if in_repo {
            seq![item(MenuAction::Stage)]
        } else {
            Seq::empty()
        }) + seq![
            item(MenuAction::Reveal),
            None,
            item(MenuAction::Rename),
            item(MenuAction::Delete),
        ],
    }
}

/// The lines of the menu for a target: `None` stands for the workspace root, else whether the
/// target is a directory. Staging is offered inside a repository.
pub fn menu_entries(target: Option<bool>, in_repo: bool) -> (r: Vec<MenuEntry>)
    ensures
        menu_lines(r@) == listed_lines(target, in_repo),
{
    let mut out: Vec<MenuEntry> = Vec::new();
    out.push(entry(MenuAction::NewFile));
    out.push(entry(MenuAction::NewFolder));
    out.push(MenuEntry::Separator);
    match target {
        None => {
            out.push(entry(MenuAction::Reveal));
            out.push(entry(MenuAction::ChangeFolder));
            out.push(entry(MenuAction::ChangeFolderTyped));
        },
        Some(is_dir) => {
            out.push(entry(MenuAction::CopyPath));
            out.push(entry(MenuAction::CopyRelativePath));
            out.push(MenuEntry::Separator);
            if !is_dir {
                out.push(entry(MenuAction::OpenExternal));
            }
            if in_repo {
                out.push(entry(MenuAction::Stage));
            }
            out.push(entry(MenuAction::Reveal));
            out.push(MenuEntry::Separator);
            out.push(entry(MenuAction::Rename));
            out.push(entry(MenuAction::Delete));
        },
    }
    proof {
        reveal(menu_lines);
    }
    assert(menu_lines(out@) =~= listed_lines(target, in_repo));
    out
}

/// The next line that can be chosen from `at` in steps of `direction`, if there is one before the
/// end of the menu.
pub open spec fn next_action(lines: Seq<Option<MenuItem>>, at: int, direction: int) -> Option<int>
    decreases
            (if direction > 0 {
                lines.len() - at
            } else {
                at + 1
            }),
    when direction != 0
{
    let next = at + direction;
    if next < 0 || next >= lines.len() {
        None
    } else if lines[next] is Some {
        Some(next)
    } else {
        next_action(lines, next, direction)
    }
}

/// Where the selection goes: to the next line that can be chosen, or nowhere at the ends and
/// without a direction.
pub open spec fn stepped(lines: Seq<Option<MenuItem>>, from: usize, direction: int) -> usize {
    if direction == 0 {
        from
    } else {
        match next_action(lines, from as int, direction) {
            Some(index) => index as usize,
            None => from,
        }
    }
}

/// The next line that can be chosen in `direction`, staying put at the ends. Without a direction
/// there is no way on from a separator.
pub fn step_menu(entries: &Vec<MenuEntry>, from: usize, direction: isize) -> (r: usize)
    requires
        direction == 0 && from < entries@.len() ==> entries@[from as int] is Action,
    ensures
        r == stepped(menu_lines(entries@), from, direction as int),
{
    proof {
        reveal(menu_lines);
    }
    if direction == 0 {
        return from;
    }
    let count: i128 = entries.len() as i128;
    let mut index: i128 = from as i128;
    loop
        invariant
            direction != 0,
            count == entries@.len(),
            count <= usize::MAX,
            menu_lines(entries@).len() == entries@.len(),
            0 <= index <= usize::MAX,
            stepped(menu_lines(entries@), from, direction as int) == match next_action(
                menu_lines(entries@),
                index as int,
                direction as int,
            ) {
                Some(found) => found as usize,
                None => from,
            },
        decreases
                (if direction > 0 {
                    (if index > count {
                        0int
                    } else {
                        count - index + 1
                    })
                } else {
                    index + 1
                }),
    {
        index = index + direction as i128;
        if index < 0 || index >= count {
            return from;
        }
        proof {
            reveal(menu_lines);
        }
        assert(menu_lines(entries@)[index as int] is Some <==> entries@[index as int] is Action);
        if let MenuEntry::Action(_, _) = entries[index as usize] {
            return index as usize;
        }
    }
}

/// The first line from `from` on that can be chosen; 0 where there is none.
pub open spec fn first_action(lines: Seq<Option<MenuItem>>, from: int) -> usize
    decreases lines.len() - from,
{
    if from < 0 || from >= lines.len() {
        0
    } else if lines[from] is Some {
        from as usize
    } else {
        first_action(lines, from + 1)
    }
}

/// The first line that can be chosen; 0 where there is none.
pub fn first_choice(entries: &Vec<MenuEntry>) -> (r: usize)
    ensures
        r == first_action(menu_lines(entries@), 0),
{
    proof {
        reveal(menu_lines);
    }
    for i in 0..entries.len()
        invariant
            menu_lines(entries@).len() == entries@.len(),
            first_action(menu_lines(entries@), 0) == first_action(
                menu_lines(entries@),
                i as int,
            ),
    {
        proof {
            reveal(menu_lines);
        }
        assert(menu_lines(entries@)[i as int] is Some <==> entries@[i as int] is Action);
        if let MenuEntry::Action(_, _) = entries[i] {
            return i;
        }
    }
    0
}

/// Moving through a menu lands on a line that can be chosen, passing only separators, or stays
/// put.
pub proof fn law_steps_land_on_actions(lines: Seq<Option<MenuItem>>, from: usize, direction: int)
    requires
        lines.len() <= usize::MAX,
    ensures
        stepped(lines, from, direction) == from || (stepped(lines, from, direction)
            < lines.len() && lines[stepped(lines, from, direction) as int] is Some),
        direction == 1 || direction == -1 ==> forall|i: int|
            (if direction == 1 {
                from < i < stepped(lines, from, direction)
            } else {
                stepped(lines, from, direction) < i < from
            }) ==> (#[trigger] lines[i]) is None,
{
    if direction != 0 {
        lemma_next_action(lines, from as int, direction);
    }
}

/// What the next line that can be chosen is.
proof fn lemma_next_action(lines: Seq<Option<MenuItem>>, at: int, direction: int)
    requires
        direction != 0,
        0 <= at,
    ensures
        next_action(lines, at, direction) matches Some(found) ==> 0 <= found < lines.len()
            && lines[found] is Some && (direction > 0 ==> found > at) && (direction < 0
            ==> found < at),
        next_action(lines, at, direction) matches Some(found) ==> (direction == 1
            ==> forall|i: int| at < i < found ==> (#[trigger] lines[i]) is None),
        next_action(lines, at, direction) matches Some(found) ==> (direction == -1
            ==> forall|i: int| found < i < at ==> (#[trigger] lines[i]) is None),
    decreases
            (if direction > 0 {
                (if at > lines.len() {
                    0int
                } else {
                    lines.len() - at + 1
                })
            } else {
                at + 1
            }),
{
    let next = at + direction;
    if 0 <= next < lines.len() && lines[next] is None {
        lemma_next_action(lines, next, direction);
    }
}

} // verus!
