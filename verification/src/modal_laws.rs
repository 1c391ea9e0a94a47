//! What keys and the mouse do in a prompt, in Quick Open, in the context menu and in Settings.

use crate::explorer::{
    AppView, Deed, Effect, FinderView, MenuView, OverlayView, PromptKind, PromptView, SettingsModal,
};
use crate::geometry::Rect;
use crate::input::{KeyCode, KeyEvent, MouseEvent, MouseKind};
use crate::menu::{first_action, next_action, stepped, MenuAction, MenuItem};
use crate::paths::{
    file_name_of, lossy_text, parent_of, path_of, path_text, relative_path,
};
use crate::quick_open::matches_for;
use crate::state::{Exit, PreviewEditor};
use crate::state_file::Change;
use std::path::PathBuf;
use vstd::prelude::*;

verus! {

/// A key goes to a modal: it went down and is not control and `q`.
pub open spec fn goes_to_modal(key: KeyEvent) -> bool {
    key.pressed && !(key.code == KeyCode::Char('q') && key.control && !key.alt)
}

/// The view without a notice, and with that modal.
pub open spec fn with_modal(app: AppView, overlay: OverlayView) -> AppView {
    AppView { notice: None, overlay: Some(overlay), ..app }
}

/// The view without a notice and without a modal, and with one more thing asked for.
pub open spec fn closed_for(app: AppView, deed: Deed) -> AppView {
    AppView { notice: None, overlay: None, asked: app.asked.push(deed), ..app }
}

/// A key that did not go down does nothing, and control and `q` ends the view from anywhere and
/// changes nothing.
pub proof fn law_quitting_and_releasing_change_nothing(app: AppView, key: KeyEvent)
    ensures
        !key.pressed ==> app.on_key(key).app == app && app.on_key(key).exit is None,
        key.pressed && !goes_to_modal(key) ==> app.on_key(key).app == app && app.on_key(key).exit
            == Some(Exit::Quit),
        app.overlay is Some && goes_to_modal(key) ==> app.on_key(key).exit is None,
{
}

/// Typing in a prompt puts the character at the end, Backspace takes the last one away, Esc closes
/// the prompt, Enter closes it and uses what was typed for what the prompt is about; no other key
/// does anything.
pub proof fn law_prompts_edit_their_end(app: AppView, key: KeyEvent, prompt: PromptView)
    requires
        app.overlay == Some(OverlayView::Prompt(prompt)),
        goes_to_modal(key),
    ensures
        ({
            let after = app.on_key(key).app;
            match key.code {
                KeyCode::Char(c) => {
                    &&& after.overlay matches Some(OverlayView::Prompt(now))
                    &&& now.title == prompt.title && now.kind == prompt.kind
                    &&& now.input.len() == prompt.input.len() + 1
                    &&& now.input.last() == c
                    &&& now.input.drop_last() == prompt.input
                    &&& after == with_modal(app, OverlayView::Prompt(now))
                },
                KeyCode::Backspace => {
                    &&& after.overlay matches Some(OverlayView::Prompt(now))
                    &&& now.title == prompt.title && now.kind == prompt.kind
                    &&& prompt.input.len() == 0 ==> now.input.len() == 0
                    &&& prompt.input.len() > 0 ==> now.input.push(prompt.input.last())
                        == prompt.input
                    &&& after == with_modal(app, OverlayView::Prompt(now))
                },
                KeyCode::Esc => after == (AppView { notice: None, overlay: None, ..app }),
                KeyCode::Enter => match prompt.kind {
                    PromptKind::ChangeFolder => after == closed_for(
                        app,
                        Deed::ChangeFolder(prompt.input),
                    ),
                    PromptKind::NewFile(dir) => after == closed_for(
                        app,
                        Deed::SubmitName { kind: PromptKind::NewFile(dir), input: prompt.input },
                    ),
                    PromptKind::NewFolder(dir) => after == closed_for(
                        app,
                        Deed::SubmitName { kind: PromptKind::NewFolder(dir), input: prompt.input },
                    ),
                    PromptKind::Rename(path) => after == closed_for(
                        app,
                        Deed::SubmitName { kind: PromptKind::Rename(path), input: prompt.input },
                    ),
                },
                _ => after == (AppView { notice: None, ..app }),
            }
        }),
{
    reveal(AppView::prompt_key);
    let after = app.on_key(key).app;
    if let Some(OverlayView::Prompt(now)) = after.overlay {
        if let KeyCode::Char(c) = key.code {
            assert(now.input.drop_last() =~= prompt.input);
        }
        if key.code == KeyCode::Backspace && prompt.input.len() > 0 {
            assert(now.input.push(prompt.input.last()) =~= prompt.input);
        }
    }
}

/// What is typed in Quick Open filters anew, with the first match selected: a character comes to
/// the end of the query, Backspace takes the last one away. Control makes a character a command,
/// unless alt is down too.
pub proof fn law_quick_open_filters_as_it_is_typed(
    app: AppView,
    key: KeyEvent,
    finder: FinderView,
)
    requires
        app.overlay == Some(OverlayView::QuickOpen(finder)),
        goes_to_modal(key),
        key.code == KeyCode::Backspace || (key.code matches KeyCode::Char(_)),
    ensures
        ({
            let after = app.on_key(key).app;
            let typed = key.code matches KeyCode::Char(_) && (!key.control || key.alt);
            if typed || key.code == KeyCode::Backspace {
                &&& after.overlay matches Some(OverlayView::QuickOpen(now))
                &&& key.code matches KeyCode::Char(c) ==> now.query == finder.query.push(c)
                &&& key.code == KeyCode::Backspace && finder.query.len() == 0 ==> now.query.len()
                    == 0
                &&& key.code == KeyCode::Backspace && finder.query.len() > 0 ==> now.query.push(
                    finder.query.last(),
                ) == finder.query
                &&& now.matches == matches_for(finder.files, now.query)
                &&& now.selected == 0
                &&& now.files == finder.files
                &&& now.truncated == finder.truncated
                &&& now.loading == finder.loading
                &&& after == with_modal(app, OverlayView::QuickOpen(now))
            } else {
                after == (AppView { notice: None, ..app })
            }
        }),
{
    reveal(AppView::finder_key);
    let after = app.on_key(key).app;
    if let Some(OverlayView::QuickOpen(now)) = after.overlay {
        if key.code == KeyCode::Backspace && finder.query.len() > 0 {
            assert(now.query.push(finder.query.last()) =~= finder.query);
        }
    }
}

/// In Quick Open the arrows go through the matches as far as they reach, and Esc closes the
/// finder; the keys that are left do nothing.
pub proof fn law_quick_open_goes_through_the_matches(
    app: AppView,
    key: KeyEvent,
    finder: FinderView,
)
    requires
        app.overlay == Some(OverlayView::QuickOpen(finder)),
        key.pressed,
        key.code != KeyCode::Enter,
        key.code != KeyCode::Backspace && !(key.code matches KeyCode::Char(_)),
        finder.matches.len() <= usize::MAX,
    ensures
        ({
            let after = app.on_key(key).app;
            let same = AppView { notice: None, ..app };
            let last = finder.matches.len() - 1;
            &&& key.code == KeyCode::Up || key.code == KeyCode::Down ==> {
                &&& after.overlay matches Some(OverlayView::QuickOpen(now))
                &&& now == (FinderView { selected: now.selected, ..finder })
                &&& after == with_modal(app, OverlayView::QuickOpen(now))
                &&& key.code == KeyCode::Up && finder.selected > 0 ==> now.selected
                    == finder.selected - 1
                &&& key.code == KeyCode::Up && finder.selected == 0 ==> now.selected == 0
                &&& key.code == KeyCode::Down && finder.selected < last ==> now.selected
                    == finder.selected + 1
                &&& key.code == KeyCode::Down && 0 <= last <= finder.selected ==> now.selected
                    == last
                &&& key.code == KeyCode::Down && last < 0 ==> now.selected == 0
            }
            &&& key.code == KeyCode::Esc ==> after == (AppView { overlay: None, ..same })
            &&& key.code != KeyCode::Up && key.code != KeyCode::Down && key.code != KeyCode::Esc
                ==> after == same
        }),
{
    reveal(AppView::finder_key);
}

/// In Quick Open, Enter closes the finder and opens the file of the selected match: in Neovim
/// where the settings say so, else in the viewer, which needs a pane. Without a match it does
/// nothing.
pub proof fn law_quick_open_opens_the_selected_file(
    app: AppView,
    key: KeyEvent,
    finder: FinderView,
)
    requires
        app.overlay == Some(OverlayView::QuickOpen(finder)),
        key.pressed,
        key.code == KeyCode::Enter,
    ensures
        ({
            let after = app.on_key(key).app;
            let file = finder.matches[finder.selected as int];
            let chosen = finder.selected < finder.matches.len() && file < finder.files.len();
            let path = finder.files[file as int].path;
            let neovim = app.state.preview_editor == PreviewEditor::Neovim;
            &&& !chosen ==> after == (AppView { notice: None, ..app })
            &&& chosen && neovim ==> after == closed_for(
                AppView { last_preview: None, ..app },
                Deed::Plain(Effect::OpenNeovim(path)),
            )
            &&& chosen && !neovim && app.has_pane ==> after == closed_for(
                app,
                Deed::Plain(Effect::OpenViewer(path)),
            )
            &&& chosen && !neovim && !app.has_pane ==> after == (AppView {
                overlay: None,
                notice: Some("preview needs a herdr pane"@),
                ..app
            })
        }),
{
    reveal(AppView::finder_key);
}

/// A line of the menu that can be chosen.
pub open spec fn menu_choice(action: MenuAction, label: Seq<char>) -> Option<MenuItem> {
    Some(MenuItem { action, label })
}

/// The menu of the root offers to create, to show the folder and to change it. The menu of a file
/// or folder offers to create, to copy its path, to open a file elsewhere, to stage inside a
/// repository, to show it, and to rename or delete it. The first line is selected.
pub proof fn law_menus_offer_what_fits_the_target(
    app: AppView,
    x: u16,
    y: u16,
    target: Option<(PathBuf, bool)>,
    in_repo: bool,
)
    ensures
        ({
            let after = app.show_menu(x, y, target, in_repo);
            let new = seq![
                menu_choice(MenuAction::NewFile, "New File…"@),
                menu_choice(MenuAction::NewFolder, "New Folder…"@),
                None,
            ];
            let copies = seq![
                menu_choice(MenuAction::CopyPath, "Copy Path"@),
                menu_choice(MenuAction::CopyRelativePath, "Copy Relative Path"@),
                None,
            ];
            let outside = menu_choice(MenuAction::OpenExternal, "Open Externally"@);
            let stage = menu_choice(MenuAction::Stage, "Stage Changes"@);
            let reveals = menu_choice(MenuAction::Reveal, "Reveal in File Manager"@);
            let ends = seq![
                reveals,
                None,
                menu_choice(MenuAction::Rename, "Rename…"@),
                menu_choice(MenuAction::Delete, "Delete"@),
            ];
            &&& after.overlay matches Some(OverlayView::Menu(menu))
            &&& after == (AppView { overlay: after.overlay, ..app })
            &&& menu.x == x && menu.y == y && menu.target == target && menu.selected == 0
            &&& menu.rect == Rect { x: 0, y: 0, width: 0, height: 0 }
            &&& target is None ==> menu.lines == new + seq![
                reveals,
                menu_choice(MenuAction::ChangeFolder, "Change Folder…"@),
                menu_choice(MenuAction::ChangeFolderTyped, "Type a Folder…"@),
            ]
            &&& target matches Some((path, is_dir)) ==> {
                &&& is_dir && !in_repo ==> menu.lines == new + copies + ends
                &&& is_dir && in_repo ==> menu.lines == new + copies + seq![stage] + ends
                &&& !is_dir && !in_repo ==> menu.lines == new + copies + seq![outside] + ends
                &&& !is_dir && in_repo ==> menu.lines == new + copies + seq![outside, stage] + ends
            }
        }),
{
    let after = app.show_menu(x, y, target, in_repo);
    if let Some(OverlayView::Menu(menu)) = after.overlay {
        assert(menu.lines[0] is Some);
        assert(menu.selected == first_action(menu.lines, 0));
        let new = seq![
            menu_choice(MenuAction::NewFile, "New File…"@),
            menu_choice(MenuAction::NewFolder, "New Folder…"@),
            None,
        ];
        let copies = seq![
            menu_choice(MenuAction::CopyPath, "Copy Path"@),
            menu_choice(MenuAction::CopyRelativePath, "Copy Relative Path"@),
            None,
        ];
        let outside = menu_choice(MenuAction::OpenExternal, "Open Externally"@);
        let stage = menu_choice(MenuAction::Stage, "Stage Changes"@);
        let reveals = menu_choice(MenuAction::Reveal, "Reveal in File Manager"@);
        let ends = seq![
            reveals,
            None,
            menu_choice(MenuAction::Rename, "Rename…"@),
            menu_choice(MenuAction::Delete, "Delete"@),
        ];
        match target {
            None => {
                assert(menu.lines =~= new + seq![
                    reveals,
                    menu_choice(MenuAction::ChangeFolder, "Change Folder…"@),
                    menu_choice(MenuAction::ChangeFolderTyped, "Type a Folder…"@),
                ]);
            },
            Some((path, is_dir)) => {
                if is_dir && !in_repo {
                    assert(menu.lines =~= new + copies + ends);
                } else if is_dir {
                    assert(menu.lines =~= new + copies + seq![stage] + ends);
                } else if !in_repo {
                    assert(menu.lines =~= new + copies + seq![outside] + ends);
                } else {
                    assert(menu.lines =~= new + copies + seq![outside, stage] + ends);
                }
            },
        }
    }
}

/// The nearest line below that can be chosen, or above.
proof fn lemma_next(lines: Seq<Option<MenuItem>>, at: int, direction: int)
    requires
        direction == 1 || direction == -1,
        0 <= at,
    ensures
        direction == 1 ==> match next_action(lines, at, direction) {
            Some(found) => at < found < lines.len() && lines[found] is Some && forall|i: int|
                at < i < found ==> (#[trigger] lines[i]) is None,
            None => forall|i: int| at < i < lines.len() ==> (#[trigger] lines[i]) is None,
        },
        direction == -1 && at <= lines.len() ==> match next_action(lines, at, direction) {
            Some(found) => 0 <= found < at && lines[found] is Some && forall|i: int|
                found < i < at ==> (#[trigger] lines[i]) is None,
            None => forall|i: int| 0 <= i < at ==> (#[trigger] lines[i]) is None,
        },
    decreases
            (if direction > 0 {
                (if at > lines.len() {
                    0int
                } else {
                    lines.len() - at + 1
                })
            } else {
                at + 1
            }),
{
    let next = at + direction;
    if 0 <= next < lines.len() && lines[next] is None {
        lemma_next(lines, next, direction);
    }
}

/// The line that is selected first is the first that can be chosen.
pub proof fn law_the_first_choice_is_selected(lines: Seq<Option<MenuItem>>, from: int)
    requires
        0 <= from <= lines.len() <= usize::MAX,
    ensures
        ({
            let first = first_action(lines, from);
            ||| from <= first < lines.len() && lines[first as int] is Some && forall|i: int|
                from <= i < first ==> (#[trigger] lines[i]) is None
            ||| first == 0 && forall|i: int|
                from <= i < lines.len() ==> (#[trigger] lines[i]) is None
        }),
    decreases lines.len() - from,
{
    if from < lines.len() && lines[from] is None {
        law_the_first_choice_is_selected(lines, from + 1);
    }
}

/// A step through a menu, of any length and direction: it takes the line there where that can be
/// chosen; from a separator it goes on in the same steps; and where there is nothing to choose
/// before the end, or no direction, the selection stays.
pub proof fn law_menu_steps(lines: Seq<Option<MenuItem>>, from: usize, direction: int)
    requires
        lines.len() <= usize::MAX,
    ensures
        ({
            let next = from + direction;
            let to = stepped(lines, from, direction);
            &&& direction == 0 ==> to == from
            &&& next < 0 || next >= lines.len() ==> to == from
            &&& direction != 0 && 0 <= next < lines.len() && lines[next] is Some ==> to == next
            &&& direction != 0 && 0 <= next < lines.len() && lines[next] is None ==> {
                let further = stepped(lines, next as usize, direction);
                to == if further == next {
                    from
                } else {
                    further
                }
            }
        }),
{
    if direction != 0 {
        let next = from + direction;
        if 0 <= next < lines.len() && lines[next] is None {
            lemma_goes_on(lines, next, direction);
        }
    }
}

/// The next line that can be chosen is another line of the menu.
proof fn lemma_goes_on(lines: Seq<Option<MenuItem>>, at: int, direction: int)
    requires
        direction != 0,
        0 <= at < lines.len(),
    ensures
        next_action(lines, at, direction) matches Some(found) ==> 0 <= found < lines.len() && found
            != at && (direction > 0 ==> found > at) && (direction < 0 ==> found < at),
    decreases
            (if direction > 0 {
                lines.len() - at
            } else {
                at + 1
            }),
{
    let next = at + direction;
    if 0 <= next < lines.len() && lines[next] is None {
        lemma_goes_on(lines, next, direction);
    }
}

/// In the menu, Down and `j` go to the next line below that can be chosen and Up and `k` to the
/// next above, or stay where there is none; Esc closes the menu; no key but Enter does anything
/// else.
pub proof fn law_menu_keys(app: AppView, key: KeyEvent, menu: MenuView)
    requires
        app.overlay == Some(OverlayView::Menu(menu)),
        goes_to_modal(key),
        key.code != KeyCode::Enter,
        menu.lines.len() <= usize::MAX,
        menu.selected < menu.lines.len(),
    ensures
        ({
            let after = app.on_key(key).app;
            let down = key.code == KeyCode::Down || key.code == KeyCode::Char('j');
            let up = key.code == KeyCode::Up || key.code == KeyCode::Char('k');
            &&& key.code == KeyCode::Esc ==> after == (AppView {
                notice: None,
                overlay: None,
                ..app
            })
            &&& key.code != KeyCode::Esc ==> {
                &&& after.overlay matches Some(OverlayView::Menu(now))
                &&& now == (MenuView { selected: now.selected, ..menu })
                &&& after == with_modal(app, OverlayView::Menu(now))
                &&& !down && !up ==> now.selected == menu.selected
                &&& down ==> {
                    ||| now.selected == menu.selected && forall|i: int|
                        menu.selected < i < menu.lines.len() ==> (#[trigger] menu.lines[i]) is None
                    ||| menu.selected < now.selected < menu.lines.len()
                        && menu.lines[now.selected as int] is Some && forall|i: int|
                        menu.selected < i < now.selected ==> (#[trigger] menu.lines[i]) is None
                }
                &&& up ==> {
                    ||| now.selected == menu.selected && forall|i: int|
                        0 <= i < menu.selected ==> (#[trigger] menu.lines[i]) is None
                    ||| now.selected < menu.selected && menu.lines[now.selected as int] is Some
                        && forall|i: int|
                        now.selected < i < menu.selected ==> (#[trigger] menu.lines[i]) is None
                }
            }
        }),
{
    reveal(AppView::move_menu);
    lemma_next(menu.lines, menu.selected as int, 1);
    lemma_next(menu.lines, menu.selected as int, -1);
}

/// The mouse selects the line of the menu that it is over. A click on a line does what Enter does
/// on it, a click elsewhere closes the menu, and a right click opens the menu of what is there.
/// The first line stands right below the top border.
pub proof fn law_the_mouse_in_a_menu(app: AppView, mouse: MouseEvent, now: u64, menu: MenuView)
    requires
        app.overlay == Some(OverlayView::Menu(menu)),
        menu.lines.len() <= usize::MAX,
        menu.rect.x + menu.rect.width <= u16::MAX,
        menu.rect.y + menu.rect.height <= u16::MAX,
    ensures
        ({
            let after = app.on_mouse(mouse, now).app;
            let seen = AppView {
                last_mouse: Some(now),
                mouse_pos: Some((mouse.column, mouse.row)),
                ..app
            };
            let index = mouse.row - menu.rect.y - 1;
            let within = menu.rect.x < mouse.column < menu.rect.x + menu.rect.width - 1
                && menu.rect.y < mouse.row < menu.rect.y + menu.rect.height - 1;
            let over = within && index < menu.lines.len() && menu.lines[index] is Some;
            &&& app.on_mouse(mouse, now).exit is None
            &&& mouse.kind == MouseKind::Moved && over ==> after == (AppView {
                overlay: Some(OverlayView::Menu(MenuView { selected: index as usize, ..menu })),
                ..seen
            })
            &&& mouse.kind == MouseKind::Moved && !over ==> after == seen
            &&& mouse.kind == MouseKind::LeftDown && over ==> after == (AppView {
                overlay: None,
                ..seen
            }).act(menu.lines[index]->0.action, menu.target)
            &&& mouse.kind == MouseKind::LeftDown && !over ==> after == (AppView {
                overlay: None,
                ..seen
            })
            &&& mouse.kind == MouseKind::ScrollUp || mouse.kind == MouseKind::ScrollDown
                || mouse.kind == MouseKind::Other ==> after == seen
        }),
{
    reveal(AppView::move_menu);
}

/// Enter closes the menu and does what the selected line says.
pub proof fn law_enter_chooses_the_line(app: AppView, key: KeyEvent, menu: MenuView)
    requires
        app.overlay == Some(OverlayView::Menu(menu)),
        key.pressed,
        key.code == KeyCode::Enter,
        menu.selected < menu.lines.len(),
    ensures
        ({
            let closed = AppView { notice: None, overlay: None, ..app };
            &&& menu.lines[menu.selected as int] matches Some(line) ==> app.on_key(key).app
                == closed.act(line.action, menu.target)
            &&& menu.lines[menu.selected as int] is None ==> app.on_key(key).app == closed
        }),
{
    reveal(AppView::move_menu);
}

/// The entries that create something ask for a name: in the target folder, beside a target file,
/// or in the root.
pub proof fn law_menu_entries_that_create(app: AppView, target: Option<(PathBuf, bool)>)
    ensures
        ({
            let dir = match target {
                Some((path, is_dir)) => if is_dir {
                    path
                } else if parent_of(path_of(path)) is Some {
                    parent_of(path_of(path))->0
                } else {
                    app.root
                },
                None => app.root,
            };
            let prompt = |title: Seq<char>, kind: PromptKind|
                (AppView {
                    overlay: Some(
                        OverlayView::Prompt(PromptView { title, input: Seq::empty(), kind }),
                    ),
                    ..app
                });
            &&& app.act(MenuAction::NewFile, target) == prompt(
                "New file"@,
                PromptKind::NewFile(dir),
            )
            &&& app.act(MenuAction::NewFolder, target) == prompt(
                "New folder"@,
                PromptKind::NewFolder(dir),
            )
        }),
{
    reveal(AppView::act);
}

/// The entries for one file or folder: copying gives its text, whole or seen from the root;
/// renaming asks, starting with its last component; deleting asks first; opening and staging go by
/// its path. The root has none of them.
pub proof fn law_menu_entries_for_a_path(app: AppView, path: PathBuf, is_dir: bool)
    ensures
        ({
            let target = Some((path, is_dir));
            let asking = |deed: Deed| (AppView { asked: app.asked.push(deed), ..app });
            &&& app.act(MenuAction::CopyPath, target) == asking(
                Deed::Copy(path_text(path_of(path))),
            )
            &&& relative_path(path_of(path), path_of(app.root)) matches Some(inner) ==> app.act(
                MenuAction::CopyRelativePath,
                target,
            ) == asking(Deed::Copy(path_text(path_of(inner))))
            &&& relative_path(path_of(path), path_of(app.root)) is None ==> app.act(
                MenuAction::CopyRelativePath,
                target,
            ) == asking(Deed::Copy(path_text(path_of(path))))
            &&& app.act(MenuAction::Rename, target) == (AppView {
                overlay: Some(
                    OverlayView::Prompt(
                        PromptView {
                            title: "Rename"@,
                            input: match file_name_of(path_of(path)) {
                                Some(name) => name,
                                None => Seq::empty(),
                            },
                            kind: PromptKind::Rename(path),
                        },
                    ),
                ),
                ..app
            })
            &&& app.act(MenuAction::Delete, target) == (AppView {
                overlay: Some(OverlayView::ConfirmDelete { path, is_dir }),
                ..app
            })
            &&& app.act(MenuAction::OpenExternal, target) == asking(
                Deed::OpenExternal {
                    path,
                    name: match file_name_of(path_of(path)) {
                        Some(name) => name,
                        None => lossy_text(path_of(path)),
                    },
                },
            )
            &&& app.act(MenuAction::Stage, target) == asking(Deed::Plain(Effect::Stage(path)))
            &&& app.act(MenuAction::Reveal, target) == asking(Deed::Plain(Effect::Reveal(path)))
            &&& app.act(MenuAction::Reveal, None) == asking(
                Deed::Plain(Effect::Reveal(app.root)),
            )
            &&& app.act(MenuAction::CopyPath, None) == app
            &&& app.act(MenuAction::CopyRelativePath, None) == app
            &&& app.act(MenuAction::Rename, None) == app
            &&& app.act(MenuAction::Delete, None) == app
            &&& app.act(MenuAction::OpenExternal, None) == app
            &&& app.act(MenuAction::Stage, None) == app
        }),
{
    reveal(AppView::act);
}

/// The entries that change the folder: one opens the platform's picker, one at a time, or a prompt
/// where there is none; the other always opens the prompt, which starts with the present folder.
pub proof fn law_menu_entries_for_the_folder(app: AppView, target: Option<(PathBuf, bool)>)
    ensures
        ({
            let typed = AppView {
                overlay: Some(
                    OverlayView::Prompt(
                        PromptView {
                            title: "Folder"@,
                            input: path_text(path_of(app.root)),
                            kind: PromptKind::ChangeFolder,
                        },
                    ),
                ),
                ..app
            };
            &&& app.act(MenuAction::ChangeFolderTyped, target) == typed
            &&& !app.native_picker ==> app.act(MenuAction::ChangeFolder, target) == typed
            &&& app.native_picker && app.picking ==> app.act(MenuAction::ChangeFolder, target)
                == app
            &&& app.native_picker && !app.picking ==> app.act(MenuAction::ChangeFolder, target) == (
            AppView {
                picking: true,
                notice: Some("folder picker open… (check your other windows)"@),
                asked: app.asked.push(Deed::Plain(Effect::PickFolder)),
                ..app
            })
        }),
{
    reveal(AppView::act);
}

/// A right click opens the menu of the row under it, which is selected, or else of the root; where
/// a menu is open, that one gives way.
#[verifier::rlimit(40)]
pub proof fn law_right_clicks_open_the_menu(app: AppView, mouse: MouseEvent, now: u64)
    requires
        mouse.kind == MouseKind::RightDown,
        app.overlay is None || (app.overlay matches Some(OverlayView::Menu(_))),
        app.rows.len() <= usize::MAX,
    ensures
        ({
            let after = app.on_mouse(mouse, now).app;
            let seen = AppView {
                last_mouse: Some(now),
                mouse_pos: Some((mouse.column, mouse.row)),
                overlay: None,
                notice: if app.overlay is None {
                    None
                } else {
                    app.notice
                },
                ..app
            };
            let index = app.body.offset + (mouse.row - app.body.top);
            let on_row = app.body.top <= mouse.row < app.body.top + app.body.height && index
                < app.rows.len();
            &&& app.on_mouse(mouse, now).exit is None
            &&& on_row ==> after == (AppView {
                selected: Some(index as usize),
                snap: true,
                asked: app.asked.push(
                    Deed::Plain(Effect::PersistTree(Some(app.rows[index].path))),
                ).push(
                    Deed::Plain(
                        Effect::ShowMenu {
                            x: mouse.column,
                            y: mouse.row,
                            target: Some((app.rows[index].path, app.rows[index].is_dir)),
                        },
                    ),
                ),
                ..seen
            })
            &&& !on_row ==> after == (AppView {
                asked: app.asked.push(
                    Deed::Plain(
                        Effect::ShowMenu { x: mouse.column, y: mouse.row, target: None },
                    ),
                ),
                ..seen
            })
        }),
{
    reveal(AppView::move_menu);
}

/// In Settings, Esc, `q` and `s` close the modal, the arrows and `k`, `j` go from row to row, Left
/// and Right and `h`, `l` step the width on its row only, Enter and the space bar toggle; no other
/// key does anything.
#[verifier::rlimit(40)]
pub proof fn law_settings_keys(app: AppView, key: KeyEvent, modal: SettingsModal)
    requires
        app.overlay == Some(OverlayView::Settings(modal)),
        goes_to_modal(key),
        modal.selected < 15,
    ensures
        ({
            let after = app.on_key(key).app;
            let same = AppView { notice: None, ..app };
            let code = key.code;
            let closes = code == KeyCode::Esc || code == KeyCode::Char('q') || code
                == KeyCode::Char('s');
            let up = code == KeyCode::Up || code == KeyCode::Char('k');
            let down = code == KeyCode::Down || code == KeyCode::Char('j');
            let left = code == KeyCode::Left || code == KeyCode::Char('h');
            let right = code == KeyCode::Right || code == KeyCode::Char('l');
            let toggles = code == KeyCode::Enter || code == KeyCode::Char(' ');
            let at = |row: int|
                with_modal(
                    app,
                    OverlayView::Settings(SettingsModal { selected: row as usize, ..modal }),
                );
            &&& closes ==> after == (AppView { notice: None, overlay: None, ..app })
            &&& up && modal.selected > 0 ==> after == at(modal.selected - 1)
            &&& up && modal.selected == 0 ==> after == same
            &&& down && modal.selected < 14 ==> after == at(modal.selected + 1)
            &&& down && modal.selected == 14 ==> after == same
            &&& (left || right) && modal.selected != 2 ==> after == same
            &&& (left || right) && modal.selected == 2 ==> after == (AppView {
                asked: if app.has_pane {
                    app.asked.push(
                        Deed::Plain(Effect::UpdateState(Change::StepWidth { wider: right })),
                    ).push(Deed::Plain(Effect::ResizePreferred { current: app.last_width }))
                } else {
                    app.asked.push(
                        Deed::Plain(Effect::UpdateState(Change::StepWidth { wider: right })),
                    )
                },
                ..same
            })
            &&& toggles ==> after == same.toggle_setting(modal.selected as int)
            &&& !closes && !up && !down && !left && !right && !toggles ==> after == same
        }),
{
    reveal(AppView::settings_key);
}

/// In Settings the mouse selects the row that it is over, and a click there toggles that row. A
/// click on the border does nothing, a click outside closes the modal. The first row that shows
/// stands right below the top border.
pub proof fn law_the_mouse_in_settings(
    app: AppView,
    mouse: MouseEvent,
    now: u64,
    modal: SettingsModal,
)
    requires
        app.overlay == Some(OverlayView::Settings(modal)),
    ensures
        ({
            let after = app.on_mouse(mouse, now).app;
            let seen = AppView {
                last_mouse: Some(now),
                mouse_pos: Some((mouse.column, mouse.row)),
                ..app
            };
            let rect = modal.rect;
            let index = mouse.row - rect.y - 1 + modal.scroll;
            let over = rect.x < mouse.column < rect.x + rect.width - 1 && rect.y < mouse.row
                < rect.y + rect.height - 1 && index < 15;
            let inside = rect.x <= mouse.column < rect.x + rect.width && rect.y <= mouse.row
                < rect.y + rect.height;
            let at = AppView {
                overlay: Some(
                    OverlayView::Settings(SettingsModal { selected: index as usize, ..modal }),
                ),
                ..seen
            };
            &&& app.on_mouse(mouse, now).exit is None
            &&& mouse.kind == MouseKind::Moved ==> after == if over {
                at
            } else {
                seen
            }
            &&& mouse.kind == MouseKind::LeftDown && over ==> after == at.toggle_setting(index)
            &&& mouse.kind == MouseKind::LeftDown && !over && inside ==> after == seen
            &&& mouse.kind == MouseKind::LeftDown && !inside ==> after == (AppView {
                overlay: None,
                ..seen
            })
            &&& mouse.kind != MouseKind::Moved && mouse.kind != MouseKind::LeftDown ==> after
                == seen
        }),
{
    reveal(AppView::settings_mouse);
}

/// Prompts, questions and Quick Open are for the keyboard: the mouse is only noticed.
pub proof fn law_the_mouse_leaves_prompts_alone(app: AppView, mouse: MouseEvent, now: u64)
    requires
        match app.overlay {
            Some(OverlayView::Prompt(_)) => true,
            Some(OverlayView::QuickOpen(_)) => true,
            Some(OverlayView::ConfirmDelete { path, is_dir }) => true,
            _ => false,
        },
    ensures
        app.on_mouse(mouse, now).exit is None,
        app.on_mouse(mouse, now).app == (AppView {
            last_mouse: Some(now),
            mouse_pos: Some((mouse.column, mouse.row)),
            ..app
        }),
{
}

} // verus!
