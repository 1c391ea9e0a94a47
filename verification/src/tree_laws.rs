//! What the keys do in the tree, where no modal is open.

use crate::explorer::{
    last_of_depth, row_at_path, AppView, Deed, Effect, Outcome, OverlayView, PromptKind,
    PromptView, SettingsModal,
};
use crate::geometry::Rect;
use crate::icons::IconTheme;
use crate::input::{KeyCode, KeyEvent};
use crate::paths::{path_of, path_text, same_components};
use crate::quick_open::matches_for;
use crate::rows::Row;
use crate::state::{Exit, PreviewEditor, View};
use crate::state_file::Change;
use vstd::prelude::*;
use vstd::view::View as _;

verus! {

/// A key goes to the tree: it went down, no modal is open, and it is none of the two commands
/// with control.
pub open spec fn goes_to_tree(app: AppView, key: KeyEvent) -> bool {
    &&& key.pressed
    &&& app.overlay is None
    &&& !(key.control && !key.alt && (key.code == KeyCode::Char('q') || key.code == KeyCode::Char(
        'p',
    )))
}

/// The view with one of its rows selected: it is brought into view and kept for the next sidebar,
/// and the notice is gone.
pub open spec fn with_row(app: AppView, row: int) -> AppView {
    AppView {
        notice: None,
        selected: Some(row as usize),
        snap: true,
        asked: app.asked.push(Deed::Plain(Effect::PersistTree(Some(app.rows[row].path)))),
        ..app
    }
}

/// The view without a notice, and with those things asked for.
pub open spec fn asking_for(app: AppView, deeds: Seq<Deed>) -> AppView {
    AppView { notice: None, asked: app.asked + deeds, ..app }
}

/// The row is the parent of another: the nearest one above it of one level less.
pub open spec fn is_parent(rows: Seq<Row>, parent: int, child: int) -> bool {
    &&& 0 <= parent < child < rows.len()
    &&& rows[parent].depth + 1 == rows[child].depth
    &&& forall|k: int| parent < k < child ==> (#[trigger] rows[k]).depth + 1 != rows[child].depth
}

/// The nearest row above of a depth.
proof fn lemma_last_of_depth(rows: Seq<Row>, end: int, depth: int)
    requires
        0 <= end <= rows.len() <= usize::MAX,
    ensures
        match last_of_depth(rows, end, depth) {
            Some(found) => found < end && rows[found as int].depth == depth && forall|k: int|
                found < k < end ==> (#[trigger] rows[k]).depth != depth,
            None => forall|k: int| 0 <= k < end ==> (#[trigger] rows[k]).depth != depth,
        },
    decreases end,
{
    if end > 0 && rows[end - 1].depth != depth {
        lemma_last_of_depth(rows, end - 1, depth);
    }
}

/// Left collapses the selected directory where it is expanded. On any other row it selects the
/// row's parent, and does nothing where the row has none.
#[verifier::rlimit(40)]
pub proof fn law_left_collapses_or_goes_to_the_parent(app: AppView, key: KeyEvent, at: usize)
    requires
        goes_to_tree(app, key),
        key.code == KeyCode::Left || key.code == KeyCode::Char('h'),
        app.selected == Some(at),
        at < app.rows.len() <= usize::MAX,
    ensures
        app.on_key(key).exit is None,
        app.rows[at as int].is_dir && app.rows[at as int].expanded ==> app.on_key(key).app
            == asking_for(
            app,
            seq![
                Deed::Plain(Effect::CollapseDir(app.rows[at as int].path)),
                Deed::Plain(Effect::Rebuild),
            ],
        ),
        !(app.rows[at as int].is_dir && app.rows[at as int].expanded) ==> {
            &&& forall|parent: int| #[trigger]
                is_parent(app.rows, parent, at as int) ==> app.on_key(key).app == with_row(
                    app,
                    parent,
                )
            &&& (forall|k: int|
                0 <= k < at ==> (#[trigger] app.rows[k]).depth + 1 != app.rows[at as int].depth)
                ==> app.on_key(key).app == asking_for(app, seq![])
        },
{
    assert(app.on_key(key) == (Outcome {
        app: AppView { notice: None, ..app }.collapse_or_parent(),
        exit: None,
    }));
    let row = app.rows[at as int];
    lemma_last_of_depth(app.rows, at as int, row.depth - 1);
    lemma_asked(app);
    if !(row.is_dir && row.expanded) {
        assert forall|parent: int| #[trigger] is_parent(app.rows, parent, at as int) implies
            app.on_key(key).app == with_row(app, parent) by {
            let found = last_of_depth(app.rows, at as int, row.depth - 1);
            assert(found is Some);
            if found->0 < parent {
                assert(app.rows[parent].depth == row.depth - 1);
            }
            if found->0 > parent {
                assert(app.rows[found->0 as int].depth + 1 != row.depth);
            }
        }
    } else {
        assert(app.asked + seq![
            Deed::Plain(Effect::CollapseDir(row.path)),
            Deed::Plain(Effect::Rebuild),
        ] =~= app.asked.push(Deed::Plain(Effect::CollapseDir(row.path))).push(
            Deed::Plain(Effect::Rebuild),
        ));
    }
}

/// Asking for nothing leaves what is asked as it is.
proof fn lemma_asked(app: AppView)
    ensures
        app.asked + Seq::<Deed>::empty() == app.asked,
{
    assert(app.asked + Seq::<Deed>::empty() =~= app.asked);
}

/// Right expands the selected directory where it is collapsed, steps into an expanded one that
/// has something in it, and does nothing on a file.
#[verifier::rlimit(40)]
pub proof fn law_right_expands_or_steps_in(app: AppView, key: KeyEvent, at: usize)
    requires
        goes_to_tree(app, key),
        key.code == KeyCode::Right || key.code == KeyCode::Char('l'),
        app.selected == Some(at),
        at < app.rows.len() <= usize::MAX,
    ensures
        ({
            let row = app.rows[at as int];
            let after = app.on_key(key).app;
            let has_child = at + 1 < app.rows.len() && app.rows[at + 1].depth == row.depth + 1;
            &&& app.on_key(key).exit is None
            &&& row.is_dir && !row.expanded ==> after == asking_for(
                app,
                seq![Deed::Plain(Effect::ExpandDir(row.path)), Deed::Plain(Effect::Rebuild)],
            )
            &&& row.is_dir && row.expanded && has_child ==> after == with_row(app, at + 1)
            &&& row.is_dir && row.expanded && !has_child ==> after == asking_for(app, seq![])
            &&& !row.is_dir ==> after == asking_for(app, seq![])
        }),
{
    assert(app.on_key(key) == (Outcome {
        app: AppView { notice: None, ..app }.expand_or_enter(),
        exit: None,
    }));
    let row = app.rows[at as int];
    lemma_asked(app);
    assert(app.asked + seq![Deed::Plain(Effect::ExpandDir(row.path)), Deed::Plain(Effect::Rebuild)]
        =~= app.asked.push(Deed::Plain(Effect::ExpandDir(row.path))).push(
        Deed::Plain(Effect::Rebuild),
    ));
}

/// Enter and the space bar toggle the selected directory, and open the selected file: in Neovim
/// where the settings say so, else in the viewer, which needs a pane.
#[verifier::rlimit(40)]
pub proof fn law_enter_toggles_or_opens(app: AppView, key: KeyEvent, at: usize)
    requires
        goes_to_tree(app, key),
        key.code == KeyCode::Enter || key.code == KeyCode::Char(' '),
        app.selected == Some(at),
        at < app.rows.len(),
    ensures
        ({
            let row = app.rows[at as int];
            let after = app.on_key(key).app;
            let neovim = app.state.preview_editor == PreviewEditor::Neovim;
            &&& app.on_key(key).exit is None
            &&& row.is_dir ==> after == asking_for(
                app,
                seq![Deed::Plain(Effect::ToggleDir(row.path)), Deed::Plain(Effect::Rebuild)],
            )
            &&& !row.is_dir && neovim ==> after == asking_for(
                AppView { last_preview: None, ..app },
                seq![Deed::Plain(Effect::OpenNeovim(row.path))],
            )
            &&& !row.is_dir && !neovim && app.has_pane ==> after == asking_for(
                app,
                seq![Deed::Plain(Effect::OpenViewer(row.path))],
            )
            &&& !row.is_dir && !neovim && !app.has_pane ==> after == (AppView {
                notice: Some("preview needs a herdr pane"@),
                ..app
            })
        }),
{
    assert(app.on_key(key) == (Outcome {
        app: AppView { notice: None, ..app }.toggle(),
        exit: None,
    }));
    let row = app.rows[at as int];
    assert(app.asked + seq![Deed::Plain(Effect::ToggleDir(row.path)), Deed::Plain(Effect::Rebuild)]
        =~= app.asked.push(Deed::Plain(Effect::ToggleDir(row.path))).push(
        Deed::Plain(Effect::Rebuild),
    ));
    assert(app.asked + seq![Deed::Plain(Effect::OpenNeovim(row.path))] =~= app.asked.push(
        Deed::Plain(Effect::OpenNeovim(row.path)),
    ));
    assert(app.asked + seq![Deed::Plain(Effect::OpenViewer(row.path))] =~= app.asked.push(
        Deed::Plain(Effect::OpenViewer(row.path)),
    ));
}

/// Without a row that is selected, the keys for the selected row do nothing.
pub proof fn law_no_row_no_action(app: AppView, key: KeyEvent)
    requires
        goes_to_tree(app, key),
        key.code == KeyCode::Left || key.code == KeyCode::Char('h') || key.code == KeyCode::Right
            || key.code == KeyCode::Char('l') || key.code == KeyCode::Enter || key.code
            == KeyCode::Char(' '),
        app.selected matches Some(at) ==> at >= app.rows.len(),
    ensures
        app.on_key(key).exit is None,
        app.on_key(key).app == asking_for(app, seq![]),
{
    lemma_asked(app);
}

/// How far a key moves the selection: one row, or a page.
pub open spec fn stride(app: AppView, code: KeyCode) -> Option<int> {
    if code == KeyCode::Up || code == KeyCode::Char('k') {
        Some(-1int)
    } else if code == KeyCode::Down || code == KeyCode::Char('j') {
        Some(1int)
    } else if code == KeyCode::PageUp {
        Some(-(app.page as int))
    } else if code == KeyCode::PageDown {
        Some(app.page as int)
    } else {
        None
    }
}

/// How the selection moves.
proof fn lemma_moved(app: AppView, delta: int)
    requires
        app.rows.len() <= usize::MAX,
    ensures
        ({
            let after = AppView { notice: None, ..app }.move_by(delta);
            let last = app.rows.len() - 1;
            &&& app.rows.len() == 0 ==> after == asking_for(app, seq![])
            &&& app.rows.len() > 0 && app.selected is None ==> after == with_row(app, 0)
            &&& app.rows.len() > 0 ==> (app.selected matches Some(at) ==> ({
                let goal = at + delta;
                &&& goal < 0 ==> after == with_row(app, 0)
                &&& 0 <= goal <= last ==> after == with_row(app, goal)
                &&& goal > last ==> after == with_row(app, last)
            }))
        }),
{
    lemma_asked(app);
}

/// The arrows move the selection by a row and the page keys by a page, as far as the list goes;
/// the first step in a list without a selection picks the first row, and in an empty list nothing
/// happens.
pub proof fn law_steps_move_the_selection(app: AppView, key: KeyEvent)
    requires
        goes_to_tree(app, key),
        stride(app, key.code) is Some,
        app.rows.len() <= usize::MAX,
    ensures
        ({
            let after = app.on_key(key).app;
            let last = app.rows.len() - 1;
            &&& app.on_key(key).exit is None
            &&& app.rows.len() == 0 ==> after == asking_for(app, seq![])
            &&& app.rows.len() > 0 && app.selected is None ==> after == with_row(app, 0)
            &&& app.rows.len() > 0 ==> (app.selected matches Some(at) ==> ({
                let goal = at + stride(app, key.code)->0;
                &&& goal < 0 ==> after == with_row(app, 0)
                &&& 0 <= goal <= last ==> after == with_row(app, goal)
                &&& goal > last ==> after == with_row(app, last)
            }))
        }),
{
    let delta = stride(app, key.code)->0;
    lemma_moved(app, delta);
    assert(app.on_key(key) == (Outcome {
        app: AppView { notice: None, ..app }.move_by(delta),
        exit: None,
    }));
}

/// Home goes to the first row, End to the last.
pub proof fn law_home_and_end_go_to_the_ends(app: AppView, key: KeyEvent)
    requires
        goes_to_tree(app, key),
        app.rows.len() <= usize::MAX,
        key.code == KeyCode::Home || key.code == KeyCode::Char('g') || key.code == KeyCode::End
            || key.code == KeyCode::Char('G'),
    ensures
        app.on_key(key).exit is None,
        app.rows.len() == 0 ==> app.on_key(key).app == asking_for(app, seq![]),
        app.rows.len() > 0 && (key.code == KeyCode::Home || key.code == KeyCode::Char('g'))
            ==> app.on_key(key).app == with_row(app, 0),
        app.rows.len() > 0 && (key.code == KeyCode::End || key.code == KeyCode::Char('G'))
            ==> app.on_key(key).app == with_row(app, app.rows.len() - 1),
{
    lemma_asked(app);
}

/// `r` reads the tree, the repositories and their status again, and `.` shows hidden files or
/// leaves them out; either way the index of files is forgotten.
pub proof fn law_reading_again_forgets_the_index(app: AppView, key: KeyEvent)
    requires
        goes_to_tree(app, key),
        key.code == KeyCode::Char('r') || key.code == KeyCode::Char('.'),
    ensures
        ({
            let fresh = AppView { index: None, quick_pending: false, ..app };
            &&& app.on_key(key).exit is None
            &&& key.code == KeyCode::Char('r') ==> app.on_key(key).app == asking_for(
                fresh,
                seq![
                    Deed::Plain(Effect::RefreshTree),
                    Deed::Plain(Effect::RediscoverRepos),
                    Deed::Plain(Effect::RequestDecorations { force: true }),
                    Deed::Plain(Effect::Rebuild),
                ],
            )
            &&& key.code == KeyCode::Char('.') ==> app.on_key(key).app == asking_for(
                AppView { show_hidden: !app.show_hidden, ..fresh },
                seq![
                    Deed::Plain(Effect::ShowHidden(!app.show_hidden)),
                    Deed::Plain(Effect::Rebuild),
                ],
            )
        }),
{
    assert(app.asked + seq![
        Deed::Plain(Effect::RefreshTree),
        Deed::Plain(Effect::RediscoverRepos),
        Deed::Plain(Effect::RequestDecorations { force: true }),
        Deed::Plain(Effect::Rebuild),
    ] =~= app.asked.push(Deed::Plain(Effect::RefreshTree)).push(
        Deed::Plain(Effect::RediscoverRepos),
    ).push(Deed::Plain(Effect::RequestDecorations { force: true })).push(
        Deed::Plain(Effect::Rebuild),
    ));
    assert(app.asked + seq![
        Deed::Plain(Effect::ShowHidden(!app.show_hidden)),
        Deed::Plain(Effect::Rebuild),
    ] =~= app.asked.push(Deed::Plain(Effect::ShowHidden(!app.show_hidden))).push(
        Deed::Plain(Effect::Rebuild),
    ));
}

/// `i` switches between the two icon themes and remembers the choice; `b` hides the sidebar and
/// Esc closes the preview, both in a pane only.
pub proof fn law_letters_for_the_pane(app: AppView, key: KeyEvent)
    requires
        goes_to_tree(app, key),
        key.code == KeyCode::Char('i') || key.code == KeyCode::Char('b') || key.code
            == KeyCode::Esc,
    ensures
        ({
            let after = app.on_key(key).app;
            let theme = if app.theme == IconTheme::Material {
                IconTheme::Emoji
            } else {
                IconTheme::Material
            };
            &&& app.on_key(key).exit is None
            &&& key.code == KeyCode::Char('i') ==> after == asking_for(
                AppView { theme, ..app },
                seq![Deed::Plain(Effect::UpdateState(Change::SetIcons(theme)))],
            )
            &&& key.code == KeyCode::Char('b') ==> after == asking_for(
                app,
                if app.has_pane {
                    seq![Deed::Plain(Effect::Hide)]
                } else {
                    seq![]
                },
            )
            &&& key.code == KeyCode::Esc ==> after == asking_for(
                app,
                if app.has_pane {
                    seq![Deed::Plain(Effect::ClosePreview)]
                } else {
                    seq![]
                },
            )
        }),
{
    lemma_asked(app);
    let theme = if app.theme == IconTheme::Material {
        IconTheme::Emoji
    } else {
        IconTheme::Material
    };
    assert(app.asked + seq![Deed::Plain(Effect::UpdateState(Change::SetIcons(theme)))]
        =~= app.asked.push(Deed::Plain(Effect::UpdateState(Change::SetIcons(theme)))));
    assert(app.asked + seq![Deed::Plain(Effect::Hide)] =~= app.asked.push(
        Deed::Plain(Effect::Hide),
    ));
    assert(app.asked + seq![Deed::Plain(Effect::ClosePreview)] =~= app.asked.push(
        Deed::Plain(Effect::ClosePreview),
    ));
}

/// `s` opens the Settings modal at its first row. `c` opens the platform's folder picker, one at a
/// time, or where there is none a prompt that starts with the present folder.
pub proof fn law_letters_that_open(app: AppView, key: KeyEvent)
    requires
        goes_to_tree(app, key),
        key.code == KeyCode::Char('s') || key.code == KeyCode::Char('c'),
    ensures
        ({
            let after = app.on_key(key).app;
            let quiet = AppView { notice: None, ..app };
            &&& app.on_key(key).exit is None
            &&& key.code == KeyCode::Char('s') ==> after == (AppView {
                overlay: Some(
                    OverlayView::Settings(
                        SettingsModal {
                            selected: 0,
                            rect: Rect { x: 0, y: 0, width: 0, height: 0 },
                            scroll: 0,
                        },
                    ),
                ),
                ..quiet
            })
            &&& key.code == KeyCode::Char('c') && !app.native_picker ==> after == (AppView {
                overlay: Some(
                    OverlayView::Prompt(
                        PromptView {
                            title: "Folder"@,
                            input: path_text(path_of(app.root)),
                            kind: PromptKind::ChangeFolder,
                        },
                    ),
                ),
                ..quiet
            })
            &&& key.code == KeyCode::Char('c') && app.native_picker && app.picking ==> after
                == quiet
            &&& key.code == KeyCode::Char('c') && app.native_picker && !app.picking ==> after == (
            AppView {
                picking: true,
                notice: Some("folder picker open… (check your other windows)"@),
                asked: app.asked.push(Deed::Plain(Effect::PickFolder)),
                ..app
            })
        }),
{
}

/// `m` asks for the context menu of the selected row, or of the root where nothing is selected.
#[verifier::rlimit(40)]
pub proof fn law_m_opens_the_menu_of_the_selection(app: AppView, key: KeyEvent)
    requires
        goes_to_tree(app, key),
        key.code == KeyCode::Char('m'),
    ensures
        app.on_key(key).exit is None,
        ({
            let after = app.on_key(key).app;
            &&& after == (AppView { notice: None, asked: after.asked, ..app })
            &&& after.asked.len() == app.asked.len() + 1
            &&& after.asked.drop_last() == app.asked
            &&& after.asked.last() matches Deed::Plain(Effect::ShowMenu { x, y, target })
            &&& match app.selected {
                Some(at) => {
                    &&& at < app.rows.len() ==> target == Some(
                        (app.rows[at as int].path, app.rows[at as int].is_dir),
                    )
                    &&& at < app.rows.len() && 2 * app.rows[at as int].depth < app.last_width ==> x
                        == 2 * app.rows[at as int].depth
                    &&& at < app.rows.len() && 2 * app.rows[at as int].depth >= app.last_width > 0
                        ==> x + 1 == app.last_width
                    &&& app.last_width == 0 ==> x == 0
                    &&& at >= app.rows.len() ==> target is None && x == 0
                    &&& app.body.offset <= at < app.body.offset + app.body.height && app.body.top
                        + (at - app.body.offset) <= u16::MAX ==> y == app.body.top + (at
                        - app.body.offset)
                    &&& app.body.offset <= at < app.body.offset + app.body.height && app.body.top
                        + (at - app.body.offset) > u16::MAX ==> y == u16::MAX
                    &&& !(app.body.offset <= at < app.body.offset + app.body.height) ==> y
                        == app.body.top
                },
                None => target is None && x == 0 && y == app.body.top,
            }
        }),
{
    assert(app.on_key(key) == (Outcome {
        app: AppView { notice: None, ..app }.open_menu_for_selection(),
        exit: None,
    }));
    let after = app.on_key(key).app;
    assert(after.asked.drop_last() =~= app.asked);
}

/// `2` hands the pane to the source-control view and remembers it, in the unified sidebar alone;
/// `1` stays with the Explorer. `q` ends the view.
pub proof fn law_letters_that_leave(app: AppView, key: KeyEvent)
    requires
        goes_to_tree(app, key),
        key.code == KeyCode::Char('1') || key.code == KeyCode::Char('2') || key.code
            == KeyCode::Char('q'),
    ensures
        key.code == KeyCode::Char('q') ==> app.on_key(key).exit == Some(Exit::Quit) && app.on_key(
            key,
        ).app == asking_for(app, seq![]),
        key.code == KeyCode::Char('2') && app.state.merged && app.has_other ==> app.on_key(key).exit
            == Some(Exit::Switch) && app.on_key(key).app == asking_for(
            app,
            seq![Deed::Plain(Effect::UpdateState(Change::Show(View::SourceControl)))],
        ),
        key.code == KeyCode::Char('1') || (key.code == KeyCode::Char('2') && !(app.state.merged
            && app.has_other)) ==> app.on_key(key).exit is None && app.on_key(key).app
            == asking_for(app, seq![]),
{
    lemma_asked(app);
    assert(app.asked + seq![Deed::Plain(Effect::UpdateState(Change::Show(View::SourceControl)))]
        =~= app.asked.push(Deed::Plain(Effect::UpdateState(Change::Show(View::SourceControl)))));
}

/// Any other key only clears the notice.
pub proof fn law_other_keys_do_nothing(app: AppView, key: KeyEvent)
    requires
        goes_to_tree(app, key),
        match key.code {
            KeyCode::Char(c) => c != 'q' && c != 'k' && c != 'j' && c != 'g' && c != 'G' && c != 'l'
                && c != 'h' && c != ' ' && c != 'r' && c != '.' && c != 'i' && c != 'b' && c != 'c'
                && c != 'm' && c != 's' && c != '1' && c != '2',
            KeyCode::Backspace => true,
            KeyCode::Other => true,
            _ => false,
        },
    ensures
        app.on_key(key).exit is None,
        app.on_key(key).app == asking_for(app, seq![]),
{
    lemma_asked(app);
}

/// Control and `p` opens Quick Open with nothing typed: on the files that are indexed where the
/// index is that of the folder and of the hidden files that are shown, else waiting for an index,
/// which is asked for once.
pub proof fn law_control_p_opens_quick_open(app: AppView, key: KeyEvent)
    requires
        key.pressed && key.code == KeyCode::Char('p') && key.control && !key.alt,
        app.overlay is None,
    ensures
        app.on_key(key).exit is None,
        ({
            let after = app.on_key(key).app;
            let fits = app.index is Some && same_components(
                path_of(app.index->0.root),
                path_of(app.root),
            ) && app.index->0.show_hidden == app.show_hidden;
            &&& after.overlay matches Some(OverlayView::QuickOpen(finder))
            &&& finder.query.len() == 0 && finder.selected == 0 && finder.loading == !fits
            &&& fits ==> finder.files == app.index->0.files && finder.truncated
                == app.index->0.truncated
            &&& !fits ==> finder.files.len() == 0 && !finder.truncated
            &&& finder.matches == matches_for(finder.files, finder.query)
            &&& after == (AppView {
                overlay: after.overlay,
                quick_pending: app.quick_pending || !fits,
                asked: if fits || app.quick_pending {
                    app.asked
                } else {
                    app.asked.push(Deed::Plain(Effect::StartQuickIndex))
                },
                ..app
            })
        }),
{
}

/// When the tree is read again, the selection stays on the first row of its path; where the path
/// is gone it stays at its place, or on the last row of a shorter list. Nothing is hovered, the
/// list is not scrolled past its end, and the rest of the view stays.
pub proof fn law_rereading_keeps_the_place(app: AppView, rows: Seq<Row>)
    requires
        rows.len() <= usize::MAX,
        app.selected matches Some(at) ==> at < app.rows.len(),
    ensures
        ({
            let after = app.rebuild(rows);
            &&& after == (AppView {
                rows,
                hovered: None,
                selected: after.selected,
                scroll: after.scroll,
                asked: app.asked.push(
                    Deed::Plain(
                        Effect::PersistTree(
                            match app.selected {
                                Some(at) => Some(app.rows[at as int].path),
                                None => None,
                            },
                        ),
                    ),
                ),
                ..app
            })
            &&& after.scroll <= app.scroll && (rows.len() > 0 ==> after.scroll < rows.len())
            &&& app.scroll < rows.len() ==> after.scroll == app.scroll
            &&& rows.len() == 0 ==> after.scroll == 0 && after.selected is None
            &&& app.selected is None ==> after.selected is None
            &&& rows.len() > 0 ==> (app.selected matches Some(at) ==> ({
                let path = app.rows[at as int].path;
                &&& after.selected matches Some(now)
                &&& now < rows.len()
                &&& (exists|k: int|
                    0 <= k < rows.len() && same_components(
                        path_of((#[trigger] rows[k]).path),
                        path_of(path),
                    )) ==> same_components(path_of(rows[now as int].path), path_of(path))
                    && forall|k: int|
                    0 <= k < now ==> !same_components(
                        path_of((#[trigger] rows[k]).path),
                        path_of(path),
                    )
                &&& !(exists|k: int|
                    0 <= k < rows.len() && same_components(
                        path_of((#[trigger] rows[k]).path),
                        path_of(path),
                    )) ==> now == if at < rows.len() {
                    at as int
                } else {
                    rows.len() - 1
                }
            }))
        }),
{
    if let Some(at) = app.selected {
        lemma_first_at_path(rows, app.rows[at as int].path, 0);
    }
}

/// The first row of a path.
proof fn lemma_first_at_path(rows: Seq<Row>, path: std::path::PathBuf, from: int)
    requires
        0 <= from <= rows.len() <= usize::MAX,
    ensures
        match row_at_path(rows, path, from) {
            Some(found) => from <= found < rows.len() && same_components(
                path_of(rows[found as int].path),
                path_of(path),
            ) && forall|k: int|
                from <= k < found ==> !same_components(
                    path_of((#[trigger] rows[k]).path),
                    path_of(path),
                ),
            None => forall|k: int|
                from <= k < rows.len() ==> !same_components(
                    path_of((#[trigger] rows[k]).path),
                    path_of(path),
                ),
        },
    decreases rows.len() - from,
{
    if from < rows.len() && !same_components(path_of(rows[from].path), path_of(path)) {
        lemma_first_at_path(rows, path, from + 1);
    }
}

} // verus!
