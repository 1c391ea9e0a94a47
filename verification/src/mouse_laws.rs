//! What the mouse does in the tree, where no modal is open.

use crate::events::title_under;
use crate::explorer::{
    AppView, Deed, Effect, OverlayView, PromptKind, PromptView, SettingsModal, TitleAction,
};
use crate::geometry::Rect;
use crate::input::{MouseEvent, MouseKind};
use crate::paths::{parent_of, path_of};
use crate::state::{Exit, PreviewEditor, View};
use crate::state_file::Change;
use vstd::prelude::*;
use vstd::view::View as _;

verus! {

/// The view with a mouse event noticed.
pub open spec fn noticed(app: AppView, mouse: MouseEvent, now: u64) -> AppView {
    AppView { last_mouse: Some(now), mouse_pos: Some((mouse.column, mouse.row)), ..app }
}

/// A cell lies in a rectangle.
pub open spec fn lies_in(rect: Rect, mouse: MouseEvent) -> bool {
    &&& rect.x <= mouse.column < rect.x + rect.width
    &&& rect.y <= mouse.row < rect.y + rect.height
}

/// The event is on one of the two icons of the activity bar, which is there in the unified
/// sidebar.
pub open spec fn on_icons(app: AppView, mouse: MouseEvent) -> bool {
    let zones = app.activity;
    &&& app.state.merged && app.has_other
    &&& mouse.row == zones.row
    &&& zones.explorer.0 <= mouse.column < zones.explorer.1 || zones.source_control.0
        <= mouse.column < zones.source_control.1
}

/// The event is on a button of the title bar.
pub open spec fn on_title(app: AppView, mouse: MouseEvent) -> bool {
    exists|i: int|
        0 <= i < app.title_zones.len() && lies_in((#[trigger] app.title_zones[i]).0, mouse)
}

/// The event is on the collapse button: the last four columns of the last row.
pub open spec fn on_collapse(app: AppView, mouse: MouseEvent) -> bool {
    mouse.row + 1 == app.last_height && mouse.column + 4 >= app.last_width
}

/// The event is on no button.
pub open spec fn beside_buttons(app: AppView, mouse: MouseEvent) -> bool {
    &&& !on_icons(app, mouse)
    &&& !lies_in(app.gear, mouse)
    &&& !on_title(app, mouse)
    &&& !on_collapse(app, mouse)
}

/// The event is on that row of the list.
pub open spec fn on_list_row(app: AppView, mouse: MouseEvent, index: int) -> bool {
    &&& app.body.top <= mouse.row < app.body.top + app.body.height
    &&& index == app.body.offset + (mouse.row - app.body.top)
    &&& index < app.rows.len()
}

/// The button of the title bar that is found is the first that is there.
proof fn lemma_title(zones: Seq<(Rect, TitleAction)>, mouse: MouseEvent, from: int)
    requires
        0 <= from <= zones.len(),
    ensures
        match title_under(zones, mouse.column, mouse.row, from) {
            Some(action) => exists|i: int|
                from <= i < zones.len() && lies_in((#[trigger] zones[i]).0, mouse) && zones[i].1
                    == action && forall|k: int|
                    from <= k < i ==> !lies_in((#[trigger] zones[k]).0, mouse),
            None => forall|i: int|
                from <= i < zones.len() ==> !lies_in((#[trigger] zones[i]).0, mouse),
        },
    decreases zones.len() - from,
{
    if from < zones.len() && !zones[from].0.covers(mouse.column, mouse.row) {
        lemma_title(zones, mouse, from + 1);
        if let Some(action) = title_under(zones, mouse.column, mouse.row, from + 1) {
            let i = choose|i: int|
                from + 1 <= i < zones.len() && lies_in((#[trigger] zones[i]).0, mouse) && zones[i].1
                    == action && forall|k: int|
                    from + 1 <= k < i ==> !lies_in((#[trigger] zones[k]).0, mouse);
            assert(lies_in(zones[i].0, mouse));
        }
    } else if from < zones.len() {
        assert(lies_in(zones[from].0, mouse));
    }
}

/// The wheel scrolls three rows, as far as the list goes, and leaves the selection; moving the
/// mouse remembers the row under it; other events are only noticed.
pub proof fn law_wheel_and_hovering(app: AppView, mouse: MouseEvent, now: u64)
    requires
        app.overlay is None,
        app.rows.len() <= usize::MAX,
        mouse.kind != MouseKind::LeftDown && mouse.kind != MouseKind::RightDown,
    ensures
        ({
            let after = app.on_mouse(mouse, now).app;
            let seen = noticed(app, mouse, now);
            let last = app.rows.len() - 1;
            &&& app.on_mouse(mouse, now).exit is None
            &&& mouse.kind == MouseKind::ScrollDown ==> {
                &&& after == (AppView { scroll: after.scroll, ..seen })
                &&& app.scroll + 3 <= last ==> after.scroll == app.scroll + 3
                &&& 0 <= last < app.scroll + 3 ==> after.scroll == last
                &&& last < 0 ==> after.scroll == 0
            }
            &&& mouse.kind == MouseKind::ScrollUp ==> {
                &&& after == (AppView { scroll: after.scroll, ..seen })
                &&& 3 <= app.scroll <= last + 3 ==> after.scroll == app.scroll - 3
                &&& app.scroll < 3 || last < 0 ==> after.scroll == 0
                &&& app.scroll > last + 3 && last >= 0 ==> after.scroll == last
            }
            &&& mouse.kind == MouseKind::Moved ==> {
                &&& after == (AppView { hovered: after.hovered, ..seen })
                &&& forall|index: int| #[trigger]
                    on_list_row(app, mouse, index) ==> after.hovered == Some(index as usize)
                &&& !(exists|index: int| #[trigger] on_list_row(app, mouse, index))
                    ==> after.hovered is None
            }
            &&& mouse.kind == MouseKind::Other ==> after == seen
        }),
{
    let index = app.body.offset + (mouse.row - app.body.top);
    if mouse.kind == MouseKind::Moved && app.on_mouse(mouse, now).app.hovered is Some {
        assert(on_list_row(app, mouse, index));
    }
}

/// A click on the icon of source control hands the pane to that view and remembers it; one on the
/// Explorer's icon does nothing.
pub proof fn law_clicks_on_the_activity_bar(app: AppView, mouse: MouseEvent, now: u64)
    requires
        app.overlay is None,
        mouse.kind == MouseKind::LeftDown,
        on_icons(app, mouse),
    ensures
        ({
            let outcome = app.on_mouse(mouse, now);
            let seen = noticed(app, mouse, now);
            let stays = app.activity.explorer.0 <= mouse.column < app.activity.explorer.1;
            &&& stays ==> outcome.app == seen && outcome.exit is None
            &&& !stays ==> outcome.exit == Some(Exit::Switch) && outcome.app == (AppView {
                asked: app.asked.push(
                    Deed::Plain(Effect::UpdateState(Change::Show(View::SourceControl))),
                ),
                ..seen
            })
        }),
{
}

/// A click on the settings button opens Settings, one on the collapse button hides the sidebar,
/// where it is in a pane.
pub proof fn law_clicks_on_the_other_buttons(app: AppView, mouse: MouseEvent, now: u64)
    requires
        app.overlay is None,
        mouse.kind == MouseKind::LeftDown,
        !on_icons(app, mouse),
    ensures
        ({
            let outcome = app.on_mouse(mouse, now);
            let seen = noticed(app, mouse, now);
            &&& outcome.exit is None
            &&& lies_in(app.gear, mouse) ==> outcome.app == (AppView {
                overlay: Some(
                    OverlayView::Settings(
                        SettingsModal {
                            selected: 0,
                            rect: Rect { x: 0, y: 0, width: 0, height: 0 },
                            scroll: 0,
                        },
                    ),
                ),
                ..seen
            })
            &&& !lies_in(app.gear, mouse) && !on_title(app, mouse) && on_collapse(app, mouse)
                ==> outcome.app == if app.has_pane {
                AppView { asked: app.asked.push(Deed::Plain(Effect::Hide)), ..seen }
            } else {
                seen
            }
        }),
{
    lemma_title(app.title_zones, mouse, 0);
}

/// A click on a button of the title bar, the first that lies there: it asks for the name of a new
/// file or folder beside the selection, reads the tree again, or collapses it all and scrolls to
/// its top.
#[verifier::rlimit(40)]
pub proof fn law_clicks_on_the_title_bar(app: AppView, mouse: MouseEvent, now: u64, at: int)
    requires
        app.overlay is None,
        mouse.kind == MouseKind::LeftDown,
        !on_icons(app, mouse),
        !lies_in(app.gear, mouse),
        0 <= at < app.title_zones.len(),
        lies_in(app.title_zones[at].0, mouse),
        forall|k: int| 0 <= k < at ==> !lies_in((#[trigger] app.title_zones[k]).0, mouse),
    ensures
        ({
            let outcome = app.on_mouse(mouse, now);
            let seen = noticed(app, mouse, now);
            let action = app.title_zones[at].1;
            let dir = match app.selected {
                Some(index) => if index >= app.rows.len() {
                    app.root
                } else if app.rows[index as int].is_dir {
                    app.rows[index as int].path
                } else if parent_of(path_of(app.rows[index as int].path)) is Some {
                    parent_of(path_of(app.rows[index as int].path))->0
                } else {
                    app.root
                },
                None => app.root,
            };
            &&& outcome.exit is None
            &&& action == TitleAction::NewFile ==> outcome.app == (AppView {
                overlay: Some(
                    OverlayView::Prompt(
                        PromptView {
                            title: "New file"@,
                            input: Seq::empty(),
                            kind: PromptKind::NewFile(dir),
                        },
                    ),
                ),
                ..seen
            })
            &&& action == TitleAction::NewFolder ==> outcome.app == (AppView {
                overlay: Some(
                    OverlayView::Prompt(
                        PromptView {
                            title: "New folder"@,
                            input: Seq::empty(),
                            kind: PromptKind::NewFolder(dir),
                        },
                    ),
                ),
                ..seen
            })
            &&& action == TitleAction::Refresh ==> outcome.app == (AppView {
                index: None,
                quick_pending: false,
                asked: app.asked.push(Deed::Plain(Effect::RefreshTree)).push(
                    Deed::Plain(Effect::RediscoverRepos),
                ).push(Deed::Plain(Effect::RequestDecorations { force: true })).push(
                    Deed::Plain(Effect::Rebuild),
                ),
                ..seen
            })
            &&& action == TitleAction::CollapseAll ==> outcome.app == (AppView {
                scroll: 0,
                asked: app.asked.push(Deed::Plain(Effect::CollapseAll)).push(
                    Deed::Plain(Effect::Rebuild),
                ),
                ..seen
            })
        }),
{
    lemma_title(app.title_zones, mouse, 0);
    let zones = app.title_zones;
    if let Some(action) = title_under(zones, mouse.column, mouse.row, 0) {
        let i = choose|i: int|
            0 <= i < zones.len() && lies_in((#[trigger] zones[i]).0, mouse) && zones[i].1 == action
                && forall|k: int| 0 <= k < i ==> !lies_in((#[trigger] zones[k]).0, mouse);
        if i < at {
            assert(!lies_in(zones[i].0, mouse));
        }
        if at < i {
            assert(!lies_in(zones[at].0, mouse));
        }
    }
}

/// The view with the row that was clicked selected.
pub open spec fn clicked(app: AppView, mouse: MouseEvent, now: u64, index: int) -> AppView {
    AppView {
        selected: Some(index as usize),
        snap: true,
        last_click: Some((index as usize, now)),
        asked: app.asked.push(Deed::Plain(Effect::PersistTree(Some(app.rows[index].path)))),
        ..noticed(app, mouse, now)
    }
}

/// A click on a row selects it. A click on the chevron of a directory, or a second click within 450
/// milliseconds, toggles the directory; a click on a file previews it, and a second click pins the
/// preview.
#[verifier::rlimit(60)]
pub proof fn law_clicks_on_rows(app: AppView, mouse: MouseEvent, now: u64, index: int)
    requires
        app.overlay is None,
        mouse.kind == MouseKind::LeftDown,
        beside_buttons(app, mouse),
        on_list_row(app, mouse, index),
        app.rows.len() <= usize::MAX,
    ensures
        ({
            let outcome = app.on_mouse(mouse, now);
            let base = clicked(app, mouse, now, index);
            let row = app.rows[index];
            let chevron = mouse.column == 2 * row.depth || mouse.column == 2 * row.depth + 1;
            let double = app.last_click matches Some((before, at)) && before == index && now - at
                < 450;
            let neovim = app.state.preview_editor == PreviewEditor::Neovim;
            &&& outcome.exit is None
            &&& row.is_dir && !chevron && !double ==> outcome.app == base
            &&& row.is_dir && (chevron || double) ==> outcome.app == (AppView {
                asked: base.asked.push(Deed::Plain(Effect::ToggleDir(row.path))).push(
                    Deed::Plain(Effect::Rebuild),
                ),
                ..base
            })
            &&& !row.is_dir && double ==> outcome.app == (AppView {
                asked: base.asked.push(Deed::Plain(Effect::PinOrOpen(row.path))),
                ..base
            })
            &&& !row.is_dir && !double && neovim ==> outcome.app == (AppView {
                last_preview: None,
                asked: base.asked.push(Deed::Plain(Effect::OpenNeovim(row.path))),
                ..base
            })
            &&& !row.is_dir && !double && !neovim && app.has_pane ==> outcome.app == (AppView {
                asked: base.asked.push(Deed::Plain(Effect::OpenViewer(row.path))),
                ..base
            })
            &&& !row.is_dir && !double && !neovim && !app.has_pane ==> outcome.app == (AppView {
                notice: Some("preview needs a herdr pane"@),
                ..base
            })
        }),
{
    lemma_title(app.title_zones, mouse, 0);
    let seen = noticed(app, mouse, now);
    assert(app.on_mouse(mouse, now).app == seen.click_row(index as usize, mouse.column, now));
}

/// A click beside every button and row is only noticed.
pub proof fn law_clicks_on_nothing(app: AppView, mouse: MouseEvent, now: u64)
    requires
        app.overlay is None,
        mouse.kind == MouseKind::LeftDown,
        beside_buttons(app, mouse),
        !(exists|index: int| #[trigger] on_list_row(app, mouse, index)),
    ensures
        app.on_mouse(mouse, now).exit is None,
        app.on_mouse(mouse, now).app == noticed(app, mouse, now),
{
    lemma_title(app.title_zones, mouse, 0);
    let index = app.body.offset + (mouse.row - app.body.top);
    assert(!on_list_row(app, mouse, index));
}

} // verus!
