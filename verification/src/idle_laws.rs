//! How the view starts, what it does while it is idle, and what it makes of what its effects came
//! to.

use crate::background::{
    folder_said, home_expanded, reported, stage_text, started, DecoStep, IndexPoll,
    PickPoll, Start,
};
use crate::events::since;
use crate::explorer::{
    deeds, row_at_path, AppView, Deed, Effect, FinderView, Menu, Overlay, OverlayView, Prompt,
    PromptKind, QuickOpen, SettingsModal,
};
use crate::geometry::{ActivityZones, BodyGeom, Rect};
use crate::menu::{menu_lines, MenuEntry, MenuItem};
use crate::paths::{
    file_name_of, is_relative_path, joined, path_from, path_of, path_text, same_components,
};
use crate::quick_open::matches_for;
use crate::rows::Row;
use crate::state::State;
use crate::text::{decimal_text, trimmed, white_space};
use std::path::PathBuf;
use vstd::prelude::*;
use vstd::string::*;
use vstd::view::View as _;

verus! {

/// The first row of a path, where a list has one.
pub open spec fn is_first_of(rows: Seq<Row>, path: PathBuf, at: int) -> bool {
    &&& 0 <= at < rows.len()
    &&& same_components(path_of(rows[at].path), path_of(path))
    &&& forall|k: int|
        0 <= k < at ==> !same_components(path_of((#[trigger] rows[k]).path), path_of(path))
}

/// The row that is found at a path is the first of that path.
pub proof fn law_the_first_row_of_a_path_is_found(rows: Seq<Row>, path: PathBuf)
    requires
        rows.len() <= usize::MAX,
    ensures
        match row_at_path(rows, path, 0) {
            Some(found) => is_first_of(rows, path, found as int),
            None => forall|k: int|
                0 <= k < rows.len() ==> !same_components(
                    path_of((#[trigger] rows[k]).path),
                    path_of(path),
                ),
        },
{
    lemma_first(rows, path, 0);
}

proof fn lemma_first(rows: Seq<Row>, path: PathBuf, from: int)
    requires
        0 <= from <= rows.len() <= usize::MAX,
    ensures
        match row_at_path(rows, path, from) {
            Some(found) => from <= found < rows.len() && same_components(
                path_of(rows[found as int].path),
                path_of(path),
            ) && forall|k: int|
                from <= k < found ==> !same_components(
                    path_of((#[trigger] rows[k]).path),
                    path_of(path),
                ),
            None => forall|k: int|
                from <= k < rows.len() ==> !same_components(
                    path_of((#[trigger] rows[k]).path),
                    path_of(path),
                ),
        },
    decreases rows.len() - from,
{
    if from < rows.len() && !same_components(path_of(rows[from].path), path_of(path)) {
        lemma_first(rows, path, from + 1);
    }
}

/// The view starts with the tree and the settings that it is given, on the row that was selected
/// last where that is still shown, with nothing open and nothing hovered; it asks for the palette,
/// the repositories, the pane's identity and the git status, in this order.
#[verifier::rlimit(40)]
pub proof fn law_the_view_starts_where_it_was(start: Start, now: u64)
    requires
        start.rows@.len() <= usize::MAX,
    ensures
        ({
            let app = started(start, now);
            &&& app.root == start.root && app.root_name == start.root_name@
            &&& app.rows == start.rows@ && app.show_hidden == start.show_hidden
            &&& app.theme == start.theme && app.state == start.state
            &&& app.has_pane == start.has_pane && app.has_other == start.has_other
            &&& app.native_picker == start.native_picker
            &&& app.last_layout_width == start.layout_width
            &&& app.last_width == start.state.sidebar_width && app.last_height == 24
            &&& app.page == 20 && app.scroll == 0
            &&& app.hovered is None && app.overlay is None && app.notice is None
            &&& app.last_mouse is None && app.mouse_pos is None && app.last_click is None
            &&& app.last_preview is None && app.index is None
            &&& app.last_beat == now && app.last_deco == now
            &&& !app.picking && !app.deco_pending && !app.quick_pending
            &&& app.body == (BodyGeom { top: 0, height: 0, offset: 0 })
            &&& app.gear == (Rect { x: 0, y: 0, width: 0, height: 0 })
            &&& app.title_zones.len() == 0
            &&& app.activity == (ActivityZones {
                row: u16::MAX,
                explorer: (0, 0),
                source_control: (0, 0),
            })
            &&& app.snap == (app.selected is Some)
        }),
        ({
            let app = started(start, now);
            &&& start.saved_selection is None ==> app.selected is None
            &&& start.saved_selection matches Some(path) ==> match app.selected {
                Some(at) => is_first_of(start.rows@, path, at as int),
                None => forall|k: int|
                    0 <= k < start.rows@.len() ==> !same_components(
                        path_of((#[trigger] start.rows@[k]).path),
                        path_of(path),
                    ),
            }
        }),
        started(start, now).asked == seq![
            Deed::Plain(Effect::ApplyColorTheme),
            Deed::Plain(Effect::RediscoverRepos),
            Deed::Plain(Effect::ApplyIdentity),
            Deed::Plain(Effect::RequestDecorations { force: true }),
        ],
{
    if let Some(path) = start.saved_selection {
        law_the_first_row_of_a_path_is_found(start.rows@, path);
    }
    assert(started(start, now).asked =~= seq![
        Deed::Plain(Effect::ApplyColorTheme),
        Deed::Plain(Effect::RediscoverRepos),
        Deed::Plain(Effect::ApplyIdentity),
        Deed::Plain(Effect::RequestDecorations { force: true }),
    ]);
}

/// Time that has passed: none where the clock was set back.
pub proof fn law_time_passes_forward(now: u64, before: u64)
    ensures
        now >= before ==> since(now, before) == now - before,
        now <= before ==> since(now, before) == 0,
{
}

/// Of the settings that other processes write, the view takes over whether rows carry decorations,
/// and no other. When that changed the repositories are looked for again, and when it was turned
/// off what was drawn is dropped.
pub proof fn law_only_the_decorations_are_shared(app: AppView, shared: State)
    ensures
        ({
            let after = app.synced(shared);
            let on = shared.git_deco;
            let kept = AppView { state: State { git_deco: on, ..app.state }, ..app };
            let looked = app.asked.push(Deed::Plain(Effect::RediscoverRepos));
            &&& app.state.git_deco == on ==> after == kept
            &&& !app.state.git_deco && on ==> after == (AppView { asked: looked, ..kept })
            &&& app.state.git_deco && !on ==> after == (AppView {
                asked: looked.push(Deed::Plain(Effect::ClearDecorations)),
                ..kept
            })
        }),
{
}

/// A pane of another width is remembered; it goes back to the preferred width only where the whole
/// tab is known to have changed too.
pub proof fn law_the_pane_keeps_its_width_when_the_tab_changes(
    app: AppView,
    width: u16,
    layout: Option<i64>,
)
    ensures
        ({
            let after = app.resized(width, layout);
            let tab_changed = app.has_pane && layout is Some && app.last_layout_width is Some
                && layout->0 != app.last_layout_width->0;
            &&& after == (AppView {
                last_width: width,
                last_layout_width: after.last_layout_width,
                asked: after.asked,
                ..app
            })
            &&& app.has_pane && layout is Some ==> after.last_layout_width == layout
            &&& !app.has_pane || layout is None ==> after.last_layout_width
                == app.last_layout_width
            &&& tab_changed ==> after.asked == app.asked.push(
                Deed::Plain(Effect::ResizePreferred { current: width }),
            )
            &&& !tab_changed ==> after.asked == app.asked
        }),
{
}

/// Every five seconds a pane's identity is stamped again; a neighbouring pane is followed then
/// where the settings say so and neither a modal nor a picker is open.
pub proof fn law_the_heart_beats_every_five_seconds(app: AppView, now: u64)
    ensures
        ({
            let after = app.beaten(now);
            let due = now >= app.last_beat && now - app.last_beat >= 5000;
            let follows = app.state.follow_cwd && app.overlay is None && !app.picking;
            &&& !due ==> after == app
            &&& due ==> after == (AppView { last_beat: now, asked: after.asked, ..app })
            &&& due && !app.has_pane ==> after.asked == app.asked
            &&& due && app.has_pane && !follows ==> after.asked == app.asked.push(
                Deed::Plain(Effect::ReportTokens),
            )
            &&& due && app.has_pane && follows ==> after.asked == app.asked.push(
                Deed::Plain(Effect::ReportTokens),
            ).push(Deed::Plain(Effect::FollowSibling))
        }),
{
}

/// What the index of files came to is taken where one was asked for. An index of the folder that
/// is shown, with the hidden files that are shown, is kept, and an open finder lists its files for
/// what was typed; any other end only stops the waiting.
pub proof fn law_indexes_of_other_folders_are_dropped(app: AppView, poll: IndexPoll)
    ensures
        ({
            let after = app.indexed(poll);
            let ends = app.quick_pending && !(poll is Empty);
            let fits = app.quick_pending && (poll matches IndexPoll::Ready(index)
                && same_components(path_of(index.root), path_of(app.root)) && index.show_hidden
                == app.show_hidden);
            &&& !ends ==> after == app
            &&& ends ==> after == (AppView {
                quick_pending: false,
                overlay: after.overlay,
                index: after.index,
                ..app
            })
            &&& ends && !fits ==> after.index == app.index
            &&& ends && !(app.overlay matches Some(OverlayView::QuickOpen(_))) ==> after.overlay
                == app.overlay
            &&& ends && !fits ==> (app.overlay matches Some(OverlayView::QuickOpen(finder))
                ==> after.overlay == Some(
                OverlayView::QuickOpen(FinderView { loading: false, ..finder }),
            ))
            &&& fits ==> (poll matches IndexPoll::Ready(index) ==> after.index == Some(index@) && (
            app.overlay matches Some(OverlayView::QuickOpen(finder)) ==> after.overlay == Some(
                OverlayView::QuickOpen(
                    FinderView {
                        query: finder.query,
                        files: index.files@,
                        matches: matches_for(index.files@, finder.query),
                        selected: 0,
                        truncated: index.truncated,
                        loading: false,
                    },
                ),
            )))
        }),
{
}

/// What the folder picker came to is taken where one is open: a folder that was picked is gone to,
/// and a picker that was cancelled takes its notice with it.
pub proof fn law_a_picked_folder_is_gone_to(app: AppView, path: PathBuf, poll: PickPoll)
    ensures
        !app.picking ==> app.picked(poll) == app,
        app.picked(PickPoll::Empty) == app,
        app.picking ==> app.picked(PickPoll::Gone) == (AppView { picking: false, ..app }),
        app.picking ==> app.picked(PickPoll::Cancelled) == (AppView {
            picking: false,
            notice: None,
            ..app
        }),
        app.picking ==> app.picked(PickPoll::Picked(path)) == (AppView {
            picking: false,
            asked: app.asked.push(Deed::ChangeFolder(path_text(path_of(path)))),
            ..app
        }),
{
}

/// The git status is read one read at a time, and on its own only while the pane is focused; with
/// decorations off, what there is is dropped.
pub proof fn law_the_status_is_read_once_at_a_time(app: AppView, force: bool, focused: bool)
    ensures
        ({
            let step = app.deco_step(force, focused);
            &&& step == DecoStep::Clear <==> !app.state.git_deco
            &&& step == DecoStep::Start <==> app.state.git_deco && !app.deco_pending && (force
                || focused)
        }),
{
}

/// A leading tilde of a typed path is the home directory; what is relative counts from the root.
pub proof fn law_typed_folders(rest: Seq<char>, raw: Seq<char>, home: Seq<char>, root: PathBuf)
    ensures
        home_expanded(seq!['~'] + rest, home) == home + rest,
        raw.len() > 0 && raw[0] != '~' ==> home_expanded(raw, home) == raw,
        raw.len() == 0 ==> home_expanded(raw, home) == raw,
        ({
            let typed = path_from(home_expanded(raw, home));
            &&& is_relative_path(path_of(typed)) ==> folder_said(raw, home, root) == joined(
                path_of(root),
                path_of(typed),
            )
            &&& !is_relative_path(path_of(typed)) ==> folder_said(raw, home, root) == typed
        }),
{
    assert((seq!['~'] + rest).drop_first() =~= rest);
}

/// `kept` stands in `text` from `start` on, with nothing but white space around it.
pub open spec fn is_trimmed_to(text: Seq<char>, kept: Seq<char>, start: int) -> bool {
    &&& 0 <= start && start + kept.len() <= text.len()
    &&& forall|i: int| 0 <= i < kept.len() ==> (#[trigger] kept[i]) == text[start + i]
    &&& forall|i: int| 0 <= i < start ==> white_space(#[trigger] text[i])
    &&& forall|i: int| start + kept.len() <= i < text.len() ==> white_space(#[trigger] text[i])
}

/// What is trimmed neither begins nor ends with white space, and nothing but white space is gone.
pub proof fn law_trimming_takes_white_space_only(text: Seq<char>)
    ensures
        exists|start: int| is_trimmed_to(text, trimmed(text), start),
        trimmed(text).len() > 0 ==> !white_space(trimmed(text)[0]) && !white_space(
            trimmed(text).last(),
        ),
    decreases text.len(),
{
    let kept = trimmed(text);
    if text.len() > 0 && white_space(text[0]) {
        let rest = text.drop_first();
        law_trimming_takes_white_space_only(rest);
        let start = choose|start: int| is_trimmed_to(rest, kept, start);
        assert(is_trimmed_to(text, kept, start + 1)) by {
            assert forall|i: int| 0 <= i < start + 1 implies white_space(#[trigger] text[i]) by {
                if i > 0 {
                    assert(rest[i - 1] == text[i]);
                }
            }
            assert forall|i: int| start + 1 + kept.len() <= i < text.len() implies white_space(
                #[trigger] text[i],
            ) by {
                assert(rest[i - 1] == text[i]);
            }
        }
    } else if text.len() > 0 && white_space(text.last()) {
        let rest = text.drop_last();
        law_trimming_takes_white_space_only(rest);
        let start = choose|start: int| is_trimmed_to(rest, kept, start);
        assert(is_trimmed_to(text, kept, start)) by {
            assert forall|i: int| 0 <= i < start implies white_space(#[trigger] text[i]) by {
                assert(rest[i] == text[i]);
            }
            assert forall|i: int| start + kept.len() <= i < text.len() implies white_space(
                #[trigger] text[i],
            ) by {
                if i < rest.len() {
                    assert(rest[i] == text[i]);
                }
            }
        }
    } else {
        assert(is_trimmed_to(text, kept, 0));
    }
}

/// What the footer says after staging: the name of one path, how many there are of several, and
/// where nothing was staged why.
pub proof fn law_staging_is_reported(
    name: Seq<char>,
    count: usize,
    skipped: usize,
    repo: Seq<char>,
    path: PathBuf,
)
    ensures
        ({
            let said = stage_text(name, count, skipped, repo);
            &&& count == 1 ==> said == "staged "@ + name + " in "@ + repo
            &&& count >= 2 ==> said == "staged "@ + decimal_text(count as nat) + " paths under "@
                + name + " in "@ + repo
            &&& count == 0 && skipped == 0 ==> said == "nothing to stage in "@ + name
            &&& count == 0 && skipped > 0 ==> said == name + ": nothing staged — "@ + decimal_text(
                skipped as nat,
            ) + " path(s) belong to a nested repo"@
        }),
        file_name_of(path_of(path)) matches Some(last) ==> reported(path) == last,
        file_name_of(path_of(path)) is None ==> reported(path) == path_text(path_of(path)),
{
}

/// What was created or renamed is selected once the tree was read again; the folder of something
/// new is expanded before.
#[verifier::rlimit(40)]
pub proof fn law_what_is_new_is_shown(app: AppView, dir: PathBuf, created: PathBuf)
    ensures
        ({
            let fresh = AppView { index: None, quick_pending: false, ..app };
            let reads = |before: Seq<Deed>|
                before.push(Deed::Plain(Effect::RefreshTree)).push(
                    Deed::Plain(Effect::RediscoverRepos),
                ).push(Deed::Plain(Effect::RequestDecorations { force: true })).push(
                    Deed::Plain(Effect::Rebuild),
                ).push(Deed::Plain(Effect::SelectPath(created)));
            let expands = app.asked.push(Deed::Plain(Effect::ExpandDir(dir)));
            &&& app.named(PromptKind::NewFile(dir), created) == (AppView {
                asked: reads(expands),
                ..fresh
            })
            &&& app.named(PromptKind::NewFolder(dir), created) == (AppView {
                asked: reads(expands),
                ..fresh
            })
            &&& app.named(PromptKind::Rename(dir), created) == (AppView {
                asked: reads(app.asked),
                ..fresh
            })
        }),
{
}

/// The pieces that the view's methods are made of: a notice is shown, a row is selected and kept,
/// and reading again asks for the tree, the repositories and the status before the rows.
pub proof fn law_the_pieces_of_the_view(app: AppView, text: Seq<char>, row: int)
    requires
        0 <= row < app.rows.len() <= usize::MAX,
    ensures
        app.noting(text) == (AppView { notice: Some(text), ..app }),
        app.select(row) == (AppView {
            selected: Some(row as usize),
            snap: true,
            asked: app.asked.push(Deed::Plain(Effect::PersistTree(Some(app.rows[row].path)))),
            ..app
        }),
        app.refresh_tree() == (AppView {
            index: None,
            quick_pending: false,
            asked: app.asked.push(Deed::Plain(Effect::RefreshTree)).push(
                Deed::Plain(Effect::RediscoverRepos),
            ).push(Deed::Plain(Effect::RequestDecorations { force: true })).push(
                Deed::Plain(Effect::Rebuild),
            ),
            ..app
        }),
        app.previews(text) <==> app.last_preview == Some(text),
{
}

/// What is asked for is what the effects say, in their order: the text of those that hold one, and
/// each of the others as it is.
pub proof fn law_effects_are_asked_for_in_order(effects: Seq<Effect>, i: int)
    requires
        0 <= i < effects.len(),
    ensures
        deeds(effects).len() == effects.len(),
        match effects[i] {
            Effect::ChangeFolder(raw) => deeds(effects)[i] == Deed::ChangeFolder(raw@),
            Effect::SubmitName { kind, input } => deeds(effects)[i] == (Deed::SubmitName {
                kind,
                input: input@,
            }),
            Effect::Copy(text) => deeds(effects)[i] == Deed::Copy(text@),
            Effect::OpenExternal { path, name } => deeds(effects)[i] == (Deed::OpenExternal {
                path,
                name: name@,
            }),
            effect => deeds(effects)[i] == Deed::Plain(effect),
        },
{
    reveal(deeds);
}

/// What contracts say of a modal they say of its fields.
pub proof fn law_modals_show_their_fields(
    menu: Menu,
    prompt: Prompt,
    finder: QuickOpen,
    modal: SettingsModal,
    path: PathBuf,
    is_dir: bool,
)
    ensures
        menu@.x == menu.x && menu@.y == menu.y && menu@.target == menu.target,
        menu@.selected == menu.selected && menu@.rect == menu.rect,
        menu@.lines.len() == menu.entries@.len(),
        forall|i: int|
            0 <= i < menu.entries@.len() ==> match #[trigger] menu.entries@[i] {
                MenuEntry::Action(action, label) => menu@.lines[i] == Some(
                    MenuItem { action, label: label@ },
                ),
                MenuEntry::Separator => menu@.lines[i] is None,
            },
        prompt@.title == prompt.title@ && prompt@.input == prompt.input@,
        prompt@.kind == prompt.kind,
        finder@.query == finder.query@ && finder@.files == finder.files@,
        finder@.matches == finder.matches@ && finder@.selected == finder.selected,
        finder@.truncated == finder.truncated && finder@.loading == finder.loading,
        Overlay::Menu(menu)@ == OverlayView::Menu(menu@),
        Overlay::Prompt(prompt)@ == OverlayView::Prompt(prompt@),
        Overlay::QuickOpen(finder)@ == OverlayView::QuickOpen(finder@),
        Overlay::Settings(modal)@ == OverlayView::Settings(modal),
        (Overlay::ConfirmDelete { path, is_dir })@ == (OverlayView::ConfirmDelete { path, is_dir }),
{
    reveal(menu_lines);
}

} // verus!
