//! When something is deleted: only after the question was answered with yes.

use crate::events::{command_for, title_under, Command};
use crate::explorer::{
    last_of_depth, AppView, Deed, Effect, OverlayView, SettingsModal, TitleAction,
};
use crate::geometry::{least, left_of, most, row_under};
use crate::input::{KeyCode, KeyEvent, MouseEvent, MouseKind};
use crate::menu::MenuAction;
use crate::overlays::{setting_under, MenuMove};
use crate::settings::{setting_at, Setting};
use crate::state::Exit;
use std::path::PathBuf;
use vstd::prelude::*;

verus! {

/// Something is deleted.
pub open spec fn is_delete(deed: Deed) -> bool {
    deed matches Deed::Plain(Effect::Delete { path, is_dir })
}

/// What was asked for still is, and what came after it deletes nothing.
pub open spec fn deletes_nothing(before: Seq<Deed>, after: Seq<Deed>) -> bool {
    &&& before.len() <= after.len()
    &&& forall|i: int| 0 <= i < before.len() ==> (#[trigger] after[i]) == before[i]
    &&& forall|i: int| before.len() <= i < after.len() ==> !is_delete(#[trigger] after[i])
}

/// The question whether to delete something is answered by the next key: `y` and `Y` delete what
/// the question is about and nothing else, any other key leaves what is asked for as it is; the
/// question is closed either way. Control and `q` leaves the question open and ends the view.
pub proof fn law_the_question_is_answered(app: AppView, key: KeyEvent, path: PathBuf, is_dir: bool)
    requires
        app.overlay == Some(OverlayView::ConfirmDelete { path, is_dir }),
        key.pressed,
    ensures
        ({
            let after = app.on_key(key).app;
            let quits = key.code == KeyCode::Char('q') && key.control && !key.alt;
            let yes = key.code == KeyCode::Char('y') || key.code == KeyCode::Char('Y');
            &&& quits ==> after == app && app.on_key(key).exit == Some(Exit::Quit)
            &&& !quits ==> app.on_key(key).exit is None
            &&& !quits && yes ==> after == (AppView {
                overlay: None,
                notice: None,
                asked: app.asked.push(Deed::Plain(Effect::Delete { path, is_dir })),
                ..app
            })
            &&& !quits && !yes ==> after == (AppView { overlay: None, notice: None, ..app })
        }),
{
}

/// A key deletes something only where the question is open and the key is `y` or `Y`; then it is
/// what the question is about.
pub proof fn law_only_a_yes_deletes(app: AppView, key: KeyEvent)
    ensures
        ({
            let after = app.on_key(key).app;
            &&& app.asked.len() <= after.asked.len()
            &&& forall|i: int|
                0 <= i < app.asked.len() ==> (#[trigger] after.asked[i]) == app.asked[i]
            &&& forall|i: int|
                app.asked.len() <= i < after.asked.len() && is_delete(#[trigger] after.asked[i])
                    ==> {
                    &&& app.overlay matches Some(OverlayView::ConfirmDelete { path, is_dir })
                    &&& after.asked[i] == Deed::Plain(Effect::Delete { path, is_dir })
                    &&& key.pressed
                    &&& key.code == KeyCode::Char('y') || key.code == KeyCode::Char('Y')
                    &&& after.overlay is None
                }
        }),
{
    match app.overlay {
        Some(OverlayView::ConfirmDelete { path, is_dir }) => {},
        Some(_) => {
            harmless_overlay_key(AppView { notice: None, ..app }, key);
        },
        None => {
            harmless_run(AppView { notice: None, ..app }, command_for(key.code));
        },
    }
}

/// The mouse deletes nothing.
pub proof fn law_the_mouse_deletes_nothing(app: AppView, mouse: MouseEvent, now: u64)
    ensures
        deletes_nothing(app.asked, app.on_mouse(mouse, now).app.asked),
{
    let seen = AppView {
        last_mouse: Some(now),
        mouse_pos: Some((mouse.column, mouse.row)),
        ..app
    };
    match app.overlay {
        Some(OverlayView::Settings(modal)) => {
            harmless_settings_mouse(seen, modal, mouse);
        },
        Some(OverlayView::Menu(menu)) => {
            harmless_move_menu(seen, menu.on_mouse(mouse));
        },
        Some(_) => {},
        None => {
            if mouse.kind == MouseKind::LeftDown {
                harmless_left_click(seen, mouse.column, mouse.row, now);
            } else if mouse.kind == MouseKind::RightDown {
                harmless_context_menu(
                    AppView { notice: None, ..seen },
                    mouse.column,
                    mouse.row,
                );
            }
        },
    }
}

proof fn harmless_context_menu(app: AppView, x: u16, y: u16)
    ensures
        deletes_nothing(app.asked, app.open_context_menu(x, y).asked),
{
}

proof fn harmless_flip(app: AppView, setting: Setting)
    ensures
        deletes_nothing(app.asked, app.flip(setting).asked),
{
    reveal(AppView::flip);
}

proof fn harmless_act(app: AppView, action: MenuAction, target: Option<(PathBuf, bool)>)
    ensures
        deletes_nothing(app.asked, app.act(action, target).asked),
{
    reveal(AppView::act);
}

proof fn harmless_move_menu(app: AppView, step: MenuMove)
    ensures
        deletes_nothing(app.asked, app.move_menu(step).asked),
{
    reveal(AppView::move_menu);
    match step {
        MenuMove::Activate(menu) => {
            if menu.selected < menu.lines.len() {
                if let Some(item) = menu.lines[menu.selected as int] {
                    harmless_act(app.bare(), item.action, menu.target);
                }
            }
        },
        MenuMove::Reopen(x, y) => {
            harmless_context_menu(app.bare(), x, y);
        },
        _ => {},
    }
}

proof fn harmless_settings_key(app: AppView, modal: SettingsModal, code: KeyCode)
    ensures
        deletes_nothing(app.asked, app.settings_key(modal, code).asked),
{
    reveal(AppView::settings_key);
    harmless_flip(app, setting_at(modal.selected as int));
}

proof fn harmless_settings_mouse(app: AppView, modal: SettingsModal, mouse: MouseEvent)
    ensures
        deletes_nothing(app.asked, app.settings_mouse(modal, mouse).asked),
{
    reveal(AppView::settings_mouse);
    if let Some(index) = setting_under(modal, mouse.column, mouse.row) {
        let selected = app.showing(
            OverlayView::Settings(SettingsModal { selected: index, ..modal }),
        );
        harmless_flip(selected, setting_at(index as int));
    }
}

proof fn harmless_overlay_key(app: AppView, key: KeyEvent)
    requires
        !(app.overlay matches Some(OverlayView::ConfirmDelete { path, is_dir })),
    ensures
        deletes_nothing(app.asked, app.overlay_key(key).asked),
{
    match app.overlay {
        Some(OverlayView::Settings(modal)) => {
            harmless_settings_key(app, modal, key.code);
        },
        Some(OverlayView::Menu(menu)) => {
            harmless_move_menu(app, menu.on_key(key.code));
        },
        Some(OverlayView::Prompt(prompt)) => {
            reveal(AppView::prompt_key);
        },
        Some(OverlayView::QuickOpen(finder)) => {
            reveal(AppView::finder_key);
        },
        _ => {},
    }
}

proof fn harmless_select(app: AppView, index: int)
    ensures
        deletes_nothing(app.asked, app.select(index).asked),
{
}

proof fn harmless_move_by(app: AppView, delta: int)
    ensures
        deletes_nothing(app.asked, app.move_by(delta).asked),
{
    harmless_select(app, 0);
    if let Some(current) = app.selected {
        harmless_select(app, least(most(current + delta, 0), app.rows.len() - 1));
    }
}

proof fn harmless_expand_or_enter(app: AppView)
    ensures
        deletes_nothing(app.asked, app.expand_or_enter().asked),
{
    harmless_select(app, app.selected->0 + 1);
}

proof fn harmless_collapse_or_parent(app: AppView)
    ensures
        deletes_nothing(app.asked, app.collapse_or_parent().asked),
{
    if let Some(row) = app.selected_row() {
        if let Some(parent) = last_of_depth(app.rows, app.selected->0 as int, row.depth - 1) {
            harmless_select(app, parent as int);
        }
    }
}

proof fn harmless_toggle(app: AppView)
    ensures
        deletes_nothing(app.asked, app.toggle().asked),
{
}

proof fn harmless_go(app: AppView, command: Command)
    ensures
        deletes_nothing(app.asked, app.go(command).asked),
{
    match command {
        Command::LineUp => harmless_move_by(app, -1),
        Command::LineDown => harmless_move_by(app, 1),
        Command::PageUp => harmless_move_by(app, -(app.page as int)),
        Command::PageDown => harmless_move_by(app, app.page as int),
        Command::First => harmless_select(app, 0),
        Command::Last => harmless_select(app, left_of(app.rows.len() - 1) as int),
        Command::Expand => harmless_expand_or_enter(app),
        Command::Collapse => harmless_collapse_or_parent(app),
        _ => harmless_toggle(app),
    }
}

proof fn harmless_menu(app: AppView)
    ensures
        deletes_nothing(app.asked, app.open_menu_for_selection().asked),
{
}

proof fn harmless_refresh(app: AppView)
    ensures
        deletes_nothing(app.asked, app.refresh_tree().asked),
        deletes_nothing(app.asked, app.toggle_hidden().asked),
{
}

proof fn harmless_folder(app: AppView)
    ensures
        deletes_nothing(app.asked, app.change_folder_dialog().asked),
{
}

#[verifier::rlimit(40)]
proof fn harmless_run(app: AppView, command: Command)
    ensures
        deletes_nothing(app.asked, app.run(command).asked),
{
    match command {
        Command::ClosePreview => {},
        Command::Refresh => harmless_refresh(app),
        Command::ToggleHidden => harmless_refresh(app),
        Command::ToggleIcons => {},
        Command::Hide => {},
        Command::ChangeFolder => harmless_folder(app),
        Command::Menu => harmless_menu(app),
        Command::Settings => {},
        Command::Quit => {},
        Command::Show(_) => {},
        Command::Nothing => {},
        _ => harmless_go(app, command),
    }
}

proof fn harmless_title(app: AppView, action: TitleAction)
    ensures
        deletes_nothing(app.asked, app.title_action(action).asked),
{
    harmless_refresh(app);
}

proof fn harmless_click_row(app: AppView, index: usize, column: u16, now: u64)
    ensures
        deletes_nothing(app.asked, app.click_row(index, column, now).asked),
{
    harmless_select(app, index as int);
    harmless_toggle(AppView { last_click: Some((index, now)), ..app.select(index as int) });
}

#[verifier::rlimit(40)]
proof fn harmless_left_click(app: AppView, column: u16, row: u16, now: u64)
    ensures
        deletes_nothing(app.asked, app.left_click(column, row, now).app.asked),
{
    if app.view_under(column, row) is None && !app.gear.covers(column, row) {
        if let Some(action) = title_under(app.title_zones, column, row, 0) {
            harmless_title(app, action);
        } else if let Some(index) = row_under(app.body, app.rows.len(), row) {
            harmless_click_row(app, index, column, now);
        }
    }
}

} // verus!
