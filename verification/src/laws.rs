//! What every event keeps: the selection is a row of the list.

use crate::events::Command;
use crate::explorer::{
    last_of_depth, lemma_row_at_path, row_at_path, AppView, FinderView, MenuView, OverlayView,
    SettingsModal,
};
use crate::geometry::{least, most, row_under};
use crate::input::{KeyCode, KeyEvent, MouseEvent};
use crate::menu::{law_steps_land_on_actions, MenuAction};
use crate::overlays::{setting_under, FinderMove, MenuMove};
use crate::rows::Row;
use crate::settings::{setting_at, Setting};
use std::path::PathBuf;
use vstd::prelude::*;

verus! {

impl AppView {
    /// The selection is a row of a list that fits in memory.
    pub open spec fn sound(self) -> bool {
        self.selection_in_range() && self.rows.len() <= usize::MAX
    }

    /// `after` has the same rows, and its selection is one of them.
    pub open spec fn keeps(self, after: AppView) -> bool {
        after.sound() && after.rows == self.rows
    }
}

proof fn keeps_select(app: AppView, index: int)
    requires
        app.sound(),
        index >= 0,
    ensures
        app.keeps(app.select(index)),
{
}

proof fn keeps_move_by(app: AppView, delta: int)
    requires
        app.sound(),
    ensures
        app.keeps(app.move_by(delta)),
{
    if let Some(current) = app.selected {
        if app.rows.len() > 0 {
            keeps_select(app, least(most(current + delta, 0), app.rows.len() - 1));
        }
    } else {
        keeps_select(app, 0);
    }
}

proof fn keeps_expand_or_enter(app: AppView)
    requires
        app.sound(),
    ensures
        app.keeps(app.expand_or_enter()),
{
    if let Some(row) = app.selected_row() {
        keeps_select(app, app.selected->0 + 1);
    }
}

proof fn keeps_collapse_or_parent(app: AppView)
    requires
        app.sound(),
    ensures
        app.keeps(app.collapse_or_parent()),
{
    if let Some(row) = app.selected_row() {
        if let Some(parent) = last_of_depth(app.rows, app.selected->0 as int, row.depth - 1) {
            keeps_select(app, parent as int);
        }
    }
}

proof fn keeps_toggle(app: AppView)
    requires
        app.sound(),
    ensures
        app.keeps(app.toggle()),
{
}

proof fn keeps_open_quick_open(app: AppView)
    requires
        app.sound(),
    ensures
        app.keeps(app.open_quick_open()),
{
}

proof fn keeps_open_preview(app: AppView, path: PathBuf)
    requires
        app.sound(),
    ensures
        app.keeps(app.open_preview(path)),
{
}

proof fn keeps_change_folder_dialog(app: AppView)
    requires
        app.sound(),
    ensures
        app.keeps(app.change_folder_dialog()),
{
}

proof fn keeps_open_context_menu(app: AppView, x: u16, y: u16)
    requires
        app.sound(),
    ensures
        app.keeps(app.open_context_menu(x, y)),
{
    if let Some(index) = row_under(app.body, app.rows.len(), y) {
        keeps_select(app, index as int);
    }
}

proof fn keeps_flip(app: AppView, setting: Setting)
    requires
        app.sound(),
    ensures
        app.keeps(app.flip(setting)),
{
    reveal(AppView::flip);
    keeps_change_folder_dialog(app.bare());
}

proof fn keeps_act(app: AppView, action: MenuAction, target: Option<(PathBuf, bool)>)
    requires
        app.sound(),
    ensures
        app.keeps(app.act(action, target)),
{
    reveal(AppView::act);
    keeps_change_folder_dialog(app);
}

proof fn keeps_move_menu(app: AppView, step: MenuMove)
    requires
        app.sound(),
    ensures
        app.keeps(app.move_menu(step)),
{
    reveal(AppView::move_menu);
    match step {
        MenuMove::Activate(menu) => {
            if menu.selected < menu.lines.len() {
                if let Some(item) = menu.lines[menu.selected as int] {
                    keeps_act(app.bare(), item.action, menu.target);
                }
            }
        },
        MenuMove::Reopen(x, y) => {
            keeps_open_context_menu(app.bare(), x, y);
        },
        _ => {},
    }
}

proof fn keeps_settings_key(app: AppView, modal: SettingsModal, code: KeyCode)
    requires
        app.sound(),
    ensures
        app.keeps(app.settings_key(modal, code)),
{
    reveal(AppView::settings_key);
    keeps_flip(app, setting_at(modal.selected as int));
}

proof fn keeps_overlay_key(app: AppView, key: KeyEvent)
    requires
        app.sound(),
    ensures
        app.keeps(app.overlay_key(key)),
{
    match app.overlay {
        Some(OverlayView::Settings(modal)) => {
            keeps_settings_key(app, modal, key.code);
        },
        Some(OverlayView::Menu(menu)) => {
            keeps_move_menu(app, menu.on_key(key.code));
        },
        Some(OverlayView::Prompt(prompt)) => {
            reveal(AppView::prompt_key);
        },
        Some(OverlayView::QuickOpen(finder)) => {
            reveal(AppView::finder_key);
            if let FinderMove::Open(path) = finder.on_key(key) {
                keeps_open_preview(app.bare(), path);
            }
        },
        _ => {},
    }
}

proof fn keeps_overlay_mouse(app: AppView, mouse: MouseEvent)
    requires
        app.sound(),
    ensures
        app.keeps(app.overlay_mouse(mouse)),
{
    match app.overlay {
        Some(OverlayView::Settings(modal)) => {
            reveal(AppView::settings_mouse);
            let selected = app.showing(
                OverlayView::Settings(
                    SettingsModal {
                        selected: match setting_under(modal, mouse.column, mouse.row) {
                            Some(index) => index,
                            None => modal.selected,
                        },
                        ..modal
                    },
                ),
            );
            if let Some(index) = setting_under(modal, mouse.column, mouse.row) {
                keeps_flip(selected, setting_at(index as int));
            }
        },
        Some(OverlayView::Menu(menu)) => {
            keeps_move_menu(app, menu.on_mouse(mouse));
        },
        _ => {},
    }
}

proof fn keeps_run(app: AppView, command: Command)
    requires
        app.sound(),
    ensures
        app.keeps(app.run(command)),
{
    keeps_move_by(app, -1);
    keeps_move_by(app, 1);
    keeps_move_by(app, -(app.page as int));
    keeps_move_by(app, app.page as int);
    keeps_select(app, 0);
    if app.rows.len() > 0 {
        keeps_select(app, app.rows.len() - 1);
    }
    keeps_expand_or_enter(app);
    keeps_collapse_or_parent(app);
    keeps_toggle(app);
    keeps_change_folder_dialog(app);
}

proof fn keeps_click_row(app: AppView, index: usize, column: u16, now: u64)
    requires
        app.sound(),
    ensures
        app.keeps(app.click_row(index, column, now)),
{
    keeps_select(app, index as int);
    let row = app.rows[index as int];
    let chosen = AppView { last_click: Some((index, now)), ..app.select(index as int) };
    keeps_toggle(chosen);
    keeps_open_preview(chosen, row.path);
}

proof fn keeps_left_click(app: AppView, column: u16, row: u16, now: u64)
    requires
        app.sound(),
    ensures
        app.keeps(app.left_click(column, row, now).app),
{
    if let Some(index) = row_under(app.body, app.rows.len(), row) {
        keeps_click_row(app, index, column, now);
    }
}

/// No key takes the selection out of the list, and none changes the list: the rows change only
/// when the tree is read again.
pub proof fn law_keys_keep_the_selection_in_the_list(app: AppView, key: KeyEvent)
    requires
        app.sound(),
    ensures
        app.keeps(app.on_key(key).app),
{
    keeps_open_quick_open(app);
    keeps_overlay_key(app.quiet(), key);
    keeps_run(app.quiet(), crate::events::command_for(key.code));
}

/// No mouse event takes the selection out of the list, and none changes the list.
pub proof fn law_the_mouse_keeps_the_selection_in_the_list(
    app: AppView,
    mouse: MouseEvent,
    now: u64,
)
    requires
        app.sound(),
    ensures
        app.keeps(app.on_mouse(mouse, now).app),
{
    let seen = AppView {
        last_mouse: Some(now),
        mouse_pos: Some((mouse.column, mouse.row)),
        ..app
    };
    keeps_overlay_mouse(seen, mouse);
    keeps_left_click(seen, mouse.column, mouse.row, now);
    keeps_open_context_menu(seen.quiet(), mouse.column, mouse.row);
}

/// When the tree is read again the selection is a row of the new list, on the path it was on
/// where that is still shown; without a selection there is none after.
pub proof fn law_rebuilding_keeps_the_selection(app: AppView, rows: Seq<Row>)
    requires
        rows.len() <= usize::MAX,
    ensures
        app.rebuild(rows).sound(),
        app.rebuild(rows).rows == rows,
        app.selected is None ==> app.rebuild(rows).selected is None,
        app.selected is Some && rows.len() > 0 ==> app.rebuild(rows).selected is Some,
        app.selected_path() matches Some(path) ==> (row_at_path(rows, path, 0) matches Some(found)
            ==> app.rebuild(rows).selected == Some(found)),
{
    if let Some(path) = app.selected_path() {
        lemma_row_at_path(rows, path, 0);
    }
}

/// In a menu whose selected line can be chosen, every event leaves it so.
pub proof fn law_menu_selections_stay_choosable(menu: MenuView, code: KeyCode, mouse: MouseEvent)
    requires
        menu.lines.len() <= usize::MAX,
        menu.selected < menu.lines.len(),
        menu.lines[menu.selected as int] is Some,
    ensures
        menu.on_key(code) matches MenuMove::Stay(after) ==> after.selected < after.lines.len()
            && after.lines[after.selected as int] is Some && after.lines == menu.lines,
        menu.on_mouse(mouse) matches MenuMove::Stay(after) ==> after.selected < after.lines.len()
            && after.lines[after.selected as int] is Some && after.lines == menu.lines,
        menu.on_mouse(mouse) matches MenuMove::Activate(after) ==> after.selected
            < after.lines.len() && after.lines[after.selected as int] is Some,
{
    law_steps_land_on_actions(menu.lines, menu.selected, -1);
    law_steps_land_on_actions(menu.lines, menu.selected, 1);
}

/// Quick Open's selection is one of its matches after every key, or the first place where nothing
/// matches.
pub proof fn law_finder_selections_stay_in_the_matches(finder: FinderView, key: KeyEvent)
    requires
        finder.matches.len() <= usize::MAX,
        finder.selected == 0 || finder.selected < finder.matches.len(),
    ensures
        finder.on_key(key) matches FinderMove::Stay(after) ==> after.selected == 0
            || after.selected < after.matches.len(),
{
}

} // verus!
