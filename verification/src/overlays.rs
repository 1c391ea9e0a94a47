//! The modals of the Explorer view: the context menu, prompts, Quick Open and Settings.

use crate::explorer::{
    App, AppView, Deed, Effect, FinderView, Menu, MenuView, Overlay, OverlayView, Prompt,
    PromptKind, PromptView, QuickOpen, SettingsModal,
};
use crate::geometry::{
    clipped, hits, indent_column, indent_of, least, left_of, row_index_at, row_under, Rect,
};
use crate::input::{KeyCode, KeyEvent, MouseEvent, MouseKind};
use crate::menu::{
    first_action, first_choice, listed_lines, menu_lines, menu_entries, step_menu, stepped,
    MenuAction, MenuEntry,
};
use crate::paths::{
    as_path, file_name, file_name_of, lossy_text, parent, parent_of, path_of, path_text,
    relative_path, show, show_lossy, strip_prefix,
};
use crate::quick_open::{matches_for, quick_matches};
use crate::rows::{create_target, create_target_dir};
use crate::settings::{is_enabled, nth_setting, setting_at, Setting, SETTING_COUNT};
use crate::state_file::Change;
use std::path::PathBuf;
use vstd::prelude::*;
use vstd::string::*;

verus! {

/// The setting under a cell of the modal: its rows start just inside the top border.
pub open spec fn setting_under(modal: SettingsModal, column: u16, row: u16) -> Option<usize> {
    let rect = modal.rect;
    let index = (row - rect.y - 1) + modal.scroll;
    if rect.x < column < rect.x + left_of(rect.width - 1) && rect.y < row < rect.y + left_of(
        rect.height - 1,
    ) && index < SETTING_COUNT {
        Some(index as usize)
    } else {
        None
    }
}

/// The change that a setting is toggled by, where that is all there is to it.
pub open spec fn flip_of(setting: Setting) -> Change {
    match setting {
        Setting::DockRight => Change::FlipDockRight,
        Setting::PreviewPlacement => Change::OtherPlacement,
        Setting::PreviewEditor => Change::OtherEditor,
        Setting::Hotkeys => Change::FlipHotkeys,
        Setting::AutoOpen => Change::FlipAutoOpen,
        Setting::StrictToggle => Change::FlipStrictToggle,
        _ => Change::FlipFocusOnOpen,
    }
}

/// The change that a setting is toggled by, where that is all there is to it.
fn flip_for(setting: Setting) -> (r: Change)
    ensures
        r == flip_of(setting),
{
    match setting {
        Setting::DockRight => Change::FlipDockRight,
        Setting::PreviewPlacement => Change::OtherPlacement,
        Setting::PreviewEditor => Change::OtherEditor,
        Setting::Hotkeys => Change::FlipHotkeys,
        Setting::AutoOpen => Change::FlipAutoOpen,
        Setting::StrictToggle => Change::FlipStrictToggle,
        _ => Change::FlipFocusOnOpen,
    }
}

/// The line of a menu under a cell, if it can be chosen.
pub open spec fn line_under(menu: MenuView, column: u16, row: u16) -> Option<usize> {
    let inner = menu.rect.inside();
    let index = row - inner.y;
    if inner.covers(column, row) && index < menu.lines.len() && menu.lines[index] is Some {
        Some(index as usize)
    } else {
        None
    }
}

/// Where an entry that creates something does so: in the target folder, beside a target file, or
/// in the root.
pub open spec fn create_dir(target: Option<(PathBuf, bool)>, root: PathBuf) -> PathBuf {
    match target {
        Some((path, is_dir)) => if is_dir {
            path
        } else {
            match parent_of(path_of(path)) {
                Some(dir) => dir,
                None => root,
            }
        },
        None => root,
    }
}

/// The text of a path as seen from the root.
pub open spec fn relative_text(path: PathBuf, root: PathBuf) -> Seq<char> {
    match relative_path(path_of(path), path_of(root)) {
        Some(relative) => path_text(path_of(relative)),
        None => path_text(path_of(path)),
    }
}

/// The name that a path is called by: its last component, or the whole of it.
pub open spec fn called(path: PathBuf) -> Seq<char> {
    match file_name_of(path_of(path)) {
        Some(name) => name,
        None => lossy_text(path_of(path)),
    }
}

/// The last component of a path; nothing where it has none.
pub open spec fn last_component(path: PathBuf) -> Seq<char> {
    match file_name_of(path_of(path)) {
        Some(name) => name,
        None => Seq::empty(),
    }
}

/// What an event does to the context menu.
pub enum MenuMove {
    Close,
    Stay(MenuView),
    /// Does what the selected entry says.
    Activate(MenuView),
    /// Opens the menu anew at another cell.
    Reopen(u16, u16),
}

impl MenuView {
    /// Another line selected.
    pub open spec fn at(self, selected: usize) -> MenuView {
        MenuView { selected, ..self }
    }

    /// What a key does.
    pub open spec fn on_key(self, code: KeyCode) -> MenuMove {
        match code {
            KeyCode::Esc => MenuMove::Close,
            KeyCode::Up => MenuMove::Stay(self.at(stepped(self.lines, self.selected, -1))),
            KeyCode::Down => MenuMove::Stay(self.at(stepped(self.lines, self.selected, 1))),
            KeyCode::Enter => MenuMove::Activate(self),
            KeyCode::Char(c) => if c == 'k' {
                MenuMove::Stay(self.at(stepped(self.lines, self.selected, -1)))
            } else if c == 'j' {
                MenuMove::Stay(self.at(stepped(self.lines, self.selected, 1)))
            } else {
                MenuMove::Stay(self)
            },
            _ => MenuMove::Stay(self),
        }
    }

    /// What the mouse does: it selects, a click on an entry does what it says, a click elsewhere
    /// closes the menu, and a right click opens it there.
    pub open spec fn on_mouse(self, mouse: MouseEvent) -> MenuMove {
        let under = line_under(self, mouse.column, mouse.row);
        match mouse.kind {
            MouseKind::Moved => MenuMove::Stay(
                match under {
                    Some(index) => self.at(index),
                    None => self,
                },
            ),
            MouseKind::LeftDown => match under {
                Some(index) => MenuMove::Activate(self.at(index)),
                None => MenuMove::Close,
            },
            MouseKind::RightDown => MenuMove::Reopen(mouse.column, mouse.row),
            _ => MenuMove::Stay(self),
        }
    }
}

/// What an event does to the context menu.
enum MenuStep {
    Close,
    Stay(Menu),
    Activate(Menu),
    Reopen(u16, u16),
}

impl MenuStep {
    spec fn view(&self) -> MenuMove {
        match self {
            MenuStep::Close => MenuMove::Close,
            MenuStep::Stay(menu) => MenuMove::Stay(menu@),
            MenuStep::Activate(menu) => MenuMove::Activate(menu@),
            MenuStep::Reopen(x, y) => MenuMove::Reopen(*x, *y),
        }
    }
}

/// What a key does to the context menu.
fn menu_key(menu: Menu, code: KeyCode) -> (r: MenuStep)
    ensures
        r@ == menu@.on_key(code),
{
    let mut menu = menu;
    match code {
        KeyCode::Esc => MenuStep::Close,
        KeyCode::Up | KeyCode::Char('k') => {
            menu.selected = step_menu(&menu.entries, menu.selected, -1);
            MenuStep::Stay(menu)
        },
        KeyCode::Down | KeyCode::Char('j') => {
            menu.selected = step_menu(&menu.entries, menu.selected, 1);
            MenuStep::Stay(menu)
        },
        KeyCode::Enter => MenuStep::Activate(menu),
        _ => MenuStep::Stay(menu),
    }
}

/// What the mouse does to the context menu.
fn menu_mouse(menu: Menu, mouse: MouseEvent) -> (r: MenuStep)
    ensures
        r@ == menu@.on_mouse(mouse),
{
    let under = line_at_cell(&menu, mouse.column, mouse.row);
    let mut menu = menu;
    match mouse.kind {
        MouseKind::Moved => {
            if let Some(selected) = under {
                menu.selected = selected;
            }
            MenuStep::Stay(menu)
        },
        MouseKind::LeftDown => {
            if let Some(selected) = under {
                menu.selected = selected;
                MenuStep::Activate(menu)
            } else {
                MenuStep::Close
            }
        },
        MouseKind::RightDown => MenuStep::Reopen(mouse.column, mouse.row),
        _ => MenuStep::Stay(menu),
    }
}

/// What a key does to a prompt.
pub enum PromptMove {
    Close,
    Stay(PromptView),
    /// Uses the input.
    Confirm(PromptView),
}

impl PromptView {
    /// What a key does: it edits the end of the input.
    pub open spec fn on_key(self, code: KeyCode) -> PromptMove {
        match code {
            KeyCode::Esc => PromptMove::Close,
            KeyCode::Backspace => PromptMove::Stay(
                if self.input.len() > 0 {
                    PromptView { input: self.input.drop_last(), ..self }
                } else {
                    self
                },
            ),
            KeyCode::Char(c) => PromptMove::Stay(PromptView { input: self.input.push(c), ..self }),
            KeyCode::Enter => PromptMove::Confirm(self),
            _ => PromptMove::Stay(self),
        }
    }
}

/// What a key does to a prompt.
enum PromptStep {
    Close,
    Stay(Prompt),
    Confirm(Prompt),
}

impl PromptStep {
    spec fn view(&self) -> PromptMove {
        match self {
            PromptStep::Close => PromptMove::Close,
            PromptStep::Stay(prompt) => PromptMove::Stay(prompt@),
            PromptStep::Confirm(prompt) => PromptMove::Confirm(prompt@),
        }
    }
}

/// What a key does to a prompt.
fn prompt_step(prompt: Prompt, code: KeyCode) -> (r: PromptStep)
    ensures
        r@ == prompt@.on_key(code),
{
    let mut prompt = prompt;
    match code {
        KeyCode::Esc => PromptStep::Close,
        KeyCode::Backspace => {
            prompt.input.pop();
            PromptStep::Stay(prompt)
        },
        KeyCode::Char(c) => {
            prompt.input.push(c);
            PromptStep::Stay(prompt)
        },
        KeyCode::Enter => PromptStep::Confirm(prompt),
        _ => PromptStep::Stay(prompt),
    }
}

/// What a key does to Quick Open.
pub enum FinderMove {
    Close,
    Stay(FinderView),
    Open(PathBuf),
}

impl FinderView {
    /// Another match selected.
    pub open spec fn at(self, selected: int) -> FinderView {
        FinderView { selected: selected as usize, ..self }
    }

    /// Another query: its first match is selected.
    pub open spec fn filtered(self, query: Seq<char>) -> FinderView {
        FinderView { query, matches: matches_for(self.files, query), selected: 0, ..self }
    }

    /// What a key does. What is typed filters the files; control turns a character into a
    /// command, unless alt says that it is a character after all.
    pub open spec fn on_key(self, key: KeyEvent) -> FinderMove {
        match key.code {
            KeyCode::Esc => FinderMove::Close,
            KeyCode::Up => FinderMove::Stay(self.at(left_of(self.selected - 1) as int)),
            KeyCode::Down => FinderMove::Stay(
                self.at(least(self.selected + 1, left_of(self.matches.len() - 1) as int)),
            ),
            KeyCode::Backspace => FinderMove::Stay(
                self.filtered(
                    if self.query.len() > 0 {
                        self.query.drop_last()
                    } else {
                        self.query
                    },
                ),
            ),
            KeyCode::Enter => if self.selected < self.matches.len()
                && self.matches[self.selected as int] < self.files.len() {
                FinderMove::Open(self.files[self.matches[self.selected as int] as int].path)
            } else {
                FinderMove::Stay(self)
            },
            KeyCode::Char(c) => if !key.control || key.alt {
                FinderMove::Stay(self.filtered(self.query.push(c)))
            } else {
                FinderMove::Stay(self)
            },
            _ => FinderMove::Stay(self),
        }
    }
}

/// What a key does to Quick Open.
enum FinderStep {
    Close,
    Stay(QuickOpen),
    Open(PathBuf),
}

impl FinderStep {
    spec fn view(&self) -> FinderMove {
        match self {
            FinderStep::Close => FinderMove::Close,
            FinderStep::Stay(finder) => FinderMove::Stay(finder@),
            FinderStep::Open(path) => FinderMove::Open(*path),
        }
    }
}

/// Quick Open with the matches of its query.
fn refilter(finder: QuickOpen) -> (r: QuickOpen)
    ensures
        r@ == finder@.filtered(finder@.query),
{
    let mut finder = finder;
    finder.matches = quick_matches(&finder.files, finder.query.as_str());
    finder.selected = 0;
    finder
}

/// What a key does to Quick Open.
fn finder_step(finder: QuickOpen, key: KeyEvent) -> (r: FinderStep)
    ensures
        r@ == finder@.on_key(key),
{
    let mut finder = finder;
    match key.code {
        KeyCode::Esc => FinderStep::Close,
        KeyCode::Up => {
            if finder.selected > 0 {
                finder.selected = finder.selected - 1;
            }
            FinderStep::Stay(finder)
        },
        KeyCode::Down => {
            let last: usize = if finder.matches.len() > 0 {
                finder.matches.len() - 1
            } else {
                0
            };
            finder.selected = if finder.selected < last {
                finder.selected + 1
            } else {
                last
            };
            FinderStep::Stay(finder)
        },
        KeyCode::Backspace => {
            finder.query.pop();
            FinderStep::Stay(refilter(finder))
        },
        KeyCode::Enter => {
            if finder.selected < finder.matches.len() {
                let index: usize = finder.matches[finder.selected];
                if index < finder.files.len() {
                    return FinderStep::Open(finder.files[index].path.clone());
                }
            }
            FinderStep::Stay(finder)
        },
        KeyCode::Char(c) => {
            if !key.control || key.alt {
                finder.query.push(c);
                FinderStep::Stay(refilter(finder))
            } else {
                FinderStep::Stay(finder)
            }
        },
        _ => FinderStep::Stay(finder),
    }
}

impl AppView {
    /// This view with a change of the settings asked for.
    pub open spec fn changing(self, change: Change) -> AppView {
        self.also(Effect::UpdateState(change))
    }

    /// This view with another row of the Settings modal selected.
    pub open spec fn selecting(self, modal: SettingsModal, index: int) -> AppView {
        self.showing(OverlayView::Settings(SettingsModal { selected: index as usize, ..modal }))
    }

    /// This view with a prompt.
    pub open spec fn asking(self, title: Seq<char>, input: Seq<char>, kind: PromptKind) -> AppView {
        self.showing(OverlayView::Prompt(PromptView { title, input, kind }))
    }

    /// Asks for a new root folder, starting with the present one.
    pub open spec fn change_folder_prompt(self) -> AppView {
        self.asking("Folder"@, path_text(path_of(self.root)), PromptKind::ChangeFolder)
    }

    /// Asks for a new root folder: with the platform's picker, else with a prompt. One picker at
    /// a time.
    pub open spec fn change_folder_dialog(self) -> AppView {
        if !self.native_picker {
            self.change_folder_prompt()
        } else if self.picking {
            self
        } else {
            AppView {
                picking: true,
                notice: Some("folder picker open… (check your other windows)"@),
                ..self
            }.also(Effect::PickFolder)
        }
    }

    /// Asks for the name of a new file or folder.
    pub open spec fn open_create_prompt(self, folder: bool) -> AppView {
        let dir = create_target(self.selected_row(), self.root);
        if folder {
            self.asking("New folder"@, Seq::empty(), PromptKind::NewFolder(dir))
        } else {
            self.asking("New file"@, Seq::empty(), PromptKind::NewFile(dir))
        }
    }

    /// Shows the context menu for a target.
    pub open spec fn show_menu(
        self,
        x: u16,
        y: u16,
        target: Option<(PathBuf, bool)>,
        in_repo: bool,
    ) -> AppView {
        let lines = listed_lines(
            match target {
                Some((_, is_dir)) => Some(is_dir),
                None => None,
            },
            in_repo,
        );
        self.showing(
            OverlayView::Menu(
                MenuView {
                    x,
                    y,
                    target,
                    lines,
                    selected: first_action(lines, 0),
                    rect: Rect::nowhere(),
                },
            ),
        )
    }

    /// Opens the context menu at a click: for the row under it, which is selected, or for the
    /// root.
    pub open spec fn open_context_menu(self, x: u16, y: u16) -> AppView {
        match row_under(self.body, self.rows.len(), y) {
            Some(index) => {
                let row = self.rows[index as int];
                self.select(index as int).also(
                    Effect::ShowMenu { x, y, target: Some((row.path, row.is_dir)) },
                )
            },
            None => self.also(Effect::ShowMenu { x, y, target: None }),
        }
    }

    /// Where a popup that the keyboard opened anchors: at the selected row where it is on screen,
    /// else at the top of the body.
    pub open spec fn selection_anchor(self) -> (u16, u16) {
        match self.selected {
            Some(index) => {
                let visible = self.body.offset <= index < self.body.offset + self.body.height;
                let depth = if index < self.rows.len() {
                    self.rows[index as int].depth
                } else {
                    0
                };
                (
                    least(indent_column(depth), left_of(self.last_width - 1) as int) as u16,
                    if visible {
                        clipped(self.body.top + (index - self.body.offset))
                    } else {
                        self.body.top
                    },
                )
            },
            None => (0, self.body.top),
        }
    }

    /// Opens the context menu for the selected row, or for the root.
    pub open spec fn open_menu_for_selection(self) -> AppView {
        let (x, y) = self.selection_anchor();
        self.also(
            Effect::ShowMenu {
                x,
                y,
                target: match self.selected_row() {
                    Some(row) => Some((row.path, row.is_dir)),
                    None => None,
                },
            },
        )
    }

    /// Toggles a setting.
    #[verifier::opaque]
    pub open spec fn flip(self, setting: Setting) -> AppView {
        match setting {
            Setting::UnifiedSidebar => self.bare().set_unified(!self.merged()),
            Setting::SidebarWidth => self.adjust_sidebar_width(true),
            Setting::IconTheme => self.set_theme(self.theme.other_theme()),
            Setting::ColorTheme => self.changing(Change::NextPalette).also(
                Effect::ApplyColorTheme,
            ),
            Setting::HiddenFiles => self.toggle_hidden(),
            Setting::FollowCwd => self.changing(Change::FlipFollowCwd).also(
                Effect::ResetFollower,
            ),
            Setting::GitDecorations => self.changing(Change::FlipGitDeco).also(
                Effect::RediscoverRepos,
            ).also(Effect::RequestDecorations { force: true }),
            Setting::Folder => self.bare().change_folder_dialog(),
            _ => self.changing(flip_of(setting)),
        }
    }

    /// Toggles the setting of a row; a row that is not there or disabled does nothing.
    pub open spec fn toggle_setting(self, index: int) -> AppView {
        if index >= SETTING_COUNT || !is_enabled(setting_at(index), self.has_other) {
            self
        } else {
            self.flip(setting_at(index))
        }
    }

    /// What an entry of the menu does to its target; the menu is closed.
    #[verifier::opaque]
    pub open spec fn act(self, action: MenuAction, target: Option<(PathBuf, bool)>) -> AppView {
        let dir = create_dir(target, self.root);
        match action {
            MenuAction::NewFile => self.asking(
                "New file"@,
                Seq::empty(),
                PromptKind::NewFile(dir),
            ),
            MenuAction::NewFolder => self.asking(
                "New folder"@,
                Seq::empty(),
                PromptKind::NewFolder(dir),
            ),
            MenuAction::Reveal => self.also(
                Effect::Reveal(
                    match target {
                        Some((path, _)) => path,
                        None => self.root,
                    },
                ),
            ),
            MenuAction::ChangeFolder => self.change_folder_dialog(),
            MenuAction::ChangeFolderTyped => self.change_folder_prompt(),
            _ => match target {
                Some((path, is_dir)) => match action {
                    MenuAction::CopyPath => self.asks(
                        Deed::Copy(path_text(path_of(path))),
                    ),
                    MenuAction::CopyRelativePath => self.asks(
                        Deed::Copy(relative_text(path, self.root)),
                    ),
                    MenuAction::Rename => self.asking(
                        "Rename"@,
                        last_component(path),
                        PromptKind::Rename(path),
                    ),
                    MenuAction::Delete => self.showing(
                        OverlayView::ConfirmDelete { path, is_dir },
                    ),
                    MenuAction::OpenExternal => self.asks(
                        Deed::OpenExternal { path, name: called(path) },
                    ),
                    _ => self.also(Effect::Stage(path)),
                },
                None => self,
            },
        }
    }

    /// Does what the selected entry of a menu says; the menu closes.
    pub open spec fn activate(self, menu: MenuView) -> AppView {
        if menu.selected < menu.lines.len() {
            match menu.lines[menu.selected as int] {
                Some(item) => self.bare().act(item.action, menu.target),
                None => self.bare(),
            }
        } else {
            self.bare()
        }
    }

    /// Uses the input of a prompt; the prompt closes.
    pub open spec fn confirm(self, prompt: PromptView) -> AppView {
        self.bare().asks(
            match prompt.kind {
                PromptKind::ChangeFolder => Deed::ChangeFolder(prompt.input),
                kind => Deed::SubmitName { kind, input: prompt.input },
            },
        )
    }

    /// A key while the Settings modal is open.
    #[verifier::opaque]
    pub open spec fn settings_key(self, modal: SettingsModal, code: KeyCode) -> AppView {
        let on_width = modal.selected < SETTING_COUNT && setting_at(modal.selected as int)
            == Setting::SidebarWidth;
        if code == KeyCode::Esc || code == KeyCode::Char('q') || code == KeyCode::Char('s') {
            self.bare()
        } else if code == KeyCode::Up || code == KeyCode::Char('k') {
            self.selecting(modal, left_of(modal.selected - 1) as int)
        } else if code == KeyCode::Down || code == KeyCode::Char('j') {
            self.selecting(modal, least(modal.selected + 1, SETTING_COUNT - 1))
        } else if (code == KeyCode::Left || code == KeyCode::Char('h')) && on_width {
            self.adjust_sidebar_width(false)
        } else if (code == KeyCode::Right || code == KeyCode::Char('l')) && on_width {
            self.adjust_sidebar_width(true)
        } else if code == KeyCode::Enter || code == KeyCode::Char(' ') {
            self.toggle_setting(modal.selected as int)
        } else {
            self
        }
    }

    /// A key or the mouse while the context menu is open.
    #[verifier::opaque]
    pub open spec fn move_menu(self, step: MenuMove) -> AppView {
        match step {
            MenuMove::Close => self.bare(),
            MenuMove::Stay(menu) => self.showing(OverlayView::Menu(menu)),
            MenuMove::Activate(menu) => self.activate(menu),
            MenuMove::Reopen(x, y) => self.bare().open_context_menu(x, y),
        }
    }

    /// A key while a prompt is open.
    #[verifier::opaque]
    pub open spec fn prompt_key(self, prompt: PromptView, code: KeyCode) -> AppView {
        match prompt.on_key(code) {
            PromptMove::Close => self.bare(),
            PromptMove::Stay(prompt) => self.showing(OverlayView::Prompt(prompt)),
            PromptMove::Confirm(prompt) => self.confirm(prompt),
        }
    }

    /// A key while Quick Open is open.
    #[verifier::opaque]
    pub open spec fn finder_key(self, finder: FinderView, key: KeyEvent) -> AppView {
        match finder.on_key(key) {
            FinderMove::Close => self.bare(),
            FinderMove::Stay(finder) => self.showing(OverlayView::QuickOpen(finder)),
            FinderMove::Open(path) => self.bare().open_preview(path),
        }
    }

    /// A key while a modal is open.
    pub open spec fn overlay_key(self, key: KeyEvent) -> AppView {
        match self.overlay {
            Some(OverlayView::Settings(modal)) => self.settings_key(modal, key.code),
            Some(OverlayView::Menu(menu)) => self.move_menu(menu.on_key(key.code)),
            Some(OverlayView::Prompt(prompt)) => self.prompt_key(prompt, key.code),
            Some(OverlayView::QuickOpen(finder)) => self.finder_key(finder, key),
            Some(OverlayView::ConfirmDelete { path, is_dir }) => if key.code == KeyCode::Char('y')
                || key.code == KeyCode::Char('Y') {
                self.bare().also(Effect::Delete { path, is_dir })
            } else {
                self.bare()
            },
            None => self,
        }
    }

    /// The mouse while the Settings modal is open: it selects, and a click toggles; a click
    /// outside closes the modal.
    #[verifier::opaque]
    pub open spec fn settings_mouse(self, modal: SettingsModal, mouse: MouseEvent) -> AppView {
        let under = setting_under(modal, mouse.column, mouse.row);
        let selected = self.showing(
            OverlayView::Settings(
                SettingsModal {
                    selected: match under {
                        Some(index) => index,
                        None => modal.selected,
                    },
                    ..modal
                },
            ),
        );
        match mouse.kind {
            MouseKind::Moved => selected,
            MouseKind::LeftDown => match under {
                Some(index) => selected.toggle_setting(index as int),
                None => if modal.rect.covers(mouse.column, mouse.row) {
                    self
                } else {
                    self.bare()
                },
            },
            _ => self,
        }
    }

    /// The mouse while a modal is open. Prompts and questions are for the keyboard.
    pub open spec fn overlay_mouse(self, mouse: MouseEvent) -> AppView {
        match self.overlay {
            Some(OverlayView::Settings(modal)) => self.settings_mouse(modal, mouse),
            Some(OverlayView::Menu(menu)) => self.move_menu(menu.on_mouse(mouse)),
            _ => self,
        }
    }
}

/// The setting under a cell of the modal.
fn setting_at_cell(modal: SettingsModal, column: u16, row: u16) -> (r: Option<usize>)
    ensures
        r == setting_under(modal, column, row),
{
    let rect = modal.rect;
    if column <= rect.x || row <= rect.y || rect.width == 0 || rect.height == 0 {
        return None;
    }
    let right: u16 = column - rect.x;
    let down: u16 = row - rect.y;
    if right >= rect.width - 1 || down >= rect.height - 1 {
        return None;
    }
    let below: usize = (down - 1) as usize;
    if modal.scroll < SETTING_COUNT && below < SETTING_COUNT - modal.scroll {
        Some(below + modal.scroll)
    } else {
        None
    }
}

/// The line of a menu under a cell, if it can be chosen.
fn line_at_cell(menu: &Menu, column: u16, row: u16) -> (r: Option<usize>)
    ensures
        r == line_under(menu@, column, row),
{
    proof {
        reveal(menu_lines);
    }
    let inner = menu.rect.inner();
    if !hits(inner, column, row) {
        return None;
    }
    let index: usize = (row - inner.y) as usize;
    if index >= menu.entries.len() {
        return None;
    }
    assert(menu@.lines[index as int] is Some <==> menu.entries@[index as int] is Action);
    match menu.entries[index] {
        MenuEntry::Action(_, _) => Some(index),
        MenuEntry::Separator => None,
    }
}

/// Where an entry that creates something does so.
fn create_dir_for(target: &Option<(PathBuf, bool)>, root: &PathBuf) -> (r: PathBuf)
    ensures
        r == create_dir(*target, *root),
{
    match target {
        Some((path, is_dir)) => if *is_dir {
            path.clone()
        } else {
            match parent(as_path(path)) {
                Some(dir) => dir,
                None => root.clone(),
            }
        },
        None => root.clone(),
    }
}

/// The name that a path is called by.
pub(crate) fn call_name(path: &PathBuf) -> (r: String)
    ensures
        r@ == called(*path),
{
    match file_name(as_path(path)) {
        Some(name) => name,
        None => show_lossy(as_path(path)),
    }
}

/// The last component of a path.
pub(crate) fn component_name(path: &PathBuf) -> (r: String)
    ensures
        r@ == last_component(*path),
{
    match file_name(as_path(path)) {
        Some(name) => name,
        None => String::new(),
    }
}

/// The text of a path as seen from the root.
fn show_relative(path: &PathBuf, root: &PathBuf) -> (r: String)
    ensures
        r@ == relative_text(*path, *root),
{
    match strip_prefix(as_path(path), as_path(root)) {
        Some(relative) => show(as_path(&relative)),
        None => show(as_path(path)),
    }
}

impl App {
    /// Opens a prompt.
    fn ask(&mut self, title: &'static str, input: String, kind: PromptKind)
        ensures
            final(self)@ == old(self)@.asking(title@, input@, kind),
    {
        self.set_overlay(Overlay::Prompt(Prompt { title, input, kind }));
    }

    /// Prompts for a new root folder, starting with the current one so that small changes are
    /// quick.
    pub fn change_folder_prompt(&mut self)
        ensures
            final(self)@ == old(self)@.change_folder_prompt(),
    {
        proof {
            reveal(App::view);
        }
        let current = show(as_path(&self.root));
        self.ask("Folder", current, PromptKind::ChangeFolder);
    }

    /// Asks for a new root folder with the platform's own picker, or with a prompt where there is
    /// none. The picker runs in the background so that the pane stays alive meanwhile.
    pub fn change_folder_dialog(&mut self)
        ensures
            final(self)@ == old(self)@.change_folder_dialog(),
    {
        proof {
            reveal(App::view);
        }
        if !self.native_picker {
            let current = show(as_path(&self.root));
            self.overlay = Some(
                Overlay::Prompt(
                    Prompt { title: "Folder", input: current, kind: PromptKind::ChangeFolder },
                ),
            );
            return;
        }
        if self.picking {
            return;
        }
        self.picking = true;
        self.notice = Some("folder picker open… (check your other windows)".to_owned());
        self.emit(Effect::PickFolder);
    }

    /// Prompts for a name, creating where the selection says.
    pub fn open_create_prompt(&mut self, folder: bool)
        ensures
            final(self)@ == old(self)@.open_create_prompt(folder),
    {
        proof {
            reveal(App::view);
        }
        let dir = create_target_dir(self.selected_row(), self.root.clone());
        if folder {
            self.ask("New folder", String::new(), PromptKind::NewFolder(dir));
        } else {
            self.ask("New file", String::new(), PromptKind::NewFile(dir));
        }
    }

    /// Builds and shows the menu popup for a target.
    pub fn show_menu(&mut self, x: u16, y: u16, target: Option<(PathBuf, bool)>, in_repo: bool)
        ensures
            final(self)@ == old(self)@.show_menu(x, y, target, in_repo),
    {
        let kind = match &target {
            Some((_, is_dir)) => Some(*is_dir),
            None => None,
        };
        let entries = menu_entries(kind, in_repo);
        let selected: usize = first_choice(&entries);
        self.set_overlay(Overlay::Menu(Menu { x, y, target, entries, selected, rect: Rect::zero() }),
        );
    }

    /// The row at a row of the pane, if it lands on one.
    pub fn row_at(&self, mouse_row: u16) -> (r: Option<usize>)
        ensures
            r == row_under(self@.body, self@.rows.len(), mouse_row),
    {
        proof {
            reveal(App::view);
        }
        row_index_at(self.body, self.rows.len(), mouse_row)
    }

    /// Opens the context menu at the click position, targeting the row under the mouse, or the
    /// root on empty space.
    pub fn open_context_menu(&mut self, x: u16, y: u16)
        ensures
            final(self)@ == old(self)@.open_context_menu(x, y),
    {
        match self.row_at(y) {
            Some(index) => {
                let (is_dir, path) = self.row_kind(index);
                let target = Some((path, is_dir));
                self.select(index);
                self.emit(Effect::ShowMenu { x, y, target });
            },
            None => self.emit(Effect::ShowMenu { x, y, target: None }),
        }
    }

    /// Where a popup that the keyboard opened anchors.
    pub fn selection_anchor(&self) -> (r: (u16, u16))
        ensures
            r == self@.selection_anchor(),
    {
        proof {
            reveal(App::view);
        }
        let index: usize = match self.selected {
            Some(index) => index,
            None => {
                return (0, self.body.top);
            },
        };
        let y: u16 = if index >= self.body.offset && index - self.body.offset
            < self.body.height as usize {
            crate::geometry::add_clipped(self.body.top, (index - self.body.offset) as u16)
        } else {
            self.body.top
        };
        let depth: usize = if index < self.rows.len() {
            self.rows[index].depth
        } else {
            0
        };
        let indent: u16 = indent_of(depth);
        let edge: u16 = if self.last_width > 0 {
            self.last_width - 1
        } else {
            0
        };
        let x: u16 = if indent < edge {
            indent
        } else {
            edge
        };
        (x, y)
    }

    /// Opens the context menu from the keyboard on the current selection; with nothing selected
    /// it targets the root.
    pub fn open_menu_for_selection(&mut self)
        ensures
            final(self)@ == old(self)@.open_menu_for_selection(),
    {
        let target = match self.selected_row() {
            Some(row) => Some((row.path.clone(), row.is_dir)),
            None => None,
        };
        let (x, y): (u16, u16) = self.selection_anchor();
        self.emit(Effect::ShowMenu { x, y, target });
    }

    /// Toggles the setting of a row.
    pub fn toggle_setting(&mut self, index: usize)
        ensures
            final(self)@ == old(self)@.toggle_setting(index as int),
    {
        if index < SETTING_COUNT {
            let setting = nth_setting(index);
            if setting != Setting::UnifiedSidebar || self.other_available() {
                self.flip(setting);
            }
        }
    }

    /// Toggles a setting.
    fn flip(&mut self, setting: Setting)
        ensures
            final(self)@ == old(self)@.flip(setting),
    {
        proof {
            reveal(AppView::flip);
        }
        match setting {
            Setting::UnifiedSidebar => {
                // The pane layout changes underneath the modal; close it.
                self.close_overlay();
                let on = !self.merged();
                self.set_unified(on);
                return;
            },
            Setting::SidebarWidth => {
                self.adjust_sidebar_width(true);
                return;
            },
            Setting::IconTheme => {
                let theme = self.icon_theme().toggled();
                self.set_theme(theme);
                return;
            },
            Setting::HiddenFiles => {
                self.toggle_hidden();
                return;
            },
            Setting::Folder => {
                self.close_overlay();
                self.change_folder_dialog();
                return;
            },
            _ => {},
        }
        match setting {
            Setting::ColorTheme => {
                self.emit(Effect::UpdateState(Change::NextPalette));
                self.emit(Effect::ApplyColorTheme);
            },
            Setting::FollowCwd => {
                self.emit(Effect::UpdateState(Change::FlipFollowCwd));
                self.emit(Effect::ResetFollower);
            },
            Setting::GitDecorations => {
                self.emit(Effect::UpdateState(Change::FlipGitDeco));
                self.emit(Effect::RediscoverRepos);
                self.emit(Effect::RequestDecorations { force: true });
            },
            _ => self.emit(Effect::UpdateState(flip_for(setting))),
        }
    }

    /// Does what an entry of the menu says to its target.
    fn act(&mut self, action: MenuAction, target: Option<(PathBuf, bool)>)
        ensures
            final(self)@ == old(self)@.act(action, target),
    {
        proof {
            reveal(AppView::act);
        }
        let root = self.root_path();
        let dir = create_dir_for(&target, &root);
        match action {
            MenuAction::NewFile => {
                self.ask("New file", String::new(), PromptKind::NewFile(dir));
                return;
            },
            MenuAction::NewFolder => {
                self.ask("New folder", String::new(), PromptKind::NewFolder(dir));
                return;
            },
            MenuAction::Reveal => {
                let path = match target {
                    Some((path, _)) => path,
                    None => root,
                };
                self.emit(Effect::Reveal(path));
                return;
            },
            MenuAction::ChangeFolder => {
                self.change_folder_dialog();
                return;
            },
            MenuAction::ChangeFolderTyped => {
                self.change_folder_prompt();
                return;
            },
            _ => {},
        }
        if let Some((path, is_dir)) = target {
            match action {
                MenuAction::CopyPath => self.emit(Effect::Copy(show(as_path(&path)))),
                MenuAction::CopyRelativePath => {
                    let text = show_relative(&path, &root);
                    self.emit(Effect::Copy(text));
                },
                MenuAction::Rename => {
                    let current = component_name(&path);
                    self.ask("Rename", current, PromptKind::Rename(path));
                },
                MenuAction::Delete => {
                    self.set_overlay(Overlay::ConfirmDelete { path, is_dir });
                },
                MenuAction::OpenExternal => {
                    let name = call_name(&path);
                    self.emit(Effect::OpenExternal { path, name });
                },
                _ => self.emit(Effect::Stage(path)),
            }
        }
    }

    /// Does what the selected entry of a menu says; the menu is closed already.
    fn activate_menu_entry(&mut self, menu: Menu)
        requires
            old(self)@.overlay is None,
        ensures
            final(self)@ == old(self)@.activate(menu@),
    {
        proof {
            reveal(menu_lines);
            assert(self@.bare() == self@);
        }
        if menu.selected < menu.entries.len() {
            match menu.entries[menu.selected] {
                MenuEntry::Action(action, _) => self.act(action, menu.target),
                MenuEntry::Separator => {},
            }
        }
    }

    /// Uses the input of a prompt; the prompt is closed already.
    fn confirm_prompt(&mut self, prompt: Prompt)
        requires
            old(self)@.overlay is None,
        ensures
            final(self)@ == old(self)@.confirm(prompt@),
    {
        match prompt.kind {
            PromptKind::ChangeFolder => self.emit(Effect::ChangeFolder(prompt.input)),
            kind => self.emit(Effect::SubmitName { kind, input: prompt.input }),
        }
    }

    /// A key while the Settings modal is open.
    fn settings_key(&mut self, modal: SettingsModal, code: KeyCode)
        requires
            old(self)@.overlay == Some(OverlayView::Settings(modal)),
        ensures
            final(self)@ == old(self)@.settings_key(modal, code),
    {
        proof {
            reveal(AppView::settings_key);
        }
        let on_width = modal.selected < SETTING_COUNT && nth_setting(modal.selected)
            == Setting::SidebarWidth;
        match code {
            KeyCode::Esc | KeyCode::Char('q') | KeyCode::Char('s') => {
                self.close_overlay();
            },
            KeyCode::Up | KeyCode::Char('k') => {
                let selected: usize = if modal.selected > 0 {
                    modal.selected - 1
                } else {
                    0
                };
                self.set_overlay(Overlay::Settings(
                        SettingsModal { selected, rect: modal.rect, scroll: modal.scroll },
                    ),
                );
            },
            KeyCode::Down | KeyCode::Char('j') => {
                let selected: usize = if modal.selected < SETTING_COUNT - 1 {
                    modal.selected + 1
                } else {
                    SETTING_COUNT - 1
                };
                self.set_overlay(Overlay::Settings(
                        SettingsModal { selected, rect: modal.rect, scroll: modal.scroll },
                    ),
                );
            },
            KeyCode::Left | KeyCode::Char('h') => {
                if on_width {
                    self.adjust_sidebar_width(false);
                }
            },
            KeyCode::Right | KeyCode::Char('l') => {
                if on_width {
                    self.adjust_sidebar_width(true);
                }
            },
            KeyCode::Enter | KeyCode::Char(' ') => self.toggle_setting(modal.selected),
            _ => {},
        }
    }

    /// A key or the mouse while the context menu is open; the menu was taken out.
    fn move_menu(&mut self, step: MenuStep)
        requires
            old(self)@.overlay is None,
        ensures
            final(self)@ == old(self)@.move_menu(step@),
    {
        proof {
            reveal(AppView::move_menu);
        }
        proof {
            assert(self@.bare() == self@);
        }
        match step {
            MenuStep::Close => {},
            MenuStep::Stay(menu) => self.set_overlay(Overlay::Menu(menu)),
            MenuStep::Activate(menu) => self.activate_menu_entry(menu),
            MenuStep::Reopen(x, y) => self.open_context_menu(x, y),
        }
    }

    /// A key while a prompt is open; the prompt was taken out.
    fn prompt_key(&mut self, prompt: Prompt, code: KeyCode)
        requires
            old(self)@.overlay is None,
        ensures
            final(self)@ == old(self)@.prompt_key(prompt@, code),
    {
        proof {
            reveal(AppView::prompt_key);
        }
        proof {
            assert(self@.bare() == self@);
        }
        match prompt_step(prompt, code) {
            PromptStep::Close => {},
            PromptStep::Stay(prompt) => self.set_overlay(Overlay::Prompt(prompt)),
            PromptStep::Confirm(prompt) => self.confirm_prompt(prompt),
        }
    }

    /// A key while Quick Open is open; the finder was taken out.
    fn finder_key(&mut self, finder: QuickOpen, key: KeyEvent)
        requires
            old(self)@.overlay is None,
        ensures
            final(self)@ == old(self)@.finder_key(finder@, key),
    {
        proof {
            reveal(AppView::finder_key);
        }
        proof {
            assert(self@.bare() == self@);
        }
        match finder_step(finder, key) {
            FinderStep::Close => {},
            FinderStep::Stay(finder) => self.set_overlay(Overlay::QuickOpen(finder)),
            FinderStep::Open(path) => self.open_preview(path),
        }
    }

    /// A key while a modal is open.
    pub fn overlay_key(&mut self, key: KeyEvent)
        ensures
            final(self)@ == old(self)@.overlay_key(key),
    {
        let ghost before = self@;
        match self.take_overlay() {
            Some(Overlay::Settings(modal)) => {
                self.set_overlay(Overlay::Settings(modal));
                assert(self@ == before);
                self.settings_key(modal, key.code);
            },
            Some(Overlay::Menu(menu)) => {
                proof {
                    lemma_menu_was_open(before, menu@.on_key(key.code));
                }
                self.move_menu(menu_key(menu, key.code));
            },
            Some(Overlay::Prompt(prompt)) => {
                proof {
                    lemma_prompt_was_open(before, prompt@, key.code);
                }
                self.prompt_key(prompt, key.code);
            },
            Some(Overlay::QuickOpen(finder)) => {
                proof {
                    lemma_finder_was_open(before, finder@, key);
                }
                self.finder_key(finder, key);
            },
            Some(Overlay::ConfirmDelete { path, is_dir }) => {
                assert(self@ == before.bare());
                match key.code {
                    KeyCode::Char('y') | KeyCode::Char('Y') => {
                        self.emit(Effect::Delete { path, is_dir });
                    },
                    _ => {},
                }
            },
            None => {
                assert(self@ == before);
            },
        }
    }

    /// The mouse while the Settings modal is open.
    fn settings_mouse(&mut self, modal: SettingsModal, mouse: MouseEvent)
        requires
            old(self)@.overlay == Some(OverlayView::Settings(modal)),
        ensures
            final(self)@ == old(self)@.settings_mouse(modal, mouse),
    {
        proof {
            reveal(AppView::settings_mouse);
        }
        let under = setting_at_cell(modal, mouse.column, mouse.row);
        match mouse.kind {
            MouseKind::Moved => {
                if let Some(selected) = under {
                    self.set_overlay(Overlay::Settings(
                            SettingsModal { selected, rect: modal.rect, scroll: modal.scroll },
                        ),
                    );
                }
            },
            MouseKind::LeftDown => {
                match under {
                    Some(selected) => {
                        self.set_overlay(Overlay::Settings(
                                SettingsModal { selected, rect: modal.rect, scroll: modal.scroll },
                            ),
                        );
                        self.toggle_setting(selected);
                    },
                    None => {
                        if !hits(modal.rect, mouse.column, mouse.row) {
                            self.close_overlay();
                        }
                    },
                }
            },
            _ => {},
        }
    }

    /// The mouse while a modal is open.
    pub fn overlay_mouse(&mut self, mouse: MouseEvent)
        ensures
            final(self)@ == old(self)@.overlay_mouse(mouse),
    {
        let ghost before = self@;
        match self.take_overlay() {
            Some(Overlay::Settings(modal)) => {
                self.set_overlay(Overlay::Settings(modal));
                assert(self@ == before);
                self.settings_mouse(modal, mouse);
            },
            Some(Overlay::Menu(menu)) => {
                proof {
                    lemma_menu_was_open(before, menu@.on_mouse(mouse));
                }
                self.move_menu(menu_mouse(menu, mouse));
            },
            Some(overlay) => {
                self.set_overlay(overlay);
                assert(self@ == before);
            },
            None => {
                assert(self@ == before);
            },
        }
    }
}

/// A modal that was taken out makes no difference to what replaces it.
proof fn lemma_taken(app: AppView)
    ensures
        app.bare().bare() == app.bare(),
        forall|overlay: OverlayView| app.bare().showing(overlay) == #[trigger] app.showing(overlay),
{
}

proof fn lemma_menu_was_open(app: AppView, step: MenuMove)
    ensures
        app.bare().move_menu(step) == app.move_menu(step),
{
    reveal(AppView::move_menu);
    lemma_taken(app);
    if let MenuMove::Stay(menu) = step {
        assert(app.showing(OverlayView::Menu(menu)) == app.bare().showing(OverlayView::Menu(menu)));
    }
}

proof fn lemma_prompt_was_open(app: AppView, prompt: PromptView, code: KeyCode)
    ensures
        app.bare().prompt_key(prompt, code) == app.prompt_key(prompt, code),
{
    reveal(AppView::prompt_key);
    lemma_taken(app);
    if let PromptMove::Stay(prompt) = prompt.on_key(code) {
        assert(app.showing(OverlayView::Prompt(prompt)) == app.bare().showing(
            OverlayView::Prompt(prompt),
        ));
    }
}

proof fn lemma_finder_was_open(app: AppView, finder: FinderView, key: KeyEvent)
    ensures
        app.bare().finder_key(finder, key) == app.finder_key(finder, key),
{
    reveal(AppView::finder_key);
    lemma_taken(app);
    if let FinderMove::Stay(finder) = finder.on_key(key) {
        assert(app.showing(OverlayView::QuickOpen(finder)) == app.bare().showing(
            OverlayView::QuickOpen(finder),
        ));
    }
}

} // verus!
