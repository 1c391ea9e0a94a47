//! Keys and the mouse in the Explorer view.

use crate::explorer::{App, AppView, Deed, Effect, Outcome, TitleAction, DOUBLE_CLICK};
use crate::geometry::{
    hits, hits_chevron, hits_collapse_button, indent_column, on_collapse_button, row_under, Rect,
};
use crate::input::{KeyCode, KeyEvent, MouseEvent, MouseKind};
use crate::state::{Exit, View};
use crate::text::same_text;
use std::path::PathBuf;
use vstd::prelude::*;
use vstd::string::*;
use vstd::view::View as _;

verus! {

/// What a key asks for where no modal is open.
#[derive(Clone, Copy, PartialEq, Eq, Debug, Structural)]
pub enum Command {
    Quit,
    ClosePreview,
    LineUp,
    LineDown,
    PageUp,
    PageDown,
    First,
    Last,
    Expand,
    Collapse,
    Toggle,
    Refresh,
    ToggleHidden,
    ToggleIcons,
    Hide,
    ChangeFolder,
    Menu,
    Settings,
    Show(View),
    Nothing,
}

/// What a key asks for. Esc closes the preview; it never quits the sidebar.
pub open spec fn command_for(code: KeyCode) -> Command {
    match code {
        KeyCode::Esc => Command::ClosePreview,
        KeyCode::Up => Command::LineUp,
        KeyCode::Down => Command::LineDown,
        KeyCode::PageUp => Command::PageUp,
        KeyCode::PageDown => Command::PageDown,
        KeyCode::Home => Command::First,
        KeyCode::End => Command::Last,
        KeyCode::Right => Command::Expand,
        KeyCode::Left => Command::Collapse,
        KeyCode::Enter => Command::Toggle,
        KeyCode::Char(c) => command_for_char(c),
        _ => Command::Nothing,
    }
}

/// What a character asks for.
pub open spec fn command_for_char(c: char) -> Command {
    if c == 'q' {
        Command::Quit
    } else if c == 'k' {
        Command::LineUp
    } else if c == 'j' {
        Command::LineDown
    } else if c == 'g' {
        Command::First
    } else if c == 'G' {
        Command::Last
    } else if c == 'l' {
        Command::Expand
    } else if c == 'h' {
        Command::Collapse
    } else if c == ' ' {
        Command::Toggle
    } else if c == 'r' {
        Command::Refresh
    } else if c == '.' {
        Command::ToggleHidden
    } else if c == 'i' {
        Command::ToggleIcons
    } else if c == 'b' {
        Command::Hide
    } else if c == 'c' {
        Command::ChangeFolder
    } else if c == 'm' {
        Command::Menu
    } else if c == 's' {
        Command::Settings
    } else if c == '1' {
        Command::Show(View::Explorer)
    } else if c == '2' {
        Command::Show(View::SourceControl)
    } else {
        Command::Nothing
    }
}

/// What a key asks for.
pub fn key_command(code: KeyCode) -> (r: Command)
    ensures
        r == command_for(code),
{
    match code {
        KeyCode::Esc => Command::ClosePreview,
        KeyCode::Up => Command::LineUp,
        KeyCode::Down => Command::LineDown,
        KeyCode::PageUp => Command::PageUp,
        KeyCode::PageDown => Command::PageDown,
        KeyCode::Home => Command::First,
        KeyCode::End => Command::Last,
        KeyCode::Right => Command::Expand,
        KeyCode::Left => Command::Collapse,
        KeyCode::Enter => Command::Toggle,
        KeyCode::Char(c) => match c {
            'q' => Command::Quit,
            'k' => Command::LineUp,
            'j' => Command::LineDown,
            'g' => Command::First,
            'G' => Command::Last,
            'l' => Command::Expand,
            'h' => Command::Collapse,
            ' ' => Command::Toggle,
            'r' => Command::Refresh,
            '.' => Command::ToggleHidden,
            'i' => Command::ToggleIcons,
            'b' => Command::Hide,
            'c' => Command::ChangeFolder,
            'm' => Command::Menu,
            's' => Command::Settings,
            '1' => Command::Show(View::Explorer),
            '2' => Command::Show(View::SourceControl),
            _ => Command::Nothing,
        },
        _ => Command::Nothing,
    }
}

/// The first title-bar button from `from` on that a click lands on.
pub open spec fn title_under(
    zones: Seq<(Rect, TitleAction)>,
    column: u16,
    row: u16,
    from: int,
) -> Option<TitleAction>
    decreases zones.len() - from,
{
    if from < 0 || from >= zones.len() {
        None
    } else if zones[from].0.covers(column, row) {
        Some(zones[from].1)
    } else {
        title_under(zones, column, row, from + 1)
    }
}

/// How much later `now` is; nothing where the clock went back.
pub open spec fn since(now: u64, then: u64) -> int {
    if now < then {
        0
    } else {
        now - then
    }
}

impl AppView {
    /// Moves the selection.
    pub open spec fn go(self, command: Command) -> AppView {
        match command {
            Command::LineUp => self.move_by(-1),
            Command::LineDown => self.move_by(1),
            Command::PageUp => self.move_by(-(self.page as int)),
            Command::PageDown => self.move_by(self.page as int),
            Command::First => self.select(0),
            Command::Last => self.select(
                if self.rows.len() > 0 {
                    self.rows.len() - 1
                } else {
                    0
                },
            ),
            Command::Expand => self.expand_or_enter(),
            Command::Collapse => self.collapse_or_parent(),
            _ => self.toggle(),
        }
    }

    /// Does what a command says.
    pub open spec fn run(self, command: Command) -> AppView {
        match command {
            Command::ClosePreview => self.close_preview(),
            Command::Refresh => self.refresh_tree(),
            Command::ToggleHidden => self.toggle_hidden(),
            Command::ToggleIcons => self.set_theme(self.theme.other_theme()),
            Command::Hide => self.hide_sidebar(),
            Command::ChangeFolder => self.change_folder_dialog(),
            Command::Menu => self.open_menu_for_selection(),
            Command::Settings => self.open_settings(),
            Command::Quit | Command::Show(_) | Command::Nothing => self,
            _ => self.go(command),
        }
    }

    /// A key where no modal is open.
    pub open spec fn plain_key(self, code: KeyCode) -> Outcome {
        match command_for(code) {
            Command::Quit => Outcome { app: self, exit: Some(Exit::Quit) },
            Command::Show(view) => self.switch_to(view),
            command => Outcome { app: self.run(command), exit: None },
        }
    }

    /// A key event. Control and `q` quits from anywhere, control and `p` opens Quick Open where
    /// no modal is open; any other key clears the notice and goes to the modal that is open, else
    /// to the tree.
    pub open spec fn on_key(self, key: KeyEvent) -> Outcome {
                if !key.pressed {
            Outcome { app: self, exit: None }
        } else if key.is_control('q') {
            Outcome { app: self, exit: Some(Exit::Quit) }
        } else if key.is_control('p') && self.overlay is None {
            Outcome { app: self.open_quick_open(), exit: None }
        } else if self.overlay is Some {
            Outcome { app: self.quiet().overlay_key(key), exit: None }
        } else {
            self.quiet().plain_key(key.code)
        }
    }

    /// A button of the title bar was clicked.
    pub open spec fn title_action(self, action: TitleAction) -> AppView {
        match action {
            TitleAction::NewFile => self.open_create_prompt(false),
            TitleAction::NewFolder => self.open_create_prompt(true),
            TitleAction::Refresh => self.refresh_tree(),
            TitleAction::CollapseAll => AppView { scroll: 0, ..self }.also(
                Effect::CollapseAll,
            ).also(Effect::Rebuild),
        }
    }

    /// A click at `now` is the second one on a row within the time of a double click.
    pub open spec fn is_double(self, index: usize, now: u64) -> bool {
        self.last_click matches Some((row, at)) && row == index && since(now, at) < DOUBLE_CLICK
    }

    /// A left click on a row: it is selected. The chevron of a directory toggles it, as a double
    /// click does; a file is previewed, and pinned by a double click.
    pub open spec fn choose_row(
        self,
        index: usize,
        now: u64,
        on_chevron: bool,
        double: bool,
    ) -> AppView {
        let row = self.rows[index as int];
        let chosen = AppView { last_click: Some((index, now)), ..self.select(index as int) };
        if row.is_dir {
            if on_chevron || double {
                chosen.toggle()
            } else {
                chosen
            }
        } else if double {
            chosen.also(Effect::PinOrOpen(row.path))
        } else {
            chosen.open_preview(row.path)
        }
    }

    /// A left click on a row at a column.
    pub open spec fn click_row(self, index: usize, column: u16, now: u64) -> AppView {
        let indent = indent_column(self.rows[index as int].depth);
        self.choose_row(
            index,
            now,
            indent <= column < indent + 2,
            self.is_double(index, now),
        )
    }

    /// The view whose icon in the activity bar a click lands on.
    pub open spec fn view_under(self, column: u16, row: u16) -> Option<View> {
        let zones = self.activity;
        if !self.merged() || row != zones.row {
            None
        } else if zones.explorer.0 <= column < zones.explorer.1 {
            Some(View::Explorer)
        } else if zones.source_control.0 <= column < zones.source_control.1 {
            Some(View::SourceControl)
        } else {
            None
        }
    }

    /// A left click: on the activity bar, the settings button, a title-bar button, the collapse
    /// button, or a row, in this order.
    pub open spec fn left_click(self, column: u16, row: u16, now: u64) -> Outcome {
        match self.view_under(column, row) {
            Some(view) => self.switch_to(view),
            None => Outcome {
                app: if self.gear.covers(column, row) {
                    self.open_settings()
                } else {
                    match title_under(self.title_zones, column, row, 0) {
                        Some(action) => self.title_action(action),
                        None => if on_collapse_button(
                            column,
                            row,
                            self.last_width,
                            self.last_height,
                        ) {
                            self.hide_sidebar()
                        } else {
                            match row_under(self.body, self.rows.len(), row) {
                                Some(index) => self.click_row(index, column, now),
                                None => self,
                            }
                        },
                    }
                },
                exit: None,
            },
        }
    }

    /// A mouse event at `now`.
    pub open spec fn on_mouse(self, mouse: MouseEvent, now: u64) -> Outcome {
        let seen = AppView {
            last_mouse: Some(now),
            mouse_pos: Some((mouse.column, mouse.row)),
            ..self
        };
        if self.overlay is Some {
            Outcome { app: seen.overlay_mouse(mouse), exit: None }
        } else {
            seen.plain_mouse(mouse, now)
        }
    }

    /// A mouse event where no modal is open.
    pub open spec fn plain_mouse(self, mouse: MouseEvent, now: u64) -> Outcome {
        match mouse.kind {
            MouseKind::LeftDown => self.left_click(mouse.column, mouse.row, now),
            MouseKind::Moved => Outcome {
                app: AppView {
                    hovered: row_under(self.body, self.rows.len(), mouse.row),
                    ..self
                },
                exit: None,
            },
            MouseKind::ScrollUp => Outcome { app: self.scroll_view(-3), exit: None },
            MouseKind::ScrollDown => Outcome { app: self.scroll_view(3), exit: None },
            MouseKind::RightDown => Outcome {
                app: self.quiet().open_context_menu(mouse.column, mouse.row),
                exit: None,
            },
            MouseKind::Other => Outcome { app: self, exit: None },
        }
    }

    /// The preview that is open last shows the document of that key.
    pub open spec fn previews(self, doc_key: Seq<char>) -> bool {
        self.last_preview == Some(doc_key)
    }
}

impl App {
    /// Moves the selection.
    fn go(&mut self, command: Command)
        ensures
            final(self)@ == old(self)@.go(command),
    {
        proof {
            reveal(App::view);
        }
        let page: i128 = self.page as i128;
        match command {
            Command::LineUp => self.move_by(-1),
            Command::LineDown => self.move_by(1),
            Command::PageUp => self.move_by(-page),
            Command::PageDown => self.move_by(page),
            Command::First => self.select(0),
            Command::Last => {
                let last: usize = if self.rows.len() > 0 {
                    self.rows.len() - 1
                } else {
                    0
                };
                self.select(last);
            },
            Command::Expand => self.expand_or_enter(),
            Command::Collapse => self.collapse_or_parent(),
            _ => self.toggle(),
        }
    }

    /// Does what a command says.
    fn run(&mut self, command: Command)
        ensures
            final(self)@ == old(self)@.run(command),
    {
        match command {
            Command::ClosePreview => self.close_preview(),
            Command::Refresh => self.refresh_tree(),
            Command::ToggleHidden => self.toggle_hidden(),
            Command::ToggleIcons => {
                let theme = self.icon_theme().toggled();
                self.set_theme(theme);
            },
            Command::Hide => self.hide_sidebar(),
            Command::ChangeFolder => self.change_folder_dialog(),
            Command::Menu => self.open_menu_for_selection(),
            Command::Settings => self.open_settings(),
            Command::Quit | Command::Show(_) | Command::Nothing => {},
            _ => self.go(command),
        }
    }

    /// Handles one key event; `Some(exit)` ends the event loop.
    pub fn on_key(&mut self, key: KeyEvent) -> (r: Option<Exit>)
        ensures
            final(self)@ == old(self)@.on_key(key).app,
            r == old(self)@.on_key(key).exit,
    {
        if !key.pressed {
            return None;
        }
        if key.code == KeyCode::Char('q') && key.control && !key.alt {
            return Some(Exit::Quit);
        }
        if key.code == KeyCode::Char('p') && key.control && !key.alt && !self.has_overlay() {
            self.open_quick_open();
            return None;
        }
        let modal = self.has_overlay();
        self.clear_notice();
        if modal {
            self.overlay_key(key);
            return None;
        }
        self.plain_key(key.code)
    }

    /// A key where no modal is open.
    fn plain_key(&mut self, code: KeyCode) -> (r: Option<Exit>)
        ensures
            final(self)@ == old(self)@.plain_key(code).app,
            r == old(self)@.plain_key(code).exit,
    {
        match key_command(code) {
            Command::Quit => Some(Exit::Quit),
            Command::Show(view) => self.switch_to(view),
            command => {
                self.run(command);
                None
            },
        }
    }

    /// One of the title-bar buttons was clicked.
    pub fn title_action(&mut self, action: TitleAction)
        ensures
            final(self)@ == old(self)@.title_action(action),
    {
        proof {
            reveal(App::view);
        }
        match action {
            TitleAction::NewFile => self.open_create_prompt(false),
            TitleAction::NewFolder => self.open_create_prompt(true),
            TitleAction::Refresh => self.refresh_tree(),
            TitleAction::CollapseAll => {
                self.scroll = 0;
                self.emit(Effect::CollapseAll);
                self.emit(Effect::Rebuild);
            },
        }
    }

    /// The title-bar button that a click lands on.
    fn title_at(&self, column: u16, row: u16) -> (r: Option<TitleAction>)
        ensures
            r == title_under(self@.title_zones, column, row, 0),
    {
        proof {
            reveal(App::view);
        }
        for i in 0..self.title_zones.len()
            invariant
                self@.title_zones == self.title_zones@,
                title_under(self.title_zones@, column, row, 0) == title_under(
                    self.title_zones@,
                    column,
                    row,
                    i as int,
                ),
        {
            if hits(self.title_zones[i].0, column, row) {
                return Some(self.title_zones[i].1);
            }
        }
        None
    }

    /// A left click on a row at a column.
    fn click_row(&mut self, index: usize, column: u16, now: u64)
        requires
            index < old(self)@.rows.len(),
        ensures
            final(self)@ == old(self)@.click_row(index, column, now),
    {
        proof {
            reveal(App::view);
        }
        let on_chevron = hits_chevron(column, self.rows[index].depth);
        let double = match self.last_click {
            Some((clicked, at)) => clicked == index && now.saturating_sub(at) < DOUBLE_CLICK,
            None => false,
        };
        self.choose_row(index, now, on_chevron, double);
    }

    /// Remembers where the mouse is.
    fn note_mouse(&mut self, mouse: MouseEvent, now: u64)
        ensures
            final(self)@ == (AppView {
                last_mouse: Some(now),
                mouse_pos: Some((mouse.column, mouse.row)),
                ..old(self)@
            }),
    {
        proof {
            reveal(App::view);
        }
        self.last_mouse = Some(now);
        self.mouse_pos = Some((mouse.column, mouse.row));
    }

    /// Remembers the row under the mouse.
    fn note_hover(&mut self, row: u16)
        ensures
            final(self)@ == (AppView {
                hovered: row_under(old(self)@.body, old(self)@.rows.len(), row),
                ..old(self)@
            }),
    {
        proof {
            reveal(App::view);
        }
        self.hovered = self.row_at(row);
    }

    /// Remembers a click.
    fn note_click(&mut self, index: usize, now: u64)
        ensures
            final(self)@ == (AppView { last_click: Some((index, now)), ..old(self)@ }),
    {
        proof {
            reveal(App::view);
        }
        self.last_click = Some((index, now));
    }

    /// A left click on a row.
    fn choose_row(&mut self, index: usize, now: u64, on_chevron: bool, double: bool)
        requires
            index < old(self)@.rows.len(),
        ensures
            final(self)@ == old(self)@.choose_row(index, now, on_chevron, double),
    {
        let (is_dir, path) = self.row_kind(index);
        self.select(index);
        self.note_click(index, now);
        if is_dir {
            if on_chevron || double {
                self.toggle();
            }
        } else if double {
            // Pin the tab that the first click opened. Opening it again would race the viewer's
            // first stamp and spawn a second tab for the same file.
            self.emit(Effect::PinOrOpen(path));
        } else {
            self.open_preview(path);
        }
    }

    /// The view whose icon in the activity bar a click lands on.
    fn view_at(&self, column: u16, row: u16) -> (r: Option<View>)
        ensures
            r == self@.view_under(column, row),
    {
        proof {
            reveal(App::view);
        }
        let zones = self.activity;
        if !self.merged() || row != zones.row {
            return None;
        }
        if column >= zones.explorer.0 && column < zones.explorer.1 {
            return Some(View::Explorer);
        }
        if column >= zones.source_control.0 && column < zones.source_control.1 {
            return Some(View::SourceControl);
        }
        None
    }

    /// Whether a click lands on the settings button.
    fn gear_at(&self, column: u16, row: u16) -> (r: bool)
        ensures
            r == self@.gear.covers(column, row),
    {
        proof {
            reveal(App::view);
        }
        hits(self.gear, column, row)
    }

    /// Whether a click lands on the collapse button.
    fn collapse_at(&self, column: u16, row: u16) -> (r: bool)
        ensures
            r == on_collapse_button(column, row, self@.last_width, self@.last_height),
    {
        proof {
            reveal(App::view);
        }
        hits_collapse_button(column, row, self.last_width, self.last_height)
    }

    /// A left click.
    fn left_click(&mut self, column: u16, row: u16, now: u64) -> (r: Option<Exit>)
        ensures
            final(self)@ == old(self)@.left_click(column, row, now).app,
            r == old(self)@.left_click(column, row, now).exit,
    {
        if let Some(view) = self.view_at(column, row) {
            return self.switch_to(view);
        }
        if self.gear_at(column, row) {
            self.open_settings();
            return None;
        }
        if let Some(action) = self.title_at(column, row) {
            self.title_action(action);
            return None;
        }
        if self.collapse_at(column, row) {
            self.hide_sidebar();
            return None;
        }
        if let Some(index) = self.row_at(row) {
            self.click_row(index, column, now);
        }
        None
    }

    /// Handles one mouse event at `now`; `Some(exit)` ends the event loop. Any mouse activity
    /// shows the title-bar buttons for a while.
    pub fn on_mouse(&mut self, mouse: MouseEvent, now: u64) -> (r: Option<Exit>)
        ensures
            final(self)@ == old(self)@.on_mouse(mouse, now).app,
            r == old(self)@.on_mouse(mouse, now).exit,
    {
        let modal = self.has_overlay();
        self.note_mouse(mouse, now);
        if modal {
            self.overlay_mouse(mouse);
            return None;
        }
        self.plain_mouse(mouse, now)
    }

    /// A mouse event where no modal is open.
    fn plain_mouse(&mut self, mouse: MouseEvent, now: u64) -> (r: Option<Exit>)
        ensures
            final(self)@ == old(self)@.plain_mouse(mouse, now).app,
            r == old(self)@.plain_mouse(mouse, now).exit,
    {
        match mouse.kind {
            MouseKind::LeftDown => {
                return self.left_click(mouse.column, mouse.row, now);
            },
            MouseKind::Moved => self.note_hover(mouse.row),
            MouseKind::ScrollUp => self.scroll_view(-3),
            MouseKind::ScrollDown => self.scroll_view(3),
            MouseKind::RightDown => {
                self.clear_notice();
                self.open_context_menu(mouse.column, mouse.row);
            },
            MouseKind::Other => {},
        }
        None
    }

    /// A double click on a file whose document has that key: true where the preview that was
    /// opened last is to be pinned, else the file is opened.
    pub fn pin_or_open(&mut self, path: PathBuf, doc_key: &str) -> (r: bool)
        ensures
            r == old(self)@.previews(doc_key@),
            final(self)@ == if r {
                old(self)@
            } else {
                old(self)@.open_preview(path)
            },
    {
        proof {
            reveal(App::view);
        }
        if let Some(key) = &self.last_preview {
            if same_text(key.as_str(), doc_key) {
                return true;
            }
        }
        self.open_preview(path);
        false
    }
}

/// Control and `q` quits whatever is open, and nothing else changes; a key that is released or
/// repeated does nothing.
pub proof fn law_control_q_always_quits(app: AppView, key: KeyEvent)
    ensures
        key.pressed && key.is_control('q') ==> app.on_key(key).exit == Some(Exit::Quit)
            && app.on_key(key).app == app,
        !key.pressed ==> app.on_key(key).exit is None && app.on_key(key).app == app,
{
}

/// Esc never ends the view's loop, and no key does while a modal is open but control and `q`.
pub proof fn law_esc_never_quits(app: AppView, key: KeyEvent)
    ensures
        key.code == KeyCode::Esc ==> app.on_key(key).exit is None,
        app.overlay is Some && !key.is_control('q') ==> app.on_key(key).exit is None,
{
}

/// The view is left for the other one only where the unified sidebar is on, and the other view is
/// remembered then.
pub proof fn law_switching_needs_the_unified_sidebar(app: AppView, key: KeyEvent)
    ensures
        app.on_key(key).exit == Some(Exit::Switch) ==> app.merged() && app.on_key(key).app.asked
            == app.asked.push(
            Deed::Plain(
                Effect::UpdateState(crate::state_file::Change::Show(View::SourceControl)),
            ),
        ),
{
}

} // verus!
