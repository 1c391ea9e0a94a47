//! The Explorer view as a state machine: what it remembers, and what it asks of the program around
//! it.
//!
//! A method changes the view's state and leaves `Effect`s in it: things to do that reach outside,
//! in the order in which they are to be done. An effect that depends on the settings or the root
//! is carried out with what the view says at that time, so that it follows the effects before it.

use crate::geometry::{least, left_of, most, ActivityZones, BodyGeom, Rect};
use crate::icons::IconTheme;
use crate::menu::{menu_lines, MenuEntry, MenuItem};
use crate::paths::{as_path, path_of, same_components, same_path};
use crate::quick_open::{matches_for, quick_matches, share, IndexView, QuickFile, QuickIndex};
use crate::rows::Row;
use crate::state::{Exit, PreviewEditor, State, View, SIDEBAR_LABEL};
use crate::state_file::Change;

use std::path::PathBuf;
use std::sync::Arc;
use vstd::prelude::*;
use vstd::string::*;
use vstd::view::View as _;

verus! {

/// The view that this module is about.
pub const MY_VIEW: View = View::Explorer;

/// How long two clicks on the same row still count as a double click, in milliseconds.
pub const DOUBLE_CLICK: u64 = 450;

/// How often the git status decorations are read again while the view is idle, in milliseconds.
pub const DECO_REFRESH: u64 = 2000;

/// How often the pane's identity is stamped again, in milliseconds.
pub const HEARTBEAT: u64 = 5000;

/// What a prompt's input will be used for.
#[derive(Debug, PartialEq, Eq)]
pub enum PromptKind {
    NewFile(PathBuf),
    NewFolder(PathBuf),
    Rename(PathBuf),
    /// Re-root the whole sidebar at a typed path.
    ChangeFolder,
}

/// A button of the title bar that shows while the mouse is over the pane.
#[derive(Clone, Copy, PartialEq, Eq, Debug, Structural)]
pub enum TitleAction {
    NewFile,
    NewFolder,
    Refresh,
    CollapseAll,
}

/// The Settings modal.
#[derive(Clone, Copy, PartialEq, Eq, Debug, Structural)]
pub struct SettingsModal {
    pub selected: usize,
    pub rect: Rect,
    pub scroll: usize,
}

/// The context menu.
#[derive(Debug)]
pub struct Menu {
    /// The click position that the popup anchors to.
    pub x: u16,
    pub y: u16,
    /// The target's path and whether it is a directory; `None` targets the workspace root.
    pub target: Option<(PathBuf, bool)>,
    pub entries: Vec<MenuEntry>,
    pub selected: usize,
    /// Where the popup was drawn last, for click hit-testing.
    pub rect: Rect,
}

/// A prompt for a line of text.
#[derive(Debug)]
pub struct Prompt {
    pub title: &'static str,
    pub input: String,
    pub kind: PromptKind,
}

/// The Quick Open finder.
#[derive(Debug)]
pub struct QuickOpen {
    pub query: String,
    pub files: Arc<Vec<QuickFile>>,
    pub matches: Vec<usize>,
    pub selected: usize,
    pub truncated: bool,
    pub loading: bool,
}

/// A modal layered over the tree. While one is open it owns keyboard and mouse input.
#[derive(Debug)]
pub enum Overlay {
    Menu(Menu),
    Prompt(Prompt),
    ConfirmDelete { path: PathBuf, is_dir: bool },
    Settings(SettingsModal),
    QuickOpen(QuickOpen),
}

/// What the context menu holds.
pub struct MenuView {
    pub x: u16,
    pub y: u16,
    pub target: Option<(PathBuf, bool)>,
    pub lines: Seq<Option<MenuItem>>,
    pub selected: usize,
    pub rect: Rect,
}

/// What a prompt holds.
pub struct PromptView {
    pub title: Seq<char>,
    pub input: Seq<char>,
    pub kind: PromptKind,
}

/// What the Quick Open finder holds.
pub struct FinderView {
    pub query: Seq<char>,
    pub files: Seq<QuickFile>,
    pub matches: Seq<usize>,
    pub selected: usize,
    pub truncated: bool,
    pub loading: bool,
}

/// What a modal holds.
pub enum OverlayView {
    Menu(MenuView),
    Prompt(PromptView),
    ConfirmDelete { path: PathBuf, is_dir: bool },
    Settings(SettingsModal),
    QuickOpen(FinderView),
}

impl Menu {
    pub open spec fn view(&self) -> MenuView {
        MenuView {
            x: self.x,
            y: self.y,
            target: self.target,
            lines: menu_lines(self.entries@),
            selected: self.selected,
            rect: self.rect,
        }
    }
}

impl Prompt {
    pub open spec fn view(&self) -> PromptView {
        PromptView { title: self.title@, input: self.input@, kind: self.kind }
    }
}

impl QuickOpen {
    pub open spec fn view(&self) -> FinderView {
        FinderView {
            query: self.query@,
            files: self.files@,
            matches: self.matches@,
            selected: self.selected,
            truncated: self.truncated,
            loading: self.loading,
        }
    }
}

impl Overlay {
    pub open spec fn view(&self) -> OverlayView {
        match self {
            Overlay::Menu(menu) => OverlayView::Menu(menu@),
            Overlay::Prompt(prompt) => OverlayView::Prompt(prompt@),
            Overlay::ConfirmDelete { path, is_dir } => OverlayView::ConfirmDelete {
                path: *path,
                is_dir: *is_dir,
            },
            Overlay::Settings(modal) => OverlayView::Settings(*modal),
            Overlay::QuickOpen(finder) => OverlayView::QuickOpen(finder@),
        }
    }
}

/// Something to do that reaches outside the view.
#[derive(Debug)]
pub enum Effect {
    /// Change the settings file, and take over what it says then.
    UpdateState(Change),
    /// Draw with the palette of the settings.
    ApplyColorTheme,
    /// Push the pane's label and identity tokens to the host.
    ApplyIdentity,
    /// Stamp the pane's identity tokens again.
    ReportTokens,
    /// Clear the pane's identity tokens.
    ClearIdentity,
    /// Close the view's own pane.
    CloseOwnPane,
    /// Close the other view's own pane in this tab.
    CloseOtherPane,
    /// Resize the pane from one width to another.
    ResizeTo { current: u16, target: u16 },
    /// Resize the pane from its width to the preferred width.
    ResizePreferred { current: u16 },
    /// Open the other view in a pane of its own beside this one.
    SpawnOtherPane,
    /// Snooze this tab and close the pane.
    Hide,
    /// Close the preview of this tab.
    ClosePreview,
    /// Open a file in Neovim.
    OpenNeovim(PathBuf),
    /// Open a file in the viewer.
    OpenViewer(PathBuf),
    /// Pin the preview of a file if it is the one opened last, else open it.
    PinOrOpen(PathBuf),
    /// Read the tree from disk again.
    RefreshTree,
    CollapseAll,
    ExpandDir(PathBuf),
    CollapseDir(PathBuf),
    ToggleDir(PathBuf),
    /// Show or leave out hidden files.
    ShowHidden(bool),
    /// Record the tree's shape, with this selection, for the next sidebar that starts.
    PersistTree(Option<PathBuf>),
    /// Hand the view the rows of the tree.
    Rebuild,
    /// Select the row at a path.
    SelectPath(PathBuf),
    /// Look for repositories below the root.
    RediscoverRepos,
    /// Read the git status in the background.
    RequestDecorations { force: bool },
    /// Drop the git status.
    ClearDecorations,
    /// Index the files below the root in the background.
    StartQuickIndex,
    /// Open the folder picker in the background.
    PickFolder,
    /// Re-root the sidebar at a path that the user chose.
    ChangeFolder(String),
    /// Follow the folder of a neighbouring pane, if one moved.
    FollowSibling,
    /// Forget which folders neighbouring panes were in.
    ResetFollower,
    /// Show the context menu for a target.
    ShowMenu { x: u16, y: u16, target: Option<(PathBuf, bool)> },
    /// Create or rename what the input names.
    SubmitName { kind: PromptKind, input: String },
    Delete { path: PathBuf, is_dir: bool },
    /// Put a text on the clipboard.
    Copy(String),
    OpenExternal { path: PathBuf, name: String },
    /// Stage what changed under a path.
    Stage(PathBuf),
    /// Show a path in the file manager.
    Reveal(PathBuf),
}

/// What an effect asks for.
pub enum Deed {
    ChangeFolder(Seq<char>),
    SubmitName { kind: PromptKind, input: Seq<char> },
    Copy(Seq<char>),
    OpenExternal { path: PathBuf, name: Seq<char> },
    /// An effect that holds no text.
    Plain(Effect),
}

impl Effect {
    /// What the effect asks for.
    pub open spec fn view(&self) -> Deed {
        match self {
            Effect::ChangeFolder(raw) => Deed::ChangeFolder(raw@),
            Effect::SubmitName { kind, input } => Deed::SubmitName { kind: *kind, input: input@ },
            Effect::Copy(text) => Deed::Copy(text@),
            Effect::OpenExternal { path, name } => Deed::OpenExternal { path: *path, name: name@ },
            _ => Deed::Plain(*self),
        }
    }
}

/// What a list of effects asks for.
#[verifier::opaque]
pub open spec fn deeds(effects: Seq<Effect>) -> Seq<Deed> {
    effects.map_values(|effect: Effect| effect@)
}

/// The Explorer view.
#[derive(Debug)]
pub struct App {
    /// The folder that the tree shows, and its name.
    pub root: PathBuf,
    pub root_name: String,
    pub show_hidden: bool,
    pub rows: Vec<Row>,
    /// The user's explicit selection: `None` until they pick something.
    pub selected: Option<usize>,
    /// Scroll offset in rows, independent of the selection: the wheel moves this alone.
    pub scroll: usize,
    /// Bring the selection into view on the next draw.
    pub snap: bool,
    pub theme: IconTheme,
    /// The view runs in a pane of the host.
    pub has_pane: bool,
    /// The pane's size from the last draw.
    pub last_width: u16,
    pub last_height: u16,
    /// The width of the whole tab from the last layout: a divider drag changes only this pane,
    /// surrounding chrome changes this too.
    pub last_layout_width: Option<i64>,
    /// How far a page key moves.
    pub page: usize,
    /// The row under the mouse.
    pub hovered: Option<usize>,
    pub body: BodyGeom,
    pub overlay: Option<Overlay>,
    /// A status or error line in the footer until the next action.
    pub notice: Option<String>,
    pub sidebar_state: State,
    /// The other view can be run.
    pub has_other: bool,
    /// The platform has a folder picker of its own.
    pub native_picker: bool,
    pub activity: ActivityZones,
    /// Where the settings button was drawn last.
    pub gear: Rect,
    /// Where the title-bar buttons were drawn last.
    pub title_zones: Vec<(Rect, TitleAction)>,
    /// When the mouse last did something over this pane, in milliseconds.
    pub last_mouse: Option<u64>,
    pub mouse_pos: Option<(u16, u16)>,
    /// The row of the last left click, and when.
    pub last_click: Option<(usize, u64)>,
    /// The document key of the preview that was opened last.
    pub last_preview: Option<String>,
    pub last_beat: u64,
    /// A folder picker is open.
    pub picking: bool,
    /// A background read of the git status is under way.
    pub deco_pending: bool,
    pub last_deco: u64,
    pub quick_index: Option<QuickIndex>,
    /// A background index of files is under way.
    pub quick_pending: bool,
    /// What is to be done outside, in order.
    pub effects: Vec<Effect>,
}

/// What the Explorer view holds.
pub struct AppView {
    pub root: PathBuf,
    pub root_name: Seq<char>,
    pub show_hidden: bool,
    pub rows: Seq<Row>,
    pub selected: Option<usize>,
    pub scroll: usize,
    pub snap: bool,
    pub theme: IconTheme,
    pub has_pane: bool,
    pub last_width: u16,
    pub last_height: u16,
    pub last_layout_width: Option<i64>,
    pub page: usize,
    pub hovered: Option<usize>,
    pub body: BodyGeom,
    pub overlay: Option<OverlayView>,
    pub notice: Option<Seq<char>>,
    pub state: State,
    pub has_other: bool,
    pub native_picker: bool,
    pub activity: ActivityZones,
    pub gear: Rect,
    pub title_zones: Seq<(Rect, TitleAction)>,
    pub last_mouse: Option<u64>,
    pub mouse_pos: Option<(u16, u16)>,
    pub last_click: Option<(usize, u64)>,
    pub last_preview: Option<Seq<char>>,
    pub last_beat: u64,
    pub picking: bool,
    pub deco_pending: bool,
    pub last_deco: u64,
    pub index: Option<IndexView>,
    pub quick_pending: bool,
    pub asked: Seq<Deed>,
}

/// The view of a text that may be missing.
pub open spec fn said(text: Option<String>) -> Option<Seq<char>> {
    match text {
        Some(t) => Some(t@),
        None => None,
    }
}

/// The view of a modal that may be open.
pub open spec fn shown(overlay: Option<Overlay>) -> Option<OverlayView> {
    match overlay {
        Some(overlay) => Some(overlay@),
        None => None,
    }
}

impl App {
    /// What the view holds.
    #[verifier::opaque]
    pub open spec fn view(&self) -> AppView {
        AppView {
            root: self.root,
            root_name: self.root_name@,
            show_hidden: self.show_hidden,
            rows: self.rows@,
            selected: self.selected,
            scroll: self.scroll,
            snap: self.snap,
            theme: self.theme,
            has_pane: self.has_pane,
            last_width: self.last_width,
            last_height: self.last_height,
            last_layout_width: self.last_layout_width,
            page: self.page,
            hovered: self.hovered,
            body: self.body,
            overlay: shown(self.overlay),
            notice: said(self.notice),
            state: self.sidebar_state,
            has_other: self.has_other,
            native_picker: self.native_picker,
            activity: self.activity,
            gear: self.gear,
            title_zones: self.title_zones@,
            last_mouse: self.last_mouse,
            mouse_pos: self.mouse_pos,
            last_click: self.last_click,
            last_preview: said(self.last_preview),
            last_beat: self.last_beat,
            picking: self.picking,
            deco_pending: self.deco_pending,
            last_deco: self.last_deco,
            index: match self.quick_index {
                Some(index) => Some(index@),
                None => None,
            },
            quick_pending: self.quick_pending,
            asked: deeds(self.effects@),
        }
    }
}

/// What contracts say of the view they say of the fields: it holds what they hold.
pub proof fn law_the_view_shows_the_fields(app: &App)
    ensures
        app@.root == app.root,
        app@.root_name == app.root_name@,
        app@.show_hidden == app.show_hidden,
        app@.rows == app.rows@,
        app@.selected == app.selected,
        app@.scroll == app.scroll,
        app@.snap == app.snap,
        app@.theme == app.theme,
        app@.has_pane == app.has_pane,
        app@.last_width == app.last_width,
        app@.last_height == app.last_height,
        app@.last_layout_width == app.last_layout_width,
        app@.page == app.page,
        app@.hovered == app.hovered,
        app@.body == app.body,
        app@.overlay == shown(app.overlay),
        app@.notice == said(app.notice),
        app@.state == app.sidebar_state,
        app@.has_other == app.has_other,
        app@.native_picker == app.native_picker,
        app@.activity == app.activity,
        app@.gear == app.gear,
        app@.title_zones == app.title_zones@,
        app@.last_mouse == app.last_mouse,
        app@.mouse_pos == app.mouse_pos,
        app@.last_click == app.last_click,
        app@.last_preview == said(app.last_preview),
        app@.last_beat == app.last_beat,
        app@.picking == app.picking,
        app@.deco_pending == app.deco_pending,
        app@.last_deco == app.last_deco,
        app@.index is Some <==> app.quick_index is Some,
        app.quick_index matches Some(index) ==> app@.index == Some(index@),
        app@.quick_pending == app.quick_pending,
        app@.asked == deeds(app.effects@),
{
    reveal(App::view);
}

/// The first of `rows` from `from` on that is at `path`.
pub open spec fn row_at_path(rows: Seq<Row>, path: PathBuf, from: int) -> Option<usize>
    decreases rows.len() - from,
{
    if from < 0 || from >= rows.len() {
        None
    } else if same_components(path_of(rows[from].path), path_of(path)) {
        Some(from as usize)
    } else {
        row_at_path(rows, path, from + 1)
    }
}

/// The last of `rows` before `end` that has that depth.
pub open spec fn last_of_depth(rows: Seq<Row>, end: int, depth: int) -> Option<usize>
    decreases end,
{
    if end <= 0 || end > rows.len() {
        None
    } else if rows[end - 1].depth == depth {
        Some((end - 1) as usize)
    } else {
        last_of_depth(rows, end - 1, depth)
    }
}

impl AppView {
    /// This view with a modal.
    pub open spec fn showing(self, overlay: OverlayView) -> AppView {
        AppView { overlay: Some(overlay), ..self }
    }

    /// This view without a modal.
    pub open spec fn bare(self) -> AppView {
        AppView { overlay: None, ..self }
    }

    /// This view with a line in the footer.
    pub open spec fn noting(self, notice: Seq<char>) -> AppView {
        AppView { notice: Some(notice), ..self }
    }

    /// This view without a line in the footer.
    pub open spec fn quiet(self) -> AppView {
        AppView { notice: None, ..self }
    }

    /// This view with one more thing asked for.
    pub open spec fn asks(self, deed: Deed) -> AppView {
        AppView { asked: self.asked.push(deed), ..self }
    }

    /// This view with one more effect asked for that holds no text.
    pub open spec fn also(self, effect: Effect) -> AppView {
        self.asks(Deed::Plain(effect))
    }

    /// The unified sidebar is on and usable.
    pub open spec fn merged(self) -> bool {
        self.state.merged && self.has_other
    }

    /// The row that is selected.
    pub open spec fn selected_row(self) -> Option<Row> {
        match self.selected {
            Some(index) => if index < self.rows.len() {
                Some(self.rows[index as int])
            } else {
                None
            },
            None => None,
        }
    }

    /// The path of the row that is selected.
    pub open spec fn selected_path(self) -> Option<PathBuf> {
        match self.selected_row() {
            Some(row) => Some(row.path),
            None => None,
        }
    }

    /// The selection, if there is one, is a row of the list.
    pub open spec fn selection_in_range(self) -> bool {
        self.selected matches Some(index) ==> index < self.rows.len()
    }

    /// Selects a row, the last one for an index past the end; in an empty list nothing.
    pub open spec fn select(self, index: int) -> AppView {
        if self.rows.len() == 0 {
            self
        } else {
            let app = AppView {
                selected: Some(least(index, self.rows.len() - 1) as usize),
                snap: true,
                ..self
            };
            app.also(Effect::PersistTree(app.selected_path()))
        }
    }

    /// Moves the selection; the first step of a list without one picks the first row.
    pub open spec fn move_by(self, delta: int) -> AppView {
        match self.selected {
            Some(current) => if self.rows.len() == 0 {
                self
            } else {
                self.select(least(most(current + delta, 0), self.rows.len() - 1))
            },
            None => self.select(0),
        }
    }

    /// Moves what is shown; the selection stays where it is.
    pub open spec fn scroll_view(self, delta: int) -> AppView {
        AppView {
            scroll: least(
                most(self.scroll + delta, 0),
                left_of(self.rows.len() - 1) as int,
            ) as usize,
            ..self
        }
    }

    /// Expands a collapsed directory; steps into an expanded one that has a row below it.
    pub open spec fn expand_or_enter(self) -> AppView {
        match self.selected_row() {
            Some(row) => {
                let next = self.selected->0 + 1;
                if !row.is_dir {
                    self
                } else if !row.expanded {
                    self.also(Effect::ExpandDir(row.path)).also(Effect::Rebuild)
                } else if next < self.rows.len() && self.rows[next].depth == row.depth + 1 {
                    self.select(next)
                } else {
                    self
                }
            },
            None => self,
        }
    }

    /// Collapses an expanded directory, else goes to the nearest row above of one level less.
    pub open spec fn collapse_or_parent(self) -> AppView {
        match self.selected_row() {
            Some(row) => if row.is_dir && row.expanded {
                self.also(Effect::CollapseDir(row.path)).also(Effect::Rebuild)
            } else {
                match last_of_depth(self.rows, self.selected->0 as int, row.depth - 1) {
                    Some(parent) => self.select(parent as int),
                    None => self,
                }
            },
            None => self,
        }
    }

    /// Opens a file beside the sidebar, in the editor that the settings name.
    pub open spec fn open_preview(self, path: PathBuf) -> AppView {
        if self.state.preview_editor == PreviewEditor::Neovim {
            AppView { last_preview: None, ..self }.also(Effect::OpenNeovim(path))
        } else if !self.has_pane {
            AppView { notice: Some("preview needs a herdr pane"@), ..self }
        } else {
            self.also(Effect::OpenViewer(path))
        }
    }

    /// Toggles a directory, opens a file.
    pub open spec fn toggle(self) -> AppView {
        match self.selected_row() {
            Some(row) => if row.is_dir {
                self.also(Effect::ToggleDir(row.path)).also(Effect::Rebuild)
            } else {
                self.open_preview(row.path)
            },
            None => self,
        }
    }

    /// Takes over the rows of the tree. The selection stays on its path, else on the nearest
    /// row; a list without a selection stays without one.
    pub open spec fn rebuild(self, rows: Seq<Row>) -> AppView {
        AppView {
            hovered: None,
            rows,
            selected: self.kept_selection(rows),
            scroll: least(self.scroll as int, left_of(rows.len() - 1) as int) as usize,
            ..self
        }.also(Effect::PersistTree(self.selected_path()))
    }

    /// The selection in new rows: on its path, else on the nearest row.
    pub open spec fn kept_selection(self, rows: Seq<Row>) -> Option<usize> {
        match self.selected {
            Some(index) => {
                let nearest = least(index as int, rows.len() - 1) as usize;
                if rows.len() == 0 {
                    None
                } else {
                    match self.selected_path() {
                        Some(path) => match row_at_path(rows, path, 0) {
                            Some(found) => Some(found),
                            None => Some(nearest),
                        },
                        None => Some(nearest),
                    }
                }
            },
            None => None,
        }
    }

    /// Forgets the index of files.
    pub open spec fn without_index(self) -> AppView {
        AppView { index: None, quick_pending: false, ..self }
    }

    /// Reads the tree, the repositories and their status again.
    pub open spec fn refresh_tree(self) -> AppView {
        self.without_index().also(Effect::RefreshTree).also(Effect::RediscoverRepos).also(
            Effect::RequestDecorations { force: true },
        ).also(Effect::Rebuild)
    }

    /// Shows or leaves out hidden files.
    pub open spec fn toggle_hidden(self) -> AppView {
        AppView { show_hidden: !self.show_hidden, ..self }.without_index().also(
            Effect::ShowHidden(!self.show_hidden),
        ).also(Effect::Rebuild)
    }

    /// Switches icon themes and remembers it.
    pub open spec fn set_theme(self, theme: IconTheme) -> AppView {
        AppView { theme, ..self }.also(Effect::UpdateState(Change::SetIcons(theme)))
    }

    /// Steps the preferred width, and resizes the pane to it.
    pub open spec fn adjust_sidebar_width(self, wider: bool) -> AppView {
        let stepped = self.also(Effect::UpdateState(Change::StepWidth { wider }));
        if self.has_pane {
            stepped.also(Effect::ResizePreferred { current: self.last_width })
        } else {
            stepped
        }
    }

    /// Turns the unified sidebar on or off.
    pub open spec fn set_unified(self, on: bool) -> AppView {
        if on == self.merged() || !self.has_other {
            self
        } else {
            let stepped = self.also(
                Effect::UpdateState(Change::Unify { on, active: MY_VIEW }),
            ).also(Effect::ApplyIdentity);
            if on {
                stepped.also(Effect::CloseOtherPane).also(
                    Effect::ResizeTo {
                        current: doubled(self.last_width),
                        target: self.last_width,
                    },
                )
            } else {
                stepped.also(Effect::SpawnOtherPane)
            }
        }
    }

    /// Hands the pane to the other view, where the unified sidebar is on.
    pub open spec fn switch_to(self, view: View) -> Outcome {
        if !self.merged() || view == MY_VIEW {
            Outcome { app: self, exit: None }
        } else {
            Outcome {
                app: self.also(Effect::UpdateState(Change::Show(view))),
                exit: Some(Exit::Switch),
            }
        }
    }

    /// Hides the sidebar.
    pub open spec fn hide_sidebar(self) -> AppView {
        if self.has_pane {
            self.also(Effect::Hide)
        } else {
            self
        }
    }

    /// Closes the preview.
    pub open spec fn close_preview(self) -> AppView {
        if self.has_pane {
            self.also(Effect::ClosePreview)
        } else {
            self
        }
    }

    /// Opens the Settings modal.
    pub open spec fn open_settings(self) -> AppView {
        AppView {
            overlay: Some(
                OverlayView::Settings(
                    SettingsModal { selected: 0, rect: Rect::nowhere(), scroll: 0 },
                ),
            ),
            ..self
        }
    }

    /// The index of files is that of the tree as it is shown.
    pub open spec fn index_is_current(self) -> bool {
        self.index matches Some(index) && same_components(path_of(index.root), path_of(self.root))
            && index.show_hidden == self.show_hidden
    }

    /// Opens Quick Open, with the files that are indexed; else it waits for an index.
    pub open spec fn open_quick_open(self) -> AppView {
        let files = if self.index_is_current() {
            self.index->0.files
        } else {
            Seq::empty()
        };
        let finder = FinderView {
            query: Seq::empty(),
            files,
            matches: matches_for(files, Seq::empty()),
            selected: 0,
            truncated: self.index_is_current() && self.index->0.truncated,
            loading: !self.index_is_current(),
        };
        let app = AppView { overlay: Some(OverlayView::QuickOpen(finder)), ..self };
        if self.index_is_current() || self.quick_pending {
            app
        } else {
            AppView { quick_pending: true, ..app }.also(Effect::StartQuickIndex)
        }
    }
}

/// What a key or a mouse event does: the view after it, and whether the view's loop ends.
pub struct Outcome {
    pub app: AppView,
    pub exit: Option<Exit>,
}

/// The width of two panels and the divider between them.
pub open spec fn doubled(width: u16) -> u16 {
    least(least(2 * width, u16::MAX as int) + 1, u16::MAX as int) as u16
}

/// The width of two panels and the divider between them.
fn double_width(width: u16) -> (r: u16)
    ensures
        r == doubled(width),
{
    if width >= 32768 {
        u16::MAX
    } else {
        2 * width + 1
    }
}

/// The first of `rows` that is at `path`.
pub(crate) fn find_row(rows: &Vec<Row>, path: &PathBuf) -> (r: Option<usize>)
    ensures
        r == row_at_path(rows@, *path, 0),
{
    for i in 0..rows.len()
        invariant
            row_at_path(rows@, *path, 0) == row_at_path(rows@, *path, i as int),
    {
        if same_path(as_path(&rows[i].path), as_path(path)) {
            return Some(i);
        }
    }
    None
}

/// What a path found is, and where it is first.
pub proof fn lemma_row_at_path(rows: Seq<Row>, path: PathBuf, from: int)
    requires
        0 <= from,
        rows.len() <= usize::MAX,
    ensures
        row_at_path(rows, path, from) matches Some(found) ==> from <= found < rows.len()
            && same_components(path_of(rows[found as int].path), path_of(path)),
    decreases rows.len() - from,
{
    if from < rows.len() && !same_components(path_of(rows[from].path), path_of(path)) {
        lemma_row_at_path(rows, path, from + 1);
    }
}

impl App {
    /// Asks for one more thing.
    pub(crate) fn emit(&mut self, effect: Effect)
        ensures
            final(self)@ == old(self)@.asks(effect@),
    {
        proof {
            reveal(App::view);
        }
        let ghost before = self.effects@;
        self.effects.push(effect);
        reveal(deeds);
        assert(deeds(self.effects@) =~= deeds(before).push(effect@));
    }

    /// Opens a modal.
    pub(crate) fn set_overlay(&mut self, overlay: Overlay)
        ensures
            final(self)@ == old(self)@.showing(overlay@),
    {
        proof {
            reveal(App::view);
        }
        self.overlay = Some(overlay);
    }

    /// Closes the modal.
    pub(crate) fn close_overlay(&mut self)
        ensures
            final(self)@ == old(self)@.bare(),
    {
        proof {
            reveal(App::view);
        }
        self.overlay = None;
    }

    /// Takes the modal out.
    pub(crate) fn take_overlay(&mut self) -> (r: Option<Overlay>)
        ensures
            shown(r) == old(self)@.overlay,
            final(self)@ == old(self)@.bare(),
    {
        proof {
            reveal(App::view);
        }
        self.overlay.take()
    }

    /// Whether a modal is open.
    pub fn has_overlay(&self) -> (r: bool)
        ensures
            r == self@.overlay is Some,
    {
        proof {
            reveal(App::view);
        }
        self.overlay.is_some()
    }

    /// Puts a line into the footer.
    pub(crate) fn set_notice(&mut self, notice: String)
        ensures
            final(self)@ == old(self)@.noting(notice@),
    {
        proof {
            reveal(App::view);
        }
        self.notice = Some(notice);
    }

    /// Clears the footer's line.
    pub(crate) fn clear_notice(&mut self)
        ensures
            final(self)@ == old(self)@.quiet(),
    {
        proof {
            reveal(App::view);
        }
        self.notice = None;
    }

    /// Whether a row is a directory, and its path.
    pub(crate) fn row_kind(&self, index: usize) -> (r: (bool, PathBuf))
        requires
            index < self@.rows.len(),
        ensures
            r.0 == self@.rows[index as int].is_dir,
            r.1 == self@.rows[index as int].path,
    {
        proof {
            reveal(App::view);
        }
        (self.rows[index].is_dir, self.rows[index].path.clone())
    }

    /// The icon theme.
    pub fn icon_theme(&self) -> (r: IconTheme)
        ensures
            r == self@.theme,
    {
        proof {
            reveal(App::view);
        }
        self.theme
    }

    /// The other view can be run.
    pub fn other_available(&self) -> (r: bool)
        ensures
            r == self@.has_other,
    {
        proof {
            reveal(App::view);
        }
        self.has_other
    }

    /// What is to be done outside, in order; it is handed out once.
    pub fn take_effects(&mut self) -> (r: Vec<Effect>)
        ensures
            deeds(r@) == old(self)@.asked,
            final(self)@ == (AppView { asked: Seq::empty(), ..old(self)@ }),
    {
        proof {
            reveal(App::view);
        }
        let mut out: Vec<Effect> = Vec::new();
        std::mem::swap(&mut out, &mut self.effects);
        reveal(deeds);
        assert(deeds(self.effects@) =~= Seq::<Deed>::empty());
        out
    }

    /// The merged sidebar is on and usable.
    pub fn merged(&self) -> (r: bool)
        ensures
            r == self@.merged(),
    {
        proof {
            reveal(App::view);
        }
        self.sidebar_state.merged && self.has_other
    }

    /// The label this pane should carry.
    pub fn pane_label(&self) -> (r: &'static str)
        ensures
            r@ == if self@.merged() {
                SIDEBAR_LABEL@
            } else {
                "Explorer"@
            },
    {
        if self.merged() {
            SIDEBAR_LABEL
        } else {
            "Explorer"
        }
    }

    /// The folder that the tree shows.
    pub fn root_path(&self) -> (r: PathBuf)
        ensures
            r == self@.root,
    {
        proof {
            reveal(App::view);
        }
        self.root.clone()
    }

    /// The row that is selected.
    pub fn selected_row(&self) -> (r: Option<&Row>)
        ensures
            match r {
                Some(row) => self@.selected_row() == Some(*row),
                None => self@.selected_row() is None,
            },
    {
        proof {
            reveal(App::view);
        }
        match self.selected {
            Some(index) => if index < self.rows.len() {
                Some(&self.rows[index])
            } else {
                None
            },
            None => None,
        }
    }

    /// The path of the row that is selected.
    fn selected_path(&self) -> (r: Option<PathBuf>)
        ensures
            r == self@.selected_path(),
    {
        proof {
            reveal(App::view);
        }
        match self.selected_row() {
            Some(row) => Some(row.path.clone()),
            None => None,
        }
    }

    /// Selects a row, the last one for an index past the end.
    pub fn select(&mut self, index: usize)
        ensures
            final(self)@ == old(self)@.select(index as int),
    {
        proof {
            reveal(App::view);
        }
        if self.rows.len() > 0 {
            let last: usize = self.rows.len() - 1;
            let at: usize = if index < last {
                index
            } else {
                last
            };
            self.selected = Some(at);
            self.snap = true;
            let path = self.selected_path();
            self.emit(Effect::PersistTree(path));
        }
    }

    /// Moves the selection by `delta` rows.
    pub fn move_by(&mut self, delta: i128)
        requires
            -usize::MAX <= delta <= usize::MAX,
        ensures
            final(self)@ == old(self)@.move_by(delta as int),
    {
        proof {
            reveal(App::view);
        }
        match self.selected {
            Some(current) => {
                if self.rows.len() > 0 {
                    let last: i128 = (self.rows.len() - 1) as i128;
                    let moved: i128 = current as i128 + delta;
                    let next: i128 = if moved < 0 {
                        0
                    } else if moved > last {
                        last
                    } else {
                        moved
                    };
                    self.select(next as usize);
                }
            },
            None => {
                self.select(0);
            },
        }
    }

    /// Moves what is shown by `delta` rows.
    pub fn scroll_view(&mut self, delta: i128)
        requires
            -usize::MAX <= delta <= usize::MAX,
        ensures
            final(self)@ == old(self)@.scroll_view(delta as int),
    {
        proof {
            reveal(App::view);
        }
        let last: i128 = if self.rows.len() > 0 {
            (self.rows.len() - 1) as i128
        } else {
            0
        };
        let moved: i128 = self.scroll as i128 + delta;
        let next: i128 = if moved < 0 {
            0
        } else if moved > last {
            last
        } else {
            moved
        };
        self.scroll = next as usize;
    }

    /// Right: expands a collapsed directory, steps into an expanded one.
    pub fn expand_or_enter(&mut self)
        ensures
            final(self)@ == old(self)@.expand_or_enter(),
    {
        proof {
            reveal(App::view);
        }
        let index: usize = match self.selected {
            Some(index) => index,
            None => {
                return;
            },
        };
        if index >= self.rows.len() {
            return;
        }
        let row = &self.rows[index];
        if !row.is_dir {
            return;
        }
        if row.expanded {
            if index + 1 < self.rows.len() {
                let next: usize = self.rows[index + 1].depth;
                if next > 0 && next - 1 == row.depth {
                    self.select(index + 1);
                }
            }
        } else {
            let path = row.path.clone();
            self.emit(Effect::ExpandDir(path));
            self.emit(Effect::Rebuild);
        }
    }

    /// Left: collapses an expanded directory, otherwise goes to the parent row.
    pub fn collapse_or_parent(&mut self)
        ensures
            final(self)@ == old(self)@.collapse_or_parent(),
    {
        proof {
            reveal(App::view);
        }
        let index: usize = match self.selected {
            Some(index) => index,
            None => {
                return;
            },
        };
        if index >= self.rows.len() {
            return;
        }
        let row = &self.rows[index];
        if row.is_dir && row.expanded {
            let path = row.path.clone();
            self.emit(Effect::CollapseDir(path));
            self.emit(Effect::Rebuild);
            return;
        }
        let depth: usize = row.depth;
        if depth == 0 {
            proof {
                lemma_no_negative_depth(self.rows@, index as int);
            }
            return;
        }
        let mut end: usize = index;
        while end > 0
            invariant
                end <= index < self.rows@.len(),
                depth > 0,
                last_of_depth(self.rows@, index as int, depth - 1) == last_of_depth(
                    self.rows@,
                    end as int,
                    depth - 1,
                ),
                self@ == old(self)@,
                old(self)@.selected == Some(index),
                old(self)@.rows == self.rows@,
                depth == self.rows@[index as int].depth,
                !(self.rows@[index as int].is_dir && self.rows@[index as int].expanded),
            decreases end,
        {
            if self.rows[end - 1].depth == depth - 1 {
                self.select(end - 1);
                return;
            }
            end = end - 1;
        }
    }

    /// Opens a file beside the sidebar: a click lands in Neovim where the settings say so, else
    /// in the viewer.
    pub fn open_preview(&mut self, path: PathBuf)
        ensures
            final(self)@ == old(self)@.open_preview(path),
    {
        proof {
            reveal(App::view);
        }
        if self.sidebar_state.preview_editor == PreviewEditor::Neovim {
            // The viewer's last tab belongs to the other editor: left in place, a second click
            // would pin that stale tab and never reach Neovim.
            self.last_preview = None;
            self.emit(Effect::OpenNeovim(path));
            return;
        }
        if !self.has_pane {
            self.notice = Some("preview needs a herdr pane".to_owned());
            return;
        }
        self.emit(Effect::OpenViewer(path));
    }

    /// Toggles a directory, opens a file.
    pub fn toggle(&mut self)
        ensures
            final(self)@ == old(self)@.toggle(),
    {
        proof {
            reveal(App::view);
        }
        let (is_dir, path) = match self.selected_row() {
            Some(row) => (row.is_dir, row.path.clone()),
            None => {
                return;
            },
        };
        if is_dir {
            self.emit(Effect::ToggleDir(path));
            self.emit(Effect::Rebuild);
        } else {
            self.open_preview(path);
        }
    }

    /// Takes over the rows of the tree, keeping the selection on the same path when it still
    /// exists, else on the nearest row.
    pub fn rebuild(&mut self, rows: Vec<Row>)
        ensures
            final(self)@ == old(self)@.rebuild(rows@),
    {
        proof {
            reveal(App::view);
        }
        let selected = self.kept_selection(&rows);
        let path = self.selected_path();
        self.emit(Effect::PersistTree(path));
        self.hovered = None;
        self.selected = selected;
        self.rows = rows;
        let last: usize = if self.rows.len() > 0 {
            self.rows.len() - 1
        } else {
            0
        };
        if self.scroll > last {
            self.scroll = last;
        }
    }

    /// The selection in new rows: on its path, else on the nearest row.
    fn kept_selection(&self, rows: &Vec<Row>) -> (r: Option<usize>)
        ensures
            r == self@.kept_selection(rows@),
    {
        proof {
            reveal(App::view);
        }
        match self.selected {
            Some(index) => {
                if rows.len() == 0 {
                    return None;
                }
                if let Some(path) = self.selected_path() {
                    if let Some(found) = find_row(rows, &path) {
                        return Some(found);
                    }
                }
                if index < rows.len() - 1 {
                    Some(index)
                } else {
                    Some(rows.len() - 1)
                }
            },
            None => None,
        }
    }

    /// Forgets the index of files.
    pub fn invalidate_quick_index(&mut self)
        ensures
            final(self)@ == old(self)@.without_index(),
    {
        proof {
            reveal(App::view);
        }
        self.quick_index = None;
        self.quick_pending = false;
    }

    /// Reads the tree, the repositories and their status again.
    pub fn refresh_tree(&mut self)
        ensures
            final(self)@ == old(self)@.refresh_tree(),
    {
        proof {
            reveal(App::view);
        }
        self.invalidate_quick_index();
        self.emit(Effect::RefreshTree);
        self.emit(Effect::RediscoverRepos);
        self.emit(Effect::RequestDecorations { force: true });
        self.emit(Effect::Rebuild);
    }

    /// Shows or leaves out hidden files.
    pub fn toggle_hidden(&mut self)
        ensures
            final(self)@ == old(self)@.toggle_hidden(),
    {
        proof {
            reveal(App::view);
        }
        self.show_hidden = !self.show_hidden;
        self.invalidate_quick_index();
        let shown = self.show_hidden;
        self.emit(Effect::ShowHidden(shown));
        self.emit(Effect::Rebuild);
    }

    /// Switches icon themes and remembers it: a theme that was guessed wrong must stay corrected.
    pub fn set_theme(&mut self, theme: IconTheme)
        ensures
            final(self)@ == old(self)@.set_theme(theme),
    {
        proof {
            reveal(App::view);
        }
        self.theme = theme;
        self.emit(Effect::UpdateState(Change::SetIcons(theme)));
    }

    /// Steps the preferred width, and resizes the pane to it.
    pub fn adjust_sidebar_width(&mut self, wider: bool)
        ensures
            final(self)@ == old(self)@.adjust_sidebar_width(wider),
    {
        proof {
            reveal(App::view);
        }
        self.emit(Effect::UpdateState(Change::StepWidth { wider }));
        if self.has_pane {
            let current: u16 = self.last_width;
            self.emit(Effect::ResizePreferred { current });
        }
    }

    /// Turns the unified sidebar on or off. On: this pane becomes the sidebar and the other
    /// view's own pane closes. Off: the other view gets a pane of its own.
    pub fn set_unified(&mut self, on: bool)
        ensures
            final(self)@ == old(self)@.set_unified(on),
    {
        proof {
            reveal(App::view);
        }
        if on == self.merged() || !self.has_other {
            return;
        }
        self.emit(Effect::UpdateState(Change::Unify { on, active: MY_VIEW }));
        self.emit(Effect::ApplyIdentity);
        if on {
            // Absorbing the sibling leaves the survivor at double width: shrink back to one panel.
            self.emit(Effect::CloseOtherPane);
            let target: u16 = self.last_width;
            self.emit(Effect::ResizeTo { current: double_width(target), target });
        } else {
            self.emit(Effect::SpawnOtherPane);
        }
    }

    /// What is done to open the other view in a pane of its own: the pane grows to double width
    /// first, so that each panel keeps the width that the unified sidebar had.
    pub fn detached_width(&self) -> (r: Option<u16>)
        ensures
            r == if self@.has_pane && self@.has_other {
                Some(doubled(self@.last_width))
            } else {
                None
            },
    {
        proof {
            reveal(App::view);
        }
        if self.has_pane && self.has_other {
            Some(double_width(self.last_width))
        } else {
            None
        }
    }

    /// Hands the pane to the other view.
    pub fn switch_to(&mut self, view: View) -> (r: Option<Exit>)
        ensures
            final(self)@ == old(self)@.switch_to(view).app,
            r == old(self)@.switch_to(view).exit,
    {
        proof {
            reveal(App::view);
        }
        if !self.merged() || view == MY_VIEW {
            return None;
        }
        self.emit(Effect::UpdateState(Change::Show(view)));
        Some(Exit::Switch)
    }

    /// Hides the sidebar: the tab is snoozed and the pane closed.
    pub fn hide_sidebar(&mut self)
        ensures
            final(self)@ == old(self)@.hide_sidebar(),
    {
        proof {
            reveal(App::view);
        }
        if self.has_pane {
            self.emit(Effect::Hide);
        }
    }

    /// The view ends for good: its pane is no sidebar any more.
    pub fn clear_identity(&mut self)
        ensures
            final(self)@ == if old(self)@.has_pane {
                old(self)@.also(Effect::ClearIdentity)
            } else {
                old(self)@
            },
    {
        proof {
            reveal(App::view);
        }
        if self.has_pane {
            self.emit(Effect::ClearIdentity);
        }
    }

    /// The view ends for good: the pane is a shell that was told to run it, so it is closed.
    pub fn close_own_pane(&mut self)
        ensures
            final(self)@ == if old(self)@.has_pane {
                old(self)@.also(Effect::CloseOwnPane)
            } else {
                old(self)@
            },
    {
        proof {
            reveal(App::view);
        }
        if self.has_pane {
            self.emit(Effect::CloseOwnPane);
        }
    }

    /// Closes the preview of this tab.
    pub fn close_preview(&mut self)
        ensures
            final(self)@ == old(self)@.close_preview(),
    {
        proof {
            reveal(App::view);
        }
        if self.has_pane {
            self.emit(Effect::ClosePreview);
        }
    }

    /// Opens the Settings modal.
    pub fn open_settings(&mut self)
        ensures
            final(self)@ == old(self)@.open_settings(),
    {
        proof {
            reveal(App::view);
        }
        self.overlay = Some(
            Overlay::Settings(SettingsModal { selected: 0, rect: Rect::zero(), scroll: 0 }),
        );
    }

    /// Opens Quick Open.
    pub fn open_quick_open(&mut self)
        ensures
            final(self)@ == old(self)@.open_quick_open(),
    {
        proof {
            reveal(App::view);
        }
        let cached = match &self.quick_index {
            Some(index) => if same_path(as_path(&index.root), as_path(&self.root))
                && index.show_hidden == self.show_hidden {
                Some((share(&index.files), index.truncated))
            } else {
                None
            },
            None => None,
        };
        let (files, truncated, loading) = match cached {
            Some((files, truncated)) => (files, truncated, false),
            None => {
                if !self.quick_pending {
                    self.quick_pending = true;
                    self.emit(Effect::StartQuickIndex);
                }
                (Arc::new(Vec::new()), false, true)
            },
        };
        let query = String::new();
        let matches = quick_matches(&files, query.as_str());
        proof {
            if loading {
                assert(files@ =~= Seq::<QuickFile>::empty());
            }
        }
        self.overlay = Some(
            Overlay::QuickOpen(
                QuickOpen { query, files, matches, selected: 0, truncated, loading },
            ),
        );
    }
}

/// No row has a negative depth.
proof fn lemma_no_negative_depth(rows: Seq<Row>, end: int)
    ensures
        last_of_depth(rows, end, -1) is None,
    decreases end,
{
    if 0 < end <= rows.len() {
        lemma_no_negative_depth(rows, end - 1);
    }
}

} // verus!
