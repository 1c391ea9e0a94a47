//! How the Explorer view starts, keeps up with what happens outside, and takes what its effects
//! came to.

use crate::events::since;
use crate::explorer::{
    deeds, find_row, row_at_path, said, App, AppView, Deed, Effect, FinderView, Overlay,
    OverlayView, PromptKind, QuickOpen, DECO_REFRESH, HEARTBEAT,
};
use crate::geometry::{ActivityZones, BodyGeom, Rect};
use crate::icons::IconTheme;
use crate::paths::{
    as_path, file_name, file_name_of, is_relative, is_relative_path, join, joined, path_from,
    path_from_text, path_of, path_text, same_components, same_path, show,
};
use crate::quick_open::{matches_for, quick_matches, share, QuickIndex};
use crate::rows::Row;
use crate::state::State;
use crate::text::{chars_of, concat2, concat3, decimal, decimal_text, trim_text, trimmed};

use std::path::PathBuf;
use vstd::prelude::*;
use vstd::string::*;
use vstd::view::View as _;

verus! {

/// What the view starts from.
#[derive(Debug)]
pub struct Start {
    pub root: PathBuf,
    pub root_name: String,
    /// The rows of the tree, with the saved directories expanded.
    pub rows: Vec<Row>,
    /// The path that was selected when the tree's shape was saved.
    pub saved_selection: Option<PathBuf>,
    pub show_hidden: bool,
    pub theme: IconTheme,
    pub has_pane: bool,
    pub layout_width: Option<i64>,
    pub state: State,
    pub has_other: bool,
    pub native_picker: bool,
}

/// The row that a saved selection is restored to.
pub open spec fn restored(rows: Seq<Row>, saved: Option<PathBuf>) -> Option<usize> {
    match saved {
        Some(path) => row_at_path(rows, path, 0),
        None => None,
    }
}

/// How the view starts: it mirrors the tree that the user was looking at, brings the selection
/// into view, and reads the git status.
pub open spec fn started(start: Start, now: u64) -> AppView {
    AppView {
        root: start.root,
        root_name: start.root_name@,
        show_hidden: start.show_hidden,
        rows: start.rows@,
        selected: restored(start.rows@, start.saved_selection),
        scroll: 0,
        snap: restored(start.rows@, start.saved_selection) is Some,
        theme: start.theme,
        has_pane: start.has_pane,
        last_width: start.state.sidebar_width,
        last_height: 24,
        last_layout_width: start.layout_width,
        page: 20,
        hovered: None,
        body: BodyGeom { top: 0, height: 0, offset: 0 },
        overlay: None,
        notice: None,
        state: start.state,
        has_other: start.has_other,
        native_picker: start.native_picker,
        activity: ActivityZones { row: u16::MAX, explorer: (0, 0), source_control: (0, 0) },
        gear: Rect::nowhere(),
        title_zones: Seq::empty(),
        last_mouse: None,
        mouse_pos: None,
        last_click: None,
        last_preview: None,
        last_beat: now,
        picking: false,
        deco_pending: false,
        last_deco: now,
        index: None,
        quick_pending: false,
        asked: Seq::empty(),
    }.also(Effect::ApplyColorTheme).also(Effect::RediscoverRepos).also(Effect::ApplyIdentity).also(
        Effect::RequestDecorations { force: true },
    )
}

/// What a background job came to.
#[derive(Clone, Copy, PartialEq, Eq, Debug, Structural)]
pub enum Poll {
    /// It is still running.
    Empty,
    /// It ended without a result.
    Gone,
    /// Its result is there.
    Ready,
}

/// What the background index of files came to.
#[derive(Debug)]
pub enum IndexPoll {
    Empty,
    Gone,
    Ready(QuickIndex),
}

/// What the folder picker came to.
#[derive(Debug)]
pub enum PickPoll {
    Empty,
    Gone,
    Cancelled,
    Picked(PathBuf),
}

/// What to do about the git status.
#[derive(Clone, Copy, PartialEq, Eq, Debug, Structural)]
pub enum DecoStep {
    /// Decorations are off: drop what there is.
    Clear,
    /// Nothing now.
    Wait,
    /// Read it in the background.
    Start,
}

/// Where to go when a folder is chosen.
#[derive(Debug)]
pub enum FolderRequest {
    /// Nothing was typed.
    Empty,
    /// The text without blanks around it, and the folder that it says.
    Go { raw: String, target: PathBuf },
}

/// A typed path with the home directory in place of a leading tilde.
pub open spec fn home_expanded(raw: Seq<char>, home: Seq<char>) -> Seq<char> {
    if raw.len() > 0 && raw[0] == '~' {
        home + raw.drop_first()
    } else {
        raw
    }
}

/// The folder that a typed path says: from the root where it is relative.
pub open spec fn folder_said(raw: Seq<char>, home: Seq<char>, root: PathBuf) -> PathBuf {
    let typed = path_from(home_expanded(raw, home));
    if is_relative_path(path_of(typed)) {
        joined(path_of(root), path_of(typed))
    } else {
        typed
    }
}

/// A typed path with the home directory in place of a leading tilde.
fn expand_home(raw: &str, home: &str) -> (r: String)
    ensures
        r@ == home_expanded(raw@, home@),
{
    let chars = chars_of(raw);
    if chars.len() > 0 && chars[0] == '~' {
        let mut out = home.to_owned();
        for i in 1..chars.len()
            invariant
                chars@ == raw@,
                chars@.len() > 0,
                out@ == home@ + chars@.subrange(1, i as int),
        {
            out.push(chars[i]);
            assert(out@ =~= home@ + chars@.subrange(1, i as int + 1));
        }
        assert(chars@.subrange(1, chars@.len() as int) =~= raw@.drop_first());
        out
    } else {
        raw.to_owned()
    }
}

/// The folder that a typed path says.
pub fn typed_folder(raw: &str, home: &str, root: &PathBuf) -> (r: PathBuf)
    ensures
        r == folder_said(raw@, home@, *root),
{
    let typed = path_from_text(expand_home(raw, home).as_str());
    if is_relative(as_path(&typed)) {
        join(as_path(root), as_path(&typed))
    } else {
        typed
    }
}

/// How staging ended.
#[derive(Debug)]
pub struct Staged {
    pub count: usize,
    /// How many paths belong to a repository further down.
    pub skipped_nested: usize,
    /// The repository's name.
    pub repo: String,
}

/// What the footer says after staging: a stage that skipped everything says why.
pub open spec fn stage_text(name: Seq<char>, count: usize, skipped: usize, repo: Seq<char>) -> Seq<
    char,
> {
    if count == 0 && skipped > 0 {
        name + ": nothing staged — "@ + decimal_text(skipped as nat)
            + " path(s) belong to a nested repo"@
    } else if count == 0 {
        "nothing to stage in "@ + name
    } else if count == 1 {
        "staged "@ + name + " in "@ + repo
    } else {
        "staged "@ + decimal_text(count as nat) + " paths under "@ + name + " in "@ + repo
    }
}

/// What the footer says after staging.
pub fn stage_notice(name: &str, staged: &Staged) -> (r: String)
    ensures
        r@ == stage_text(name@, staged.count, staged.skipped_nested, staged.repo@),
{
    let repo = staged.repo.as_str();
    if staged.count == 0 && staged.skipped_nested > 0 {
        let head = concat3(
            name,
            ": nothing staged — ",
            decimal(staged.skipped_nested as u64).as_str(),
        );
        concat2(head.as_str(), " path(s) belong to a nested repo")
    } else if staged.count == 0 {
        concat2("nothing to stage in ", name)
    } else if staged.count == 1 {
        let head = concat3("staged ", name, " in ");
        concat2(head.as_str(), repo)
    } else {
        let head = concat3("staged ", decimal(staged.count as u64).as_str(), " paths under ");
        let tail = concat3(head.as_str(), name, " in ");
        concat2(tail.as_str(), repo)
    }
}

/// The name under which a path is reported: its last component, or what it is shown as.
pub open spec fn reported(path: PathBuf) -> Seq<char> {
    match file_name_of(path_of(path)) {
        Some(name) => name,
        None => path_text(path_of(path)),
    }
}

impl AppView {
    /// Takes over the one setting that is shared while the view runs: whether rows carry git
    /// decorations. The repositories are looked for again when it changed, and the decorations
    /// are dropped when it was turned off.
    pub open spec fn synced(self, shared: State) -> AppView {
        let kept = AppView {
            state: State { git_deco: shared.git_deco, ..self.state },
            ..self
        };
        if shared.git_deco == self.state.git_deco {
            kept
        } else if shared.git_deco {
            kept.also(Effect::RediscoverRepos)
        } else {
            kept.also(Effect::RediscoverRepos).also(Effect::ClearDecorations)
        }
    }

    /// The pane got another width. Where the whole tab did too, the pane goes back to its
    /// preferred width; a divider drag is left alone.
    pub open spec fn resized(self, width: u16, layout: Option<i64>) -> AppView {
        let wide = AppView { last_width: width, ..self };
        if !self.has_pane {
            wide
        } else {
            let kept = AppView {
                last_layout_width: if layout is Some {
                    layout
                } else {
                    self.last_layout_width
                },
                ..wide
            };
            if self.last_layout_width is Some && layout is Some && self.last_layout_width
                != layout {
                kept.also(Effect::ResizePreferred { current: width })
            } else {
                kept
            }
        }
    }

    /// Stamps the pane's identity again when it is time, and follows a neighbouring pane where
    /// the settings say so and nothing is in the way.
    pub open spec fn beaten(self, now: u64) -> AppView {
        if since(now, self.last_beat) < HEARTBEAT {
            self
        } else {
            let stamped = AppView { last_beat: now, ..self };
            if !self.has_pane {
                stamped
            } else if self.state.follow_cwd && self.overlay is None && !self.picking {
                stamped.also(Effect::ReportTokens).also(Effect::FollowSibling)
            } else {
                stamped.also(Effect::ReportTokens)
            }
        }
    }

    /// The modal with Quick Open no longer waiting.
    pub open spec fn settled(self) -> Option<OverlayView> {
        match self.overlay {
            Some(OverlayView::QuickOpen(finder)) => Some(
                OverlayView::QuickOpen(FinderView { loading: false, ..finder }),
            ),
            overlay => overlay,
        }
    }

    /// The modal with Quick Open on the files of an index.
    pub open spec fn refilled(self, index: QuickIndex) -> Option<OverlayView> {
        match self.overlay {
            Some(OverlayView::QuickOpen(finder)) => Some(
                OverlayView::QuickOpen(
                    FinderView {
                        query: finder.query,
                        files: index.files@,
                        matches: matches_for(index.files@, finder.query),
                        selected: 0,
                        truncated: index.truncated,
                        loading: false,
                    },
                ),
            ),
            overlay => overlay,
        }
    }

    /// Takes what the background index came to. An index of another root, or of other files, is
    /// dropped.
    pub open spec fn indexed(self, poll: IndexPoll) -> AppView {
        if !self.quick_pending {
            self
        } else {
            match poll {
                IndexPoll::Empty => self,
                IndexPoll::Gone => AppView {
                    quick_pending: false,
                    overlay: self.settled(),
                    ..self
                },
                IndexPoll::Ready(index) => if !same_components(
                    path_of(index.root),
                    path_of(self.root),
                ) || index.show_hidden != self.show_hidden {
                    AppView { quick_pending: false, overlay: self.settled(), ..self }
                } else {
                    AppView {
                        quick_pending: false,
                        overlay: self.refilled(index),
                        index: Some(index@),
                        ..self
                    }
                },
            }
        }
    }

    /// Takes what the folder picker came to.
    pub open spec fn picked(self, poll: PickPoll) -> AppView {
        if !self.picking {
            self
        } else {
            match poll {
                PickPoll::Empty => self,
                PickPoll::Gone => AppView { picking: false, ..self },
                PickPoll::Cancelled => AppView { picking: false, notice: None, ..self },
                PickPoll::Picked(path) => AppView { picking: false, ..self }.asks(
                    Deed::ChangeFolder(path_text(path_of(path))),
                ),
            }
        }
    }

    /// What a read of the git status asks for.
    pub open spec fn deco_step(self, force: bool, focused: bool) -> DecoStep {
        if !self.state.git_deco {
            DecoStep::Clear
        } else if self.deco_pending || (!force && !focused) {
            DecoStep::Wait
        } else {
            DecoStep::Start
        }
    }

    /// What was created or renamed: its folder is expanded, the tree read again, and it is
    /// selected.
    pub open spec fn named(self, kind: PromptKind, created: PathBuf) -> AppView {
        let expanded = match kind {
            PromptKind::NewFile(dir) => self.also(Effect::ExpandDir(dir)),
            PromptKind::NewFolder(dir) => self.also(Effect::ExpandDir(dir)),
            _ => self,
        };
        expanded.refresh_tree().also(Effect::SelectPath(created))
    }
}

impl App {
    /// The view at its start.
    pub fn new(start: Start, now: u64) -> (r: App)
        ensures
            r@ == started(start, now),
    {
        let selected = match &start.saved_selection {
            Some(path) => find_row(&start.rows, path),
            None => None,
        };
        let mut app = App {
            root: start.root,
            root_name: start.root_name,
            show_hidden: start.show_hidden,
            rows: start.rows,
            selected,
            scroll: 0,
            snap: selected.is_some(),
            theme: start.theme,
            has_pane: start.has_pane,
            last_width: start.state.sidebar_width,
            last_height: 24,
            last_layout_width: start.layout_width,
            page: 20,
            hovered: None,
            body: BodyGeom::default(),
            overlay: None,
            notice: None,
            sidebar_state: start.state,
            has_other: start.has_other,
            native_picker: start.native_picker,
            activity: ActivityZones::default(),
            gear: Rect::zero(),
            title_zones: Vec::new(),
            last_mouse: None,
            mouse_pos: None,
            last_click: None,
            last_preview: None,
            last_beat: now,
            picking: false,
            deco_pending: false,
            last_deco: now,
            quick_index: None,
            quick_pending: false,
            effects: Vec::new(),
        };
        proof {
            reveal(App::view);
            reveal(deeds);
            assert(deeds(app.effects@) =~= Seq::<Deed>::empty());
        }
        app.emit(Effect::ApplyColorTheme);
        app.emit(Effect::RediscoverRepos);
        app.emit(Effect::ApplyIdentity);
        app.emit(Effect::RequestDecorations { force: true });
        app
    }

    /// The settings.
    pub fn settings(&self) -> (r: State)
        ensures
            r == self@.state,
    {
        proof {
            reveal(App::view);
        }
        self.sidebar_state
    }

    /// Takes over the settings after they were changed.
    pub fn set_state(&mut self, state: State)
        ensures
            final(self)@ == (AppView { state, ..old(self)@ }),
    {
        proof {
            reveal(App::view);
        }
        self.sidebar_state = state;
    }

    /// A source-control pane of its own can turn the git decorations on or off while the Explorer
    /// runs. Just that setting is taken over, so that the tree reacts without adopting what
    /// belongs to this process alone.
    pub fn sync_shared_settings(&mut self, shared: State)
        ensures
            final(self)@ == old(self)@.synced(shared),
    {
        let before = self.settings();
        self.set_state(State { git_deco: shared.git_deco, ..before });
        if shared.git_deco != before.git_deco {
            self.emit(Effect::RediscoverRepos);
            if !shared.git_deco {
                self.emit(Effect::ClearDecorations);
            }
        }
    }

    /// The pane got another width; `layout` is the width of the whole tab, where it is known.
    pub fn on_resize(&mut self, width: u16, layout: Option<i64>)
        ensures
            final(self)@ == old(self)@.resized(width, layout),
    {
        proof {
            reveal(App::view);
        }
        self.last_width = width;
        if !self.has_pane {
            return;
        }
        let changed = match (self.last_layout_width, layout) {
            (Some(before), Some(now)) => before != now,
            _ => false,
        };
        if layout.is_some() {
            self.last_layout_width = layout;
        }
        if changed {
            self.emit(Effect::ResizePreferred { current: width });
        }
    }

    /// Stamps the pane's identity again every few seconds, so that launchers know it is alive.
    pub fn heartbeat(&mut self, now: u64)
        ensures
            final(self)@ == old(self)@.beaten(now),
    {
        proof {
            reveal(App::view);
        }
        if now.saturating_sub(self.last_beat) < HEARTBEAT {
            return;
        }
        self.last_beat = now;
        let follow = self.sidebar_state.follow_cwd && self.overlay.is_none() && !self.picking;
        if self.has_pane {
            self.emit(Effect::ReportTokens);
            if follow {
                self.emit(Effect::FollowSibling);
            }
        }
    }

    /// Whether a folder that a neighbouring pane is in is to be followed: it is not the root.
    pub fn follows(&self, target: &str) -> (r: bool)
        ensures
            r == !same_components(path_of(path_from(target@)), path_of(self@.root)),
    {
        proof {
            reveal(App::view);
        }
        let path = path_from_text(target);
        !same_path(as_path(&path), as_path(&self.root))
    }

    /// Queues a read of the git status: not while one is under way, and without `force` only
    /// where the pane has the focus.
    pub fn request_decorations(&mut self, now: u64, force: bool, focused: bool) -> (r: DecoStep)
        ensures
            r == old(self)@.deco_step(force, focused),
            final(self)@ == (AppView {
                last_deco: now,
                deco_pending: match r {
                    DecoStep::Clear => false,
                    DecoStep::Wait => old(self)@.deco_pending,
                    DecoStep::Start => true,
                },
                ..old(self)@
            }),
    {
        proof {
            reveal(App::view);
        }
        self.last_deco = now;
        if !self.sidebar_state.git_deco {
            self.deco_pending = false;
            return DecoStep::Clear;
        }
        if self.deco_pending || (!force && !focused) {
            return DecoStep::Wait;
        }
        self.deco_pending = true;
        DecoStep::Start
    }

    /// Takes what the background read of the git status came to.
    pub fn collect_decorations(&mut self, poll: Poll)
        ensures
            final(self)@ == (AppView {
                deco_pending: old(self)@.deco_pending && poll == Poll::Empty,
                ..old(self)@
            }),
    {
        proof {
            reveal(App::view);
        }
        if poll != Poll::Empty {
            self.deco_pending = false;
        }
    }

    /// The repositories are looked for again: a read of the git status that is under way is
    /// forgotten. True where there are repositories to look for.
    pub fn rediscover_repos(&mut self) -> (r: bool)
        ensures
            r == old(self)@.state.git_deco,
            final(self)@ == (AppView { deco_pending: false, ..old(self)@ }),
    {
        proof {
            reveal(App::view);
        }
        self.deco_pending = false;
        self.sidebar_state.git_deco
    }

    /// Whether the git status is to be read again.
    pub fn decorations_are_due(&self, now: u64) -> (r: bool)
        ensures
            r == (since(now, self@.last_deco) >= DECO_REFRESH),
    {
        proof {
            reveal(App::view);
        }
        now.saturating_sub(self.last_deco) >= DECO_REFRESH
    }

    /// Takes what the background index came to.
    pub fn collect_quick_index(&mut self, poll: IndexPoll)
        ensures
            final(self)@ == old(self)@.indexed(poll),
    {
        proof {
            reveal(App::view);
        }
        if !self.quick_pending {
            return;
        }
        match poll {
            IndexPoll::Empty => {},
            IndexPoll::Gone => {
                self.quick_pending = false;
                self.stop_loading();
            },
            IndexPoll::Ready(index) => {
                self.quick_pending = false;
                if !same_path(as_path(&index.root), as_path(&self.root)) || index.show_hidden
                    != self.show_hidden {
                    self.stop_loading();
                    return;
                }
                self.refill(&index);
                self.quick_index = Some(index);
            },
        }
    }

    /// Quick Open waits no longer.
    fn stop_loading(&mut self)
        ensures
            final(self)@ == (AppView { overlay: old(self)@.settled(), ..old(self)@ }),
    {
        proof {
            reveal(App::view);
        }
        match self.overlay.take() {
            Some(Overlay::QuickOpen(finder)) => {
                let mut finder = finder;
                finder.loading = false;
                self.overlay = Some(Overlay::QuickOpen(finder));
            },
            overlay => {
                self.overlay = overlay;
            },
        }
    }

    /// Quick Open goes on with the files of an index.
    fn refill(&mut self, index: &QuickIndex)
        ensures
            final(self)@ == (AppView { overlay: old(self)@.refilled(*index), ..old(self)@ }),
    {
        proof {
            reveal(App::view);
        }
        match self.overlay.take() {
            Some(Overlay::QuickOpen(finder)) => {
                let files = share(&index.files);
                let matches = quick_matches(&files, finder.query.as_str());
                self.overlay = Some(
                    Overlay::QuickOpen(
                        QuickOpen {
                            query: finder.query,
                            files,
                            matches,
                            selected: 0,
                            truncated: index.truncated,
                            loading: false,
                        },
                    ),
                );
            },
            overlay => {
                self.overlay = overlay;
            },
        }
    }

    /// Idle work: keeps the shared setting, the index of files and the git status current.
    pub fn tick(&mut self, now: u64, shared: State, index: IndexPoll, status: Poll)
        ensures
            ({
                let collected = old(self)@.synced(shared).indexed(index);
                let waiting = AppView {
                    deco_pending: collected.deco_pending && status == Poll::Empty,
                    ..collected
                };
                final(self)@ == if since(now, waiting.last_deco) < DECO_REFRESH {
                    waiting
                } else {
                    waiting.also(Effect::RequestDecorations { force: false })
                }
            }),
    {
        self.sync_shared_settings(shared);
        self.collect_quick_index(index);
        self.collect_decorations(status);
        if self.decorations_are_due(now) {
            self.emit(Effect::RequestDecorations { force: false });
        }
    }

    /// Takes what the folder picker came to.
    pub fn poll_picker(&mut self, poll: PickPoll)
        ensures
            final(self)@ == old(self)@.picked(poll),
    {
        proof {
            reveal(App::view);
        }
        if !self.picking {
            return;
        }
        match poll {
            PickPoll::Empty => {},
            PickPoll::Gone => {
                self.picking = false;
            },
            PickPoll::Cancelled => {
                self.picking = false;
                self.notice = None;
            },
            PickPoll::Picked(path) => {
                self.picking = false;
                self.emit(Effect::ChangeFolder(show(as_path(&path))));
            },
        }
    }

    /// Where a path that the user chose leads; nothing typed is reported in the footer.
    pub fn folder_request(&mut self, raw: &str, home: &str) -> (r: FolderRequest)
        ensures
            match r {
                FolderRequest::Empty => trimmed(raw@).len() == 0 && final(self)@
                    == old(self)@.noting("empty path"@),
                FolderRequest::Go { raw: said, target } => trimmed(raw@).len() > 0 && said@
                    == trimmed(raw@) && target == folder_said(
                    trimmed(raw@),
                    home@,
                    old(self)@.root,
                ) && final(self)@ == old(self)@,
            },
    {
        let said = trim_text(raw);
        if said.unicode_len() == 0 {
            self.set_notice("empty path".to_owned());
            return FolderRequest::Empty;
        }
        let root = self.root_path();
        FolderRequest::Go { raw: said.to_owned(), target: typed_folder(said, home, &root) }
    }

    /// The path that was chosen is no folder.
    pub fn folder_missing(&mut self, raw: &str)
        ensures
            final(self)@ == old(self)@.noting("not a folder: "@ + raw@),
    {
        self.set_notice(concat2("not a folder: ", raw));
    }

    /// Whether a choice of a folder stands until a neighbouring pane moves: one that the user made
    /// while following.
    pub fn marks_manual_folder(&self, manual: bool) -> (r: bool)
        ensures
            r == (manual && self@.state.follow_cwd),
    {
        proof {
            reveal(App::view);
        }
        manual && self.sidebar_state.follow_cwd
    }

    /// The view was started anew at a chosen folder.
    pub fn folder_changed(&mut self)
        ensures
            final(self)@ == old(self)@.noting("folder: "@ + old(self)@.root_name),
    {
        let notice = self.folder_notice();
        self.set_notice(notice);
    }

    /// What the footer says after a change of folder.
    fn folder_notice(&self) -> (r: String)
        ensures
            r@ == "folder: "@ + self@.root_name,
    {
        proof {
            reveal(App::view);
        }
        concat2("folder: ", self.root_name.as_str())
    }

    /// The name that was typed is none.
    pub fn name_rejected(&mut self)
        ensures
            final(self)@ == old(self)@.noting("invalid name"@),
    {
        self.set_notice("invalid name".to_owned());
    }

    /// What was to be created or renamed: its path, or why it failed.
    pub fn name_done(&mut self, kind: PromptKind, result: Result<PathBuf, String>)
        ensures
            final(self)@ == match result {
                Ok(created) => old(self)@.named(kind, created),
                Err(error) => old(self)@.noting("failed: "@ + error@),
            },
    {
        match result {
            Ok(created) => {
                match kind {
                    PromptKind::NewFile(dir) => self.emit(Effect::ExpandDir(dir)),
                    PromptKind::NewFolder(dir) => self.emit(Effect::ExpandDir(dir)),
                    _ => {},
                }
                self.refresh_tree();
                self.emit(Effect::SelectPath(created));
            },
            Err(error) => self.set_notice(concat2("failed: ", error.as_str())),
        }
    }

    /// Selects the row at a path, if there is one.
    pub fn select_path(&mut self, path: &PathBuf)
        ensures
            final(self)@ == match row_at_path(old(self)@.rows, *path, 0) {
                Some(index) => old(self)@.select(index as int),
                None => old(self)@,
            },
    {
        if let Some(index) = self.row_of(path) {
            self.select(index);
        }
    }

    /// The row at a path.
    fn row_of(&self, path: &PathBuf) -> (r: Option<usize>)
        ensures
            r == row_at_path(self@.rows, *path, 0),
    {
        proof {
            reveal(App::view);
        }
        find_row(&self.rows, path)
    }

    /// What was to be deleted: the tree is read again, or the footer says why it failed.
    pub fn deleted(&mut self, result: Result<(), String>)
        ensures
            final(self)@ == match result {
                Ok(_) => old(self)@.refresh_tree(),
                Err(error) => old(self)@.noting("delete failed: "@ + error@),
            },
    {
        match result {
            Ok(_) => self.refresh_tree(),
            Err(error) => self.set_notice(concat2("delete failed: ", error.as_str())),
        }
    }

    /// A text was put on the clipboard, or not.
    pub fn copied(&mut self, text: &str, result: Result<(), String>)
        ensures
            final(self)@ == old(self)@.noting(
                match result {
                    Ok(_) => "copied: "@ + text@,
                    Err(error) => "copy failed: "@ + error@,
                },
            ),
    {
        match result {
            Ok(_) => self.set_notice(concat2("copied: ", text)),
            Err(error) => self.set_notice(concat2("copy failed: ", error.as_str())),
        }
    }

    /// A file was opened outside, or not.
    pub fn opened(&mut self, name: &str, result: Result<(), String>)
        ensures
            final(self)@ == old(self)@.noting(
                match result {
                    Ok(_) => "opened: "@ + name@,
                    Err(error) => "open failed: "@ + error@,
                },
            ),
    {
        match result {
            Ok(_) => self.set_notice(concat2("opened: ", name)),
            Err(error) => self.set_notice(concat2("open failed: ", error.as_str())),
        }
    }

    /// What changed under a path was staged, or not; the git status is read again either way.
    pub fn staged(&mut self, path: &PathBuf, result: Result<Staged, String>)
        ensures
            final(self)@ == old(self)@.noting(
                match result {
                    Ok(staged) => stage_text(
                        reported(*path),
                        staged.count,
                        staged.skipped_nested,
                        staged.repo@,
                    ),
                    Err(error) => "stage failed: "@ + error@,
                },
            ).also(Effect::RequestDecorations { force: true }),
    {
        let name = match file_name(as_path(path)) {
            Some(name) => name,
            None => show(as_path(path)),
        };
        match result {
            Ok(staged) => self.set_notice(stage_notice(name.as_str(), &staged)),
            Err(error) => self.set_notice(concat2("stage failed: ", error.as_str())),
        }
        self.emit(Effect::RequestDecorations { force: true });
    }

    /// The viewer opened a document, whose key is remembered, or not.
    pub fn viewed(&mut self, result: Result<String, String>)
        ensures
            final(self)@ == match result {
                Ok(doc_key) => AppView { last_preview: Some(doc_key@), ..old(self)@ },
                Err(error) => old(self)@.noting(error@),
            },
    {
        proof {
            reveal(App::view);
        }
        match result {
            Ok(doc_key) => {
                self.last_preview = Some(doc_key);
            },
            Err(error) => {
                self.notice = Some(error);
            },
        }
    }

    /// Something failed that has nothing to say where it goes well.
    pub fn report(&mut self, result: Result<(), String>)
        ensures
            final(self)@ == match result {
                Ok(_) => old(self)@,
                Err(error) => old(self)@.noting(error@),
            },
    {
        match result {
            Ok(_) => {},
            Err(error) => self.set_notice(error),
        }
    }

    /// The preview that was to be pinned cannot leave its document.
    pub fn pin_blocked(&mut self)
        ensures
            final(self)@ == old(self)@.noting(
                "preview switch blocked; resolve unsaved changes in its tab"@,
            ),
    {
        self.set_notice("preview switch blocked; resolve unsaved changes in its tab".to_owned());
    }
}

} // verus!
