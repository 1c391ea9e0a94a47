//! The settings file: reading it, writing it, and changing one setting in it.

use crate::icons::IconTheme;
use crate::json::{
    bool_at, bool_in, flat_fields, flat_text, json_of, member, member_text, members_text,
    parse_json, parsed_json, plain_members, plain_name, quoted, scalar_json, scalar_text, text_at,
    text_in, u64_at, u64_in, Json, Members, Scalar,
};
use crate::state::{
    clamp_sidebar_width, clamped_width, law_names_return, step_sidebar_width, stepped_width,
    ColorTheme, PreviewEditor, PreviewPlacement, State, View, DEFAULT_SIDEBAR_WIDTH,
    MAX_SIDEBAR_WIDTH, MIN_SIDEBAR_WIDTH,
};
use crate::text::{decimal, trim_bom, without_bom};
use serde_json::Value;
use vstd::prelude::*;
use vstd::string::*;
use vstd::view::View as _;

verus! {

/// The truth value under `key`, or `fallback`.
pub open spec fn bool_or(json: Json, key: Seq<char>, fallback: bool) -> bool {
    match bool_in(member(json, key)) {
        Some(b) => b,
        None => fallback,
    }
}

/// The width that a settings value asks for: a 16-bit number, brought into the supported range.
pub open spec fn width_in(json: Json) -> u16 {
    match u64_in(member(json, "sidebar_width"@)) {
        Some(n) => if n <= u16::MAX {
            clamped_width(n as int) as u16
        } else {
            DEFAULT_SIDEBAR_WIDTH
        },
        None => DEFAULT_SIDEBAR_WIDTH,
    }
}

/// The settings that a JSON value says: each missing or garbled field is that of a first run.
pub open spec fn state_in(json: Json) -> State {
    State {
        merged: bool_or(json, "merged"@, true),
        active: match text_in(member(json, "active"@)) {
            Some(name) => match View::named(name) {
                Some(view) => view,
                None => View::Explorer,
            },
            None => View::Explorer,
        },
        show_hotkeys: bool_or(json, "hotkeys"@, false),
        icons: match text_in(member(json, "icons"@)) {
            Some(name) => IconTheme::named(name),
            None => None,
        },
        color_theme: match text_in(member(json, "colors"@)) {
            Some(name) => match ColorTheme::named(name) {
                Some(theme) => theme,
                None => ColorTheme::VsCode,
            },
            None => ColorTheme::VsCode,
        },
        font_prompt_done: bool_or(json, "font_prompt"@, false),
        auto_open: bool_or(json, "auto_open"@, true),
        strict_toggle: bool_or(json, "strict_toggle"@, false),
        focus_on_open: bool_or(json, "focus_on_open"@, true),
        follow_cwd: bool_or(json, "follow_cwd"@, true),
        git_deco: bool_or(json, "git_deco"@, true),
        dock_right: bool_or(json, "dock_right"@, false),
        sidebar_width: width_in(json),
        preview_placement: match text_in(member(json, "preview_placement"@)) {
            Some(name) => match PreviewPlacement::named(name) {
                Some(placement) => placement,
                None => PreviewPlacement::Tab,
            },
            None => PreviewPlacement::Tab,
        },
        preview_editor: match text_in(member(json, "preview_editor"@)) {
            Some(name) => match PreviewEditor::named(name) {
                Some(editor) => editor,
                None => PreviewEditor::Builtin,
            },
            None => PreviewEditor::Builtin,
        },
    }
}

/// The settings that the text of a settings file says; those of a first run if it is no JSON.
pub open spec fn state_in_text(text: Seq<char>) -> State {
    match parsed_json(without_bom(text)) {
        Ok(json) => state_in(json),
        Err(_) => State::initial(),
    }
}

/// The truth value under `key`, or `fallback`.
fn flag_or(value: &Value, key: &str, fallback: bool) -> (r: bool)
    ensures
        r == bool_or(json_of(*value), key@, fallback),
{
    match bool_at(value, key) {
        Some(b) => b,
        None => fallback,
    }
}

/// The settings that a JSON value says: each missing or garbled field falls back to the default,
/// so that a hand-edited file can never wedge the panels.
pub fn state_from_value(value: &Value) -> (r: State)
    ensures
        r == state_in(json_of(*value)),
{
    let default = State::default();
    State {
        merged: flag_or(value, "merged", default.merged),
        active: match text_at(value, "active") {
            Some(name) => match View::from_state_name(name.as_str()) {
                Some(view) => view,
                None => default.active,
            },
            None => default.active,
        },
        show_hotkeys: flag_or(value, "hotkeys", default.show_hotkeys),
        icons: match text_at(value, "icons") {
            Some(name) => IconTheme::from_state_name(name.as_str()),
            None => None,
        },
        color_theme: match text_at(value, "colors") {
            Some(name) => match ColorTheme::from_state_name(name.as_str()) {
                Some(theme) => theme,
                None => default.color_theme,
            },
            None => default.color_theme,
        },
        font_prompt_done: flag_or(value, "font_prompt", default.font_prompt_done),
        auto_open: flag_or(value, "auto_open", default.auto_open),
        strict_toggle: flag_or(value, "strict_toggle", default.strict_toggle),
        focus_on_open: flag_or(value, "focus_on_open", default.focus_on_open),
        follow_cwd: flag_or(value, "follow_cwd", default.follow_cwd),
        git_deco: flag_or(value, "git_deco", default.git_deco),
        dock_right: flag_or(value, "dock_right", default.dock_right),
        sidebar_width: match u64_at(value, "sidebar_width") {
            Some(n) => if n <= u16::MAX as u64 {
                clamp_sidebar_width(n as u16)
            } else {
                default.sidebar_width
            },
            None => default.sidebar_width,
        },
        preview_placement: match text_at(value, "preview_placement") {
            Some(name) => match PreviewPlacement::from_state_name(name.as_str()) {
                Some(placement) => placement,
                None => default.preview_placement,
            },
            None => default.preview_placement,
        },
        preview_editor: match text_at(value, "preview_editor") {
            Some(name) => match PreviewEditor::from_state_name(name.as_str()) {
                Some(editor) => editor,
                None => default.preview_editor,
            },
            None => default.preview_editor,
        },
    }
}

/// The settings that the text of a settings file says: any missing or garbled field falls back to
/// the default. What was written with `encode_state` is read back.
pub fn parse_state(json: &str) -> (r: State)
    ensures
        r == state_in_text(json@),
        MIN_SIDEBAR_WIDTH <= r.sidebar_width <= MAX_SIDEBAR_WIDTH,
        forall|written: State| json@ == #[trigger] state_text(written) ==> r == written.in_range(),
{
    let text = trim_bom(json);
    let parsed = parse_json(text.as_str());
    proof {
        assert forall|written: State| json@ == #[trigger] state_text(written) implies (match parsed {
            Ok(value) => state_in(json_of(value)) == written.in_range(),
            Err(_) => false,
        }) by {
            assert(without_bom(json@) == json@);
            lemma_state_members_are_plain(written);
            lemma_state_members_say_the_state(written);
        }
    }
    match parsed {
        Ok(value) => state_from_value(&value),
        Err(_) => State::default(),
    }
}

/// The first members of a settings file.
pub open spec fn first_members(state: State) -> Members {
    Seq::empty()
        .push(("merged"@, Scalar::Bool(state.merged)))
        .push(("active"@, Scalar::Text(state.active.name())))
        .push(("hotkeys"@, Scalar::Bool(state.show_hotkeys)))
        .push(("font_prompt"@, Scalar::Bool(state.font_prompt_done)))
        .push(("auto_open"@, Scalar::Bool(state.auto_open)))
}

/// Those and the members that follow them.
pub open spec fn middle_members(state: State) -> Members {
    first_members(state)
        .push(("strict_toggle"@, Scalar::Bool(state.strict_toggle)))
        .push(("focus_on_open"@, Scalar::Bool(state.focus_on_open)))
        .push(("follow_cwd"@, Scalar::Bool(state.follow_cwd)))
        .push(("git_deco"@, Scalar::Bool(state.git_deco)))
        .push(("dock_right"@, Scalar::Bool(state.dock_right)))
}

/// The members of a settings file without the one that may be missing.
pub open spec fn settled_members(state: State) -> Members {
    middle_members(state)
        .push(("sidebar_width"@, Scalar::Number(clamped_width(state.sidebar_width as int) as nat)))
        .push(("colors"@, Scalar::Text(state.color_theme.name())))
        .push(("preview_placement"@, Scalar::Text(state.preview_placement.name())))
        .push(("preview_editor"@, Scalar::Text(state.preview_editor.name())))
}

/// The members of a settings file, in the order in which they are written.
pub open spec fn state_members(state: State) -> Members {
    match state.icons {
        Some(theme) => settled_members(state).push(("icons"@, Scalar::Text(theme.name()))),
        None => settled_members(state),
    }
}

/// The text of a settings file.
pub open spec fn state_text(state: State) -> Seq<char> {
    flat_text(state_members(state))
}

/// A number that tells the names of the members apart.
spec fn mark(name: Seq<char>) -> int {
    name.len() * 1000000 + (name[0] as int) * 1000 + name[1] as int
}

/// The names of the members are short plain words, all different.
proof fn lemma_names(state: State)
    ensures
        forall|i: int|
            0 <= i < state_members(state).len() ==> plain_name(
                (#[trigger] state_members(state)[i]).0,
            ),
        forall|i: int, j: int|
            0 <= i < j < state_members(state).len() ==> (#[trigger] state_members(state)[i]).0 != (
            #[trigger] state_members(state)[j]).0,
        forall|i: int|
            0 <= i < settled_members(state).len() ==> (#[trigger] settled_members(state)[i]).0
                != "icons"@,
{
    let members = state_members(state);
    reveal_strlit("merged");
    reveal_strlit("active");
    reveal_strlit("hotkeys");
    reveal_strlit("font_prompt");
    reveal_strlit("auto_open");
    reveal_strlit("strict_toggle");
    reveal_strlit("focus_on_open");
    reveal_strlit("follow_cwd");
    reveal_strlit("git_deco");
    reveal_strlit("dock_right");
    reveal_strlit("sidebar_width");
    reveal_strlit("colors");
    reveal_strlit("preview_placement");
    reveal_strlit("preview_editor");
    reveal_strlit("icons");
    assert(mark("merged"@) == 6109101);
    assert(mark("active"@) == 6097099);
    assert(mark("hotkeys"@) == 7104111);
    assert(mark("font_prompt"@) == 11102111);
    assert(mark("auto_open"@) == 9097117);
    assert(mark("strict_toggle"@) == 13115116);
    assert(mark("focus_on_open"@) == 13102111);
    assert(mark("follow_cwd"@) == 10102111);
    assert(mark("git_deco"@) == 8103105);
    assert(mark("dock_right"@) == 10100111);
    assert(mark("sidebar_width"@) == 13115105);
    assert(mark("colors"@) == 6099111);
    assert(mark("preview_placement"@) == 17112114);
    assert(mark("preview_editor"@) == 14112114);
    assert(mark("icons"@) == 5105099);
    assert forall|i: int, j: int| 0 <= i < j < members.len() implies (#[trigger] members[i]).0 != (
    #[trigger] members[j]).0 by {
        assert(mark(members[i].0) != mark(members[j].0));
    }
    assert forall|i: int| 0 <= i < settled_members(state).len() implies (
    #[trigger] settled_members(state)[i]).0 != "icons"@ by {
        assert(mark(settled_members(state)[i].0) != mark("icons"@));
    }
}

/// Members of different names: each is found under its name.
proof fn lemma_found(members: Members, i: int)
    requires
        forall|a: int, b: int|
            0 <= a < b < members.len() ==> (#[trigger] members[a]).0 != (#[trigger] members[b]).0,
        0 <= i < members.len(),
    ensures
        flat_fields(members).dom().contains(members[i].0),
        flat_fields(members)[members[i].0] == scalar_json(members[i].1),
    decreases members.len(),
{
    let rest = members.drop_last();
    if i < members.len() - 1 {
        assert forall|a: int, b: int| 0 <= a < b < rest.len() implies (#[trigger] rest[a]).0 != (
        #[trigger] rest[b]).0 by {
            assert(rest[a] == members[a] && rest[b] == members[b]);
        }
        lemma_found(rest, i);
        assert(rest[i] == members[i]);
        assert(members[i].0 != members[members.len() - 1].0);
    }
}

/// What is the name of no member is not found.
proof fn lemma_missing(members: Members, name: Seq<char>)
    requires
        forall|a: int| 0 <= a < members.len() ==> (#[trigger] members[a]).0 != name,
    ensures
        !flat_fields(members).dom().contains(name),
    decreases members.len(),
{
    if members.len() > 0 {
        assert forall|a: int| 0 <= a < members.drop_last().len() implies (
        #[trigger] members.drop_last()[a]).0 != name by {
            assert(members.drop_last()[a] == members[a]);
        }
        lemma_missing(members.drop_last(), name);
        assert(members[members.len() - 1].0 != name);
    }
}

/// Nothing in a settings file needs an escape.
proof fn lemma_state_members_are_plain(state: State)
    ensures
        plain_members(state_members(state)),
{
    lemma_names(state);
    reveal_strlit("explorer");
    reveal_strlit("source-control");
    reveal_strlit("vscode");
    reveal_strlit("light");
    reveal_strlit("terminal");
    reveal_strlit("tab");
    reveal_strlit("pane");
    reveal_strlit("builtin");
    reveal_strlit("neovim");
    reveal_strlit("material");
    reveal_strlit("emoji");
    assert(plain_name(state.active.name()));
    assert(plain_name(state.color_theme.name()));
    assert(plain_name(state.preview_placement.name()));
    assert(plain_name(state.preview_editor.name()));
    assert(state.icons matches Some(theme) ==> plain_name(theme.name()));
}

/// What is under each name says the settings.
proof fn lemma_fields_say_the_state(state: State, json: Json)
    requires
        member(json, "merged"@) == Some(Json::Bool(state.merged)),
        member(json, "active"@) == Some(Json::Text(state.active.name())),
        member(json, "hotkeys"@) == Some(Json::Bool(state.show_hotkeys)),
        member(json, "font_prompt"@) == Some(Json::Bool(state.font_prompt_done)),
        member(json, "auto_open"@) == Some(Json::Bool(state.auto_open)),
        member(json, "strict_toggle"@) == Some(Json::Bool(state.strict_toggle)),
        member(json, "focus_on_open"@) == Some(Json::Bool(state.focus_on_open)),
        member(json, "follow_cwd"@) == Some(Json::Bool(state.follow_cwd)),
        member(json, "git_deco"@) == Some(Json::Bool(state.git_deco)),
        member(json, "dock_right"@) == Some(Json::Bool(state.dock_right)),
        member(json, "sidebar_width"@) == Some(
            Json::Number(Some(clamped_width(state.sidebar_width as int))),
        ),
        member(json, "colors"@) == Some(Json::Text(state.color_theme.name())),
        member(json, "preview_placement"@) == Some(Json::Text(state.preview_placement.name())),
        member(json, "preview_editor"@) == Some(Json::Text(state.preview_editor.name())),
        member(json, "icons"@) == match state.icons {
            Some(theme) => Some(Json::Text(theme.name())),
            None => None,
        },
    ensures
        state_in(json) == state.in_range(),
{
    law_names_return();
    if let Some(theme) = state.icons {
        crate::icons::law_icon_theme_names_return(theme);
    }
}

/// The members at their places are found under their names.
proof fn lemma_listed_members_say_the_state(state: State, members: Members)
    requires
        forall|a: int, b: int|
            0 <= a < b < members.len() ==> (#[trigger] members[a]).0 != (#[trigger] members[b]).0,
        members.len() == if state.icons is Some {
            15
        } else {
            14int
        },
        members[0] == ("merged"@, Scalar::Bool(state.merged)),
        members[1] == ("active"@, Scalar::Text(state.active.name())),
        members[2] == ("hotkeys"@, Scalar::Bool(state.show_hotkeys)),
        members[3] == ("font_prompt"@, Scalar::Bool(state.font_prompt_done)),
        members[4] == ("auto_open"@, Scalar::Bool(state.auto_open)),
        members[5] == ("strict_toggle"@, Scalar::Bool(state.strict_toggle)),
        members[6] == ("focus_on_open"@, Scalar::Bool(state.focus_on_open)),
        members[7] == ("follow_cwd"@, Scalar::Bool(state.follow_cwd)),
        members[8] == ("git_deco"@, Scalar::Bool(state.git_deco)),
        members[9] == ("dock_right"@, Scalar::Bool(state.dock_right)),
        members[10] == (
            "sidebar_width"@,
            Scalar::Number(clamped_width(state.sidebar_width as int) as nat),
        ),
        members[11] == ("colors"@, Scalar::Text(state.color_theme.name())),
        members[12] == ("preview_placement"@, Scalar::Text(state.preview_placement.name())),
        members[13] == ("preview_editor"@, Scalar::Text(state.preview_editor.name())),
        state.icons matches Some(theme) ==> members[14] == ("icons"@, Scalar::Text(theme.name())),
        state.icons is None ==> forall|a: int|
            0 <= a < members.len() ==> (#[trigger] members[a]).0 != "icons"@,
    ensures
        state_in(Json::Object(flat_fields(members))) == state.in_range(),
{
    lemma_found(members, 0);
    lemma_found(members, 1);
    lemma_found(members, 2);
    lemma_found(members, 3);
    lemma_found(members, 4);
    lemma_found(members, 5);
    lemma_found(members, 6);
    lemma_found(members, 7);
    lemma_found(members, 8);
    lemma_found(members, 9);
    lemma_found(members, 10);
    lemma_found(members, 11);
    lemma_found(members, 12);
    lemma_found(members, 13);
    if state.icons is Some {
        lemma_found(members, 14);
    } else {
        lemma_missing(members, "icons"@);
    }
    lemma_fields_say_the_state(state, Json::Object(flat_fields(members)));
}

/// The members of a settings file say the settings.
proof fn lemma_state_members_say_the_state(state: State)
    ensures
        state_in(Json::Object(flat_fields(state_members(state)))) == state.in_range(),
{
    lemma_names(state);
    lemma_listed_members_say_the_state(state, state_members(state));
}

/// A flat object that is being written.
struct FlatWriter {
    /// The text so far, without the last brace.
    text: String,
    members: Ghost<Members>,
}

impl FlatWriter {
    /// The text is that of the members so far.
    #[verifier::opaque]
    spec fn agrees(self) -> bool {
        self.text@ == seq!['{'] + members_text(self.members@)
    }

    /// An object without members.
    fn new() -> (r: FlatWriter)
        ensures
            r.agrees(),
            r.members@ == Seq::<(Seq<char>, Scalar)>::empty(),
    {
        let mut text = String::new();
        text.push('{');
        proof {
            reveal(FlatWriter::agrees);
            assert(text@ =~= seq!['{'] + members_text(Seq::empty()));
        }
        FlatWriter { text, members: Ghost(Seq::empty()) }
    }

    /// Writes one more member: its name and `text`, which spells its value.
    fn put(&mut self, name: &str, text: &str, Ghost(value): Ghost<Scalar>)
        requires
            old(self).agrees(),
            text@ == scalar_text(value),
        ensures
            final(self).agrees(),
            final(self).members@ == old(self).members@.push((name@, value)),
    {
        let ghost before = self.members@;
        let ghost all = before.push((name@, value));
        proof {
            reveal(FlatWriter::agrees);
            assert(all.drop_last() =~= before);
            lemma_written(before);
        }
        if self.text.as_str().unicode_len() > 1 {
            self.text.push(',');
        }
        self.text.push('"');
        self.text.append(name);
        self.text.push('"');
        self.text.push(':');
        self.text.append(text);
        self.members = Ghost(all);
        proof {
            assert(self.text@ =~= seq!['{'] + members_text(all));
        }
    }

    /// Writes one more member that is a truth value.
    fn flag(&mut self, name: &str, flag: bool)
        requires
            old(self).agrees(),
        ensures
            final(self).agrees(),
            final(self).members@ == old(self).members@.push((name@, Scalar::Bool(flag))),
    {
        if flag {
            self.put(name, "true", Ghost(Scalar::Bool(true)));
        } else {
            self.put(name, "false", Ghost(Scalar::Bool(false)));
        }
    }

    /// Writes one more member that is a number.
    fn number(&mut self, name: &str, number: u64)
        requires
            old(self).agrees(),
        ensures
            final(self).agrees(),
            final(self).members@ == old(self).members@.push((name@, Scalar::Number(number as nat))),
    {
        let spelled = decimal(number);
        self.put(name, spelled.as_str(), Ghost(Scalar::Number(number as nat)));
    }

    /// Writes one more member that is a text.
    fn text(&mut self, name: &str, text: &str)
        requires
            old(self).agrees(),
        ensures
            final(self).agrees(),
            final(self).members@ == old(self).members@.push((name@, Scalar::Text(text@))),
    {
        let mut spelled = String::new();
        spelled.push('"');
        spelled.append(text);
        spelled.push('"');
        assert(spelled@ =~= quoted(text@));
        self.put(name, spelled.as_str(), Ghost(Scalar::Text(text@)));
    }

    /// The whole text.
    fn finish(self) -> (r: String)
        requires
            self.agrees(),
        ensures
            r@ == flat_text(self.members@),
    {
        let mut out = self.text;
        out.push('}');
        proof {
            reveal(FlatWriter::agrees);
            assert(out@ =~= flat_text(self.members@));
        }
        out
    }
}

/// Something is written for at least one member, nothing for none.
proof fn lemma_written(members: Members)
    ensures
        members.len() > 0 <==> members_text(members).len() > 0,
{
    if members.len() > 0 {
        let last = members.last();
        assert(member_text(last.0, last.1).len() > 0);
        assert(member_text(members[0].0, members[0].1).len() > 0);
    }
}

/// Writes the first members of a settings file.
fn write_first(state: State) -> (r: FlatWriter)
    ensures
        r.agrees(),
        r.members@ == first_members(state),
{
    let mut writer = FlatWriter::new();
    writer.flag("merged", state.merged);
    writer.text("active", state.active.state_name());
    writer.flag("hotkeys", state.show_hotkeys);
    writer.flag("font_prompt", state.font_prompt_done);
    writer.flag("auto_open", state.auto_open);
    writer
}

/// Writes the members that follow the first.
fn write_middle(writer: &mut FlatWriter, state: State)
    requires
        old(writer).agrees(),
        old(writer).members@ == first_members(state),
    ensures
        final(writer).agrees(),
        final(writer).members@ == middle_members(state),
{
    writer.flag("strict_toggle", state.strict_toggle);
    writer.flag("focus_on_open", state.focus_on_open);
    writer.flag("follow_cwd", state.follow_cwd);
    writer.flag("git_deco", state.git_deco);
    writer.flag("dock_right", state.dock_right);
}

/// Writes the last members that are always there.
fn write_last(writer: &mut FlatWriter, state: State)
    requires
        old(writer).agrees(),
        old(writer).members@ == middle_members(state),
    ensures
        final(writer).agrees(),
        final(writer).members@ == settled_members(state),
{
    writer.number("sidebar_width", clamp_sidebar_width(state.sidebar_width) as u64);
    writer.text("colors", state.color_theme.label());
    writer.text("preview_placement", state.preview_placement.label());
    writer.text("preview_editor", state.preview_editor.label());
}

/// The text of a settings file that says `state`, with the width in the supported range.
pub fn encode_state(state: State) -> (r: String)
    ensures
        r@ == state_text(state),
{
    let mut writer = write_first(state);
    write_middle(&mut writer, state);
    write_last(&mut writer, state);
    if let Some(theme) = state.icons {
        writer.text("icons", theme.state_name());
    }
    writer.finish()
}

/// What is read of a settings file that was written: the settings, with the width in the
/// supported range. A second write of what was read is the same text.
pub proof fn law_written_settings_are_read_back(state: State)
    ensures
        plain_members(state_members(state)),
        state_in(Json::Object(flat_fields(state_members(state)))) == state.in_range(),
        state_text(state.in_range()) == state_text(state),
        MIN_SIDEBAR_WIDTH <= state.sidebar_width <= MAX_SIDEBAR_WIDTH ==> state.in_range()
            == state,
{
    lemma_state_members_are_plain(state);
    lemma_state_members_say_the_state(state);
    assert(settled_members(state.in_range()) =~= settled_members(state));
}

/// A change of one or more settings that a view makes.
#[derive(Clone, Copy, PartialEq, Eq, Debug, Structural)]
pub enum Change {
    /// Turn the unified sidebar on or off, with `active` as the view that stays.
    Unify { on: bool, active: View },
    /// Remember the view that is shown.
    Show(View),
    FlipDockRight,
    StepWidth { wider: bool },
    SetIcons(IconTheme),
    NextPalette,
    OtherPlacement,
    OtherEditor,
    FlipHotkeys,
    FlipAutoOpen,
    FlipStrictToggle,
    FlipFocusOnOpen,
    FlipFollowCwd,
    FlipGitDeco,
}

/// The settings after a change: what the change is not about stays.
pub open spec fn changed(state: State, change: Change) -> State {
    match change {
        Change::Unify { on, active } => State { merged: on, active, ..state },
        Change::Show(view) => State { active: view, ..state },
        Change::FlipDockRight => State { dock_right: !state.dock_right, ..state },
        Change::StepWidth { wider } => State {
            sidebar_width: stepped_width(state.sidebar_width as int, wider) as u16,
            ..state
        },
        Change::SetIcons(theme) => State { icons: Some(theme), ..state },
        Change::NextPalette => State { color_theme: state.color_theme.following(), ..state },
        Change::OtherPlacement => State {
            preview_placement: state.preview_placement.other_placement(),
            ..state
        },
        Change::OtherEditor => State {
            preview_editor: state.preview_editor.other_editor(),
            ..state
        },
        Change::FlipHotkeys => State { show_hotkeys: !state.show_hotkeys, ..state },
        Change::FlipAutoOpen => State { auto_open: !state.auto_open, ..state },
        Change::FlipStrictToggle => State { strict_toggle: !state.strict_toggle, ..state },
        Change::FlipFocusOnOpen => State { focus_on_open: !state.focus_on_open, ..state },
        Change::FlipFollowCwd => State { follow_cwd: !state.follow_cwd, ..state },
        Change::FlipGitDeco => State { git_deco: !state.git_deco, ..state },
    }
}

/// The settings after a change.
pub fn apply_change(state: State, change: Change) -> (r: State)
    ensures
        r == changed(state, change),
{
    match change {
        Change::Unify { on, active } => State { merged: on, active, ..state },
        Change::Show(view) => State { active: view, ..state },
        Change::FlipDockRight => State { dock_right: !state.dock_right, ..state },
        Change::StepWidth { wider } => State {
            sidebar_width: step_sidebar_width(state.sidebar_width, wider),
            ..state
        },
        Change::SetIcons(theme) => State { icons: Some(theme), ..state },
        Change::NextPalette => State { color_theme: state.color_theme.next(), ..state },
        Change::OtherPlacement => State {
            preview_placement: state.preview_placement.other(),
            ..state
        },
        Change::OtherEditor => State { preview_editor: state.preview_editor.other(), ..state },
        Change::FlipHotkeys => State { show_hotkeys: !state.show_hotkeys, ..state },
        Change::FlipAutoOpen => State { auto_open: !state.auto_open, ..state },
        Change::FlipStrictToggle => State { strict_toggle: !state.strict_toggle, ..state },
        Change::FlipFocusOnOpen => State { focus_on_open: !state.focus_on_open, ..state },
        Change::FlipFollowCwd => State { follow_cwd: !state.follow_cwd, ..state },
        Change::FlipGitDeco => State { git_deco: !state.git_deco, ..state },
    }
}

/// The settings that were found, and whether they are to be written to the file of today because
/// they came from the file of an earlier release.
#[derive(Clone, Copy, PartialEq, Eq, Debug, Structural)]
pub struct Loaded {
    pub state: State,
    pub migrate: bool,
}

/// What the files say: the file of today, else that of an earlier release, else a first run.
pub open spec fn loaded(current: Option<Seq<char>>, legacy: Option<Seq<char>>) -> Loaded {
    match current {
        Some(text) => Loaded { state: state_in_text(text), migrate: false },
        None => match legacy {
            Some(text) => Loaded { state: state_in_text(text), migrate: true },
            None => Loaded { state: State::initial(), migrate: false },
        },
    }
}

/// The settings, given the text of the file of today and, where there is none, that of an earlier
/// release: each is `None` where the file cannot be read.
pub fn load_state(current: Option<&str>, legacy: Option<&str>) -> (r: Loaded)
    ensures
        r == loaded(
            match current {
                Some(text) => Some(text@),
                None => None,
            },
            match legacy {
                Some(text) => Some(text@),
                None => None,
            },
        ),
{
    match current {
        Some(text) => Loaded { state: parse_state(text), migrate: false },
        None => match legacy {
            Some(text) => Loaded { state: parse_state(text), migrate: true },
            None => Loaded { state: State::default(), migrate: false },
        },
    }
}

/// The settings after a change under the write lock: the file is read again first, so that newer
/// choices of another process stay. `before` is what was loaded ahead of the lock, for a file
/// that cannot be read; `under_lock` is the file's text.
pub fn update_state(before: State, under_lock: Option<&str>, change: Change) -> (r: State)
    ensures
        r == changed(
            match under_lock {
                Some(text) => state_in_text(text@),
                None => before,
            },
            change,
        ),
{
    let state = match under_lock {
        Some(text) => parse_state(text),
        None => before,
    };
    apply_change(state, change)
}

/// A change written over a file that another process wrote keeps that process's choices: of the
/// settings written last, only those that the change is about differ.
pub proof fn law_changes_keep_newer_choices(written: State, change: Change)
    ensures
        state_in(Json::Object(flat_fields(state_members(changed(written.in_range(), change)))))
            == changed(written.in_range(), change),
{
    lemma_state_members_say_the_state(changed(written.in_range(), change));
}

/// Flipping a setting, a placement or an editor twice gives the settings back.
pub proof fn law_flips_undo_themselves(state: State)
    ensures
        changed(changed(state, Change::FlipDockRight), Change::FlipDockRight) == state,
        changed(changed(state, Change::OtherPlacement), Change::OtherPlacement) == state,
        changed(changed(state, Change::OtherEditor), Change::OtherEditor) == state,
        changed(changed(state, Change::FlipHotkeys), Change::FlipHotkeys) == state,
        changed(changed(state, Change::FlipAutoOpen), Change::FlipAutoOpen) == state,
        changed(changed(state, Change::FlipStrictToggle), Change::FlipStrictToggle) == state,
        changed(changed(state, Change::FlipFocusOnOpen), Change::FlipFocusOnOpen) == state,
        changed(changed(state, Change::FlipFollowCwd), Change::FlipFollowCwd) == state,
        changed(changed(state, Change::FlipGitDeco), Change::FlipGitDeco) == state,
{
}

} // verus!
