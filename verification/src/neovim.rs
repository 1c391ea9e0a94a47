//! Opening files in the `chmarax.herdr-nvim` plugin: finding its binary in the host's answer.

use crate::json::{as_str, get, member, parse_json, parsed_json, text_in, Json};
use crate::pane::{find_with, first_with, list_in_result, result_list};
use crate::paths::{as_path, join, joined, path_from, path_from_text, path_of, path_text, show};
use crate::text::{concat2, concat3};
use std::path::PathBuf;
use vstd::prelude::*;
use vstd::string::*;

verus! {

/// The plugin that opens files.
pub const PLUGIN_ID: &'static str = "chmarax.herdr-nvim";

/// The directory of the plugin that an answer to `plugin.list` names.
pub open spec fn named_root(plugins: Seq<Json>) -> Option<Seq<char>> {
    match first_with(plugins, "plugin_id"@, PLUGIN_ID@, 0) {
        Some(plugin) => text_in(member(plugin, "plugin_root"@)),
        None => None,
    }
}

/// The installed plugin's root directory in the host's answer to `plugin.list`: the answer must
/// be JSON, hold a list of plugins, and name this plugin with its root.
pub fn plugin_root(response: &str) -> (r: Result<PathBuf, String>)
    ensures
        match parsed_json(response@) {
            Err(error) => r matches Err(text) && text@ == "bad plugin.list response: "@ + error,
            Ok(answer) => match result_list(answer, "plugins"@) {
                None => r matches Err(text) && text@
                    == "plugin.list response missing plugins array"@,
                Some(plugins) => match named_root(plugins) {
                    None => r matches Err(text) && text@ == PLUGIN_ID@ + " is not installed"@,
                    Some(root) => r == Ok::<PathBuf, String>(path_from(root)),
                },
            },
        },
{
    let answer = match parse_json(response) {
        Ok(answer) => answer,
        Err(error) => {
            return Err(concat2("bad plugin.list response: ", error.as_str()));
        },
    };
    let plugins = match list_in_result(&answer, "plugins") {
        Some(plugins) => plugins,
        None => {
            return Err("plugin.list response missing plugins array".to_owned());
        },
    };
    if let Some(plugin) = find_with(plugins, "plugin_id", PLUGIN_ID) {
        if let Some(root) = get(plugin, "plugin_root") {
            if let Some(text) = as_str(root) {
                return Ok(path_from_text(text));
            }
        }
    }
    Err(concat2(PLUGIN_ID, " is not installed"))
}

/// The plugin's binary below its root.
pub open spec fn binary_below(root: PathBuf) -> PathBuf {
    let bin = joined(path_of(root), path_of(path_from("bin"@)));
    joined(path_of(bin), path_of(path_from("herdr-nvim"@)))
}

/// The plugin's binary below its root.
pub fn binary_path(root: &PathBuf) -> (r: PathBuf)
    ensures
        r == binary_below(*root),
{
    let bin = join(as_path(root), as_path(&path_from_text("bin")));
    join(as_path(&bin), as_path(&path_from_text("herdr-nvim")))
}

/// What is said where the host cannot be asked.
pub fn unreachable_error(error: &str) -> (r: String)
    ensures
        r@ == "cannot reach herdr: "@ + error@,
{
    concat2("cannot reach herdr: ", error)
}

/// What is said where the binary cannot be run.
pub fn run_error(binary: &PathBuf, error: &str) -> (r: String)
    ensures
        r@ == "cannot run "@ + path_text(path_of(*binary)) + ": "@ + error@,
{
    let head = concat3("cannot run ", show(as_path(binary)).as_str(), ": ");
    concat2(head.as_str(), error)
}

/// What is said where the binary fails.
pub fn exit_error(status: &str) -> (r: String)
    ensures
        r@ == "herdr-nvim open-file exited with "@ + status@,
{
    concat2("herdr-nvim open-file exited with ", status)
}

} // verus!
