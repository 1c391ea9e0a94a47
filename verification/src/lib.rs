//! The logic of a sidebar for a terminal multiplexer: a file explorer that shares one pane with a
//! source-control view, or has a pane of its own.
//!
//! - Settings: `state`, `state_file`, `settings`, `icons`.
//! - Files beside the settings: `places`, `lock`, `tree_state`, `scm_state`, `drafts`, `roots`.
//! - The host: `pane`, `neovim`, `launcher`.
//! - The Explorer view: `explorer` (what it holds and asks for), `events`, `overlays`,
//!   `background`, and what it draws: `rows`, `frame`, `popups`, `layout`.
//! - Quick Open: `quick_open`, `ranking`.
//! - Building blocks: `text`, `width`, `geometry`, `input`, `menu`, `paths`, `json`.
//! - What holds of all of it: `laws` (what every event keeps), `tree_laws`, `mouse_laws`,
//!   `modal_laws` and `delete_laws` (what keys and the mouse do), `idle_laws`, `setting_laws`,
//!   `drawing_laws`, `popup_laws`, `finder_laws` and `file_laws`.
//!
//! What reaches outside (files, the socket of the host, the terminal) is left to the program: the
//! library takes and hands back plain values.

pub mod background;
pub mod delete_laws;
pub mod drafts;
pub mod drawing_laws;
pub mod events;
pub mod explorer;
pub mod file_laws;
pub mod finder_laws;
pub mod frame;
pub mod geometry;
pub mod icons;
pub mod idle_laws;
pub mod input;
pub mod json;
pub mod launcher;
pub mod laws;
pub mod layout;
pub mod lock;
pub mod menu;
pub mod modal_laws;
pub mod mouse_laws;
pub mod neovim;
pub mod overlays;
pub mod pane;
pub mod paths;
pub mod places;
pub mod popup_laws;
pub mod popups;
pub mod quick_open;
pub mod ranking;
pub mod roots;
pub mod rows;
pub mod scm_state;
pub mod setting_laws;
pub mod settings;
pub mod state;
pub mod state_file;
pub mod text;
pub mod tree_laws;
pub mod tree_state;
pub mod width;
