//! Startup logic of the desktop host shell: which framework plugins are
//! registered and in what order, when the event loop may start, when the
//! context-menu suppression script is injected, and which failures end the
//! process.
//!
//! The host framework itself is driven from outside this crate: it reports
//! what happened as an [`Event`] and performs the [`Action`] handed back by
//! [`Bootstrap::step`].

mod bootstrap;
mod plugin;

pub use bootstrap::{
    error_message, initial_state, lemma_registration_order, lemma_script_once_per_webview,
    on_surface, registrations, run_from, transition, Action, Bootstrap, Event, Phase, StartupError,
    CONTEXT_MENU_SCRIPT, LOOP_FAILED_MESSAGE, MAIN_WINDOW, MAIN_WINDOW_MISSING_MESSAGE,
};
pub use plugin::{plugin_at, plugin_order, plugin_sequence, Plugin, PLUGIN_COUNT};
