//! A single-user task list: the tasks, the filter that selects which of them
//! are shown, the snapshot that is persisted, and the controller that turns
//! each incoming message into the next state and a list of commands.
//!
//! Nothing here touches the store or the screen. The embedding program runs
//! the commands the controller returns (saving, loading, focusing widgets,
//! playing a sound) and feeds the outcomes back in as messages.
//!
//! Two things come from outside crates and are taken on trust: task
//! identifiers are UUIDs drawn, written and read by `uuid`, and the language
//! the system asks for is read by `i18n_embed`. See [`identity`] and
//! [`language`] for what is claimed of them.

pub mod app;
pub mod filter;
pub mod identity;
pub mod invariants;
pub mod language;
pub mod persistence;
pub mod state;
pub mod task;
