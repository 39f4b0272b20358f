//! Dispatch core of a plugin-oriented command-line tool: exit-status
//! mapping, module selection, help-text digestion and argument routing
//! for external `asimov-*` executables.

pub mod dispatch;
pub mod help;
pub mod locator;
pub mod roles;
pub mod selection;
pub mod status;
pub mod text;
