//! Interactive session core for a terminal package browser.
//!
//! The library models the whole interactive session as plain verified
//! state: translating key presses into commands, the mode transitions
//! of the session, the fuzzy-filtered package list with its cursor,
//! the multi-selection set, and the confirmation/running phases of a
//! package sync.  Reading the package database, drawing the screen and
//! spawning the upgrade process are left to an unverified shell around
//! this crate; the shell feeds plain values in and performs the actions
//! the session asks for.

pub mod app;
pub mod config;
pub mod fuzzy;
pub mod keyboard;
pub mod pacman;
pub mod query;
pub mod selection;
pub mod sync;
pub mod tabs;
pub mod view;
