//! Core of a desktop game launcher: it finds the game platforms installed on
//! this machine, lists the games each of them holds, and decides how a chosen
//! game is started.
//!
//! The crate draws no window and spawns no process. Whatever touches the
//! screen or starts a program is left to the caller, which gets told what to
//! do through plain values ([`app::Effect`], [`platform::LaunchCommand`]).

pub mod app;
pub mod data;
pub mod platform;
pub mod text;
