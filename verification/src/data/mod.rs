//! Passive records shared by the platforms and the application state.

pub mod game;
