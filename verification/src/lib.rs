//! Decision logic of a quake-style drop-down terminal for the COSMIC desktop.

pub mod text;
pub mod action;
pub mod config;
pub mod process;
pub mod ipc;
pub mod wayland;
pub mod quake;
