use vstd::prelude::*;

pub mod about;
pub mod app_state;
pub mod config_window;
pub mod digits;
pub mod display;
pub mod instruction;
pub mod panels;
