use vstd::prelude::*;

pub mod bus;
pub mod dock_state;
pub mod draw;
pub mod game_save;
pub mod input;
pub mod mapper_base;
pub mod opcodes;
pub mod pal_file;
pub mod palettes;
pub mod mapper000;
pub mod mapper001;
pub mod mapper002;
pub mod mapper003;
pub mod mapper004;
pub mod mapper009;
pub mod mapper010;
pub mod mapper163;
pub mod ppubus;
pub mod rom;
pub mod script_trace;
pub mod terminal;
pub mod text;
