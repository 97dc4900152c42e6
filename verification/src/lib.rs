//! Core definitions, input handling, memory bookkeeping and protocol code generation for the
//! Perceptia surface compositor.

pub mod enums;
pub mod modifier;
pub mod mode_name;
pub mod timing;
pub mod defs;
pub mod keys;
pub mod text;
pub mod binding_functions;
pub mod input_manager;
pub mod config;
pub mod image;
pub mod buffer;
pub mod memory;
pub mod surface;
pub mod transfer;
pub mod keyboard_state;
pub mod ipc;
pub mod skylane;
pub mod env;
pub mod scanner;
pub mod yaml;
pub mod framework;
pub mod traits;
pub mod gl_tools;
