//! The rules of a small todo.txt command-line tool: where its files live, how
//! its configuration and task file are read, how tasks are shown, and in which
//! order a run touches the outside world.

pub mod config;
pub mod failure;
pub mod lines;
pub mod nesting;
pub mod outside;
pub mod parser;
pub mod render;
pub mod session;
pub mod task;
