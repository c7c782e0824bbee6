//! A terminal file mover: browse directories, mark files, and move the marked
//! files into a chosen directory.
//!
//! The library holds the browser's state machine. Each key press goes through
//! `App::step`, which changes the state and names the outside work to do next
//! (list a directory, rename files). The program around it performs that work
//! and hands the outcome back through `App::show_listing` and
//! `App::record_move`.

pub mod browser;
pub mod cursor;
pub mod paths;
pub mod selection;

pub use browser::{Action, App, DestMode, Input, MoveRequest, Status};
