//! A single-screen to-do list editor: a one-line text editor, an item list
//! with a tracked selection, and the controller that routes key presses
//! between the two.

pub mod app;
pub mod decimal;
pub mod inputter;
pub mod key;
pub mod list;
pub mod text;
pub mod todo;
