//! doo: capture a task the moment it crosses your mind.
//!
//! The library holds everything the app decides: the task store over SQLite
//! (the statements it runs, and what they mean for the table),
//! what a typed capture becomes, how a task's age is shown, how the global
//! shortcut is registered, and what the command line and the tray ask for.
pub mod text;
pub mod db;
pub mod storage;
pub mod capture;
pub mod hotkey;
pub mod commands;
pub mod tray;
pub mod window;
pub mod table;
