//! A diary keeper: files that arrive in a watched directory are filed away
//! into one folder per calendar day, `<home>/.diary/<YYYY-MM-DD>/`.
//!
//! The crate holds the decisions of the keeper: which folder a day has, where
//! a file goes, what a watch event asks for, what the service answers and what
//! a command line means. Touching the disk, the bus and the watcher is left to
//! the program around it, which carries out the steps that are planned here.

pub mod client;
pub mod date;
pub mod folder;
pub mod path;
pub mod relocate;
pub mod service;
pub mod watch;
