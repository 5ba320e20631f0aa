//! What holds across functions: laws of finding, naming and showing sessions, of their files,
//! and of every run of a command.

pub mod calling;
pub mod client;
pub mod colors;
pub mod creating;
pub mod ending;
pub mod entering;
pub mod files;
pub mod finding;
pub mod history;
pub mod layouts;
pub mod listing;
pub mod messages;
pub mod naming;
pub mod picking;
pub mod reaching;
pub mod records;
pub mod refreshing;
pub mod remote;
pub mod removing;
pub mod running;
pub mod showing;
pub mod starting;
pub mod storing;
pub mod telling;
