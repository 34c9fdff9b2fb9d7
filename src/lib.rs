//! Counts the open descriptors of a process, in total or split into sockets
//! and files.
pub mod fds;
pub mod handles;
pub mod linux;
pub mod outcome;
pub mod query;
