//! Bridge between "open this file" requests and the frontend of a desktop
//! editor.
//!
//! A request reaches the native process either as its first command-line
//! argument or as a list of URLs in an operating-system notification. This
//! library holds the decisions that lie between such a request and the single
//! event that carries the file to the frontend: which argument counts as a
//! path, which path is looked up, what becomes a payload, and what a scheduled
//! delivery does when its grace delay has passed. Reading the file system,
//! waiting and emitting are left to the caller.

pub mod delivery;
pub mod intent;
pub mod notification;
pub mod payload;
