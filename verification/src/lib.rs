//! A verified model of a `tail -f` style file follower.
//!
//! The library holds the logic of following a file that is appended to,
//! truncated, deleted and recreated: the classification of filesystem
//! notifications, the shared cell through which the watch callback resumes a
//! suspended reader, and the lifecycle state machine that decides, at each
//! step of a poll, whether to open, seek, read, suspend or terminate.
//! The asynchronous file handles and the OS watch subscription that drive
//! these decisions live outside the library and feed it plain events.

pub mod cell;
pub mod events;
pub mod laws;
pub mod machine;
pub mod notifier;
