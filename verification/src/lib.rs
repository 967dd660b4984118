//! Decides, path by path, what has to happen on the file system so that a
//! regular file exists at the path with fresh timestamps: which directory to
//! create first, whether the file itself must be created, and what the result
//! for the path is once the file system has answered.
//!
//! The library never touches the file system. It asks its caller to carry out
//! one request at a time and is told the reply.

pub mod path;
pub mod outcome;
pub mod time;
pub mod protocol;
pub mod materializer;
pub mod report;
pub mod world;
pub mod laws;
