//! Backend-independent core of an audio volume controller.
//!
//! The crate decides and the host acts: nothing here starts a process,
//! reads the environment or looks at a file. Each operation names the
//! command to run or the file to look for, and says what the host's report
//! of the attempt means.

pub mod audio;
pub mod cli;
pub mod path;
pub mod scan;
pub mod sh;
pub mod sound;
pub mod text;
