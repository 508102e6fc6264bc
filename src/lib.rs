//! Launches a fixed set of validator and collator node binaries as child
//! processes and supervises them until a termination signal arrives.
//!
//! The library holds the logic: node descriptors and the command lines they
//! render, the port uniqueness check, the per-process task record, and the
//! supervisor as a state machine. The program around it performs the process
//! and signal work that the state machine asks for.
pub mod config;
pub mod error;
pub mod json_text;
pub mod launcher;
pub mod node;
pub mod path_buffer;
pub mod ports;
pub mod sub_command;
pub mod task;
pub mod util;

pub use config::Config;
pub use error::Error;
pub use launcher::Launcher;
pub use path_buffer::PathBuffer;
pub use task::{Task, TaskManager};
