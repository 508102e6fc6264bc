use vstd::prelude::*;

verus! {

/// Everything that can stop a launch, from configuration checks to process
/// handling.
///
/// Failures reported by the operating system or by parsers arrive as their
/// message text.
#[derive(Debug, Clone, PartialEq, Eq)]
pub enum Error {
    /// No configuration file was given and none was found.
    NoConfig,
    /// A filesystem path is not representable as UTF-8 text.
    InvalidPath,
    /// The port is declared by more than one node, or twice by one node.
    PortInUse(u16),
    /// An external process ran but reported failure.
    ProcessFailed(String),
    /// A JSON document lacks a value of the expected kind under the key.
    InvalidJsonValue(String),
    /// An input/output operation failed (spawning, killing, writing a file).
    Io(String),
    /// The termination-signal handler could not be installed.
    Ctrlc(String),
    /// A JSON document could not be parsed.
    ParseJson(String),
    /// Process output was not valid UTF-8.
    FromUtf8(String),
    /// A configuration could not be serialized or deserialized.
    Serde(SerdeError),
}

/// Failures of configuration (de)serialization.
#[derive(Debug, Clone, PartialEq, Eq)]
pub enum SerdeError {
    Serialize(String),
    Deserialize(String),
}

} // verus!
