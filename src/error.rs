use vstd::prelude::*;

verus! {

/// Every way a signing attempt can fail.
#[derive(Debug, Clone)]
pub enum SignError {
    /// The key input is not a valid PEM block.
    KeyFormatError,
    /// The decoded PEM contents are too short to hold the header and the key.
    KeyLengthError,
    /// The signing executable could not be started.
    SpawnError,
    /// The signing executable ran and exited with a failure status; carries
    /// what it wrote to its standard error.
    ExternalSigningError(String),
    /// Moving bytes to or from the signing executable failed.
    Io(String),
}

} // verus!
