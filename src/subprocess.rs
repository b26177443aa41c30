use vstd::prelude::*;

use crate::error::SignError;

verus! {

/// What `String::from_utf8_lossy` makes of a byte buffer.
pub uninterp spec fn utf8_lossy(bytes: Seq<u8>) -> Seq<char>;

/// Relies on `String::from_utf8_lossy`: the bytes decoded as UTF-8, with
/// invalid sequences replaced, as a function of the bytes alone.
#[verifier::external_body]
fn decode_lossy(bytes: &[u8]) -> (r: String)
    ensures
        r@ == utf8_lossy(bytes@),
{
    String::from_utf8_lossy(bytes).into_owned()
}

/// How a run of an out-of-process signer ended, as seen by its caller.
pub enum ChildOutcome {
    /// The executable could not be started.
    SpawnFailed,
    /// Writing the payload or reading the output failed; carries the reason.
    TransportFailed(String),
    /// The executable ran to completion.
    Exited { success: bool, stdout: Vec<u8>, stderr: Vec<u8> },
}

/// The result of signing through a subprocess, given how the subprocess run
/// ended: its standard output when it exited successfully, and otherwise the
/// error that names the failure, with its standard error decoded as text
/// when it exited with a failure status. Nothing is retried.
pub fn subprocess_result(outcome: ChildOutcome) -> (r: Result<Vec<u8>, SignError>)
    ensures
        match outcome {
            ChildOutcome::SpawnFailed => r matches Err(SignError::SpawnError),
            ChildOutcome::TransportFailed(m) => r matches Err(SignError::Io(e)) && e@ == m@,
            ChildOutcome::Exited { success, stdout, stderr } => if success {
                r matches Ok(s) && s@ == stdout@
            } else {
                r matches Err(SignError::ExternalSigningError(t)) && t@ == utf8_lossy(stderr@)
            },
        },
{
    match outcome {
        ChildOutcome::SpawnFailed => Err(SignError::SpawnError),
        ChildOutcome::TransportFailed(m) => Err(SignError::Io(m)),
        ChildOutcome::Exited { success, stdout, stderr } => {
            if success {
                Ok(stdout)
            } else {
                Err(SignError::ExternalSigningError(decode_lossy(stderr.as_slice())))
            }
        },
    }
}

} // verus!
