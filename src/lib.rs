//! Detached Ed25519 signing: loading a raw private key from a PEM block,
//! signing opaque byte buffers with it, and interpreting the outcome of an
//! out-of-process signer.

pub mod error;
pub mod key;
pub mod oracle;
pub mod subprocess;
