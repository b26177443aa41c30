use vstd::prelude::*;

use crate::error::SignError;

verus! {

/// Length of the structural header that precedes the raw key in the decoded PEM contents.
pub const KEY_HEADER_LEN: usize = 16;

/// Length of a raw Ed25519 private scalar.
pub const SECRET_LEN: usize = 32;

/// What `pem::parse` finds in a byte buffer: the decoded contents of its
/// PEM block, or nothing when the buffer holds no well-formed block.
pub uninterp spec fn pem_decode(input: Seq<u8>) -> Option<Seq<u8>>;

/// Relies on `pem::parse` together with `Pem::into_contents`: the decoded
/// binary contents of the block on success, an error otherwise; the outcome
/// depends on the input bytes alone.
#[verifier::external_body]
fn parse_pem(input: &[u8]) -> (r: Option<Vec<u8>>)
    ensures
        match r {
            Some(c) => pem_decode(input@) == Some(c@),
            None => pem_decode(input@) is None,
        },
{
    pem::parse(input).ok().map(|p| p.into_contents())
}

/// The raw key that a PEM input denotes, when it denotes one: the 32 bytes
/// that follow the 16-byte header of the decoded contents.
pub open spec fn key_of_pem(input: Seq<u8>) -> Option<Seq<u8>> {
    match pem_decode(input) {
        Some(c) => if c.len() >= KEY_HEADER_LEN + SECRET_LEN {
            Some(c.subrange(KEY_HEADER_LEN as int, (KEY_HEADER_LEN + SECRET_LEN) as int))
        } else {
            None
        },
        None => None,
    }
}

/// A raw Ed25519 private scalar, always exactly 32 bytes long.
pub struct PrivateKey {
    bytes: Vec<u8>,
}

impl PrivateKey {
    #[verifier::type_invariant]
    spec fn inv(&self) -> bool {
        self.bytes@.len() == SECRET_LEN
    }

    /// The key's bytes.
    pub closed spec fn view(&self) -> Seq<u8> {
        self.bytes@
    }

    /// The 32 bytes of the key.
    pub fn secret(&self) -> (r: &[u8])
        ensures
            r@ == self@,
            r@.len() == SECRET_LEN,
    {
        proof {
            use_type_invariant(self);
        }
        self.bytes.as_slice()
    }
}

/// Loads a private key from a PEM block: decodes it, skips the 16-byte
/// header of its contents without inspecting it and keeps the next 32 bytes.
/// Fails with `KeyFormatError` when the input is no PEM block and with
/// `KeyLengthError` when the contents are shorter than 48 bytes.
pub fn load_key(pem_bytes: &[u8]) -> (r: Result<PrivateKey, SignError>)
    ensures
        match pem_decode(pem_bytes@) {
            None => r matches Err(SignError::KeyFormatError),
            Some(c) => if c.len() < KEY_HEADER_LEN + SECRET_LEN {
                r matches Err(SignError::KeyLengthError)
            } else {
                r matches Ok(k) && k@ == c.subrange(
                    KEY_HEADER_LEN as int,
                    (KEY_HEADER_LEN + SECRET_LEN) as int,
                )
            },
        },
        r is Ok <==> key_of_pem(pem_bytes@) is Some,
        r matches Ok(k) ==> key_of_pem(pem_bytes@) == Some(k@),
{
    let contents = match parse_pem(pem_bytes) {
        Some(c) => c,
        None => return Err(SignError::KeyFormatError),
    };
    if contents.len() < KEY_HEADER_LEN + SECRET_LEN {
        return Err(SignError::KeyLengthError);
    }
    let mut bytes: Vec<u8> = Vec::with_capacity(SECRET_LEN);
    let mut i: usize = 0;
    while i < SECRET_LEN
        invariant
            0 <= i <= SECRET_LEN,
            contents@.len() >= KEY_HEADER_LEN + SECRET_LEN,
            bytes@ == contents@.subrange(KEY_HEADER_LEN as int, (KEY_HEADER_LEN + i) as int),
        decreases SECRET_LEN - i,
    {
        bytes.push(contents[KEY_HEADER_LEN + i]);
        i = i + 1;
        assert(bytes@ =~= contents@.subrange(KEY_HEADER_LEN as int, (KEY_HEADER_LEN + i) as int));
    }
    Ok(PrivateKey { bytes })
}

} // verus!
