//! Identity codec: fixed-width 32-byte identities to and from their
//! canonical base-58 text form.

use vstd::prelude::*;

verus! {

/// Error returned when a text does not denote exactly 32 bytes.
#[derive(Clone, Copy, Debug, PartialEq, Eq, Structural)]
pub enum IdentityError {
    InvalidIdentityFormat,
}

/// Whether a byte string is a well-formed identity: exactly 32 bytes.
pub open spec fn is_identity(b: Seq<u8>) -> bool {
    b.len() == 32
}

/// The canonical base-58 text form of a byte string, as bs58 produces it.
pub uninterp spec fn base58_of(b: Seq<u8>) -> Seq<char>;

/// What base-58 decoding yields for a text: the byte string it denotes, or
/// nothing when the text is not valid base-58.
pub uninterp spec fn base58_decoded(s: Seq<char>) -> Option<Seq<u8>>;

/// Relies on bs58::encode: the base-58 text of the input bytes, a
/// deterministic function of the bytes alone.
#[verifier::external_body]
fn bs58_encode(b: &[u8]) -> (r: String)
    ensures
        r@ == base58_of(b@),
{
    bs58::encode(b).into_string()
}

/// Relies on bs58::decode: the inverse of bs58::encode. Decoding succeeds
/// exactly on valid base-58 texts, and decoding the encoding of any byte
/// string returns that byte string.
#[verifier::external_body]
fn bs58_decode(s: &str) -> (r: Option<Vec<u8>>)
    ensures
        (r is Some) == (base58_decoded(s@) is Some),
        r is Some ==> Some(r->0@) == base58_decoded(s@),
        forall|b: Seq<u8>| s@ == #[trigger] base58_of(b) ==> r is Some && r->0@ == b,
{
    bs58::decode(s).into_vec().ok()
}

/// The canonical text form of a 32-byte identity.
pub fn encode(identity: &Vec<u8>) -> (r: String)
    requires
        is_identity(identity@),
    ensures
        r@ == base58_of(identity@),
{
    bs58_encode(identity.as_slice())
}

/// The inverse of [`encode`]: recovers the 32 bytes an identity text
/// denotes, and rejects any text that does not denote exactly 32 bytes.
pub fn decode(s: &str) -> (r: Result<Vec<u8>, IdentityError>)
    ensures
        r matches Ok(v) ==> base58_decoded(s@) == Some(v@) && is_identity(v@),
        r is Err ==> !(base58_decoded(s@) matches Some(v) && is_identity(v)),
        forall|b: Seq<u8>|
            is_identity(b) && s@ == #[trigger] base58_of(b) ==> (r matches Ok(v) && v@ == b),
{
    match bs58_decode(s) {
        Some(v) => {
            if v.len() == 32 {
                Ok(v)
            } else {
                Err(IdentityError::InvalidIdentityFormat)
            }
        },
        None => Err(IdentityError::InvalidIdentityFormat),
    }
}

} // verus!
