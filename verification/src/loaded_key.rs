//! A Solana keypair together with the 64 bytes it was built from. Only the decoding
//! functions of this module make one, so the bytes always are the key's own
//! (`Keypair::to_bytes`): secret half, then public half.
use vstd::prelude::*;
use solana_sdk::signature::Keypair;

verus! {

/// A Solana keypair (opaque to the proofs).
#[verifier::external_type_specification]
#[verifier::external_body]
pub struct ExKeypair(Keypair);

/// Whether `Keypair::try_from(&[u8])` accepts `bytes`.
pub uninterp spec fn spec_keypair_bytes_valid(bytes: Seq<u8>) -> bool;

/// The 64 keypair bytes that `Keypair::try_from_base58_string` decodes from `text` and
/// accepts, or nothing when it fails.
pub uninterp spec fn spec_base58_keypair_bytes(text: Seq<char>) -> Option<Seq<u8>>;

/// A keypair and its bytes; its view is the bytes.
pub struct LoadedKeypair {
    key: Keypair,
    bytes: Vec<u8>,
}

impl View for LoadedKeypair {
    type V = Seq<u8>;

    closed spec fn view(&self) -> Seq<u8> {
        self.bytes@
    }
}

impl LoadedKeypair {
    /// The key's 64 bytes: secret half, then public half.
    pub fn bytes(&self) -> (r: &Vec<u8>)
        ensures
            r@ == self@,
    {
        &self.bytes
    }

    /// The keypair.
    pub fn keypair(&self) -> &Keypair {
        &self.key
    }

    /// The keypair, taken out.
    pub fn into_keypair(self) -> Keypair {
        self.key
    }
}

/// Calls `Keypair::try_from(&[u8])` of solana-keypair and keeps `Keypair::to_bytes` of the
/// result. Claimed: it succeeds exactly on the byte strings the named predicate holds of,
/// never on a length other than 64, and the key it builds has exactly the bytes given (the
/// source rebuilds the secret key from the first half and accepts only when the second half
/// is its public key, and `to_bytes` gives secret then public half). Not stated: which byte
/// strings are valid keypairs (that is ed25519 key derivation).
#[verifier::external_body]
pub(crate) fn keypair_from_bytes(bytes: &[u8]) -> (r: Option<LoadedKeypair>)
    ensures
        r is Some <==> spec_keypair_bytes_valid(bytes@),
        bytes@.len() != 64 ==> r is None,
        r matches Some(k) ==> k@ == bytes@,
{
    match Keypair::try_from(bytes) {
        Ok(key) => Some(LoadedKeypair { bytes: key.to_bytes().to_vec(), key }),
        Err(_) => None,
    }
}

/// Calls `Keypair::try_from_base58_string` of solana-keypair and keeps `Keypair::to_bytes`
/// of the result. Claimed: the key's bytes are the named function of the text (the source
/// decodes 64 bytes with five8 and builds the key from them as `try_from` does), and it
/// fails exactly where that names nothing. Not stated: which texts decode to a valid
/// keypair.
#[verifier::external_body]
pub(crate) fn keypair_from_base58_text(text: &str) -> (r: Option<LoadedKeypair>)
    ensures
        match r {
            Some(k) => spec_base58_keypair_bytes(text@) == Some(k@) && k@.len() == 64,
            None => spec_base58_keypair_bytes(text@) is None,
        },
{
    match Keypair::try_from_base58_string(text) {
        Ok(key) => Some(LoadedKeypair { bytes: key.to_bytes().to_vec(), key }),
        Err(_) => None,
    }
}

} // verus!
