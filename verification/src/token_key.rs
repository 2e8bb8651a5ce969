//! API token keys and their URL-safe base64 text form.

use base64::Engine;
use vstd::prelude::*;

verus! {

#[verifier::external_type_specification]
#[verifier::external_body]
pub struct ExDecodeError(base64::DecodeError);

/// The text that the `base64` crate's URL-safe, padded engine produces for the given bytes.
pub uninterp spec fn base64_url_encoding(data: Seq<u8>) -> Seq<char>;

/// The bytes that the `base64` crate's URL-safe, padded engine decodes the given text to, or
/// `None` where it reports a decode error.
pub uninterp spec fn base64_url_decoding(text: Seq<char>) -> Option<Seq<u8>>;

/// Calls `base64::Engine::encode` on a `GeneralPurpose` engine built from `alphabet::URL_SAFE`
/// and `GeneralPurposeConfig::new()` (padding on, canonical padding required on decode).
/// Trusted: the text is the named encoding of the input, four characters for every three bytes
/// or part of three (padding on, as `encoded_len` computes it), and the same engine decodes it
/// back to the input (the crate's round-trip tests exercise this). `encode` panics only when the
/// encoded length overflows `usize`, which the length bound rules out.
#[verifier::external_body]
fn engine_encode(data: &[u8]) -> (text: String)
    requires
        data@.len() <= isize::MAX,
    ensures
        text@ == base64_url_encoding(data@),
        text@.len() == 4 * ((data@.len() + 2) / 3),
        base64_url_decoding(text@) == Some(data@),
{
    base64::engine::GeneralPurpose::new(
        &base64::alphabet::URL_SAFE,
        base64::engine::GeneralPurposeConfig::new(),
    ).encode(data)
}

/// Calls `base64::Engine::decode` on the same URL-safe, padded engine.
/// Trusted: `Ok` exactly when the named decoding exists, with those bytes; the contents of the
/// `DecodeError` are not described.
#[verifier::external_body]
fn engine_decode(text: &str) -> (res: Result<Vec<u8>, base64::DecodeError>)
    ensures
        match res {
            Ok(bytes) => base64_url_decoding(text@) == Some(bytes@),
            Err(_) => base64_url_decoding(text@) is None,
        },
{
    base64::engine::GeneralPurpose::new(
        &base64::alphabet::URL_SAFE,
        base64::engine::GeneralPurposeConfig::new(),
    ).decode(text)
}

/// Calls `zeroize::Zeroize::zeroize` on a byte vector. Trusted: the vector is cleared afterwards
/// (the crate overwrites the elements and spare capacity with zeros, then calls `clear`).
#[verifier::external_body]
fn zeroize_bytes(buf: &mut Vec<u8>)
    ensures
        final(buf)@ == Seq::<u8>::empty(),
{
    zeroize::Zeroize::zeroize(buf)
}

/// A deimos token key: random bytes that travel as URL-safe base64 text
pub struct DeimosTokenKey {
    bytes: Vec<u8>,
}

impl View for DeimosTokenKey {
    type V = Seq<u8>;

    closed spec fn view(&self) -> Seq<u8> {
        self.bytes@
    }
}

impl Clone for DeimosTokenKey {
    fn clone(&self) -> (copy: Self)
        ensures
            copy@ == self@,
    {
        DeimosTokenKey { bytes: self.bytes.clone() }
    }
}

impl DeimosTokenKey {
    /// Create a new token from the given bytes
    pub fn from_bytes(data: Vec<u8>) -> (key: Self)
        ensures
            key@ == data@,
    {
        DeimosTokenKey { bytes: data }
    }

    /// Attempt to decode a token key from base64 as it is encoded in API calls
    pub fn from_base64(string: &str) -> (res: Result<Self, base64::DecodeError>)
        ensures
            res is Ok <==> base64_url_decoding(string@) is Some,
            res matches Ok(key) ==> base64_url_decoding(string@) == Some(key@),
    {
        match engine_decode(string) {
            Ok(bytes) => Ok(Self::from_bytes(bytes)),
            Err(e) => Err(e),
        }
    }

    /// Encode the token key in base64 for use in HTTP headers; decoding the text gives the key
    /// back
    pub fn to_base64(&self) -> (text: String)
        requires
            self@.len() <= isize::MAX,
        ensures
            text@ == base64_url_encoding(self@),
            text@.len() == 4 * ((self@.len() + 2) / 3),
            base64_url_decoding(text@) == Some(self@),
    {
        engine_encode(self.bytes.as_slice())
    }

    /// The raw bytes of the key
    pub fn as_bytes(&self) -> (bytes: &[u8])
        ensures
            bytes@ == self@,
    {
        self.bytes.as_slice()
    }

    /// Copy the raw bytes of the key into a new vector
    pub fn to_bytes(&self) -> (bytes: Vec<u8>)
        ensures
            bytes@ == self@,
    {
        let mut out: Vec<u8> = Vec::new();
        let mut i: usize = 0;
        while i < self.bytes.len()
            invariant
                i <= self.bytes@.len(),
                out@ == self.bytes@.subrange(0, i as int),
            decreases self.bytes@.len() - i,
        {
            out.push(self.bytes[i]);
            i = i + 1;
        }
        out
    }

    /// The text shown when a key is debug-printed: never the key itself
    pub fn debug_text(&self) -> (text: &'static str)
        ensures
            text@ == "LEAKED DEIMOS AUTH TOKEN"@,
    {
        "LEAKED DEIMOS AUTH TOKEN"
    }

    /// Overwrite the key material with zeros and forget it, as done when a key is dropped
    pub fn wipe(&mut self)
        ensures
            final(self)@ == Seq::<u8>::empty(),
    {
        zeroize_bytes(&mut self.bytes);
    }
}

} // verus!
