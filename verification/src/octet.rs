//! A byte-buffer wrapper, exposed to scripts as an opaque handle with
//! encoding helpers: url-safe unpadded base64 in both directions, and
//! UTF-8 text in both directions.
//!
//! The base64 codec is an outside collaborator; what it returns is given
//! the name [`b64_of`] and relied on only through the two trusted
//! declarations below. The UTF-8 relation needs no trusted name: the
//! standard library is held to `vstd`'s own encoding functions.

use vstd::prelude::*;

use crate::errors::Error;
use crate::value::StaticUserData;

verus! {

/// The url-safe unpadded base64 text of a byte string, as the base64
/// collaborator computes it. A pure function of the bytes alone.
pub uninterp spec fn b64_of(bytes: Seq<u8>) -> Seq<char>;

/// Relies on `base64::encode_config` with `URL_SAFE_NO_PAD`: the
/// encoding depends on the bytes alone, and writes four characters for
/// every three bytes, the final group shortened, never padded.
#[verifier::external_body]
fn b64_encode(bytes: &Vec<u8>) -> (r: String)
    ensures
        r@ == b64_of(bytes@),
        r@.len() == (bytes@.len() * 4 + 2) / 3,
{
    base64::encode_config(bytes, base64::URL_SAFE_NO_PAD)
}

/// Relies on `base64::decode_config` with `URL_SAFE_NO_PAD`: handed the
/// exact encoding of some byte string, it returns those bytes. (It also
/// accepts some texts no encoder produces, for example padded ones;
/// nothing is claimed of them.) A rejected text is a host-side shape
/// failure.
#[verifier::external_body]
fn b64_decode(s: &str) -> (r: Result<Vec<u8>, Error>)
    ensures
        r is Ok <== exists|bs: Seq<u8>| s@ == b64_of(bs),
        r matches Ok(v) ==> forall|bs: Seq<u8>| s@ == b64_of(bs) ==> v@ == bs,
        r matches Err(e) ==> e matches Error::Shape,
{
    base64::decode_config(s, base64::URL_SAFE_NO_PAD).map_err(|_| Error::Shape)
}

/// Relies on `std`'s `String::from_utf8`: succeeds exactly on valid
/// UTF-8, returning the text whose bytes are the input, here stated
/// through `vstd`'s own UTF-8 encoding functions. Invalid bytes are a
/// host-side shape failure.
#[verifier::external_body]
fn utf8_string(bytes: Vec<u8>) -> (r: Result<String, Error>)
    ensures
        r is Ok <==> vstd::utf8::valid_utf8(bytes@),
        r matches Ok(s) ==> s@ == vstd::utf8::decode_utf8(bytes@)
            && vstd::utf8::encode_utf8(s@) == bytes@,
        r matches Err(e) ==> e matches Error::Shape,
{
    std::string::String::from_utf8(bytes).map_err(|_| Error::Shape)
}

/// A wrapper around a byte string for use inside and outside the engine.
/// Scripts see it as a handle whose methods re-encode the bytes; the
/// host reads and builds it through the conversions below.
#[derive(Clone, Debug, PartialEq)]
pub struct Octet(Vec<u8>);

impl View for Octet {
    type V = Seq<u8>;

    closed spec fn view(&self) -> Seq<u8> {
        self.0@
    }
}

impl Octet {
    /// Wraps a byte vector.
    pub fn new(bytes: Vec<u8>) -> (r: Self)
        ensures
            r@ == bytes@,
    {
        Octet(bytes)
    }

    /// How many bytes the buffer holds.
    pub fn len(&self) -> (n: usize)
        ensures
            n == self@.len(),
    {
        self.0.len()
    }

    /// The bytes themselves.
    pub fn as_bytes(&self) -> (r: &Vec<u8>)
        ensures
            r@ == self@,
    {
        &self.0
    }

    /// The bytes, surrendered.
    pub fn into_bytes(self) -> (r: Vec<u8>)
        ensures
            r@ == self@,
    {
        self.0
    }

    /// A copy of this buffer, byte for byte.
    pub fn duplicate(&self) -> (r: Octet)
        ensures
            r@ == self@,
    {
        Octet(self.0.clone())
    }

    /// Reads an url-safe unpadded base64 text into a buffer: the exact
    /// encoding of any byte string yields exactly those bytes back.
    pub fn from_base64(s: &str) -> (r: Result<Octet, Error>)
        ensures
            r is Ok <== exists|bs: Seq<u8>| s@ == b64_of(bs),
            r matches Ok(o) ==> forall|bs: Seq<u8>| s@ == b64_of(bs) ==> o@ == bs,
            r matches Err(e) ==> e matches Error::Shape,
    {
        match b64_decode(s) {
            Ok(bytes) => Ok(Octet(bytes)),
            Err(e) => Err(e),
        }
    }

    /// The buffer's url-safe unpadded base64 text.
    pub fn to_base64(&self) -> (r: String)
        ensures
            r@ == b64_of(self@),
            r@.len() == (self@.len() * 4 + 2) / 3,
    {
        b64_encode(&self.0)
    }

    /// Wraps a text's UTF-8 bytes; never fails.
    pub fn from_string(s: &str) -> (r: Octet)
        ensures
            r@ == vstd::utf8::encode_utf8(s@),
    {
        Octet(s.as_bytes_vec())
    }

    /// Reads the buffer back as UTF-8 text: succeeds exactly when the
    /// bytes are valid UTF-8, with the text they encode.
    pub fn to_text(&self) -> (r: Result<String, Error>)
        ensures
            r is Ok <==> vstd::utf8::valid_utf8(self@),
            r matches Ok(s) ==> s@ == vstd::utf8::decode_utf8(self@)
                && vstd::utf8::encode_utf8(s@) == self@,
            r matches Err(e) ==> e matches Error::Shape,
    {
        utf8_string(self.0.clone())
    }
}

impl StaticUserData for Octet {
    open spec fn spec_handle_tag(&self) -> Seq<char> {
        "octet"@
    }

    fn handle_tag(&self) -> (r: &'static str)
        ensures
            r@ == self.spec_handle_tag(),
    {
        "octet"
    }
}

impl Default for Octet {
    /// The empty buffer.
    fn default() -> (r: Self)
        ensures
            r@ == Seq::<u8>::empty(),
    {
        Octet(Vec::new())
    }
}

/// TEXT ROUND TRIP: a text written into a buffer reads back as the same
/// text, because UTF-8 encoding is left-invertible.
pub proof fn lemma_octet_text_round_trip(s: Seq<char>)
    ensures
        vstd::utf8::valid_utf8(vstd::utf8::encode_utf8(s)),
        vstd::utf8::decode_utf8(vstd::utf8::encode_utf8(s)) == s,
{
    vstd::utf8::encode_utf8_valid_utf8(s);
    vstd::utf8::encode_utf8_decode_utf8(s);
}

} // verus!
