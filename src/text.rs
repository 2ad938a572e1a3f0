//! Text views: regions of guest memory checked to be well-formed UTF-8.
use vstd::prelude::*;
use vstd::string::StringSliceAdditionalSpecFns;
use vstd::utf8::{decode_utf8, encode_utf8, is_continuation_byte, valid_utf8};

use crate::memory::{BorrowedView, MarshalError};

verus! {

broadcast use vstd::utf8::group_utf8_lib;

/// Relies on `std::str::from_utf8`: it succeeds exactly when the bytes are
/// well-formed UTF-8 (no overlong forms, surrogates or truncated sequences),
/// and then returns a `str` over those same bytes.
#[verifier::external_body]
fn str_from_utf8<'a>(b: &'a [u8]) -> (r: Option<&'a str>)
    ensures
        r is Some <==> valid_utf8(b@),
        r matches Some(s) ==> s.spec_bytes() == b@,
{
    std::str::from_utf8(b).ok()
}

/// Text borrowed from guest memory, known to be well-formed UTF-8.
pub struct Text<'a> {
    s: &'a str,
}

impl<'a> View for Text<'a> {
    type V = Seq<char>;

    closed spec fn view(&self) -> Seq<char> {
        self.s@
    }
}

impl<'a> Text<'a> {
    /// The text as a `str`.
    pub fn as_str(&self) -> (r: &'a str)
        ensures
            r@ == self@,
    {
        self.s
    }

    /// Re-encodes the text as UTF-8 bytes.
    pub fn as_bytes(&self) -> (r: &'a [u8])
        ensures
            r@ == encode_utf8(self@),
    {
        self.s.as_bytes()
    }
}

/// Reads a view as UTF-8 text. Fails with `InvalidEncoding` when its bytes
/// are not well-formed UTF-8; there is no partial decoding.
pub fn view_as_text<'a>(view: &BorrowedView<'a>) -> (r: Result<Text<'a>, MarshalError>)
    ensures
        r is Ok <==> valid_utf8(view@),
        r is Err ==> r == Err::<Text<'a>, MarshalError>(MarshalError::InvalidEncoding),
        r matches Ok(t) ==> t@ == decode_utf8(view@),
{
    match str_from_utf8(view.as_slice()) {
        Some(s) => {
            proof {
                assert(decode_utf8(encode_utf8(s@)) == s@);
            }
            Ok(Text { s })
        },
        None => Err(MarshalError::InvalidEncoding),
    }
}

/// Decoding well-formed bytes as text and encoding that text again gives
/// back exactly the original bytes.
pub proof fn lemma_text_round_trip(bytes: Seq<u8>)
    requires
        valid_utf8(bytes),
    ensures
        encode_utf8(decode_utf8(bytes)) == bytes,
{
}

/// Bytes that begin with a continuation byte, such as a lone `0x80`, are
/// never well-formed UTF-8, so a text view of them is refused.
pub proof fn lemma_leading_continuation_rejected(bytes: Seq<u8>)
    requires
        bytes.len() > 0,
        is_continuation_byte(bytes[0]),
    ensures
        !valid_utf8(bytes),
{
}

} // verus!
