//! Text as bytes: a text crosses every boundary as the UTF-8 encoding of its
//! characters.

use crate::sexpr::Value;
use vstd::prelude::*;
use vstd::utf8::{decode_utf8, encode_utf8, encode_utf8_decode_utf8, valid_utf8};

verus! {

/// The bytes of a text value.
pub open spec fn text_bytes(v: Value) -> Seq<u8>
    recommends
        v is Text,
{
    encode_utf8(v->Text_0)
}

/// Two texts with the same bytes are the same text: to compare texts by
/// their characters is to compare them by their bytes.
pub proof fn lemma_same_bytes_same_text(a: Seq<char>, b: Seq<char>)
    requires
        encode_utf8(a) == encode_utf8(b),
    ensures
        a == b,
{
    encode_utf8_decode_utf8(a);
    encode_utf8_decode_utf8(b);
}

/// `core::str::Utf8Error`, the error of `core::str::from_utf8`. It is
/// declared so that the result of that function has a type here; nothing is
/// said of what it holds.
#[verifier::external_type_specification]
#[verifier::external_body]
pub struct ExUtf8Error(core::str::Utf8Error);

/// `core::str::from_utf8` succeeds exactly on the byte runs that are valid
/// UTF-8, and the string slice it then returns is made of the bytes given.
pub assume_specification[ core::str::from_utf8 ](v: &[u8]) -> (r: Result<
    &str,
    core::str::Utf8Error,
>)
    ensures
        r is Ok <==> valid_utf8(v@),
        r is Ok ==> encode_utf8(r->Ok_0@) == v@,
;

/// The text that the bytes encode, if they are valid UTF-8.
pub fn text_of(bytes: &[u8]) -> (text: Option<String>)
    ensures
        text is Some <==> valid_utf8(bytes@),
        text is Some ==> text->Some_0@ == decode_utf8(bytes@) && encode_utf8(text->Some_0@)
            == bytes@,
{
    match core::str::from_utf8(bytes) {
        Ok(text) => {
            proof {
                encode_utf8_decode_utf8(text@);
            }
            Some(text.to_owned())
        },
        Err(_) => None,
    }
}

} // verus!
