use vstd::prelude::*;
use vstd::utf8::*;

verus! {

/// Whether the byte sequence holds a null byte anywhere.
pub open spec fn has_nul(bytes: Seq<u8>) -> bool {
    exists|i: int| 0 <= i < bytes.len() && bytes[i] == 0
}

/// Whether `s` can cross the native boundary as a null-terminated string,
/// that is, whether its UTF-8 encoding holds no null byte.
pub open spec fn is_native_text(s: Seq<char>) -> bool {
    !has_nul(encode_utf8(s))
}

/// The byte offset of the first null byte in the UTF-8 encoding of `text`, if
/// there is one. Text with a null byte cannot be handed to the native layer.
pub fn nul_position(text: &str) -> (r: Option<usize>)
    ensures
        r is None <==> is_native_text(text@),
        r matches Some(i) ==> {
            &&& i < encode_utf8(text@).len()
            &&& encode_utf8(text@)[i as int] == 0
            &&& forall|j: int| 0 <= j < i ==> encode_utf8(text@)[j] != 0
        },
{
    let bytes = text.as_bytes();
    let mut i: usize = 0;
    while i < bytes.len()
        invariant
            bytes@ == encode_utf8(text@),
            i <= bytes@.len(),
            forall|j: int| 0 <= j < i ==> bytes@[j] != 0,
        decreases bytes@.len() - i,
    {
        if bytes[i] == 0 {
            return Some(i);
        }
        i = i + 1;
    }
    None
}

/// The text that lossy UTF-8 decoding makes of a byte sequence: each invalid
/// sequence becomes U+FFFD.
pub uninterp spec fn lossy_text(bytes: Seq<u8>) -> Seq<char>;

/// Relies on `String::from_utf8_lossy`: the result depends on the bytes alone,
/// and bytes that are valid UTF-8 decode to exactly the text they encode.
#[verifier::external_body]
fn from_utf8_lossy(bytes: &[u8]) -> (r: String)
    ensures
        r@ == lossy_text(bytes@),
        valid_utf8(bytes@) ==> r@ == decode_utf8(bytes@),
{
    String::from_utf8_lossy(bytes).into_owned()
}

/// Decodes a native byte string into text, replacing invalid sequences rather
/// than failing.
pub fn decode_lossy(bytes: &[u8]) -> (r: String)
    ensures
        r@ == lossy_text(bytes@),
        valid_utf8(bytes@) ==> r@ == decode_utf8(bytes@),
{
    from_utf8_lossy(bytes)
}

} // verus!
