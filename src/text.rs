use vstd::prelude::*;
use vstd::string::StringSliceAdditionalSpecFns;

verus! {

/// The text that a byte sequence decodes to as UTF-8, each malformed
/// sequence standing as U+FFFD.
pub uninterp spec fn utf8_lossy(bytes: Seq<u8>) -> Seq<char>;

/// Relies on `String::from_utf8_lossy`: the text depends on the bytes alone.
#[verifier::external_body]
fn from_utf8_lossy(bytes: &[u8]) -> (r: String)
    ensures
        r@ == utf8_lossy(bytes@),
{
    String::from_utf8_lossy(bytes).into_owned()
}

/// The guest `encode` helper: the UTF-8 bytes of `text`.
pub fn encode(text: &str) -> (r: Vec<u8>)
    ensures
        r@ == text.spec_bytes(),
{
    vstd::slice::slice_to_vec(text.as_bytes())
}

/// The guest `decode` helper: the text of UTF-8 `bytes`.
pub fn decode(bytes: &[u8]) -> (r: String)
    ensures
        r@ == utf8_lossy(bytes@),
{
    from_utf8_lossy(bytes)
}

} // verus!
