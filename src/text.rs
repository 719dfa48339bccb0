use vstd::prelude::*;
use vstd::string::StringSliceAdditionalSpecFns;

verus! {

/// The longest text, in bytes, that the encoding bridge takes in one piece.
/// The encoder and decoder size their output buffers with checked arithmetic
/// and panic on overflow; below this length no such overflow can occur.
pub const MAX_TEXT_LEN: usize = 0x1000_0000;

/// Why a text could not be handed to the engine.
#[derive(Clone, Copy, Debug, PartialEq, Eq, Structural)]
pub enum EncodingError {
    /// The text holds a null byte, so it cannot be passed as a
    /// null-terminated string.
    EmbeddedNul,
    /// The text holds a character that the engine's input encoding cannot
    /// represent.
    Unrepresentable,
}

pub open spec fn has_nul(b: Seq<u8>) -> bool {
    exists|i: int| 0 <= i < b.len() && b[i] == 0
}

/// The Shift_JIS bytes of a text, or `None` where some character of it has no
/// Shift_JIS representation.
pub uninterp spec fn shift_jis_of(s: Seq<char>) -> Option<Seq<u8>>;

/// The text that a sequence of EUC-KR bytes decodes to, malformed sequences
/// replaced by U+FFFD.
pub uninterp spec fn euc_kr_text_of(b: Seq<u8>) -> Seq<char>;

/// Relies on encoding_rs's `Encoding::encode` on `SHIFT_JIS`: its output
/// depends on the text alone, and its third result reports whether some
/// character was unmappable.
#[verifier::external_body]
fn encode_shift_jis(s: &str) -> (r: Option<Vec<u8>>)
    requires
        s.spec_bytes().len() <= MAX_TEXT_LEN,
    ensures
        match r {
            Some(v) => shift_jis_of(s@) == Some(v@),
            None => shift_jis_of(s@) is None,
        },
{
    let (bytes, _, had_errors) = encoding_rs::SHIFT_JIS.encode(s);
    if had_errors {
        None
    } else {
        Some(bytes.into_owned())
    }
}

/// Relies on encoding_rs's `Encoding::decode_without_bom_handling` on
/// `EUC_KR`: its output depends on the bytes alone.
#[verifier::external_body]
fn decode_euc_kr(b: &[u8]) -> (r: String)
    requires
        b@.len() <= MAX_TEXT_LEN,
    ensures
        r@ == euc_kr_text_of(b@),
{
    encoding_rs::EUC_KR.decode_without_bom_handling(b).0.into_owned()
}

/// Whether the bytes hold a null byte.
pub fn contains_nul(b: &[u8]) -> (r: bool)
    ensures
        r == has_nul(b@),
{
    let mut i: usize = 0;
    while i < b.len()
        invariant
            i <= b@.len(),
            forall|j: int| 0 <= j < i ==> b@[j] != 0,
        decreases b@.len() - i,
    {
        if b[i] == 0 {
            return true;
        }
        i = i + 1;
    }
    false
}

/// The null-terminated form of a byte string: the bytes followed by one null
/// byte. Fails where the bytes already hold a null byte.
pub fn to_c_bytes(b: &[u8]) -> (r: Result<Vec<u8>, EncodingError>)
    ensures
        has_nul(b@) <==> r is Err,
        r matches Ok(v) ==> v@ == b@.push(0),
        r matches Err(e) ==> e == EncodingError::EmbeddedNul,
{
    if contains_nul(b) {
        return Err(EncodingError::EmbeddedNul);
    }
    let mut v: Vec<u8> = Vec::new();
    let mut i: usize = 0;
    while i < b.len()
        invariant
            i <= b@.len(),
            v@ == b@.subrange(0, i as int),
        decreases b@.len() - i,
    {
        v.push(b[i]);
        i = i + 1;
    }
    v.push(0);
    assert(b@.subrange(0, b@.len() as int) == b@);
    Ok(v)
}

/// The null-terminated form of a host string, taken byte for byte.
pub fn c_string(s: &str) -> (r: Result<Vec<u8>, EncodingError>)
    ensures
        has_nul(s.spec_bytes()) <==> r is Err,
        r matches Ok(v) ==> v@ == s.spec_bytes().push(0),
        r matches Err(e) ==> e == EncodingError::EmbeddedNul,
{
    to_c_bytes(s.as_bytes())
}

/// What the engine is handed for a host text: its Shift_JIS bytes, null
/// terminated. A null in the text is refused before any encoding.
pub open spec fn engine_input(s: &str) -> Result<Seq<u8>, EncodingError> {
    if has_nul(s.spec_bytes()) {
        Err(EncodingError::EmbeddedNul)
    } else {
        match shift_jis_of(s@) {
            None => Err(EncodingError::Unrepresentable),
            Some(b) => if has_nul(b) {
                Err(EncodingError::EmbeddedNul)
            } else {
                Ok(b.push(0))
            },
        }
    }
}

/// Converts host text to the engine's input form: null-terminated Shift_JIS.
/// Characters that Shift_JIS lacks are an error, never replaced.
pub fn encode_for_engine(text: &str) -> (r: Result<Vec<u8>, EncodingError>)
    requires
        text.spec_bytes().len() <= MAX_TEXT_LEN,
    ensures
        match r {
            Ok(v) => engine_input(text) == Ok::<Seq<u8>, EncodingError>(v@),
            Err(e) => engine_input(text) == Err::<Seq<u8>, EncodingError>(e),
        },
{
    if contains_nul(text.as_bytes()) {
        return Err(EncodingError::EmbeddedNul);
    }
    match encode_shift_jis(text) {
        None => Err(EncodingError::Unrepresentable),
        Some(encoded) => to_c_bytes(encoded.as_slice()),
    }
}

/// Converts the engine's output bytes (EUC-KR, without the terminating null)
/// to host text. Malformed sequences are replaced, not rejected.
pub fn decode_from_engine(bytes: &[u8]) -> (r: String)
    requires
        bytes@.len() <= MAX_TEXT_LEN,
    ensures
        r@ == euc_kr_text_of(bytes@),
{
    decode_euc_kr(bytes)
}

} // verus!
