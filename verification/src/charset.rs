//! The two outside crates that know encodings, behind contracts: `chardetng`
//! guesses the encoding of a buffer and `encoding_rs` decodes one. What either
//! returns is a function of its arguments, and is given a name here. The two
//! functions that make the calls are taken on trust; everything else in the
//! crate is proved from what they state.

use chardetng::EncodingDetector;
use encoding_rs::Encoding;
use vstd::prelude::*;
use vstd::utf8::*;

use crate::label::canonical_label;

verus! {

/// The label that the detector settles on for a file with these bytes.
pub uninterp spec fn guessed_label(bytes: Seq<u8>) -> Seq<char>;

/// The escape byte, which opens the shift sequences of ISO-2022-JP.
pub const ESCAPE: u8 = 0x1B;

/// The bytes are all ASCII and hold an escape byte: the one kind of input
/// that the detector may take for ISO-2022-JP.
pub open spec fn ascii_with_escape(bytes: Seq<u8>) -> bool {
    &&& bytes.contains(ESCAPE)
    &&& forall|i: int| 0 <= i < bytes.len() ==> #[trigger] bytes[i] < 0x80
}

/// Runs `chardetng::EncodingDetector` over the whole buffer: `new`, one `feed`
/// with `last` set, then `guess` with no top-level domain and UTF-8 allowed,
/// and takes the `name` of the encoding that comes back.
///
/// Trusted: the guess depends on the bytes alone. And `guess` answers UTF-8
/// for every input that is valid UTF-8, all-ASCII input too, with one
/// exception that it tries first: where it has seen nothing but ASCII and an
/// escape byte among it, it may answer ISO-2022-JP.
#[verifier::external_body]
pub(crate) fn guess_label(bytes: &[u8]) -> (label: String)
    ensures
        label@ == guessed_label(bytes@),
        valid_utf8(bytes@) && !ascii_with_escape(bytes@) ==> label@ == canonical_label(),
{
    let mut detector = EncodingDetector::new();
    detector.feed(bytes, true);
    detector.guess(None, true).name().to_string()
}

/// Whether the decoding layer knows an encoding by this label.
pub uninterp spec fn label_known(label: Seq<char>) -> bool;

/// The text that the encoding named by `label` makes of `bytes`, with every
/// malformed sequence replaced, and whether anything had to be replaced.
pub uninterp spec fn lossy_decoding(label: Seq<char>, bytes: Seq<u8>) -> (Seq<char>, bool);

/// The longest input that is handed to the decoder. It sets aside up to three
/// bytes of output for each byte of input, and a few more.
pub const MAX_DECODE_LEN: usize = usize::MAX / 8;

/// Looks the label up with `encoding_rs::Encoding::for_label` and, where it
/// names an encoding, decodes the whole buffer with `Encoding::decode`.
///
/// Trusted: whether the lookup succeeds depends on the label alone, and what
/// the decoder returns (the text, and whether it replaced malformed input) on
/// the label and the bytes alone. Nothing is claimed of which labels are known
/// or of what the text holds. The length bound keeps the decoder's size
/// calculation for its output buffer from overflowing, on which it panics.
#[verifier::external_body]
pub(crate) fn decode_label(label: &str, bytes: &[u8]) -> (decoded: Option<(String, bool)>)
    requires
        bytes@.len() <= MAX_DECODE_LEN,
    ensures
        decoded is Some <==> label_known(label@),
        decoded matches Some(pair) ==> (pair.0@, pair.1) == lossy_decoding(label@, bytes@),
{
    match Encoding::for_label(label.as_bytes()) {
        Some(encoding) => {
            let (text, _, replaced) = encoding.decode(bytes);
            Some((text.into_owned(), replaced))
        },
        None => None,
    }
}

} // verus!
