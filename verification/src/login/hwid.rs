//! The hardware fingerprint: a digest of what the platform's probe printed.

use vstd::prelude::*;
use vstd::string::*;
use vstd::utf8::encode_utf8;

verus! {

/// The text that `String::from_utf8_lossy` makes of a byte sequence.
pub uninterp spec fn utf8_lossy(bytes: Seq<u8>) -> Seq<char>;

/// A text without its leading and trailing whitespace, as `str::trim`
/// returns it.
pub uninterp spec fn trimmed(text: Seq<char>) -> Seq<char>;

/// The MD5 digest of a byte sequence, written as lower-case hexadecimal.
pub uninterp spec fn md5_hex_digest(data: Seq<u8>) -> Seq<char>;

/// `String::from_utf8_lossy`: the bytes as a string, with whatever stands
/// for ill-formed UTF-8 left to std. The contract only says that the text
/// depends on the bytes alone.
#[verifier::external_body]
fn lossy_text(bytes: &[u8]) -> (text: String)
    ensures
        text@ == utf8_lossy(bytes@),
{
    String::from_utf8_lossy(bytes).into_owned()
}

/// `str::trim`: the text without leading and trailing whitespace. What
/// counts as whitespace is left to std.
#[verifier::external_body]
fn trim(text: &str) -> (inner: &str)
    ensures
        inner@ == trimmed(text@),
{
    text.trim()
}

/// Whether a character is a hexadecimal digit in lower case.
pub open spec fn is_lower_hex(c: char) -> bool {
    ('0' <= c && c <= '9') || ('a' <= c && c <= 'f')
}

/// Whether a text is made of hexadecimal digits in lower case alone.
pub open spec fn all_lower_hex(text: Seq<char>) -> bool {
    forall|at: int| 0 <= at < text.len() ==> is_lower_hex(#[trigger] text[at])
}

/// `md5::compute`, formatted with `{:x}`: the digest's sixteen bytes as two
/// lower-case hexadecimal digits each, hence thirty-two characters, each of
/// them one of `0` to `9` and `a` to `f`.
#[verifier::external_body]
fn md5_hex(data: &[u8]) -> (digest: String)
    ensures
        digest@ == md5_hex_digest(data@),
        digest@.len() == 32,
        all_lower_hex(digest@),
{
    format!("{:x}", md5::compute(data))
}

/// The fingerprint for a probe: empty where the probe failed (`None`) or
/// printed nothing but whitespace, else the MD5 digest, in hexadecimal, of
/// the UTF-8 bytes of what it printed, trimmed.
pub open spec fn fingerprint_of(probe_output: Option<Seq<u8>>) -> Seq<char> {
    match probe_output {
        None => Seq::<char>::empty(),
        Some(bytes) => {
            let raw = trimmed(utf8_lossy(bytes));
            if raw.len() == 0 {
                Seq::<char>::empty()
            } else {
                md5_hex_digest(encode_utf8(raw))
            }
        },
    }
}

/// A probe's output as a plain value.
pub open spec fn probe_view(probe_output: Option<&[u8]>) -> Option<Seq<u8>> {
    match probe_output {
        Some(bytes) => Some(bytes@),
        None => None,
    }
}

/// Derives the hardware fingerprint from what the platform's probe printed
/// on its standard output; `None` stands for a probe that could not be run,
/// that failed, or a platform without one. An empty fingerprint means that
/// no identity is available, and comes exactly where the probe gave nothing;
/// any other fingerprint is thirty-two hexadecimal digits in lower case.
pub fn get_screen_hwid(probe_output: Option<&[u8]>) -> (fingerprint: String)
    ensures
        fingerprint@ == fingerprint_of(probe_view(probe_output)),
        fingerprint@.len() == 0 <==> (probe_output is None || trimmed(
            utf8_lossy(probe_output->0@),
        ).len() == 0),
        fingerprint@.len() == 0 || fingerprint@.len() == 32,
        all_lower_hex(fingerprint@),
{
    match probe_output {
        None => String::new(),
        Some(bytes) => {
            let text = lossy_text(bytes);
            let raw = trim(text.as_str());
            if raw.is_empty() {
                String::new()
            } else {
                md5_hex(raw.as_bytes())
            }
        },
    }
}

} // verus!
