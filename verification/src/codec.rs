//! The trusted boundary to the encoding crates: base64 decoding of the
//! permission blob, lossy UTF-8 recovery, and the two JSON shapes the broker
//! reads.  Each outside call is named by an uninterpreted function of its
//! input alone; everything that follows a call is verified against that name.

use base64::Engine;

use vstd::prelude::*;

verus! {

/// The byte sequence a standard-alphabet, padded base64 string decodes to,
/// or nothing when the string is not valid base64.
pub uninterp spec fn base64_decoded_of(s: Seq<char>) -> Option<Seq<u8>>;

/// Relies on base64's Engine::decode with the STANDARD engine (the standard
/// alphabet, with padding): decoding succeeds exactly on valid base64 text
/// and its result depends on the text alone.
#[verifier::external_body]
pub fn base64_decode(encoded: &str) -> (r: Option<Vec<u8>>)
    ensures
        match r {
            Some(bytes) => base64_decoded_of(encoded@) == Some(bytes@),
            None => base64_decoded_of(encoded@) is None,
        },
{
    base64::engine::general_purpose::STANDARD.decode(encoded).ok()
}

/// The character sequence lossy UTF-8 decoding yields for a byte sequence:
/// well-formed parts decode exactly, ill-formed parts become replacement
/// characters.
pub uninterp spec fn utf8_lossy_of(bytes: Seq<u8>) -> Seq<char>;

/// Relies on String::from_utf8_lossy: total, and a function of the bytes
/// alone.
#[verifier::external_body]
pub fn utf8_lossy(bytes: &Vec<u8>) -> (r: String)
    ensures
        r@ == utf8_lossy_of(bytes@),
{
    String::from_utf8_lossy(bytes).into_owned()
}

/// The capability list a permission blob holds — the blob is a JSON object
/// whose `capabilities` member is an array of strings — or nothing when the
/// text has any other shape.
pub uninterp spec fn permission_blob_of(s: Seq<char>) -> Option<Seq<Seq<char>>>;

/// Relies on serde_json::from_str and the Value accessors: parsing the
/// permission blob and reading its `capabilities` array is a function of the
/// text alone.
#[verifier::external_body]
pub fn parse_permission_blob(text: &str) -> (r: Option<Vec<String>>)
    ensures
        match r {
            Some(caps) => permission_blob_of(text@) == Some(caps.deep_view()),
            None => permission_blob_of(text@) is None,
        },
{
    let value: serde_json::Value = serde_json::from_str(text).ok()?;
    let array = value.get("capabilities")?.as_array()?;
    let mut caps: Vec<String> = Vec::new();
    for item in array {
        caps.push(item.as_str()?.to_owned());
    }
    Some(caps)
}

/// The members of a JSON object of string values, as key/value pairs in
/// ascending key order, or nothing when the text is not such an object.
pub uninterp spec fn json_string_map_of(s: Seq<char>) -> Option<Seq<(Seq<char>, Seq<char>)>>;

/// Relies on serde_json::from_str into an ordered map: deserialising
/// succeeds exactly on a JSON object of string values and is a function of
/// the text alone; the members come back ordered by key.
#[verifier::external_body]
pub fn parse_string_map(text: &str) -> (r: Option<Vec<(String, String)>>)
    ensures
        match r {
            Some(pairs) => json_string_map_of(text@) == Some(pairs.deep_view()),
            None => json_string_map_of(text@) is None,
        },
{
    let map: std::collections::BTreeMap<String, String> = serde_json::from_str(text).ok()?;
    Some(map.into_iter().collect())
}

} // verus!
