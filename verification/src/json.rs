//! Decoding of the two JSON shapes that the server answers with.

use std::collections::HashMap;
use vstd::hash_map::StringHashMap;
use vstd::prelude::*;

verus! {

/// The error of `serde_json`; nothing of it is read.
#[verifier::external_type_specification]
#[verifier::external_body]
pub struct ExJsonError(serde_json::Error);

/// The texts that `bytes` hold where they are a JSON array of strings and
/// nothing else, as `serde_json` reads them; `None` where they are not.
pub uninterp spec fn json_string_list(bytes: Seq<u8>) -> Option<Seq<Seq<char>>>;

/// The members that `bytes` hold where they are a JSON object whose values
/// are all strings, as `serde_json` reads them; `None` where they are not.
pub uninterp spec fn json_string_map(bytes: Seq<u8>) -> Option<Map<Seq<char>, Seq<char>>>;

/// Calls `serde_json::from_slice` for a `Vec<String>`. Trusted: whether the
/// bytes decode, and the texts they decode to, depend on the bytes alone;
/// the contract names that result and says no more of it.
#[verifier::external_body]
pub(crate) fn decode_string_list(bytes: &[u8]) -> (decoded: Result<Vec<String>, serde_json::Error>)
    ensures
        match decoded {
            Ok(names) => json_string_list(bytes@) == Some(names.deep_view()),
            Err(_) => json_string_list(bytes@) is None,
        },
{
    serde_json::from_slice::<Vec<String>>(bytes)
}

/// Calls `serde_json::from_slice` for a `HashMap<String, String>` and moves
/// the members into a map that the verifier can read. Trusted: whether the
/// bytes decode, and the members they decode to, depend on the bytes alone;
/// the contract names that result and says no more of it.
#[verifier::external_body]
pub(crate) fn decode_string_map(bytes: &[u8]) -> (decoded: Result<
    StringHashMap<String>,
    serde_json::Error,
>)
    ensures
        match decoded {
            Ok(fields) => json_string_map(bytes@) == Some(
                fields@.map_values(|value: String| value@),
            ),
            Err(_) => json_string_map(bytes@) is None,
        },
{
    let parsed = serde_json::from_slice::<HashMap<String, String>>(bytes)?;
    let mut fields = StringHashMap::new();
    for (key, value) in parsed {
        fields.insert(key, value);
    }
    Ok(fields)
}

} // verus!
