use vstd::prelude::*;

verus! {

/// The error of `serde_json`, carried through as it came.
#[verifier::external_type_specification]
#[verifier::external_body]
pub struct ExJsonError(serde_json::Error);

/// What `serde_json` finds in `text` under `key`: `None` where `text` is no
/// JSON document, `Some(None)` where it is one but is no object, or has no
/// member `key`, or that member is no JSON string, and the string otherwise.
pub uninterp spec fn json_string_member(text: Seq<char>, key: Seq<char>) -> Option<
    Option<Seq<char>>,
>;

/// Calls `serde_json::from_str` for a `serde_json::Value`, indexes the value by
/// `key` and reads the member with `Value::as_str`. The contract names the
/// outcome `json_string_member`: the parser's error comes back exactly where
/// the name is `None`, and the text handed out is the one the name gives.
#[verifier::external_body]
pub(crate) fn parse_string_member(text: &str, key: &str) -> (parsed: Result<
    Option<String>,
    serde_json::Error,
>)
    ensures
        match parsed {
            Ok(Some(member)) => json_string_member(text@, key@) == Some(Some(member@)),
            Ok(None) => json_string_member(text@, key@) == Some(None::<Seq<char>>),
            Err(_) => json_string_member(text@, key@) is None,
        },
{
    let value: serde_json::Value = serde_json::from_str(text)?;
    Ok(value[key].as_str().map(str::to_owned))
}

} // verus!
