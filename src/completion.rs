use vstd::prelude::*;
use crate::text::concat;

verus! {

/// Why a completion produced no reply.
#[derive(Debug, Clone)]
pub enum CompletionError {
    /// The request could not be sent or its answer not read.
    Transport(String),
    /// The answer's body is not JSON.
    Parse,
    /// The answer is JSON but holds no string at `choices[0].message.content`.
    Extraction,
}

/// What a JSON document `body` holds at `body[outer][index][inner][leaf]`,
/// where each step takes an object member or an array position: `None` where
/// `body` is not JSON, `Some(None)` where that place holds no string.
pub uninterp spec fn json_str_at(
    body: Seq<char>,
    outer: Seq<char>,
    index: nat,
    inner: Seq<char>,
    leaf: Seq<char>,
) -> Option<Option<Seq<char>>>;

/// The place of the reply in a completion response body:
/// `choices[0].message.content`.
pub open spec fn reply_at(body: Seq<char>) -> Option<Option<Seq<char>>> {
    json_str_at(body, "choices"@, 0, "message"@, "content"@)
}

/// The plain form of what `json_string_at` hands back.
pub open spec fn lookup_view(found: Option<Option<String>>) -> Option<Option<Seq<char>>> {
    match found {
        None => None,
        Some(None) => Some(None),
        Some(Some(c)) => Some(Some(c@)),
    }
}

/// Relies on `serde_json::from_str` into a `serde_json::Value`, then on its
/// indexing by key and by position (`Null` wherever the key or position is
/// missing or the value is of another kind) and on `Value::as_str`: the
/// outcome depends on the arguments alone.
#[verifier::external_body]
fn json_string_at(body: &str, outer: &str, index: usize, inner: &str, leaf: &str) -> (r: Option<
    Option<String>,
>)
    ensures
        lookup_view(r) == json_str_at(body@, outer@, index as nat, inner@, leaf@),
{
    match serde_json::from_str::<serde_json::Value>(body) {
        Ok(v) => Some(v[outer][index][inner][leaf].as_str().map(|c| c.to_string())),
        Err(_) => None,
    }
}

/// The reply from the outcome of a lookup: the content where there is one,
/// `Parse` where the body was not JSON, `Extraction` where it held no string.
pub fn reply_from_lookup(found: Option<Option<String>>) -> (r: Result<String, CompletionError>)
    ensures
        match found {
            Some(Some(c)) => r is Ok && r->Ok_0 == c,
            Some(None) => r matches Err(CompletionError::Extraction),
            None => r matches Err(CompletionError::Parse),
        },
{
    match found {
        Some(Some(c)) => Ok(c),
        Some(None) => Err(CompletionError::Extraction),
        None => Err(CompletionError::Parse),
    }
}

/// The assistant's reply in a completion response body: the string at
/// `choices[0].message.content`.
pub fn extract_reply(body: &str) -> (r: Result<String, CompletionError>)
    ensures
        match reply_at(body@) {
            Some(Some(c)) => r is Ok && r->Ok_0@ == c,
            Some(None) => r matches Err(CompletionError::Extraction),
            None => r matches Err(CompletionError::Parse),
        },
{
    reply_from_lookup(json_string_at(body, "choices", 0, "message", "content"))
}

/// The endpoint that completions are posted to under `base_url`.
pub fn completion_url(base_url: &str) -> (r: String)
    ensures
        r@ == base_url@ + "/chat/completions"@,
{
    concat(base_url, "/chat/completions")
}

/// The `Authorization` header value that carries `api_key`.
pub fn authorization_value(api_key: &str) -> (r: String)
    ensures
        r@ == "Bearer "@ + api_key@,
{
    concat("Bearer ", api_key)
}

impl CompletionError {
    /// A sentence that says what went wrong.
    pub fn message(&self) -> (r: String)
        ensures
            match self {
                CompletionError::Transport(why) => r@ == "Failed to send request: "@ + why@,
                CompletionError::Parse => r@ == "Failed to parse JSON"@,
                CompletionError::Extraction => r@ == "Failed to extract content from response"@,
            },
    {
        match self {
            CompletionError::Transport(why) => concat("Failed to send request: ", why.as_str()),
            CompletionError::Parse => String::from_str("Failed to parse JSON"),
            CompletionError::Extraction => String::from_str("Failed to extract content from response"),
        }
    }
}

} // verus!
