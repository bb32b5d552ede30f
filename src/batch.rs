use vstd::prelude::*;

verus! {

/// The ways a sync can fail. Each one ends the sequence of batches.
#[derive(Clone, Copy, Debug, PartialEq, Eq, Structural)]
pub enum SyncError {
    /// The connection to the server could not be established.
    Connection,
    /// Reading or writing the established connection failed.
    Transport,
    /// The server answered with a status other than 200.
    Status(u16),
    /// The body of a 200 answer was not a sync batch.
    InvalidBody,
    /// The client already failed and makes no further progress.
    Terminated,
}

/// One decoded sync answer.
pub struct SyncResponse {
    /// The continuation token to send as `since` on the next request.
    pub next_batch: String,
    /// The whole JSON document, which holds the events.
    pub body: Vec<u8>,
}

/// The string held under `key` in a body that parses as a JSON object
/// holding a string there, and `None` for any other body.
pub uninterp spec fn json_string_field(body: Seq<u8>, key: Seq<char>) -> Option<Seq<char>>;

/// The continuation token of a sync body: its `next_batch` string.
pub open spec fn next_batch_in(body: Seq<u8>) -> Option<Seq<char>> {
    json_string_field(body, NEXT_BATCH_FIELD@)
}

/// The field of a sync body that holds the continuation token.
pub const NEXT_BATCH_FIELD: &'static str = "next_batch";

/// Relies on serde_json::from_slice into serde_json::Value, and on
/// Value::get and Value::as_str: the string held under `key` in the JSON
/// object of `body`.
#[verifier::external_body]
fn read_string_field(body: &Vec<u8>, key: &str) -> (r: Option<String>)
    ensures
        crate::request::token_view(r) == json_string_field(body@, key@),
{
    let doc: serde_json::Value = serde_json::from_slice(body).ok()?;
    doc.get(key).and_then(serde_json::Value::as_str).map(str::to_owned)
}

/// Decodes a 200 answer's body.
pub fn decode_batch(body: Vec<u8>) -> (r: Result<SyncResponse, SyncError>)
    ensures
        match next_batch_in(body@) {
            Some(t) => r matches Ok(b) && b.next_batch@ == t && b.body@ == body@,
            None => r == Err::<SyncResponse, SyncError>(SyncError::InvalidBody),
        },
{
    let next_batch = read_string_field(&body, NEXT_BATCH_FIELD);
    batch_from(next_batch, body)
}

/// Makes the batch of `body` from the `next_batch` field read out of it.
pub fn batch_from(next_batch: Option<String>, body: Vec<u8>) -> (r: Result<SyncResponse, SyncError>)
    ensures
        match next_batch {
            Some(t) => r matches Ok(b) && b.next_batch@ == t@ && b.body@ == body@,
            None => r == Err::<SyncResponse, SyncError>(SyncError::InvalidBody),
        },
{
    match next_batch {
        Some(t) => Ok(SyncResponse { next_batch: t, body }),
        None => Err(SyncError::InvalidBody),
    }
}

} // verus!
