use vstd::prelude::*;
use vstd::string::StringExecFns;

verus! {

/// The filter sent with every sync: presence events are not wanted.
pub const PRESENCE_FILTER: &'static str = "{\"presence\":{\"not_types\":[\"m.presence\"]}}";

/// How long, in milliseconds, the server may hold a sync open.
pub const LONG_POLL_TIMEOUT: &'static str = "30000";

/// The view of an optional token.
pub open spec fn token_view(t: Option<String>) -> Option<Seq<char>> {
    match t {
        Some(s) => Some(s@),
        None => None,
    }
}

/// The view of a list of name/value pairs.
pub open spec fn pairs_view(pairs: Seq<(String, String)>) -> Seq<(Seq<char>, Seq<char>)> {
    pairs.map_values(|p: (String, String)| (p.0@, p.1@))
}

/// The query parameters of a sync request, in the order they are sent.
pub open spec fn sync_query(access_token: Seq<char>, since: Option<Seq<char>>) -> Seq<(Seq<char>, Seq<char>)> {
    let fixed = seq![
        ("access_token"@, access_token),
        ("filter"@, PRESENCE_FILTER@),
        ("timeout"@, LONG_POLL_TIMEOUT@),
    ];
    match since {
        Some(t) => fixed.push(("since"@, t)),
        None => fixed,
    }
}

/// What `application/x-www-form-urlencoded` serialisation makes of a list of pairs.
pub uninterp spec fn form_urlencoded_of(pairs: Seq<(Seq<char>, Seq<char>)>) -> Seq<char>;

/// Relies on url::form_urlencoded::Serializer (extend_pairs, then finish):
/// the query string encoding the pairs in order.
#[verifier::external_body]
fn encode_query(pairs: &Vec<(String, String)>) -> (r: String)
    ensures
        r@ == form_urlencoded_of(pairs_view(pairs@)),
{
    url::form_urlencoded::Serializer::new(String::new()).extend_pairs(pairs.iter()).finish()
}

/// A `String` with the characters of `s`.
fn owned(s: &str) -> (r: String)
    ensures
        r@ == s@,
{
    s.to_owned()
}

/// One sync request: a `GET` of `target` on `host`.
pub struct SyncRequest {
    pub host: String,
    /// Path and query string.
    pub target: String,
    /// The continuation token sent as `since`, if any.
    pub since: Option<String>,
}

/// The request target: the path, `?`, and the encoded query.
pub open spec fn request_target(path: Seq<char>, access_token: Seq<char>, since: Option<Seq<char>>) -> Seq<char> {
    path + "?"@ + form_urlencoded_of(sync_query(access_token, since))
}

/// Builds the sync request for `host` and `path`, with the credential and,
/// where a token is held, `since` set to it.
pub fn build_request(host: &String, path: &String, access_token: &String, since: &Option<String>) -> (r: SyncRequest)
    ensures
        r.host@ == host@,
        token_view(r.since) == token_view(*since),
        r.target@ == request_target(path@, access_token@, token_view(*since)),
{
    let mut pairs: Vec<(String, String)> = Vec::new();
    pairs.push((owned("access_token"), access_token.clone()));
    pairs.push((owned("filter"), owned(PRESENCE_FILTER)));
    pairs.push((owned("timeout"), owned(LONG_POLL_TIMEOUT)));
    let sent: Option<String> = match since {
        Some(t) => {
            pairs.push((owned("since"), t.clone()));
            Some(t.clone())
        },
        None => None,
    };
    proof {
        assert(pairs_view(pairs@) =~= sync_query(access_token@, token_view(*since)));
    }
    let query = encode_query(&pairs);
    let mut target = path.clone();
    target.append("?");
    target.append(query.as_str());
    SyncRequest { host: host.clone(), target, since: sent }
}

} // verus!
