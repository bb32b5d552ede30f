use vstd::prelude::*;

use crate::request::token_view;

verus! {

/// The path of the sync resource, resolved against the base URL.
pub const SYNC_PATH: &'static str = "/_matrix/client/r0/sync";

/// The host of the URL written `s`; `None` where `s` is no URL or names no host.
pub uninterp spec fn url_host_of(s: Seq<char>) -> Option<Seq<char>>;

/// The port of the URL written `s`, or its scheme's default port; `None`
/// where `s` is no URL or neither is known.
pub uninterp spec fn url_port_of(s: Seq<char>) -> Option<u16>;

/// The path of `p` resolved against the URL written `s`; `None` where `s` is
/// no URL or the result is none.
pub uninterp spec fn url_joined_path_of(s: Seq<char>, p: Seq<char>) -> Option<Seq<char>>;

/// Relies on url::Url::parse, then Url::host_str: the host of the URL.
#[verifier::external_body]
fn host_of(url_text: &str) -> (r: Option<String>)
    ensures
        token_view(r) == url_host_of(url_text@),
{
    url::Url::parse(url_text).ok()?.host_str().map(str::to_owned)
}

/// Relies on url::Url::parse, then Url::port_or_known_default: the explicit
/// port, or the scheme's default one.
#[verifier::external_body]
fn port_of(url_text: &str) -> (r: Option<u16>)
    ensures
        r == url_port_of(url_text@),
{
    url::Url::parse(url_text).ok()?.port_or_known_default()
}

/// Relies on url::Url::parse, then Url::join and Url::path: the path of
/// `path` resolved against the URL.
#[verifier::external_body]
fn joined_path_of(url_text: &str, path: &str) -> (r: Option<String>)
    ensures
        token_view(r) == url_joined_path_of(url_text@, path@),
{
    url::Url::parse(url_text).ok()?.join(path).ok().map(|u| u.path().to_owned())
}

/// Where the sync resource lives: the host and port to connect to, and the
/// path to request there.
pub struct Endpoint {
    pub host: String,
    pub port: u16,
    pub path: String,
}

impl Endpoint {
    /// The sync endpoint of a server given by its base URL; `None` where the
    /// base URL has no host or no known port, or the sync path cannot be
    /// resolved against it.
    pub fn from_base_url(base_url: &str) -> (r: Option<Endpoint>)
        ensures
            r is Some <==> (url_host_of(base_url@) is Some && url_port_of(base_url@) is Some
                && url_joined_path_of(base_url@, SYNC_PATH@) is Some),
            r matches Some(e) ==> (Some(e.host@) == url_host_of(base_url@) && Some(e.port) == url_port_of(
                base_url@,
            ) && Some(e.path@) == url_joined_path_of(base_url@, SYNC_PATH@)),
    {
        let host = host_of(base_url)?;
        let port = port_of(base_url)?;
        let path = joined_path_of(base_url, SYNC_PATH)?;
        Some(Endpoint { host, port, path })
    }
}

} // verus!
