//! Cloning: the authenticated clone URL for private repositories.
use vstd::prelude::*;
use crate::text::{replace, replaced};

verus! {

pub struct RepoCloner;

/// The URL with an access token in its authority: every "https://" and then
/// every "http://" gains the user "x-access-token" with `token` as password.
pub open spec fn authenticated_url_of(url: Seq<char>, token: Seq<char>) -> Seq<char> {
    replaced(
        replaced(url, "https://"@, "https://x-access-token:"@ + token + "@"@),
        "http://"@,
        "http://x-access-token:"@ + token + "@"@,
    )
}

impl RepoCloner {
    pub fn new() -> (r: Self) {
        RepoCloner
    }

    /// The URL to clone a private repository with `token`.
    pub fn authenticated_url(&self, url: &str, token: &str) -> (r: String)
        ensures
            r@ == authenticated_url_of(url@, token@),
    {
        proof {
            reveal_strlit("https://");
            reveal_strlit("http://");
        }
        let https = "https://x-access-token:".to_string().concat(token).concat("@");
        let http = "http://x-access-token:".to_string().concat(token).concat("@");
        let a = replace(url, "https://", https.as_str());
        replace(a.as_str(), "http://", http.as_str())
    }
}

} // verus!
