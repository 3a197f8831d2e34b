//! Canonical HTTPS origins.

use vstd::prelude::*;
use crate::outside;
use crate::outside::{https_url_origin, parse_url};
use crate::wire::text::text_equal;

verus! {

/// The parts of a parsed URL.
#[derive(Debug)]
pub struct UrlParts {
    /// The scheme.
    pub scheme: String,
    /// Whether there is a host.
    pub has_host: bool,
    /// The user name, empty where there is none.
    pub username: String,
    /// Whether there is a password.
    pub has_password: bool,
    /// The path.
    pub path: String,
    /// Whether there is a query.
    pub has_query: bool,
    /// Whether there is a fragment.
    pub has_fragment: bool,
}

impl UrlParts {
    /// The parts as plain values.
    pub open spec fn view(&self) -> (Seq<char>, bool, Seq<char>, bool, Seq<char>, bool, bool) {
        (
            self.scheme@,
            self.has_host,
            self.username@,
            self.has_password,
            self.path@,
            self.has_query,
            self.has_fragment,
        )
    }
}

/// The parts are those of an HTTPS origin: there is a host, and nothing but the
/// scheme, the host and perhaps a port.
pub open spec fn is_https_origin(
    parts: (Seq<char>, bool, Seq<char>, bool, Seq<char>, bool, bool),
) -> bool {
    &&& parts.0 == "https"@
    &&& parts.1
    &&& parts.2 == ""@
    &&& !parts.3
    &&& parts.4 == "/"@
    &&& !parts.5
    &&& !parts.6
}

/// `text` parses as an HTTPS origin and is exactly its serialization.
pub open spec fn is_canonical_origin(text: Seq<char>) -> bool {
    match outside::url_parsed(text) {
        Some(parts) => is_https_origin(parts) && outside::url_origin_of(text) == text,
        None => false,
    }
}

/// Whether the parts are those of an HTTPS origin.
pub fn has_https_origin_parts(parts: &UrlParts) -> (https: bool)
    ensures
        https == is_https_origin(parts@),
{
    text_equal(parts.scheme.as_str(), "https") && parts.has_host && text_equal(
        parts.username.as_str(),
        "",
    ) && !parts.has_password && text_equal(parts.path.as_str(), "/") && !parts.has_query
        && !parts.has_fragment
}

/// Whether `text` is exactly the serialization of an HTTPS origin.
pub fn is_canonical_https_origin(text: &str) -> (canonical: bool)
    ensures
        canonical == is_canonical_origin(text@),
{
    match parse_url(text) {
        Some(parts) => has_https_origin_parts(&parts) && text_equal(
            https_url_origin(text).as_str(),
            text,
        ),
        None => false,
    }
}

} // verus!
