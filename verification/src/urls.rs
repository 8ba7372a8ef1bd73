//! URL domain extraction.
//!
//! Activity and actor identifiers are absolute URLs carried as strings. The
//! only structure the engine reads out of them is the domain name, which the
//! anti-loopback rule and the identifier cross-checks compare.

use vstd::prelude::*;

verus! {

/// The domain name that a URL string declares: `Some` when the string parses
/// as an absolute URL whose host is a domain name, `None` otherwise. What the
/// domain is on a given string is decided by the `url` crate and is not stated
/// here; it is a function of the string alone.
pub uninterp spec fn url_domain(s: Seq<char>) -> Option<Seq<char>>;

/// Relies on `url::Url::parse` and `url::Url::domain`: parsing is
/// deterministic and the domain is a function of the URL string alone.
#[verifier::external_body]
fn parse_domain(s: &String) -> (r: Option<String>)
    ensures
        match r {
            Some(d) => url_domain(s@) == Some(d@),
            None => url_domain(s@) is None,
        },
{
    match url::Url::parse(s.as_str()) {
        Ok(u) => u.domain().map(|d| d.to_string()),
        Err(_) => None,
    }
}

/// Whether the URL string parses and declares any domain at all. This is the
/// shape check applied to every identifier the engine validates.
pub fn has_domain(s: &String) -> (r: bool)
    ensures
        r == (url_domain(s@) is Some),
{
    parse_domain(s).is_some()
}

/// Both URL strings declare a domain and the two domains are equal.
pub open spec fn spec_domains_match(a: Seq<char>, b: Seq<char>) -> bool {
    url_domain(a) is Some && url_domain(a) == url_domain(b)
}

/// Whether two URL strings declare the same domain, as the identifier
/// cross-checks of activity verification require.
pub fn domains_match(a: &String, b: &String) -> (r: bool)
    ensures
        r == spec_domains_match(a@, b@),
{
    let da = parse_domain(a);
    let db = parse_domain(b);
    match (da, db) {
        (Some(x), Some(y)) => x == y,
        _ => false,
    }
}

/// The URL string declares exactly the given domain.
pub open spec fn spec_declares_domain(s: Seq<char>, domain: Seq<char>) -> bool {
    url_domain(s) == Some(domain)
}

/// Whether the URL string declares exactly the given domain. The anti-loopback
/// rule asks this of every inbound activity identifier against the local
/// node's own hostname.
pub fn declares_domain(s: &String, domain: &String) -> (r: bool)
    ensures
        r == spec_declares_domain(s@, domain@),
{
    match parse_domain(s) {
        Some(d) => d == *domain,
        None => false,
    }
}

} // verus!
