use vstd::prelude::*;

verus! {

/// The serialization of the absolute URL that `url` parses `s` to, or `None`
/// where `s` is no absolute URL.
pub uninterp spec fn parsed_url(s: Seq<char>) -> Option<Seq<char>>;

/// The domain of the URL that `url` parses `s` to; `None` where `s` does not
/// parse or its host is no domain (an IP address, or no host at all).
pub uninterp spec fn url_domain(s: Seq<char>) -> Option<Seq<char>>;

/// Relies on url::Url::parse and the URL's serialization: `Some` of the
/// normalized absolute URL when `s` parses, `None` when it does not.
#[verifier::external_body]
pub(crate) fn parse_url(s: &str) -> (r: Option<String>)
    ensures
        r.deep_view() == parsed_url(s@),
{
    match url::Url::parse(s) {
        Ok(u) => Some(String::from(u)),
        Err(_) => None,
    }
}

/// Relies on url::Url::parse and url::Url::domain: the domain of the URL
/// that `s` parses to.
#[verifier::external_body]
pub(crate) fn domain_of(s: &str) -> (r: Option<String>)
    ensures
        r.deep_view() == url_domain(s@),
{
    match url::Url::parse(s) {
        Ok(u) => u.domain().map(String::from),
        Err(_) => None,
    }
}

} // verus!
