use vstd::prelude::*;

verus! {

/// Whether the text is an absolute URL, as the `url` crate parses URLs.
pub uninterp spec fn url_parses(s: Seq<char>) -> bool;

/// Relies on url::Url::parse: `Ok` exactly for the texts that parse as an
/// absolute URL, which depends on the text alone.
#[verifier::external_body]
pub(crate) fn parse_url(s: &str) -> (r: bool)
    ensures
        r == url_parses(s@),
{
    url::Url::parse(s).is_ok()
}

} // verus!
