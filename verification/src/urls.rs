//! Trusted boundary to the `url` crate.
//!
//! The client keeps its base address as a parsed `url::Url` and resolves
//! each operation's relative path against it.  A URL is modelled by
//! `url_text`, its serialization, which `Url::as_str` returns; resolution is
//! a function of the two texts alone.

use vstd::prelude::*;

verus! {

#[verifier::external_type_specification]
#[verifier::external_body]
pub struct ExUrl(url::Url);

#[verifier::external_type_specification]
#[verifier::external_body]
pub struct ExUrlParseError(url::ParseError);

/// The serialization of a URL: the result of `Url::as_str`.
pub uninterp spec fn url_text(u: url::Url) -> Seq<char>;

/// The outcome of resolving an input against a base URL: the serialization
/// of the resolved URL, or `None` when the two do not combine into a URL.
pub uninterp spec fn url_join_of(base: Seq<char>, input: Seq<char>) -> Option<Seq<char>>;

/// Relies on `Url::as_str`: the exact serialization of the URL.
#[verifier::external_body]
pub(crate) fn url_as_str(u: &url::Url) -> (r: String)
    ensures
        r@ == url_text(*u),
{
    u.as_str().to_owned()
}

/// Relies on `Url::join`: resolves the input against the base URL, and
/// fails exactly when no URL can be parsed from the input with this base.
#[verifier::external_body]
pub(crate) fn url_join(base: &url::Url, input: &str) -> (r: Result<url::Url, url::ParseError>)
    ensures
        match r {
            Ok(u) => url_join_of(url_text(*base), input@) == Some(url_text(u)),
            Err(_) => url_join_of(url_text(*base), input@) is None,
        },
{
    base.join(input)
}

} // verus!
