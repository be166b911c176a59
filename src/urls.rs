//! URL parsing, joining and query handling, through the `url` crate.

use vstd::prelude::*;
use crate::error::SmugMugError;
use crate::params::TextPair;
use crate::text::pairs_view;

verus! {

#[verifier::external_type_specification]
#[verifier::external_body]
pub struct ExParseError(url::ParseError);

/// The serialisation of `input` parsed as an absolute URL, if it parses.
pub uninterp spec fn parsed_url(input: Seq<char>) -> Option<Seq<char>>;

/// The serialisation of `input` parsed with the pairs appended,
/// form-urlencoded, to its query, if it parses.
pub uninterp spec fn parsed_url_with_params(input: Seq<char>, params: Seq<TextPair>) -> Option<
    Seq<char>,
>;

/// The serialisation of `input` resolved against `base`, if both parse.
pub uninterp spec fn joined_url(base: Seq<char>, input: Seq<char>) -> Option<Seq<char>>;

/// The serialisation of `url` without its query and fragment, if it parses.
pub uninterp spec fn url_without_query(url: Seq<char>) -> Option<Seq<char>>;

/// The decoded pairs of the query of `url`, in order, if it parses.
pub uninterp spec fn url_query_pairs(url: Seq<char>) -> Option<Seq<TextPair>>;

/// Relies on url::Url::parse: parses an absolute URL and serialises it.
#[verifier::external_body]
pub(crate) fn parse_url(input: &str) -> (r: Result<String, url::ParseError>)
    ensures
        r matches Ok(s) ==> parsed_url(input@) == Some(s@),
        r is Err ==> parsed_url(input@) is None,
{
    url::Url::parse(input).map(String::from)
}

/// Relies on url::Url::parse_with_params: parses `input` and appends the
/// pairs to its query.
#[verifier::external_body]
pub(crate) fn parse_url_with_params(input: &str, params: &Vec<(String, String)>) -> (r: Result<
    String,
    url::ParseError,
>)
    ensures
        r matches Ok(s) ==> parsed_url_with_params(input@, pairs_view(params@)) == Some(s@),
        r is Err ==> parsed_url_with_params(input@, pairs_view(params@)) is None,
{
    url::Url::parse_with_params(input, params).map(String::from)
}

/// Relies on url::Url::parse of `base`, then Url::join of `input` onto it.
#[verifier::external_body]
pub(crate) fn join_url(base: &str, input: &str) -> (r: Result<String, url::ParseError>)
    ensures
        r matches Ok(s) ==> joined_url(base@, input@) == Some(s@),
        r is Err ==> joined_url(base@, input@) is None,
{
    url::Url::parse(base).and_then(|b| b.join(input)).map(String::from)
}

/// Relies on url::Url::parse, then Url::set_query(None) and
/// Url::set_fragment(None).
#[verifier::external_body]
pub(crate) fn strip_query(input: &str) -> (r: Result<String, url::ParseError>)
    ensures
        r matches Ok(s) ==> url_without_query(input@) == Some(s@),
        r is Err ==> url_without_query(input@) is None,
{
    url::Url::parse(input).map(
        |mut u| {
            u.set_query(None);
            u.set_fragment(None);
            String::from(u)
        },
    )
}

/// Relies on url::Url::parse, then Url::query_pairs: the decoded pairs of
/// the query.
#[verifier::external_body]
pub(crate) fn query_pairs(input: &str) -> (r: Result<Vec<(String, String)>, url::ParseError>)
    ensures
        r matches Ok(v) ==> url_query_pairs(input@) == Some(pairs_view(v@)),
        r is Err ==> url_query_pairs(input@) is None,
{
    url::Url::parse(input).map(|u| u.query_pairs().into_owned().collect())
}

/// A URL error as the library reports it.
pub(crate) fn url_error(_e: url::ParseError) -> (r: SmugMugError)
    ensures
        r is UrlParsing,
{
    SmugMugError::UrlParsing
}

} // verus!
