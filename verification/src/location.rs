//! `s3://` locations of buckets, key prefixes and distributions, and their
//! parsing as URLs.
use crate::error::{prefixed, DebianError, ErrorModel};
use vstd::prelude::*;

verus! {

/// What `url::Url::parse` makes of `input`: `Ok` with the parsed URL's
/// serialization, or `Err` with the text of the parse error.
pub uninterp spec fn url_parse(input: Seq<char>) -> Result<Seq<char>, Seq<char>>;

/// Parses `input` with `url::Url::parse`. The contract claims only that the
/// outcome is what `url_parse` names for `input`: the parsed URL's
/// serialization (`String::from(Url)`) on success, and the `Display` text of
/// the `url::ParseError` on failure.
#[verifier::external_body]
fn parse_url(input: &str) -> (r: Result<String, String>)
    ensures
        match r {
            Ok(s) => url_parse(input@) == Ok::<Seq<char>, Seq<char>>(s@),
            Err(m) => url_parse(input@) == Err::<Seq<char>, Seq<char>>(m@),
        },
{
    match ::url::Url::parse(input) {
        Ok(u) => Ok(String::from(u)),
        Err(e) => Err(e.to_string()),
    }
}

/// The `s3://` location of a bucket, followed by the key prefix if there is
/// one.
pub open spec fn s3_location(bucket: Seq<char>, key_prefix: Option<Seq<char>>) -> Seq<char> {
    match key_prefix {
        Some(p) => "s3://"@ + bucket + "/"@ + p,
        None => "s3://"@ + bucket,
    }
}

/// The outcome of the `url()` of a client, given the outcome of parsing its
/// location: the URL's text, or the error `Invalid S3 URL: ` with the parse
/// error's text.
pub open spec fn url_outcome(parsed: Result<Seq<char>, Seq<char>>) -> Result<Seq<char>, ErrorModel> {
    match parsed {
        Ok(u) => Ok(u),
        Err(m) => Err(ErrorModel::Other("Invalid S3 URL: "@ + m)),
    }
}

/// A `Result` of a string and an error, taken by its views.
pub open spec fn url_result_view(r: Result<String, DebianError>) -> Result<Seq<char>, ErrorModel> {
    match r {
        Ok(s) => Ok(s@),
        Err(e) => Err(e@),
    }
}

/// The `s3://` location text of a bucket and optional key prefix.
pub fn s3_location_text(bucket: &str, key_prefix: Option<&str>) -> (r: String)
    ensures
        r@ == s3_location(
            bucket@,
            match key_prefix {
                Some(p) => Some(p@),
                None => None,
            },
        ),
{
    let mut s = prefixed("s3://", bucket);
    match key_prefix {
        Some(p) => {
            s.append("/");
            s.append(p);
        },
        None => {},
    }
    s
}

/// `base`, a `/` and `rest`.
pub fn join_with_slash(base: &str, rest: &str) -> (r: String)
    ensures
        r@ == base@ + "/"@ + rest@,
{
    let mut s = String::from_str(base);
    s.append("/");
    s.append(rest);
    s
}

/// The result of a client's `url()` from the outcome of parsing its location:
/// the URL's text, or `Other("Invalid S3 URL: " + the parse error's text)`.
pub fn url_from_parsed(parsed: Result<String, String>) -> (r: Result<String, DebianError>)
    ensures
        url_result_view(r) == url_outcome(
            match parsed {
                Ok(u) => Ok::<Seq<char>, Seq<char>>(u@),
                Err(m) => Err::<Seq<char>, Seq<char>>(m@),
            },
        ),
{
    match parsed {
        Ok(u) => Ok(u),
        Err(m) => Err(DebianError::Other(prefixed("Invalid S3 URL: ", m.as_str()))),
    }
}

/// Parses a location as a URL: its text where `url::Url::parse` accepts it,
/// else `Other("Invalid S3 URL: " + the parse error's text)`.
pub fn parse_location(location: &str) -> (r: Result<String, DebianError>)
    ensures
        url_result_view(r) == url_outcome(url_parse(location@)),
{
    let parsed = parse_url(location);
    url_from_parsed(parsed)
}

} // verus!
