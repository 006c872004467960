use vstd::prelude::*;

use crate::error::Error;

verus! {

/// What the url crate's parser makes of a text: the serialized URL, or `None`
/// where the text is no valid absolute URL.
pub uninterp spec fn parsed_url(s: Seq<char>) -> Option<Seq<char>>;

/// Relies on `hyper::Url`'s `FromStr` (the url crate's parser) and on
/// `Url::into_string`: whether parsing succeeds and what the parsed URL reads back
/// as depend on the text alone.
#[verifier::external_body]
fn parse_url(s: &str) -> (r: Result<String, hyper::error::ParseError>)
    ensures
        r is Ok <==> parsed_url(s@) is Some,
        r is Ok ==> r->Ok_0@ == parsed_url(s@)->0,
{
    s.parse::<hyper::Url>().map(|u| u.into_string())
}

/// One entry of the service's `files` list.
#[derive(Debug, Clone)]
pub struct FileEntry {
    pub hash: String,
    pub name: String,
    pub url: String,
    pub size: usize,
}

/// The JSON envelope the service answers an upload with.
#[derive(Debug, Clone)]
pub struct Envelope {
    pub success: bool,
    pub files: Vec<FileEntry>,
}

/// The service accepted the upload: it reports success and lists at least one file.
pub open spec fn accepted(env: Envelope) -> bool {
    env.success && env.files@.len() > 0
}

/// The outcome of an upload whose reply decoded to `env`.
pub open spec fn envelope_outcome(env: Envelope, r: Result<String, Error>) -> bool {
    if !accepted(env) {
        r matches Err(Error::ServerError)
    } else {
        match parsed_url(env.files@[0].url@) {
            Some(u) => r is Ok && r->Ok_0@ == u,
            None => r matches Err(Error::UrlParse(_)),
        }
    }
}

/// Turns the decoded reply of the service into the uploaded file's URL.
///
/// A reply that could not be decoded keeps its error. A decoded envelope gives the
/// parsed URL of its first file when it reports success with a non-empty list, a
/// `UrlParse` error when that URL does not parse, and `ServerError` otherwise.
pub fn interpret_reply(reply: Result<Envelope, Error>) -> (r: Result<String, Error>)
    ensures
        match reply {
            Err(e) => r == Err::<String, Error>(e),
            Ok(env) => envelope_outcome(env, r),
        },
{
    match reply {
        Err(e) => Err(e),
        Ok(env) => {
            if env.success && env.files.len() > 0 {
                match parse_url(env.files[0].url.as_str()) {
                    Ok(u) => Ok(u),
                    Err(e) => Err(Error::from(e)),
                }
            } else {
                Err(Error::ServerError)
            }
        },
    }
}

/// The endpoint uploads are sent to, validated once at construction.
#[derive(Debug, Clone)]
pub struct UploadTarget {
    url: String,
}

impl UploadTarget {
    /// The endpoint's URL, as the parser reads it back.
    pub closed spec fn spec_url(&self) -> Seq<char> {
        self.url@
    }

    /// Validates `upload_url`; the target holds the URL as the parser reads it back.
    pub fn new(upload_url: &str) -> (r: Result<UploadTarget, Error>)
        ensures
            r is Ok <==> parsed_url(upload_url@) is Some,
            r is Ok ==> r->Ok_0.spec_url() == parsed_url(upload_url@)->0,
            r is Err ==> r->Err_0 is UrlParse,
    {
        match parse_url(upload_url) {
            Ok(url) => Ok(UploadTarget { url }),
            Err(e) => Err(Error::from(e)),
        }
    }

    /// The endpoint's URL.
    pub fn url(&self) -> (r: &str)
        ensures
            r@ == self.spec_url(),
    {
        self.url.as_str()
    }
}

} // verus!
