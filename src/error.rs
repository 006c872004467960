use vstd::prelude::*;

verus! {

#[verifier::external_type_specification]
#[verifier::external_body]
pub struct ExParseError(hyper::error::ParseError);

/// Every failure the uploader and the watcher can report, one variant per kind.
#[derive(Debug)]
pub enum Error {
    /// The HTTP exchange with the service failed.
    Http(String),
    /// A URL (the endpoint, or the one the service returned) could not be parsed.
    UrlParse(hyper::error::ParseError),
    /// The TLS client could not be set up or negotiated.
    Tls(String),
    /// The service's reply was not a JSON envelope of the expected shape.
    Json(String),
    /// The user's pictures directory could not be looked up.
    Xdg(String),
    /// The path given to the watcher is not an existing directory.
    NotADirectory(String),
    /// The clipboard provider could not be opened.
    Clipboard(String),
    /// The directory subscription could not be set up or read.
    Watch(String),
    /// The service answered, but reported failure or returned no file.
    ServerError,
}

impl From<hyper::error::ParseError> for Error {
    fn from(e: hyper::error::ParseError) -> (r: Error) {
        Error::UrlParse(e)
    }
}

impl vstd::std_specs::convert::FromSpecImpl<hyper::error::ParseError> for Error {
    open spec fn obeys_from_spec() -> bool {
        true
    }

    open spec fn from_spec(e: hyper::error::ParseError) -> Error {
        Error::UrlParse(e)
    }
}

} // verus!
