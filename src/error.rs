//! The library's error taxonomy.
use vstd::prelude::*;

verus! {

/// Which kind of filesystem failure an `IOError` reports.
#[derive(Debug, Clone, Copy, PartialEq, Eq, Structural)]
pub enum IoErrorKind {
    NotFound,
    Other,
}

/// Every failure that an invocation can end with. Each carries a
/// human-readable diagnostic where one exists.
#[derive(Debug)]
pub enum Error {
    /// The environment-sourced configuration is malformed.
    ConfigError(String),
    /// `list` was combined with a webhook name or injected values.
    InvalidArgsError,
    /// The inventory directory or a template file could not be read.
    IOError(IoErrorKind, String),
    /// The substituted template is not JSON of the shape `{url, data}`.
    TemplateError(String),
    /// The webhook's URL is not an absolute URL.
    UrlError(String),
    /// The request could not be delivered.
    NetworkError(String),
    /// Any other failure (an HTTP client that cannot be set up, a body that
    /// cannot be serialised).
    UnexpectedError(String),
}

impl Error {
    /// A short description of the error for the user.
    pub fn message(&self) -> (r: String)
        ensures
            self is InvalidArgsError ==> r@ == "Can't use those arguments together"@,
            self matches Error::ConfigError(m) ==> r@ == m@,
            self matches Error::IOError(_, m) ==> r@ == m@,
            self matches Error::TemplateError(m) ==> r@ == m@,
            self matches Error::UrlError(m) ==> r@ == m@,
            self matches Error::NetworkError(m) ==> r@ == m@,
            self matches Error::UnexpectedError(m) ==> r@ == m@,
    {
        match self {
            Error::ConfigError(m) => m.clone(),
            Error::InvalidArgsError => "Can't use those arguments together".to_string(),
            Error::IOError(_, m) => m.clone(),
            Error::TemplateError(m) => m.clone(),
            Error::UrlError(m) => m.clone(),
            Error::NetworkError(m) => m.clone(),
            Error::UnexpectedError(m) => m.clone(),
        }
    }
}

} // verus!
