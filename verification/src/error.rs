//! The failures that the keeper distinguishes.

use vstd::prelude::*;
use vstd::string::*;

verus! {

/// A failure, by kind, with the text that explains it.
#[derive(Debug)]
pub enum Error {
    /// A setting is missing or has a value that cannot be used.
    Config(String),
    /// The login step failed.
    VaultAuth(String),
    /// The issue step failed.
    VaultPki(String),
    /// Server material could not be built, or the listener lost its source.
    Tls(String),
    /// A certificate or key could not be read from its PEM text.
    CertParse(String),
    /// An HTTP exchange failed below the level of status codes.
    Http(String),
    /// A file or socket operation failed.
    Io(String),
    /// A JSON document could not be read or written.
    Json(String),
}

/// What an [`Error`] is, with its text as a sequence of characters.
pub enum ErrorView {
    Config(Seq<char>),
    VaultAuth(Seq<char>),
    VaultPki(Seq<char>),
    Tls(Seq<char>),
    CertParse(Seq<char>),
    Http(Seq<char>),
    Io(Seq<char>),
    Json(Seq<char>),
}

impl View for Error {
    type V = ErrorView;

    open spec fn view(&self) -> ErrorView {
        match self {
            Error::Config(m) => ErrorView::Config(m@),
            Error::VaultAuth(m) => ErrorView::VaultAuth(m@),
            Error::VaultPki(m) => ErrorView::VaultPki(m@),
            Error::Tls(m) => ErrorView::Tls(m@),
            Error::CertParse(m) => ErrorView::CertParse(m@),
            Error::Http(m) => ErrorView::Http(m@),
            Error::Io(m) => ErrorView::Io(m@),
            Error::Json(m) => ErrorView::Json(m@),
        }
    }
}

impl ErrorView {
    /// The words that introduce a failure of this kind.
    pub open spec fn prefix(self) -> Seq<char> {
        match self {
            ErrorView::Config(_) => "configuration error: "@,
            ErrorView::VaultAuth(_) => "vault authentication failed: "@,
            ErrorView::VaultPki(_) => "vault PKI request failed: "@,
            ErrorView::Tls(_) => "TLS error: "@,
            ErrorView::CertParse(_) => "certificate parse error: "@,
            ErrorView::Http(_) => "HTTP request error: "@,
            ErrorView::Io(_) => "IO error: "@,
            ErrorView::Json(_) => "JSON error: "@,
        }
    }

    /// The explanation carried by the failure.
    pub open spec fn detail(self) -> Seq<char> {
        match self {
            ErrorView::Config(m) => m,
            ErrorView::VaultAuth(m) => m,
            ErrorView::VaultPki(m) => m,
            ErrorView::Tls(m) => m,
            ErrorView::CertParse(m) => m,
            ErrorView::Http(m) => m,
            ErrorView::Io(m) => m,
            ErrorView::Json(m) => m,
        }
    }

    /// The full line shown to an operator.
    pub open spec fn message(self) -> Seq<char> {
        self.prefix() + self.detail()
    }
}

impl Error {
    /// The full line shown to an operator: the kind in words, then the detail.
    pub fn message(&self) -> (line: String)
        ensures
            line@ == self@.message(),
    {
        match self {
            Error::Config(m) => String::from_str("configuration error: ").concat(m.as_str()),
            Error::VaultAuth(m) => String::from_str("vault authentication failed: ").concat(
                m.as_str(),
            ),
            Error::VaultPki(m) => String::from_str("vault PKI request failed: ").concat(m.as_str()),
            Error::Tls(m) => String::from_str("TLS error: ").concat(m.as_str()),
            Error::CertParse(m) => String::from_str("certificate parse error: ").concat(m.as_str()),
            Error::Http(m) => String::from_str("HTTP request error: ").concat(m.as_str()),
            Error::Io(m) => String::from_str("IO error: ").concat(m.as_str()),
            Error::Json(m) => String::from_str("JSON error: ").concat(m.as_str()),
        }
    }
}

} // verus!
