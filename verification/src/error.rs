//! Errors of the link and the wording of their messages.

use vstd::prelude::*;

use crate::text::join_texts;

verus! {

/// What went wrong.
#[derive(Clone, Copy, Debug, PartialEq, Eq, Structural)]
pub enum ErrorKind {
    /// The client authentication switch holds something else than a truth value.
    UnknownClientAuth,
    /// The server name verification switch holds something else than a truth value.
    UnknownServerNameVerification,
    /// A base64 value could not be decoded.
    Base64,
    /// The private key file could not be read.
    InvalidKeyFile,
    /// The private key file is empty.
    EmptyKey,
    /// No private key is configured.
    MissingKey,
    /// The certificate file could not be read.
    InvalidCertificateFile,
    /// No certificate is configured.
    MissingCertificates,
    /// The server's certificates are no well-formed PEM.
    ServerCertificate,
    /// The server's private key is no well-formed PEM.
    ServerKey,
    /// The server's private key holds no key of a known kind.
    NoServerKey,
    /// The client's certificates are no well-formed PEM.
    ClientCertificate,
    /// The client's private key is no well-formed PEM.
    ClientKey,
    /// The client's private key holds no key of a known kind.
    NoClientKey,
    /// Clients are to authenticate themselves, and no root certificate is configured.
    MissingRootCertificates,
    /// The file with the root certificates could not be opened.
    RootCertificateFile,
    /// The root certificates are no well-formed PEM, or could not be read to the end.
    PemCertificates,
    /// A root certificate holds no trust anchor.
    TrustAnchor,
    /// The TLS stack refused a server configuration.
    Tls,
    /// The TLS stack refused the protocol parameters of a client.
    ConfigParameters,
    /// The TLS stack refused a client's certificate or key.
    BadCertificateKey,
    /// A link to an endpoint failed at its configuration.
    LinkConfig,
    /// A link to a server failed.
    Link,
    /// A listener on an address failed at its configuration.
    ListenerConfig,
    /// A listener on an address failed.
    Listener,
    /// A locator could not be built.
    Locator,
    /// A listener could not be noted.
    Noting,
    /// There is no listener on an address.
    UnknownListener,
    /// The address of a listening socket could not be had.
    Accept,
    /// The address of an endpoint could not be used.
    Address,
    /// An operation on the socket failed.
    Io,
}

/// An error: what went wrong, of what, and the cause as text.
#[derive(Debug)]
pub struct TlsError {
    pub kind: ErrorKind,
    /// What the error is about; empty where the kind says it all.
    pub subject: String,
    /// The cause, or the text that was refused; empty where there is none.
    pub detail: String,
}

/// The contents of a [`TlsError`].
pub struct ErrorView {
    pub kind: ErrorKind,
    pub subject: Seq<char>,
    pub detail: Seq<char>,
}

impl View for TlsError {
    type V = ErrorView;

    open spec fn view(&self) -> ErrorView {
        ErrorView { kind: self.kind, subject: self.subject@, detail: self.detail@ }
    }
}

/// An error that its kind alone describes.
pub open spec fn plain_error(kind: ErrorKind) -> ErrorView {
    ErrorView { kind, subject: Seq::empty(), detail: Seq::empty() }
}

/// An error with a cause.
pub open spec fn error_with(kind: ErrorKind, detail: Seq<char>) -> ErrorView {
    ErrorView { kind, subject: Seq::empty(), detail }
}

/// An error of something, with a cause.
pub open spec fn error_about(kind: ErrorKind, subject: Seq<char>, detail: Seq<char>) -> ErrorView {
    ErrorView { kind, subject, detail }
}

/// How the message of an error begins, before its subject.
pub open spec fn opening(kind: ErrorKind) -> Seq<char> {
    match kind {
        ErrorKind::UnknownClientAuth => "Unknown client auth argument: "@,
        ErrorKind::UnknownServerNameVerification => "Unknown server name verification argument: "@,
        ErrorKind::Base64 => "Unable to perform base64 decoding: "@,
        ErrorKind::InvalidKeyFile => "Invalid TLS private key file: "@,
        ErrorKind::EmptyKey => "Empty TLS key."@,
        ErrorKind::MissingKey => "Missing TLS private key."@,
        ErrorKind::InvalidCertificateFile => "Invalid TLS certificate file: "@,
        ErrorKind::MissingCertificates => "Missing tls certificates."@,
        ErrorKind::ServerCertificate => "Error processing server certificate: "@,
        ErrorKind::ServerKey => "Error processing server key: "@,
        ErrorKind::NoServerKey => "No private key found for TLS server."@,
        ErrorKind::ClientCertificate => "Error processing client certificate: "@,
        ErrorKind::ClientKey => "Error processing client key: "@,
        ErrorKind::NoClientKey => "No private key found for TLS client."@,
        ErrorKind::MissingRootCertificates => "Missing root certificates while client authentication is enabled."@,
        ErrorKind::PemCertificates => "Error processing PEM certificates: "@,
        ErrorKind::TrustAnchor => "Error processing trust anchor: "@,
        ErrorKind::ConfigParameters => "Config parameters should be valid: "@,
        ErrorKind::BadCertificateKey => "Bad certificate/key: "@,
        ErrorKind::LinkConfig => "Cannot create a new TLS listener to "@,
        ErrorKind::Link => "Can not create a new TLS link bound to "@,
        ErrorKind::ListenerConfig => "Cannot create a new TLS listener on "@,
        ErrorKind::Listener => "Can not create a new TLS listener on "@,
        ErrorKind::UnknownListener => "Can not delete the listener because it has not been found: "@,
        ErrorKind::Accept => "Can not accept TLS connections: "@,
        _ => ""@,
    }
}

fn opening_text(kind: ErrorKind) -> (r: &'static str)
    ensures
        r@ == opening(kind),
{
    match kind {
        ErrorKind::UnknownClientAuth => "Unknown client auth argument: ",
        ErrorKind::UnknownServerNameVerification => "Unknown server name verification argument: ",
        ErrorKind::Base64 => "Unable to perform base64 decoding: ",
        ErrorKind::InvalidKeyFile => "Invalid TLS private key file: ",
        ErrorKind::EmptyKey => "Empty TLS key.",
        ErrorKind::MissingKey => "Missing TLS private key.",
        ErrorKind::InvalidCertificateFile => "Invalid TLS certificate file: ",
        ErrorKind::MissingCertificates => "Missing tls certificates.",
        ErrorKind::ServerCertificate => "Error processing server certificate: ",
        ErrorKind::ServerKey => "Error processing server key: ",
        ErrorKind::NoServerKey => "No private key found for TLS server.",
        ErrorKind::ClientCertificate => "Error processing client certificate: ",
        ErrorKind::ClientKey => "Error processing client key: ",
        ErrorKind::NoClientKey => "No private key found for TLS client.",
        ErrorKind::MissingRootCertificates => "Missing root certificates while client authentication is enabled.",
        ErrorKind::PemCertificates => "Error processing PEM certificates: ",
        ErrorKind::TrustAnchor => "Error processing trust anchor: ",
        ErrorKind::ConfigParameters => "Config parameters should be valid: ",
        ErrorKind::BadCertificateKey => "Bad certificate/key: ",
        ErrorKind::LinkConfig => "Cannot create a new TLS listener to ",
        ErrorKind::Link => "Can not create a new TLS link bound to ",
        ErrorKind::ListenerConfig => "Cannot create a new TLS listener on ",
        ErrorKind::Listener => "Can not create a new TLS listener on ",
        ErrorKind::UnknownListener => "Can not delete the listener because it has not been found: ",
        ErrorKind::Accept => "Can not accept TLS connections: ",
        _ => "",
    }
}

/// What stands between the subject and the cause.
pub open spec fn middle(kind: ErrorKind) -> Seq<char> {
    match kind {
        ErrorKind::LinkConfig => ": "@,
        ErrorKind::Link => ": "@,
        ErrorKind::ListenerConfig => ". "@,
        ErrorKind::Listener => ": "@,
        _ => ""@,
    }
}

fn middle_text(kind: ErrorKind) -> (r: &'static str)
    ensures
        r@ == middle(kind),
{
    match kind {
        ErrorKind::LinkConfig => ": ",
        ErrorKind::Link => ": ",
        ErrorKind::ListenerConfig => ". ",
        ErrorKind::Listener => ": ",
        _ => "",
    }
}

/// What ends a message, behind the cause.
pub open spec fn closing(kind: ErrorKind) -> Seq<char> {
    match kind {
        ErrorKind::ServerCertificate => "."@,
        ErrorKind::ServerKey => "."@,
        ErrorKind::ClientCertificate => "."@,
        ErrorKind::ClientKey => "."@,
        ErrorKind::PemCertificates => "."@,
        ErrorKind::TrustAnchor => "."@,
        _ => ""@,
    }
}

fn closing_text(kind: ErrorKind) -> (r: &'static str)
    ensures
        r@ == closing(kind),
{
    match kind {
        ErrorKind::ServerCertificate => ".",
        ErrorKind::ServerKey => ".",
        ErrorKind::ClientCertificate => ".",
        ErrorKind::ClientKey => ".",
        ErrorKind::PemCertificates => ".",
        ErrorKind::TrustAnchor => ".",
        _ => "",
    }
}

/// The message of an error.
pub open spec fn message_of(e: ErrorView) -> Seq<char> {
    opening(e.kind) + e.subject + middle(e.kind) + e.detail + closing(e.kind)
}

impl TlsError {
    /// An error that its kind alone describes.
    pub fn plain(kind: ErrorKind) -> (e: TlsError)
        ensures
            e@ == plain_error(kind),
    {
        TlsError { kind, subject: String::new(), detail: String::new() }
    }

    /// An error with a cause.
    pub fn with(kind: ErrorKind, detail: String) -> (e: TlsError)
        ensures
            e@ == error_with(kind, detail@),
    {
        TlsError { kind, subject: String::new(), detail }
    }

    /// An error of something, with a cause.
    pub fn about(kind: ErrorKind, subject: String, detail: String) -> (e: TlsError)
        ensures
            e@ == error_about(kind, subject@, detail@),
    {
        TlsError { kind, subject, detail }
    }

    /// The message for a reader.
    pub fn message(&self) -> (r: String)
        ensures
            r@ == message_of(self@),
    {
        join_texts(
            opening_text(self.kind),
            self.subject.as_str(),
            middle_text(self.kind),
            self.detail.as_str(),
            closing_text(self.kind),
        )
    }
}

/// Each kind of error has its wording, in which the subject stands before the cause, and
/// both stand as they are.
pub proof fn errors_have_their_wording(subject: Seq<char>, detail: Seq<char>)
    ensures
        message_of(
            ErrorView { kind: ErrorKind::UnknownClientAuth, subject: Seq::empty(), detail },
        ) == "Unknown client auth argument: "@ + detail,
        message_of(
            ErrorView { kind: ErrorKind::UnknownServerNameVerification, subject: Seq::empty(), detail },
        ) == "Unknown server name verification argument: "@ + detail,
        message_of(
            ErrorView { kind: ErrorKind::Base64, subject: Seq::empty(), detail },
        ) == "Unable to perform base64 decoding: "@ + detail,
        message_of(
            ErrorView { kind: ErrorKind::InvalidKeyFile, subject: Seq::empty(), detail },
        ) == "Invalid TLS private key file: "@ + detail,
        message_of(
            ErrorView { kind: ErrorKind::EmptyKey, subject: Seq::empty(), detail: Seq::empty() },
        ) == "Empty TLS key."@,
        message_of(
            ErrorView { kind: ErrorKind::MissingKey, subject: Seq::empty(), detail: Seq::empty() },
        ) == "Missing TLS private key."@,
        message_of(
            ErrorView { kind: ErrorKind::InvalidCertificateFile, subject: Seq::empty(), detail },
        ) == "Invalid TLS certificate file: "@ + detail,
        message_of(
            ErrorView { kind: ErrorKind::MissingCertificates, subject: Seq::empty(), detail: Seq::empty() },
        ) == "Missing tls certificates."@,
        message_of(
            ErrorView { kind: ErrorKind::ServerCertificate, subject: Seq::empty(), detail },
        ) == "Error processing server certificate: "@ + detail + "."@,
        message_of(
            ErrorView { kind: ErrorKind::ServerKey, subject: Seq::empty(), detail },
        ) == "Error processing server key: "@ + detail + "."@,
        message_of(
            ErrorView { kind: ErrorKind::NoServerKey, subject: Seq::empty(), detail: Seq::empty() },
        ) == "No private key found for TLS server."@,
        message_of(
            ErrorView { kind: ErrorKind::ClientCertificate, subject: Seq::empty(), detail },
        ) == "Error processing client certificate: "@ + detail + "."@,
        message_of(
            ErrorView { kind: ErrorKind::ClientKey, subject: Seq::empty(), detail },
        ) == "Error processing client key: "@ + detail + "."@,
        message_of(
            ErrorView { kind: ErrorKind::NoClientKey, subject: Seq::empty(), detail: Seq::empty() },
        ) == "No private key found for TLS client."@,
        message_of(
            ErrorView { kind: ErrorKind::MissingRootCertificates, subject: Seq::empty(), detail: Seq::empty() },
        ) == "Missing root certificates while client authentication is enabled."@,
        message_of(
            ErrorView { kind: ErrorKind::RootCertificateFile, subject: Seq::empty(), detail },
        ) == detail,
        message_of(
            ErrorView { kind: ErrorKind::PemCertificates, subject: Seq::empty(), detail },
        ) == "Error processing PEM certificates: "@ + detail + "."@,
        message_of(
            ErrorView { kind: ErrorKind::TrustAnchor, subject: Seq::empty(), detail },
        ) == "Error processing trust anchor: "@ + detail + "."@,
        message_of(
            ErrorView { kind: ErrorKind::Tls, subject: Seq::empty(), detail },
        ) == detail,
        message_of(
            ErrorView { kind: ErrorKind::ConfigParameters, subject: Seq::empty(), detail },
        ) == "Config parameters should be valid: "@ + detail,
        message_of(
            ErrorView { kind: ErrorKind::BadCertificateKey, subject: Seq::empty(), detail },
        ) == "Bad certificate/key: "@ + detail,
        message_of(ErrorView { kind: ErrorKind::LinkConfig, subject, detail }) == "Cannot create a new TLS listener to "@ + subject
            + ": "@ + detail,
        message_of(ErrorView { kind: ErrorKind::Link, subject, detail }) == "Can not create a new TLS link bound to "@ + subject
            + ": "@ + detail,
        message_of(ErrorView { kind: ErrorKind::ListenerConfig, subject, detail }) == "Cannot create a new TLS listener on "@ + subject
            + ". "@ + detail,
        message_of(ErrorView { kind: ErrorKind::Listener, subject, detail }) == "Can not create a new TLS listener on "@ + subject
            + ": "@ + detail,
        message_of(
            ErrorView { kind: ErrorKind::Locator, subject: Seq::empty(), detail },
        ) == detail,
        message_of(
            ErrorView { kind: ErrorKind::Noting, subject: Seq::empty(), detail },
        ) == detail,
        message_of(
            ErrorView { kind: ErrorKind::UnknownListener, subject: Seq::empty(), detail },
        ) == "Can not delete the listener because it has not been found: "@ + detail,
        message_of(
            ErrorView { kind: ErrorKind::Accept, subject: Seq::empty(), detail },
        ) == "Can not accept TLS connections: "@ + detail,
        message_of(
            ErrorView { kind: ErrorKind::Address, subject: Seq::empty(), detail },
        ) == detail,
        message_of(
            ErrorView { kind: ErrorKind::Io, subject: Seq::empty(), detail },
        ) == detail,
{
    reveal_strlit("");
}

/// An error has the kind, the subject and the cause that it was made with.
pub proof fn errors_keep_what_they_were_made_with(
    kind: ErrorKind,
    subject: Seq<char>,
    detail: Seq<char>,
    error: TlsError,
)
    ensures
        plain_error(kind).kind == kind && plain_error(kind).subject.len() == 0 && plain_error(
            kind,
        ).detail.len() == 0,
        error_with(kind, detail).kind == kind && error_with(kind, detail).subject.len() == 0
            && error_with(kind, detail).detail == detail,
        error_about(kind, subject, detail).kind == kind && error_about(
            kind,
            subject,
            detail,
        ).subject == subject && error_about(kind, subject, detail).detail == detail,
        error@.kind == error.kind && error@.subject == error.subject@ && error@.detail
            == error.detail@,
{
}

} // verus!
