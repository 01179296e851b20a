//! The certificate chain and the private key by which one side of a link shows who it is.

use vstd::prelude::*;
use vstd::utf8::encode_utf8;

use crate::client::TlsClientConfig;
use crate::config::{
    Config, TLS_CLIENT_CERTIFICATE_BASE64, TLS_CLIENT_CERTIFICATE_FILE,
    TLS_CLIENT_CERTIFICATE_RAW, TLS_CLIENT_PRIVATE_KEY_BASE64, TLS_CLIENT_PRIVATE_KEY_FILE,
    TLS_CLIENT_PRIVATE_KEY_RAW, TLS_SERVER_CERTIFICATE_BASE64, TLS_SERVER_CERTIFICATE_FILE,
    TLS_SERVER_CERTIFICATE_RAW, TLS_SERVER_PRIVATE_KEY_BASE_64, TLS_SERVER_PRIVATE_KEY_FILE,
    TLS_SERVER_PRIVATE_KEY_RAW,
};
use crate::credentials::{
    bytes_load, loaded_certificate, loaded_key, opt_read, FileRead, FileReadView, FileRole, Files,
    FilesView, Load, LoadView,
};
use crate::error::{error_with, plain_error, ErrorKind, ErrorView, TlsError};
use crate::outside::{base64_decoded, pem_certs, reads_eddsa_key, reads_rsa_key, surely_taken};
use crate::pem::{
    certificates, collected, collected_gives_all_or_first_error, pem_key, private_key,
};
use crate::server::TlsServerConfig;
use crate::views::views;

verus! {

/// The two sides of a link.
#[derive(Clone, Copy, Debug, PartialEq, Eq, Structural)]
pub enum Side {
    Server,
    Client,
}

/// A certificate chain and its private key, in DER.
#[derive(Debug)]
pub struct Identity {
    pub certificates: Vec<Vec<u8>>,
    pub key: Vec<u8>,
}

impl View for Identity {
    type V = (Seq<Seq<u8>>, Seq<u8>);

    open spec fn view(&self) -> (Seq<Seq<u8>>, Seq<u8>) {
        (views(self.certificates@), self.key@)
    }
}

/// The private key that a configuration gives one side.
pub open spec fn side_key(
    side: Side,
    config: Map<Seq<char>, Seq<char>>,
    read: Option<FileReadView>,
) -> Result<LoadView<Seq<u8>>, ErrorView> {
    match side {
        Side::Server => loaded_key(
            config,
            TLS_SERVER_PRIVATE_KEY_RAW@,
            TLS_SERVER_PRIVATE_KEY_FILE@,
            TLS_SERVER_PRIVATE_KEY_BASE_64@,
            read,
        ),
        Side::Client => loaded_key(
            config,
            TLS_CLIENT_PRIVATE_KEY_RAW@,
            TLS_CLIENT_PRIVATE_KEY_FILE@,
            TLS_CLIENT_PRIVATE_KEY_BASE64@,
            read,
        ),
    }
}

/// The certificates that a configuration gives one side.
pub open spec fn side_certificate(
    side: Side,
    config: Map<Seq<char>, Seq<char>>,
    read: Option<FileReadView>,
) -> Result<LoadView<Seq<u8>>, ErrorView> {
    match side {
        Side::Server => loaded_certificate(
            config,
            TLS_SERVER_CERTIFICATE_RAW@,
            TLS_SERVER_CERTIFICATE_FILE@,
            TLS_SERVER_CERTIFICATE_BASE64@,
            read,
        ),
        Side::Client => loaded_certificate(
            config,
            TLS_CLIENT_CERTIFICATE_RAW@,
            TLS_CLIENT_CERTIFICATE_FILE@,
            TLS_CLIENT_CERTIFICATE_BASE64@,
            read,
        ),
    }
}

/// The error for malformed certificates of one side.
pub open spec fn certificate_kind(side: Side) -> ErrorKind {
    match side {
        Side::Server => ErrorKind::ServerCertificate,
        Side::Client => ErrorKind::ClientCertificate,
    }
}

/// The error for a malformed private key of one side.
pub open spec fn key_kind(side: Side) -> ErrorKind {
    match side {
        Side::Server => ErrorKind::ServerKey,
        Side::Client => ErrorKind::ClientKey,
    }
}

/// The error for a private key of one side that is not there.
pub open spec fn no_key_kind(side: Side) -> ErrorKind {
    match side {
        Side::Server => ErrorKind::NoServerKey,
        Side::Client => ErrorKind::NoClientKey,
    }
}

/// An identity, given what was found of its certificates and of its key. Malformed
/// certificates come before a malformed key.
pub open spec fn identity_of(
    side: Side,
    certs: Result<Seq<Seq<u8>>, Seq<char>>,
    key: Result<Option<Seq<u8>>, Seq<char>>,
) -> Result<(Seq<Seq<u8>>, Seq<u8>), ErrorView> {
    match certs {
        Err(e) => Err(error_with(certificate_kind(side), e)),
        Ok(chain) => match key {
            Err(e) => Err(error_with(key_kind(side), e)),
            Ok(None) => Err(plain_error(no_key_kind(side))),
            Ok(Some(k)) => Ok((chain, k)),
        },
    }
}

/// The identity that a configuration gives one side. The key is loaded before the
/// certificates, and both before either is read as PEM.
pub open spec fn loaded_identity(
    side: Side,
    config: Map<Seq<char>, Seq<char>>,
    files: FilesView,
) -> Result<LoadView<(Seq<Seq<u8>>, Seq<u8>)>, ErrorView> {
    match side_key(side, config, files.private_key) {
        Err(e) => Err(e),
        Ok(LoadView::Read { file, path }) => Ok(LoadView::Read { file, path }),
        Ok(LoadView::Done(key_pem)) => match side_certificate(side, config, files.certificate) {
            Err(e) => Err(e),
            Ok(LoadView::Read { file, path }) => Ok(LoadView::Read { file, path }),
            Ok(LoadView::Done(cert_pem)) => match identity_of(
                side,
                collected(pem_certs(cert_pem, None)),
                pem_key(key_pem),
            ) {
                Err(e) => Err(e),
                Ok(identity) => Ok(LoadView::Done(identity)),
            },
        },
    }
}

/// The contents of a loaded identity or of the error in its place.
pub open spec fn identity_load(r: Result<Load<Identity>, TlsError>) -> Result<
    LoadView<(Seq<Seq<u8>>, Seq<u8>)>,
    ErrorView,
> {
    match r {
        Ok(Load::Done(identity)) => Ok(LoadView::Done(identity@)),
        Ok(Load::Read { file, path }) => Ok(LoadView::Read { file, path: path@ }),
        Err(e) => Err(e@),
    }
}

/// Puts an identity together from what was found of its certificates and of its key.
pub fn identity_from(
    side: Side,
    certs: Result<Vec<Vec<u8>>, String>,
    key: Result<Option<Vec<u8>>, String>,
) -> (r: Result<Identity, TlsError>)
    ensures
        (match r {
            Ok(identity) => Ok(identity@),
            Err(e) => Err(e@),
        }) == identity_of(
            side,
            match certs {
                Ok(chain) => Ok(views(chain@)),
                Err(e) => Err(e@),
            },
            crate::pem::key_view(key),
        ),
{
    let chain: Vec<Vec<u8>> = match certs {
        Ok(chain) => chain,
        Err(e) => {
            let kind: ErrorKind = match side {
                Side::Server => ErrorKind::ServerCertificate,
                Side::Client => ErrorKind::ClientCertificate,
            };
            return Err(TlsError::with(kind, e));
        },
    };
    match key {
        Ok(Some(k)) => Ok(Identity { certificates: chain, key: k }),
        Ok(None) => {
            let kind: ErrorKind = match side {
                Side::Server => ErrorKind::NoServerKey,
                Side::Client => ErrorKind::NoClientKey,
            };
            Err(TlsError::plain(kind))
        },
        Err(e) => {
            let kind: ErrorKind = match side {
                Side::Server => ErrorKind::ServerKey,
                Side::Client => ErrorKind::ClientKey,
            };
            Err(TlsError::with(kind, e))
        },
    }
}

impl Identity {
    /// Whether the private key is of a kind that the TLS stack takes in any case. An ECDSA
    /// key, which it cannot read without random numbers, is of none.
    pub fn is_surely_taken(&self) -> (r: bool)
        ensures
            r == surely_taken(self@.1),
    {
        reads_rsa_key(self.key.as_slice()) || reads_eddsa_key(self.key.as_slice())
    }
}

/// Loads the private key of one side.
fn load_side_key(side: Side, config: &Config, read: &Option<FileRead>) -> (r: Result<
    Load<Vec<u8>>,
    TlsError,
>)
    ensures
        bytes_load(r) == side_key(side, config@, opt_read(*read)),
{
    match side {
        Side::Server => TlsServerConfig::load_tls_private_key(config, read),
        Side::Client => TlsClientConfig::load_tls_private_key(config, read),
    }
}

/// Loads the certificates of one side.
fn load_side_certificate(side: Side, config: &Config, read: &Option<FileRead>) -> (r: Result<
    Load<Vec<u8>>,
    TlsError,
>)
    ensures
        bytes_load(r) == side_certificate(side, config@, opt_read(*read)),
{
    match side {
        Side::Server => TlsServerConfig::load_tls_certificate(config, read),
        Side::Client => TlsClientConfig::load_tls_certificate(config, read),
    }
}

/// Loads the identity of one side.
pub fn load_identity(side: Side, config: &Config, files: &Files) -> (r: Result<
    Load<Identity>,
    TlsError,
>)
    ensures
        identity_load(r) == loaded_identity(side, config@, files@),
{
    let key_pem: Vec<u8> = match load_side_key(side, config, &files.private_key) {
        Ok(Load::Done(bytes)) => bytes,
        Ok(Load::Read { file, path }) => {
            return Ok(Load::Read { file, path });
        },
        Err(e) => {
            return Err(e);
        },
    };
    let cert_pem: Vec<u8> = match load_side_certificate(side, config, &files.certificate) {
        Ok(Load::Done(bytes)) => bytes,
        Ok(Load::Read { file, path }) => {
            return Ok(Load::Read { file, path });
        },
        Err(e) => {
            return Err(e);
        },
    };
    match identity_from(
        side,
        certificates(cert_pem.as_slice()),
        private_key(key_pem.as_slice()),
    ) {
        Ok(identity) => Ok(Load::Done(identity)),
        Err(e) => Err(e),
    }
}

/// The private key of a server comes from the names of a server: as it stands, else in
/// base64, else in a file.
pub proof fn server_key_comes_from_server_names(
    config: Map<Seq<char>, Seq<char>>,
    read: Option<FileReadView>,
)
    ensures
        config.contains_key("server_private_key_raw"@) ==> side_key(Side::Server, config, read) == Ok::<LoadView<Seq<u8>>, ErrorView>(
            LoadView::Done(encode_utf8(config["server_private_key_raw"@])),
        ),
        !config.contains_key("server_private_key_raw"@) && config.contains_key("server_private_key_base64"@) ==> side_key(Side::Server, config, read) == (
        match base64_decoded(config["server_private_key_base64"@]) {
            Ok(bytes) => Ok::<LoadView<Seq<u8>>, ErrorView>(LoadView::Done(bytes)),
            Err(e) => Err(
                ErrorView { kind: ErrorKind::Base64, subject: Seq::empty(), detail: e },
            ),
        }),
        !config.contains_key("server_private_key_raw"@) && !config.contains_key("server_private_key_base64"@) && config.contains_key(
            "server_private_key_file"@,
        ) ==> side_key(Side::Server, config, read) == (match read {
            None => Ok::<LoadView<Seq<u8>>, ErrorView>(
                LoadView::Read { file: FileRole::PrivateKey, path: config["server_private_key_file"@] },
            ),
            Some(FileReadView::Contents(bytes)) => if bytes.len() > 0 {
                Ok(LoadView::Done(bytes))
            } else {
                Err(
                    ErrorView {
                        kind: ErrorKind::EmptyKey,
                        subject: Seq::empty(),
                        detail: Seq::empty(),
                    },
                )
            },
            Some(FileReadView::OpenFailed(why)) => Err(
                ErrorView { kind: ErrorKind::InvalidKeyFile, subject: Seq::empty(), detail: why },
            ),
            Some(FileReadView::ReadFailed { why, .. }) => Err(
                ErrorView { kind: ErrorKind::InvalidKeyFile, subject: Seq::empty(), detail: why },
            ),
        }),
        !config.contains_key("server_private_key_raw"@) && !config.contains_key("server_private_key_base64"@) && !config.contains_key(
            "server_private_key_file"@,
        ) ==> side_key(Side::Server, config, read) == Err::<LoadView<Seq<u8>>, ErrorView>(
            ErrorView { kind: ErrorKind::MissingKey, subject: Seq::empty(), detail: Seq::empty() },
        ),
{
}

/// Two configurations that agree on the three names of a server's private key give it the same.
pub proof fn server_key_hangs_on_server_names(
    config: Map<Seq<char>, Seq<char>>,
    other: Map<Seq<char>, Seq<char>>,
    read: Option<FileReadView>,
)
    requires
        config.contains_key("server_private_key_raw"@) == other.contains_key("server_private_key_raw"@),
        config.contains_key("server_private_key_raw"@) ==> config["server_private_key_raw"@] == other["server_private_key_raw"@],
        config.contains_key("server_private_key_base64"@) == other.contains_key("server_private_key_base64"@),
        config.contains_key("server_private_key_base64"@) ==> config["server_private_key_base64"@] == other["server_private_key_base64"@],
        config.contains_key("server_private_key_file"@) == other.contains_key("server_private_key_file"@),
        config.contains_key("server_private_key_file"@) ==> config["server_private_key_file"@] == other["server_private_key_file"@],
    ensures
        side_key(Side::Server, config, read) == side_key(Side::Server, other, read),
{
}

/// The private key of a client comes from the names of a client: as it stands, else in
/// base64, else in a file.
pub proof fn client_key_comes_from_client_names(
    config: Map<Seq<char>, Seq<char>>,
    read: Option<FileReadView>,
)
    ensures
        config.contains_key("client_private_key_raw"@) ==> side_key(Side::Client, config, read) == Ok::<LoadView<Seq<u8>>, ErrorView>(
            LoadView::Done(encode_utf8(config["client_private_key_raw"@])),
        ),
        !config.contains_key("client_private_key_raw"@) && config.contains_key("client_private_key_base64"@) ==> side_key(Side::Client, config, read) == (
        match base64_decoded(config["client_private_key_base64"@]) {
            Ok(bytes) => Ok::<LoadView<Seq<u8>>, ErrorView>(LoadView::Done(bytes)),
            Err(e) => Err(
                ErrorView { kind: ErrorKind::Base64, subject: Seq::empty(), detail: e },
            ),
        }),
        !config.contains_key("client_private_key_raw"@) && !config.contains_key("client_private_key_base64"@) && config.contains_key(
            "client_private_key_file"@,
        ) ==> side_key(Side::Client, config, read) == (match read {
            None => Ok::<LoadView<Seq<u8>>, ErrorView>(
                LoadView::Read { file: FileRole::PrivateKey, path: config["client_private_key_file"@] },
            ),
            Some(FileReadView::Contents(bytes)) => if bytes.len() > 0 {
                Ok(LoadView::Done(bytes))
            } else {
                Err(
                    ErrorView {
                        kind: ErrorKind::EmptyKey,
                        subject: Seq::empty(),
                        detail: Seq::empty(),
                    },
                )
            },
            Some(FileReadView::OpenFailed(why)) => Err(
                ErrorView { kind: ErrorKind::InvalidKeyFile, subject: Seq::empty(), detail: why },
            ),
            Some(FileReadView::ReadFailed { why, .. }) => Err(
                ErrorView { kind: ErrorKind::InvalidKeyFile, subject: Seq::empty(), detail: why },
            ),
        }),
        !config.contains_key("client_private_key_raw"@) && !config.contains_key("client_private_key_base64"@) && !config.contains_key(
            "client_private_key_file"@,
        ) ==> side_key(Side::Client, config, read) == Err::<LoadView<Seq<u8>>, ErrorView>(
            ErrorView { kind: ErrorKind::MissingKey, subject: Seq::empty(), detail: Seq::empty() },
        ),
{
}

/// Two configurations that agree on the three names of a client's private key give it the same.
pub proof fn client_key_hangs_on_client_names(
    config: Map<Seq<char>, Seq<char>>,
    other: Map<Seq<char>, Seq<char>>,
    read: Option<FileReadView>,
)
    requires
        config.contains_key("client_private_key_raw"@) == other.contains_key("client_private_key_raw"@),
        config.contains_key("client_private_key_raw"@) ==> config["client_private_key_raw"@] == other["client_private_key_raw"@],
        config.contains_key("client_private_key_base64"@) == other.contains_key("client_private_key_base64"@),
        config.contains_key("client_private_key_base64"@) ==> config["client_private_key_base64"@] == other["client_private_key_base64"@],
        config.contains_key("client_private_key_file"@) == other.contains_key("client_private_key_file"@),
        config.contains_key("client_private_key_file"@) ==> config["client_private_key_file"@] == other["client_private_key_file"@],
    ensures
        side_key(Side::Client, config, read) == side_key(Side::Client, other, read),
{
}

/// The certificates of a server come from the names of a server: as they stand, else in
/// base64, else in a file.
pub proof fn server_certificate_comes_from_server_names(
    config: Map<Seq<char>, Seq<char>>,
    read: Option<FileReadView>,
)
    ensures
        config.contains_key("server_certificate_raw"@) ==> side_certificate(Side::Server, config, read) == Ok::<LoadView<Seq<u8>>, ErrorView>(
            LoadView::Done(encode_utf8(config["server_certificate_raw"@])),
        ),
        !config.contains_key("server_certificate_raw"@) && config.contains_key("server_certificate_base64"@) ==> side_certificate(Side::Server, config, read) == (
        match base64_decoded(config["server_certificate_base64"@]) {
            Ok(bytes) => Ok::<LoadView<Seq<u8>>, ErrorView>(LoadView::Done(bytes)),
            Err(e) => Err(
                ErrorView { kind: ErrorKind::Base64, subject: Seq::empty(), detail: e },
            ),
        }),
        !config.contains_key("server_certificate_raw"@) && !config.contains_key("server_certificate_base64"@) && config.contains_key(
            "server_certificate_file"@,
        ) ==> side_certificate(Side::Server, config, read) == (match read {
            None => Ok::<LoadView<Seq<u8>>, ErrorView>(
                LoadView::Read { file: FileRole::Certificate, path: config["server_certificate_file"@] },
            ),
            Some(FileReadView::Contents(bytes)) => Ok(LoadView::Done(bytes)),
            Some(FileReadView::OpenFailed(why)) => Err(
                ErrorView {
                    kind: ErrorKind::InvalidCertificateFile,
                    subject: Seq::empty(),
                    detail: why,
                },
            ),
            Some(FileReadView::ReadFailed { why, .. }) => Err(
                ErrorView {
                    kind: ErrorKind::InvalidCertificateFile,
                    subject: Seq::empty(),
                    detail: why,
                },
            ),
        }),
        !config.contains_key("server_certificate_raw"@) && !config.contains_key("server_certificate_base64"@) && !config.contains_key(
            "server_certificate_file"@,
        ) ==> side_certificate(Side::Server, config, read) == Err::<LoadView<Seq<u8>>, ErrorView>(
            ErrorView { kind: ErrorKind::MissingCertificates, subject: Seq::empty(), detail: Seq::empty() },
        ),
{
}

/// Two configurations that agree on the three names of a server's certificates give it the same.
pub proof fn server_certificate_hangs_on_server_names(
    config: Map<Seq<char>, Seq<char>>,
    other: Map<Seq<char>, Seq<char>>,
    read: Option<FileReadView>,
)
    requires
        config.contains_key("server_certificate_raw"@) == other.contains_key("server_certificate_raw"@),
        config.contains_key("server_certificate_raw"@) ==> config["server_certificate_raw"@] == other["server_certificate_raw"@],
        config.contains_key("server_certificate_base64"@) == other.contains_key("server_certificate_base64"@),
        config.contains_key("server_certificate_base64"@) ==> config["server_certificate_base64"@] == other["server_certificate_base64"@],
        config.contains_key("server_certificate_file"@) == other.contains_key("server_certificate_file"@),
        config.contains_key("server_certificate_file"@) ==> config["server_certificate_file"@] == other["server_certificate_file"@],
    ensures
        side_certificate(Side::Server, config, read) == side_certificate(Side::Server, other, read),
{
}

/// The certificates of a client come from the names of a client: as they stand, else in
/// base64, else in a file.
pub proof fn client_certificate_comes_from_client_names(
    config: Map<Seq<char>, Seq<char>>,
    read: Option<FileReadView>,
)
    ensures
        config.contains_key("client_certificate_raw"@) ==> side_certificate(Side::Client, config, read) == Ok::<LoadView<Seq<u8>>, ErrorView>(
            LoadView::Done(encode_utf8(config["client_certificate_raw"@])),
        ),
        !config.contains_key("client_certificate_raw"@) && config.contains_key("client_certificate_base64"@) ==> side_certificate(Side::Client, config, read) == (
        match base64_decoded(config["client_certificate_base64"@]) {
            Ok(bytes) => Ok::<LoadView<Seq<u8>>, ErrorView>(LoadView::Done(bytes)),
            Err(e) => Err(
                ErrorView { kind: ErrorKind::Base64, subject: Seq::empty(), detail: e },
            ),
        }),
        !config.contains_key("client_certificate_raw"@) && !config.contains_key("client_certificate_base64"@) && config.contains_key(
            "client_certificate_file"@,
        ) ==> side_certificate(Side::Client, config, read) == (match read {
            None => Ok::<LoadView<Seq<u8>>, ErrorView>(
                LoadView::Read { file: FileRole::Certificate, path: config["client_certificate_file"@] },
            ),
            Some(FileReadView::Contents(bytes)) => Ok(LoadView::Done(bytes)),
            Some(FileReadView::OpenFailed(why)) => Err(
                ErrorView {
                    kind: ErrorKind::InvalidCertificateFile,
                    subject: Seq::empty(),
                    detail: why,
                },
            ),
            Some(FileReadView::ReadFailed { why, .. }) => Err(
                ErrorView {
                    kind: ErrorKind::InvalidCertificateFile,
                    subject: Seq::empty(),
                    detail: why,
                },
            ),
        }),
        !config.contains_key("client_certificate_raw"@) && !config.contains_key("client_certificate_base64"@) && !config.contains_key(
            "client_certificate_file"@,
        ) ==> side_certificate(Side::Client, config, read) == Err::<LoadView<Seq<u8>>, ErrorView>(
            ErrorView { kind: ErrorKind::MissingCertificates, subject: Seq::empty(), detail: Seq::empty() },
        ),
{
}

/// Two configurations that agree on the three names of a client's certificates give it the same.
pub proof fn client_certificate_hangs_on_client_names(
    config: Map<Seq<char>, Seq<char>>,
    other: Map<Seq<char>, Seq<char>>,
    read: Option<FileReadView>,
)
    requires
        config.contains_key("client_certificate_raw"@) == other.contains_key("client_certificate_raw"@),
        config.contains_key("client_certificate_raw"@) ==> config["client_certificate_raw"@] == other["client_certificate_raw"@],
        config.contains_key("client_certificate_base64"@) == other.contains_key("client_certificate_base64"@),
        config.contains_key("client_certificate_base64"@) ==> config["client_certificate_base64"@] == other["client_certificate_base64"@],
        config.contains_key("client_certificate_file"@) == other.contains_key("client_certificate_file"@),
        config.contains_key("client_certificate_file"@) ==> config["client_certificate_file"@] == other["client_certificate_file"@],
    ensures
        side_certificate(Side::Client, config, read) == side_certificate(Side::Client, other, read),
{
}

/// An identity is its certificates and its key as they are. Malformed certificates come
/// before a malformed or missing key, and each error names the side.
pub proof fn identity_is_what_was_found(
    side: Side,
    certs: Result<Seq<Seq<u8>>, Seq<char>>,
    key: Result<Option<Seq<u8>>, Seq<char>>,
)
    ensures
        certs matches Ok(chain) ==> (key matches Ok(Some(k)) ==> identity_of(side, certs, key)
            == Ok::<(Seq<Seq<u8>>, Seq<u8>), ErrorView>((chain, k))),
        certs matches Err(e) ==> identity_of(side, certs, key) == Err::<
            (Seq<Seq<u8>>, Seq<u8>),
            ErrorView,
        >(
            ErrorView {
                kind: if side == Side::Server {
                    ErrorKind::ServerCertificate
                } else {
                    ErrorKind::ClientCertificate
                },
                subject: Seq::empty(),
                detail: e,
            },
        ),
        certs is Ok ==> (key matches Err(e) ==> identity_of(side, certs, key) == Err::<
            (Seq<Seq<u8>>, Seq<u8>),
            ErrorView,
        >(
            ErrorView {
                kind: if side == Side::Server {
                    ErrorKind::ServerKey
                } else {
                    ErrorKind::ClientKey
                },
                subject: Seq::empty(),
                detail: e,
            },
        )),
        certs is Ok && key == Ok::<Option<Seq<u8>>, Seq<char>>(None) ==> identity_of(
            side,
            certs,
            key,
        ) == Err::<(Seq<Seq<u8>>, Seq<u8>), ErrorView>(
            ErrorView {
                kind: if side == Side::Server {
                    ErrorKind::NoServerKey
                } else {
                    ErrorKind::NoClientKey
                },
                subject: Seq::empty(),
                detail: Seq::empty(),
            },
        ),
{
}

/// A loaded identity has the certificates of the certificate bytes, as many and place by
/// place, and the key of the key bytes.
pub proof fn loaded_identity_keeps_chain_and_key(
    side: Side,
    config: Map<Seq<char>, Seq<char>>,
    files: FilesView,
)
    ensures
        loaded_identity(side, config, files) matches Ok(LoadView::Done(identity)) ==> {
            &&& side_key(side, config, files.private_key) matches Ok(LoadView::Done(key_pem))
            &&& side_certificate(side, config, files.certificate) matches Ok(
                LoadView::Done(cert_pem),
            )
            &&& pem_key(key_pem) == Ok::<Option<Seq<u8>>, Seq<char>>(Some(identity.1))
            &&& identity.0.len() == pem_certs(cert_pem, None).len()
            &&& forall|i: int|
                0 <= i < identity.0.len() ==> #[trigger] pem_certs(cert_pem, None)[i] == Ok::<
                    Seq<u8>,
                    Seq<char>,
                >(identity.0[i])
        },
{
    if let Ok(LoadView::Done(cert_pem)) = side_certificate(side, config, files.certificate) {
        collected_gives_all_or_first_error(pem_certs(cert_pem, None));
    }
}

/// An identity is loaded wherever its key and its certificates are there and well-formed.
/// Else the first thing that is amiss decides: the key bytes, the certificate bytes, the
/// first malformed certificate, and then the key in its bytes.
pub proof fn identity_is_loaded_in_order(
    side: Side,
    config: Map<Seq<char>, Seq<char>>,
    files: FilesView,
)
    ensures
        side_key(side, config, files.private_key) matches Err(e) ==> loaded_identity(
            side,
            config,
            files,
        ) == Err::<LoadView<(Seq<Seq<u8>>, Seq<u8>)>, ErrorView>(e),
        side_key(side, config, files.private_key) matches Ok(LoadView::Read { file, path })
            ==> loaded_identity(side, config, files) == Ok::<
            LoadView<(Seq<Seq<u8>>, Seq<u8>)>,
            ErrorView,
        >(LoadView::Read { file, path }),
        side_key(side, config, files.private_key) matches Ok(LoadView::Done(key_pem)) ==> {
            &&& side_certificate(side, config, files.certificate) matches Err(e)
                ==> loaded_identity(side, config, files) == Err::<
                LoadView<(Seq<Seq<u8>>, Seq<u8>)>,
                ErrorView,
            >(e)
            &&& side_certificate(side, config, files.certificate) matches Ok(
                LoadView::Read { file, path },
            ) ==> loaded_identity(side, config, files) == Ok::<
                LoadView<(Seq<Seq<u8>>, Seq<u8>)>,
                ErrorView,
            >(LoadView::Read { file, path })
            &&& side_certificate(side, config, files.certificate) matches Ok(
                LoadView::Done(cert_pem),
            ) ==> {
                &&& loaded_identity(side, config, files) is Ok <==> {
                    &&& forall|i: int|
                        0 <= i < pem_certs(cert_pem, None).len() ==> #[trigger] pem_certs(
                            cert_pem,
                            None,
                        )[i] is Ok
                    &&& pem_key(key_pem) matches Ok(Some(_))
                }
                &&& forall|i: int|
                    0 <= i < pem_certs(cert_pem, None).len() && (forall|j: int|
                        0 <= j < i ==> #[trigger] pem_certs(cert_pem, None)[j] is Ok) ==> (
                    #[trigger] pem_certs(cert_pem, None)[i] matches Err(e) ==> loaded_identity(
                        side,
                        config,
                        files,
                    ) == Err::<LoadView<(Seq<Seq<u8>>, Seq<u8>)>, ErrorView>(
                        ErrorView {
                            kind: if side == Side::Server {
                                ErrorKind::ServerCertificate
                            } else {
                                ErrorKind::ClientCertificate
                            },
                            subject: Seq::empty(),
                            detail: e,
                        },
                    ))
                &&& (forall|i: int|
                    0 <= i < pem_certs(cert_pem, None).len() ==> #[trigger] pem_certs(
                        cert_pem,
                        None,
                    )[i] is Ok) ==> (pem_key(key_pem) matches Err(e) ==> loaded_identity(
                    side,
                    config,
                    files,
                ) == Err::<LoadView<(Seq<Seq<u8>>, Seq<u8>)>, ErrorView>(
                    ErrorView {
                        kind: if side == Side::Server {
                            ErrorKind::ServerKey
                        } else {
                            ErrorKind::ClientKey
                        },
                        subject: Seq::empty(),
                        detail: e,
                    },
                ))
                &&& (forall|i: int|
                    0 <= i < pem_certs(cert_pem, None).len() ==> #[trigger] pem_certs(
                        cert_pem,
                        None,
                    )[i] is Ok) && pem_key(key_pem) == Ok::<Option<Seq<u8>>, Seq<char>>(None)
                    ==> loaded_identity(side, config, files) == Err::<
                    LoadView<(Seq<Seq<u8>>, Seq<u8>)>,
                    ErrorView,
                >(
                    ErrorView {
                        kind: if side == Side::Server {
                            ErrorKind::NoServerKey
                        } else {
                            ErrorKind::NoClientKey
                        },
                        subject: Seq::empty(),
                        detail: Seq::empty(),
                    },
                )
            }
        },
{
    if let Ok(LoadView::Done(cert_pem)) = side_certificate(side, config, files.certificate) {
        collected_gives_all_or_first_error(pem_certs(cert_pem, None));
    }
}

/// An identity shows its certificates, place by place, and its key.
pub proof fn identity_shows_itself(
    identity: Identity,
    file: FileRole,
    path: String,
    error: TlsError,
)
    ensures
        identity@.0.len() == identity.certificates@.len(),
        forall|i: int|
            0 <= i < identity.certificates@.len() ==> #[trigger] identity@.0[i]
                == identity.certificates@[i]@,
        identity@.1 == identity.key@,
        identity_load(Ok(Load::Done(identity))) == Ok::<
            LoadView<(Seq<Seq<u8>>, Seq<u8>)>,
            ErrorView,
        >(LoadView::Done(identity@)),
        identity_load(Ok(Load::Read { file, path })) == Ok::<
            LoadView<(Seq<Seq<u8>>, Seq<u8>)>,
            ErrorView,
        >(LoadView::Read { file, path: path@ }),
        identity_load(Err(error)) == Err::<LoadView<(Seq<Seq<u8>>, Seq<u8>)>, ErrorView>(error@),
{
}

} // verus!
