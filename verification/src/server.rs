//! The TLS configuration of a server.

use async_rustls::rustls::{RootCertStore, ServerConfig};
use vstd::prelude::*;

use crate::anchors::{load_trust_anchors, trust_anchors, AnchorView};
use crate::config::{
    switch, Config, TLS_CLIENT_AUTH, TLS_SERVER_CERTIFICATE_BASE64, TLS_SERVER_CERTIFICATE_FILE,
    TLS_SERVER_CERTIFICATE_RAW, TLS_SERVER_PRIVATE_KEY_BASE_64, TLS_SERVER_PRIVATE_KEY_FILE,
    TLS_SERVER_PRIVATE_KEY_RAW,
};
use crate::credentials::{
    bytes_load, load_tls_certificate, load_tls_key, opt_read, FileRead, Files, FilesView, Load,
    LoadView,
};
use crate::error::{error_with, plain_error, ErrorKind, ErrorView, TlsError};
use crate::identity::{
    load_identity, loaded_identity, loaded_identity_keeps_chain_and_key, side_certificate,
    side_key, Identity, Side,
};
use crate::outside::{
    key_refusal, may_be_taken, pem_certs, server_config_with_client_auth, server_config_without_client_auth,
    server_parts, store_anchors, surely_taken, ServerParts,
};
use crate::pem::pem_key;

verus! {

/// What a server configuration is to be made of.
pub struct ServerMaterial {
    pub identity: Identity,
    /// The anchors of the clients, where clients are to authenticate themselves.
    pub client_roots: Option<RootCertStore>,
}

impl View for ServerMaterial {
    type V = ServerParts;

    open spec fn view(&self) -> ServerParts {
        ServerParts {
            tls13_only: self.client_roots is Some,
            client_roots: match self.client_roots {
                Some(store) => Some(store_anchors(store)),
                None => None,
            },
            certificates: self.identity@.0,
            key: self.identity@.1,
        }
    }
}

/// What the server configuration of an endpoint is to be made of. Clients authenticate
/// themselves where the configuration switches that on; then there have to be anchors for
/// their certificates, and TLS 1.3 is the only protocol version.
pub open spec fn server_setup(config: Map<Seq<char>, Seq<char>>, files: FilesView) -> Result<
    LoadView<ServerParts>,
    ErrorView,
> {
    match switch(config, TLS_CLIENT_AUTH@) {
        Err(text) => Err(error_with(ErrorKind::UnknownClientAuth, text)),
        Ok(client_auth) => match loaded_identity(Side::Server, config, files) {
            Err(e) => Err(e),
            Ok(LoadView::Read { file, path }) => Ok(LoadView::Read { file, path }),
            Ok(LoadView::Done(identity)) => if client_auth {
                match trust_anchors(config, files.root_ca) {
                    Err(e) => Err(e),
                    Ok(LoadView::Read { file, path }) => Ok(LoadView::Read { file, path }),
                    Ok(LoadView::Done(None)) => Err(
                        plain_error(ErrorKind::MissingRootCertificates),
                    ),
                    Ok(LoadView::Done(Some(roots))) => Ok(
                        LoadView::Done(
                            ServerParts {
                                tls13_only: true,
                                client_roots: Some(roots),
                                certificates: identity.0,
                                key: identity.1,
                            },
                        ),
                    ),
                }
            } else {
                Ok(
                    LoadView::Done(
                        ServerParts {
                            tls13_only: false,
                            client_roots: None,
                            certificates: identity.0,
                            key: identity.1,
                        },
                    ),
                )
            },
        },
    }
}

/// Gathers what the server configuration of an endpoint is to be made of.
pub fn server_material(config: &Config, files: &Files) -> (r: Result<
    Load<ServerMaterial>,
    TlsError,
>)
    ensures
        (match r {
            Ok(Load::Done(material)) => Ok(LoadView::Done(material@)),
            Ok(Load::Read { file, path }) => Ok(LoadView::Read { file, path: path@ }),
            Err(e) => Err(e@),
        }) == server_setup(config@, files@),
{
    let client_auth: bool = match config.switch(TLS_CLIENT_AUTH) {
        Ok(on) => on,
        Err(text) => {
            return Err(TlsError::with(ErrorKind::UnknownClientAuth, text));
        },
    };
    let identity: Identity = match load_identity(Side::Server, config, files) {
        Ok(Load::Done(identity)) => identity,
        Ok(Load::Read { file, path }) => {
            return Ok(Load::Read { file, path });
        },
        Err(e) => {
            return Err(e);
        },
    };
    if client_auth {
        match load_trust_anchors(config, &files.root_ca) {
            Ok(Load::Done(Some(store))) => Ok(
                Load::Done(ServerMaterial { identity, client_roots: Some(store) }),
            ),
            Ok(Load::Done(None)) => Err(TlsError::plain(ErrorKind::MissingRootCertificates)),
            Ok(Load::Read { file, path }) => Ok(Load::Read { file, path }),
            Err(e) => Err(e),
        }
    } else {
        Ok(Load::Done(ServerMaterial { identity, client_roots: None }))
    }
}

/// The TLS configuration of a server.
pub struct TlsServerConfig {
    pub server_config: ServerConfig,
}

impl TlsServerConfig {
    /// Puts the server configuration of an endpoint together.
    ///
    /// `files` are the files that have been read so far. Where one more has to be read, the
    /// result names it; it is to be recorded in `files`, and the call made again.
    pub fn new(config: &Config, files: &Files) -> (r: Result<Load<TlsServerConfig>, TlsError>)
        ensures
            match server_setup(config@, files@) {
                Err(e) => r matches Err(error) && error@ == e,
                Ok(LoadView::Read { file, path }) => r matches Ok(
                    Load::Read { file: asked, path: named },
                ) && asked == file && named@ == path,
                Ok(LoadView::Done(parts)) => match r {
                    Ok(Load::Done(server)) => server_parts(server.server_config) == parts
                        && may_be_taken(parts.key),
                    Ok(Load::Read { .. }) => false,
                    Err(e) => e@ == error_with(ErrorKind::Tls, key_refusal()) && !surely_taken(
                        parts.key,
                    ),
                },
            },
    {
        let material: ServerMaterial = match server_material(config, files) {
            Ok(Load::Done(material)) => material,
            Ok(Load::Read { file, path }) => {
                return Ok(Load::Read { file, path });
            },
            Err(e) => {
                return Err(e);
            },
        };
        let built: Result<ServerConfig, String> = match material.client_roots {
            Some(store) => server_config_with_client_auth(
                store,
                material.identity.certificates,
                material.identity.key,
            ),
            None => server_config_without_client_auth(
                material.identity.certificates,
                material.identity.key,
            ),
        };
        match TlsServerConfig::from_built(built) {
            Ok(server) => Ok(Load::Done(server)),
            Err(e) => Err(e),
        }
    }

    /// Takes over what the TLS stack made of a server configuration.
    pub fn from_built(built: Result<ServerConfig, String>) -> (r: Result<TlsServerConfig, TlsError>)
        ensures
            match built {
                Ok(config) => r matches Ok(server) && server.server_config == config,
                Err(e) => r matches Err(error) && error@ == error_with(ErrorKind::Tls, e@),
            },
    {
        match built {
            Ok(server_config) => Ok(TlsServerConfig { server_config }),
            Err(e) => Err(TlsError::with(ErrorKind::Tls, e)),
        }
    }

    /// Loads the private key of the server.
    pub fn load_tls_private_key(config: &Config, read: &Option<FileRead>) -> (r: Result<
        Load<Vec<u8>>,
        TlsError,
    >)
        ensures
            bytes_load(r) == side_key(Side::Server, config@, opt_read(*read)),
    {
        load_tls_key(
            config,
            TLS_SERVER_PRIVATE_KEY_RAW,
            TLS_SERVER_PRIVATE_KEY_FILE,
            TLS_SERVER_PRIVATE_KEY_BASE_64,
            read,
        )
    }

    /// Loads the certificates of the server.
    pub fn load_tls_certificate(config: &Config, read: &Option<FileRead>) -> (r: Result<
        Load<Vec<u8>>,
        TlsError,
    >)
        ensures
            bytes_load(r) == side_certificate(Side::Server, config@, opt_read(*read)),
    {
        load_tls_certificate(
            config,
            TLS_SERVER_CERTIFICATE_RAW,
            TLS_SERVER_CERTIFICATE_FILE,
            TLS_SERVER_CERTIFICATE_BASE64,
            read,
        )
    }
}

/// A server shows the certificates of its certificate bytes, as many and place by place, and
/// signs with the key of its key bytes, whether clients authenticate themselves or not.
/// Where they do, their anchors are those that the configuration gives.
pub proof fn server_shows_its_chain_and_key(config: Map<Seq<char>, Seq<char>>, files: FilesView)
    ensures
        server_setup(config, files) matches Ok(LoadView::Done(parts)) ==> {
            &&& side_key(Side::Server, config, files.private_key) matches Ok(
                LoadView::Done(key_pem),
            )
            &&& side_certificate(Side::Server, config, files.certificate) matches Ok(
                LoadView::Done(cert_pem),
            )
            &&& pem_key(key_pem) == Ok::<Option<Seq<u8>>, Seq<char>>(Some(parts.key))
            &&& parts.certificates.len() == pem_certs(cert_pem, None).len()
            &&& forall|i: int|
                0 <= i < parts.certificates.len() ==> #[trigger] pem_certs(cert_pem, None)[i]
                    == Ok::<Seq<u8>, Seq<char>>(parts.certificates[i])
        },
        server_setup(config, files) matches Ok(LoadView::Done(parts)) ==> {
            let on = config.contains_key("client_auth"@) && config["client_auth"@] == "true"@;
            &&& parts.tls13_only == on
            &&& parts.client_roots is Some == on
            &&& on ==> trust_anchors(config, files.root_ca) == Ok::<
                LoadView<Option<Seq<AnchorView>>>,
                ErrorView,
            >(LoadView::Done(parts.client_roots))
        },
{
    loaded_identity_keeps_chain_and_key(Side::Server, config, files);
}

/// The setup of a server is done wherever its identity is loaded and, where clients are to
/// authenticate themselves, there are anchors for them. Else the first thing that is amiss
/// decides: the switch, the identity, and then the anchors.
pub proof fn server_setup_goes_in_order(config: Map<Seq<char>, Seq<char>>, files: FilesView)
    ensures
        switch(config, "client_auth"@) matches Err(text) ==> server_setup(config, files) == Err::<
            LoadView<ServerParts>, ErrorView,
        >(
            ErrorView {
                kind: ErrorKind::UnknownClientAuth,
                subject: Seq::empty(),
                detail: text,
            },
        ),
        switch(config, "client_auth"@) is Ok ==> (loaded_identity(Side::Server, config, files)
            matches Err(e) ==> server_setup(config, files) == Err::<LoadView<ServerParts>, ErrorView>(e)),
        switch(config, "client_auth"@) is Ok ==> (loaded_identity(Side::Server, config, files)
            matches Ok(LoadView::Read { file, path }) ==> server_setup(config, files) == Ok::<
            LoadView<ServerParts>, ErrorView,
        >(LoadView::Read { file, path })),
        switch(config, "client_auth"@) == Ok::<bool, Seq<char>>(false) && (loaded_identity(
            Side::Server,
            config,
            files,
        ) matches Ok(LoadView::Done(_))) ==> (server_setup(config, files) matches Ok(
            LoadView::Done(_),
        )),
        switch(config, "client_auth"@) == Ok::<bool, Seq<char>>(true) && (loaded_identity(
            Side::Server,
            config,
            files,
        ) matches Ok(LoadView::Done(_))) ==> match trust_anchors(config, files.root_ca) {
            Err(e) => server_setup(config, files) == Err::<LoadView<ServerParts>, ErrorView>(e),
            Ok(LoadView::Read { file, path }) => server_setup(config, files) == Ok::<LoadView<ServerParts>, ErrorView>(
                LoadView::Read { file, path },
            ),
            Ok(LoadView::Done(None)) => server_setup(config, files) == Err::<LoadView<ServerParts>, ErrorView>(
                ErrorView {
                    kind: ErrorKind::MissingRootCertificates,
                    subject: Seq::empty(),
                    detail: Seq::empty(),
                },
            ),
            Ok(LoadView::Done(Some(_))) => server_setup(config, files) matches Ok(
                LoadView::Done(_),
            ),
        },
{
}

/// What a server configuration is to be made of shows its identity and its client anchors.
pub proof fn server_material_shows_itself(material: ServerMaterial)
    ensures
        material@.certificates.len() == material.identity.certificates@.len(),
        forall|i: int|
            0 <= i < material@.certificates.len() ==> #[trigger] material@.certificates[i]
                == material.identity.certificates@[i]@,
        material@.key == material.identity.key@,
        material@.tls13_only == (material.client_roots is Some),
        material@.client_roots == (match material.client_roots {
            Some(store) => Some(store_anchors(store)),
            None => None,
        }),
{
}

} // verus!
