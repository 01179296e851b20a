//! The TLS configuration of a client.

use async_rustls::rustls::{ClientConfig, RootCertStore};
use vstd::prelude::*;

use crate::anchors::{
    default_root_list, default_roots_are_the_whole_list, load_default_webpki_certs,
    load_trust_anchors, trust_anchors, AnchorView,
};
use crate::config::{
    switch, Config, TLS_CLIENT_AUTH, TLS_CLIENT_CERTIFICATE_BASE64, TLS_CLIENT_CERTIFICATE_FILE,
    TLS_CLIENT_CERTIFICATE_RAW, TLS_CLIENT_PRIVATE_KEY_BASE64, TLS_CLIENT_PRIVATE_KEY_FILE,
    TLS_CLIENT_PRIVATE_KEY_RAW, TLS_SERVER_NAME_VERIFICATION,
};
use crate::credentials::{
    bytes_load, load_tls_certificate, load_tls_key, opt_read, FileRead, FileReadView, Files,
    FilesView, Load, LoadView,
};
use crate::error::{error_with, ErrorKind, ErrorView, TlsError};
use crate::identity::{
    load_identity, loaded_identity, loaded_identity_keeps_chain_and_key, side_certificate,
    side_key, Identity, Side,
};
use crate::outside::{
    add_store, client_config_with_identity, client_config_without_identity, client_parts,
    default_root, key_refusal, may_be_taken, pem_certs, store_anchors, surely_taken, ClientParts,
};
use crate::pem::pem_key;

verus! {

/// What a client configuration is to be made of.
pub struct ClientMaterial {
    /// The anchors that a server's certificate must go back to.
    pub roots: RootCertStore,
    /// What the client shows of itself, where it authenticates itself.
    pub identity: Option<Identity>,
}

impl View for ClientMaterial {
    type V = ClientParts;

    open spec fn view(&self) -> ClientParts {
        ClientParts {
            tls13_only: self.identity is Some,
            verifies_names: true,
            roots: store_anchors(self.roots),
            identity: match self.identity {
                Some(identity) => Some(identity@),
                None => None,
            },
        }
    }
}

/// The anchors of a client: those that come with the library, and behind them those that
/// the configuration gives.
pub open spec fn client_roots(
    config: Map<Seq<char>, Seq<char>>,
    read: Option<FileReadView>,
) -> Result<LoadView<Seq<AnchorView>>, ErrorView> {
    match trust_anchors(config, read) {
        Err(e) => Err(e),
        Ok(LoadView::Read { file, path }) => Ok(LoadView::Read { file, path }),
        Ok(LoadView::Done(None)) => Ok(LoadView::Done(default_root_list())),
        Ok(LoadView::Done(Some(custom))) => Ok(LoadView::Done(default_root_list() + custom)),
    }
}

/// What the client configuration of an endpoint is to be made of, and whether the client
/// checks the name in a server's certificate. The client authenticates itself where the
/// configuration switches that on; then TLS 1.3 is the only protocol version. What is built
/// checks names in any case; a client that does not gets another verifier in its place.
pub open spec fn client_setup(config: Map<Seq<char>, Seq<char>>, files: FilesView) -> Result<
    LoadView<(bool, ClientParts)>,
    ErrorView,
> {
    match switch(config, TLS_CLIENT_AUTH@) {
        Err(text) => Err(error_with(ErrorKind::UnknownClientAuth, text)),
        Ok(client_auth) => match switch(config, TLS_SERVER_NAME_VERIFICATION@) {
            Err(text) => Err(error_with(ErrorKind::UnknownServerNameVerification, text)),
            Ok(check_names) => match client_roots(config, files.root_ca) {
                Err(e) => Err(e),
                Ok(LoadView::Read { file, path }) => Ok(LoadView::Read { file, path }),
                Ok(LoadView::Done(roots)) => if client_auth {
                    match loaded_identity(Side::Client, config, files) {
                        Err(e) => Err(e),
                        Ok(LoadView::Read { file, path }) => Ok(LoadView::Read { file, path }),
                        Ok(LoadView::Done(identity)) => Ok(
                            LoadView::Done(
                                (
                                    check_names,
                                    ClientParts {
                                        tls13_only: true,
                                        verifies_names: true,
                                        roots,
                                        identity: Some(identity),
                                    },
                                ),
                            ),
                        ),
                    }
                } else {
                    Ok(
                        LoadView::Done(
                            (
                                check_names,
                                ClientParts {
                                    tls13_only: false,
                                    verifies_names: true,
                                    roots,
                                    identity: None,
                                },
                            ),
                        ),
                    )
                },
            },
        },
    }
}

/// Gathers the anchors of a client.
fn load_client_roots(config: &Config, read: &Option<FileRead>) -> (r: Result<
    Load<RootCertStore>,
    TlsError,
>)
    ensures
        (match r {
            Ok(Load::Done(store)) => Ok(LoadView::Done(store_anchors(store))),
            Ok(Load::Read { file, path }) => Ok(LoadView::Read { file, path: path@ }),
            Err(e) => Err(e@),
        }) == client_roots(config@, opt_read(*read)),
{
    let mut root_cert_store: RootCertStore = load_default_webpki_certs();
    match load_trust_anchors(config, read) {
        Ok(Load::Done(Some(custom_root_cert))) => {
            add_store(&mut root_cert_store, custom_root_cert);
            Ok(Load::Done(root_cert_store))
        },
        Ok(Load::Done(None)) => Ok(Load::Done(root_cert_store)),
        Ok(Load::Read { file, path }) => Ok(Load::Read { file, path }),
        Err(e) => Err(e),
    }
}

/// Gathers what the client configuration of an endpoint is to be made of, and whether the
/// client checks the name in a server's certificate.
pub fn client_material(config: &Config, files: &Files) -> (r: Result<
    Load<(bool, ClientMaterial)>,
    TlsError,
>)
    ensures
        (match r {
            Ok(Load::Done((check_names, material))) => Ok(
                LoadView::Done((check_names, material@)),
            ),
            Ok(Load::Read { file, path }) => Ok(LoadView::Read { file, path: path@ }),
            Err(e) => Err(e@),
        }) == client_setup(config@, files@),
{
    let client_auth: bool = match config.switch(TLS_CLIENT_AUTH) {
        Ok(on) => on,
        Err(text) => {
            return Err(TlsError::with(ErrorKind::UnknownClientAuth, text));
        },
    };
    let check_names: bool = match config.switch(TLS_SERVER_NAME_VERIFICATION) {
        Ok(on) => on,
        Err(text) => {
            return Err(TlsError::with(ErrorKind::UnknownServerNameVerification, text));
        },
    };
    let roots: RootCertStore = match load_client_roots(config, &files.root_ca) {
        Ok(Load::Done(store)) => store,
        Ok(Load::Read { file, path }) => {
            return Ok(Load::Read { file, path });
        },
        Err(e) => {
            return Err(e);
        },
    };
    if client_auth {
        match load_identity(Side::Client, config, files) {
            Ok(Load::Done(identity)) => Ok(
                Load::Done(
                    (
                        check_names,
                        ClientMaterial { roots, identity: Some(identity) },
                    ),
                ),
            ),
            Ok(Load::Read { file, path }) => Ok(Load::Read { file, path }),
            Err(e) => Err(e),
        }
    } else {
        Ok(
            Load::Done(
                (check_names, ClientMaterial { roots, identity: None }),
            ),
        )
    }
}

/// The TLS configuration of a client.
pub struct TlsClientConfig {
    /// The configuration, with a verifier that checks the names of servers.
    pub client_config: ClientConfig,
    /// Where the client does not check names: the anchors for the verifier that has to
    /// stand in the place of the one in the configuration.
    pub any_name_roots: Option<RootCertStore>,
}

impl TlsClientConfig {
    /// Puts the client configuration of an endpoint together.
    ///
    /// `files` are the files that have been read so far. Where one more has to be read, the
    /// result names it; it is to be recorded in `files`, and the call made again.
    pub fn new(config: &Config, files: &Files) -> (r: Result<Load<TlsClientConfig>, TlsError>)
        ensures
            match client_setup(config@, files@) {
                Err(e) => r matches Err(error) && error@ == e,
                Ok(LoadView::Read { file, path }) => r matches Ok(
                    Load::Read { file: asked, path: named },
                ) && asked == file && named@ == path,
                Ok(LoadView::Done((check_names, parts))) => match r {
                    Ok(Load::Done(client)) => {
                        &&& client_parts(client.client_config) == parts
                        &&& parts.identity matches Some(identity) ==> may_be_taken(identity.1)
                        &&& match client.any_name_roots {
                            None => check_names,
                            Some(store) => !check_names && store_anchors(store) == parts.roots,
                        }
                    },
                    Ok(Load::Read { .. }) => false,
                    Err(e) => {
                        &&& e@ == error_with(ErrorKind::BadCertificateKey, key_refusal())
                        &&& parts.identity matches Some(identity) && !surely_taken(identity.1)
                    },
                },
            },
    {
        let (check_names, material): (bool, ClientMaterial) = match client_material(
            config,
            files,
        ) {
            Ok(Load::Done(found)) => found,
            Ok(Load::Read { file, path }) => {
                return Ok(Load::Read { file, path });
            },
            Err(e) => {
                return Err(e);
            },
        };
        let built: Result<Result<ClientConfig, String>, String> = match material.identity {
            Some(identity) => client_config_with_identity(
                &material.roots,
                identity.certificates,
                identity.key,
            ),
            None => Ok(Ok(client_config_without_identity(&material.roots))),
        };
        match TlsClientConfig::from_built(built, check_names, material.roots) {
            Ok(client) => Ok(Load::Done(client)),
            Err(e) => Err(e),
        }
    }

    /// Takes over what the TLS stack made of a client configuration: the outer result is
    /// that of its protocol parameters, the inner one that of its certificate and key.
    pub fn from_built(
        built: Result<Result<ClientConfig, String>, String>,
        check_names: bool,
        roots: RootCertStore,
    ) -> (r: Result<TlsClientConfig, TlsError>)
        ensures
            match built {
                Ok(Ok(config)) => r matches Ok(client) && client.client_config == config
                    && client.any_name_roots == (if check_names {
                    None
                } else {
                    Some(roots)
                }),
                Ok(Err(e)) => r matches Err(error) && error@ == error_with(
                    ErrorKind::BadCertificateKey,
                    e@,
                ),
                Err(e) => r matches Err(error) && error@ == error_with(
                    ErrorKind::ConfigParameters,
                    e@,
                ),
            },
    {
        match built {
            Ok(Ok(client_config)) => {
                let any_name_roots: Option<RootCertStore> = if check_names {
                    None
                } else {
                    Some(roots)
                };
                Ok(TlsClientConfig { client_config, any_name_roots })
            },
            Ok(Err(e)) => Err(TlsError::with(ErrorKind::BadCertificateKey, e)),
            Err(e) => Err(TlsError::with(ErrorKind::ConfigParameters, e)),
        }
    }

    /// Loads the private key of the client.
    pub fn load_tls_private_key(config: &Config, read: &Option<FileRead>) -> (r: Result<
        Load<Vec<u8>>,
        TlsError,
    >)
        ensures
            bytes_load(r) == side_key(Side::Client, config@, opt_read(*read)),
    {
        load_tls_key(
            config,
            TLS_CLIENT_PRIVATE_KEY_RAW,
            TLS_CLIENT_PRIVATE_KEY_FILE,
            TLS_CLIENT_PRIVATE_KEY_BASE64,
            read,
        )
    }

    /// Loads the certificates of the client.
    pub fn load_tls_certificate(config: &Config, read: &Option<FileRead>) -> (r: Result<
        Load<Vec<u8>>,
        TlsError,
    >)
        ensures
            bytes_load(r) == side_certificate(Side::Client, config@, opt_read(*read)),
    {
        load_tls_certificate(
            config,
            TLS_CLIENT_CERTIFICATE_RAW,
            TLS_CLIENT_CERTIFICATE_FILE,
            TLS_CLIENT_CERTIFICATE_BASE64,
            read,
        )
    }
}

/// A client that authenticates itself shows the certificates of its certificate bytes, as
/// many and place by place, and signs with the key of its key bytes. One that does not shows
/// nothing of itself.
pub proof fn client_shows_its_chain_and_key(config: Map<Seq<char>, Seq<char>>, files: FilesView)
    ensures
        client_setup(config, files) matches Ok(LoadView::Done((check_names, parts))) ==> {
            let on = config.contains_key("client_auth"@) && config["client_auth"@] == "true"@;
            &&& parts.tls13_only == on
            &&& parts.identity is Some == on
        },
        client_setup(config, files) matches Ok(LoadView::Done((check_names, parts))) ==> (
        parts.identity matches Some((chain, key)) ==> {
            &&& side_key(Side::Client, config, files.private_key) matches Ok(
                LoadView::Done(key_pem),
            )
            &&& side_certificate(Side::Client, config, files.certificate) matches Ok(
                LoadView::Done(cert_pem),
            )
            &&& pem_key(key_pem) == Ok::<Option<Seq<u8>>, Seq<char>>(Some(key))
            &&& chain.len() == pem_certs(cert_pem, None).len()
            &&& forall|i: int|
                0 <= i < chain.len() ==> #[trigger] pem_certs(cert_pem, None)[i] == Ok::<
                    Seq<u8>,
                    Seq<char>,
                >(chain[i])
        }),
{
    loaded_identity_keeps_chain_and_key(Side::Client, config, files);
}

/// A client trusts the anchors that come with the library, all and in their order, and
/// behind them those that the configuration gives, and no others. It checks names exactly
/// where the configuration says so.
pub proof fn client_trusts_what_it_is_given(
    config: Map<Seq<char>, Seq<char>>,
    files: FilesView,
    defaults: Seq<AnchorView>,
)
    requires
        forall|i: int|
            #![trigger default_root(i)]
            default_root(i) == (if 0 <= i < defaults.len() {
                Some(defaults[i])
            } else {
                None
            }),
    ensures
        client_setup(config, files) matches Ok(LoadView::Done((check_names, parts))) ==> {
            &&& check_names == (config.contains_key("server_name_verification"@)
                && config["server_name_verification"@] == "true"@)
            &&& parts.verifies_names
            &&& trust_anchors(config, files.root_ca) matches Ok(LoadView::Done(custom))
            &&& parts.roots == (match custom {
                Some(anchors) => defaults + anchors,
                None => defaults,
            })
        },
{
    default_roots_are_the_whole_list(defaults);
    reveal_strlit("true");
    reveal_strlit("false");
    assert("true"@.len() != "false"@.len());
}

/// The anchors of a client are there wherever those of the configuration are, and else what
/// is amiss with those.
pub proof fn client_roots_follow_the_configuration(
    config: Map<Seq<char>, Seq<char>>,
    read: Option<FileReadView>,
    defaults: Seq<AnchorView>,
)
    requires
        forall|i: int|
            #![trigger default_root(i)]
            default_root(i) == (if 0 <= i < defaults.len() {
                Some(defaults[i])
            } else {
                None
            }),
    ensures
        match trust_anchors(config, read) {
            Err(e) => client_roots(config, read) == Err::<LoadView<Seq<AnchorView>>, ErrorView>(e),
            Ok(LoadView::Read { file, path }) => client_roots(config, read) == Ok::<
                LoadView<Seq<AnchorView>>,
                ErrorView,
            >(LoadView::Read { file, path }),
            Ok(LoadView::Done(None)) => client_roots(config, read) == Ok::<
                LoadView<Seq<AnchorView>>,
                ErrorView,
            >(LoadView::Done(defaults)),
            Ok(LoadView::Done(Some(custom))) => client_roots(config, read) == Ok::<
                LoadView<Seq<AnchorView>>,
                ErrorView,
            >(LoadView::Done(defaults + custom)),
        },
{
    default_roots_are_the_whole_list(defaults);
}

/// The setup of a client is done wherever its switches and anchors are in order and, where it
/// authenticates itself, its identity is loaded. Else the first thing that is amiss decides:
/// the two switches, the anchors, and then the identity.
pub proof fn client_setup_goes_in_order(config: Map<Seq<char>, Seq<char>>, files: FilesView)
    ensures
        switch(config, "client_auth"@) matches Err(text) ==> client_setup(config, files) == Err::<
            LoadView<(bool, ClientParts)>, ErrorView,
        >(
            ErrorView {
                kind: ErrorKind::UnknownClientAuth,
                subject: Seq::empty(),
                detail: text,
            },
        ),
        switch(config, "client_auth"@) is Ok ==> (switch(config, "server_name_verification"@)
            matches Err(text) ==> client_setup(config, files) == Err::<LoadView<(bool, ClientParts)>, ErrorView>(
            ErrorView {
                kind: ErrorKind::UnknownServerNameVerification,
                subject: Seq::empty(),
                detail: text,
            },
        )),
        switch(config, "client_auth"@) is Ok && switch(config, "server_name_verification"@) is Ok
            ==> match trust_anchors(config, files.root_ca) {
            Err(e) => client_setup(config, files) == Err::<LoadView<(bool, ClientParts)>, ErrorView>(e),
            Ok(LoadView::Read { file, path }) => client_setup(config, files) == Ok::<LoadView<(bool, ClientParts)>, ErrorView>(
                LoadView::Read { file, path },
            ),
            Ok(LoadView::Done(_)) => if switch(config, "client_auth"@) == Ok::<bool, Seq<char>>(
                true,
            ) {
                match loaded_identity(Side::Client, config, files) {
                    Err(e) => client_setup(config, files) == Err::<LoadView<(bool, ClientParts)>, ErrorView>(e),
                    Ok(LoadView::Read { file, path }) => client_setup(config, files) == Ok::<LoadView<(bool, ClientParts)>, ErrorView>(
                        LoadView::Read { file, path },
                    ),
                    Ok(LoadView::Done(_)) => client_setup(config, files) matches Ok(
                        LoadView::Done(_),
                    ),
                }
            } else {
                client_setup(config, files) matches Ok(LoadView::Done(_))
            },
        },
{
}

/// What a client configuration is to be made of shows its anchors and its identity.
pub proof fn client_material_shows_itself(material: ClientMaterial)
    ensures
        material@.tls13_only == (material.identity is Some),
        material@.verifies_names,
        material@.roots == store_anchors(material.roots),
        material@.identity is Some == (material.identity is Some),
        material.identity matches Some(identity) ==> {
            &&& material@.identity->Some_0.1 == identity.key@
            &&& material@.identity->Some_0.0.len() == identity.certificates@.len()
            &&& forall|i: int|
                0 <= i < identity.certificates@.len() ==> #[trigger] material@.identity->Some_0.0[i]
                    == identity.certificates@[i]@
        },
{
}

} // verus!
