//! What the library takes from other crates. The contracts in this file are believed,
//! not proved; everything else rests on them.

use async_rustls::rustls::server::AllowAnyAuthenticatedClient;
use async_rustls::rustls::sign::{any_eddsa_type, RsaSigningKey};
use async_rustls::rustls::version::TLS13;
use async_rustls::rustls::{
    Certificate, ClientConfig, OwnedTrustAnchor, PrivateKey, RootCertStore, ServerConfig,
};
use base64::Engine;
use std::io::{BufReader, Read};
use std::sync::Arc;
use vstd::prelude::*;

use crate::anchors::{AnchorView, TrustAnchor};
use crate::views::{result_view, result_views, views};

verus! {

/// The set of trust anchors of `rustls`.
#[verifier::external_type_specification]
#[verifier::external_body]
pub struct ExRootCertStore(RootCertStore);

/// The configuration of a server of `rustls`.
#[verifier::external_type_specification]
#[verifier::external_body]
pub struct ExServerConfig(ServerConfig);

/// The configuration of a client of `rustls`.
#[verifier::external_type_specification]
#[verifier::external_body]
pub struct ExClientConfig(ClientConfig);

/// What `base64` makes of a text in its standard alphabet with padding: the bytes, or
/// its error as text.
pub uninterp spec fn base64_decoded(text: Seq<char>) -> Result<Seq<u8>, Seq<char>>;

/// `Engine::decode` of `base64::engine::general_purpose::STANDARD`: decodes a text. The
/// result hangs on the text alone.
#[verifier::external_body]
pub(crate) fn decode_base64(text: &str) -> (r: Result<Vec<u8>, String>)
    ensures
        result_view(r) == base64_decoded(text@),
{
    base64::engine::general_purpose::STANDARD.decode(text).map_err(|e| format!("{e:?}"))
}

/// The byte that ends a line.
pub const LINE_FEED: u8 = 10;

/// Whether a list of items holds no error.
pub open spec fn no_error(items: Seq<Result<Seq<u8>, Seq<char>>>) -> bool {
    forall|i: int| 0 <= i < items.len() ==> #[trigger] items[i] is Ok
}

/// The byte that the lines before and behind a PEM section are made with.
pub const DASH: u8 = 45;

/// The error of reading.
#[verifier::external_type_specification]
#[verifier::external_body]
pub struct ExIoError(std::io::Error);

/// `std::io::Error::other`: an error of reading. What is in it is left unsaid, as nothing
/// but the readers of other crates looks at it.
#[verifier::external_body]
fn io_error(why: String) -> std::io::Error {
    std::io::Error::other(why)
}

/// What stands behind the bytes that could be read of a source: its end, or a failure, and
/// its end behind that.
struct Remainder {
    failure: Option<String>,
}

impl Read for Remainder {
    fn read(&mut self, _buf: &mut [u8]) -> Result<usize, std::io::Error> {
        match self.failure.take() {
            Some(why) => Err(io_error(why)),
            None => Ok(0),
        }
    }
}

/// The text of a failure, where there is one.
pub open spec fn failure_text(failure: Option<String>) -> Option<Seq<char>> {
    match failure {
        Some(why) => Some(why@),
        None => None,
    }
}

/// What `rustls_pemfile::certs` yields for PEM bytes, behind which reading may fail: each
/// certificate in DER, or an error as text, in order.
pub uninterp spec fn pem_certs(pem: Seq<u8>, failure: Option<Seq<char>>) -> Seq<
    Result<Seq<u8>, Seq<char>>,
>;

/// `rustls_pemfile::certs`: the certificates of PEM bytes, one item per certificate
/// section, one per section that is malformed, and one for the failure of reading, where
/// there is one behind the bytes. The items hang on the bytes and that failure alone.
///
/// A section begins with a line of dashes: bytes without a dash yield nothing but the
/// failure. The bytes are read line by line, and nothing is kept from one section to the
/// next. So where they are cut behind a line feed, and no section of the first piece is
/// malformed or without its end, the items are those of the two pieces behind one another.
#[verifier::external_body]
pub(crate) fn read_pem_certs(pem: &[u8], failure: Option<String>) -> (r: Vec<
    Result<Vec<u8>, String>,
>)
    ensures
        result_views(r@) == pem_certs(pem@, failure_text(failure)),
        failure is Some ==> !no_error(result_views(r@)),
        !pem@.contains(DASH) ==> result_views(r@) == (match failure {
            Some(why) => seq![Err::<Seq<u8>, Seq<char>>(why@)],
            None => Seq::empty(),
        }),
        forall|n: int|
            #![trigger pem@.take(n)]
            0 < n <= pem@.len() && pem@[n - 1] == LINE_FEED && no_error(
                pem_certs(pem@.take(n), None),
            ) ==> result_views(r@) == pem_certs(pem@.take(n), None) + pem_certs(
                pem@.skip(n),
                failure_text(failure),
            ),
{
    rustls_pemfile::certs(&mut BufReader::new(Read::chain(pem, Remainder { failure })))
        .map(|item| item.map(|der| der.to_vec()).map_err(|e| e.to_string()))
        .collect()
}

/// What `rustls_pemfile::rsa_private_keys` yields for PEM bytes.
pub uninterp spec fn pem_rsa_keys(pem: Seq<u8>) -> Seq<Result<Seq<u8>, Seq<char>>>;

/// `rustls_pemfile::rsa_private_keys`: the private keys of PEM bytes that are in PKCS #1,
/// as DER, and an item for each malformed section. The items hang on the bytes alone, and
/// bytes without a dash yield none.
#[verifier::external_body]
pub(crate) fn read_pem_rsa_keys(pem: &[u8]) -> (r: Vec<Result<Vec<u8>, String>>)
    ensures
        result_views(r@) == pem_rsa_keys(pem@),
        !pem@.contains(DASH) ==> r@.len() == 0,
{
    let mut reader: &[u8] = pem;
    rustls_pemfile::rsa_private_keys(&mut reader)
        .map(|item| item.map(|key| key.secret_pkcs1_der().to_vec()).map_err(|e| e.to_string()))
        .collect()
}

/// What `rustls_pemfile::pkcs8_private_keys` yields for PEM bytes.
pub uninterp spec fn pem_pkcs8_keys(pem: Seq<u8>) -> Seq<Result<Seq<u8>, Seq<char>>>;

/// `rustls_pemfile::pkcs8_private_keys`: the private keys of PEM bytes that are in
/// PKCS #8, as DER, and an item for each malformed section. The items hang on the bytes
/// alone, and bytes without a dash yield none.
#[verifier::external_body]
pub(crate) fn read_pem_pkcs8_keys(pem: &[u8]) -> (r: Vec<Result<Vec<u8>, String>>)
    ensures
        result_views(r@) == pem_pkcs8_keys(pem@),
        !pem@.contains(DASH) ==> r@.len() == 0,
{
    let mut reader: &[u8] = pem;
    rustls_pemfile::pkcs8_private_keys(&mut reader)
        .map(|item| item.map(|key| key.secret_pkcs8_der().to_vec()).map_err(|e| e.to_string()))
        .collect()
}

/// What `rustls_pemfile::ec_private_keys` yields for PEM bytes.
pub uninterp spec fn pem_ec_keys(pem: Seq<u8>) -> Seq<Result<Seq<u8>, Seq<char>>>;

/// `rustls_pemfile::ec_private_keys`: the private keys of PEM bytes that are in SEC1, as
/// DER, and an item for each malformed section. The items hang on the bytes alone, and bytes
/// without a dash yield none.
#[verifier::external_body]
pub(crate) fn read_pem_ec_keys(pem: &[u8]) -> (r: Vec<Result<Vec<u8>, String>>)
    ensures
        result_views(r@) == pem_ec_keys(pem@),
        !pem@.contains(DASH) ==> r@.len() == 0,
{
    let mut reader: &[u8] = pem;
    rustls_pemfile::ec_private_keys(&mut reader)
        .map(|item| item.map(|key| key.secret_sec1_der().to_vec()).map_err(|e| e.to_string()))
        .collect()
}

/// What `webpki::anchor_from_trusted_cert` makes of a certificate in DER: its trust
/// anchor, or an error as text.
pub uninterp spec fn cert_anchor(der: Seq<u8>) -> Result<AnchorView, Seq<char>>;

/// `webpki::anchor_from_trusted_cert`: the subject, the public key and the name
/// constraints of a certificate in DER. The result hangs on the bytes alone.
#[verifier::external_body]
pub(crate) fn anchor_from_cert(der: &[u8]) -> (r: Result<TrustAnchor, String>)
    ensures
        result_view(r) == cert_anchor(der@),
{
    match webpki::anchor_from_trusted_cert(&webpki::types::CertificateDer::from(der)) {
        Ok(anchor) => Ok(
            TrustAnchor {
                subject: anchor.subject.to_vec(),
                spki: anchor.subject_public_key_info.to_vec(),
                name_constraints: anchor.name_constraints.map(|c| c.to_vec()),
            },
        ),
        Err(e) => Err(e.to_string()),
    }
}

/// The trust anchor at a place of the list that `webpki_roots` is compiled with, and
/// nothing at a place outside it.
pub uninterp spec fn default_root(place: int) -> Option<AnchorView>;

/// `webpki_roots::TLS_SERVER_ROOTS`: the whole list, in its order.
#[verifier::external_body]
pub(crate) fn default_roots() -> (r: Vec<TrustAnchor>)
    ensures
        forall|i: int|
            #![trigger default_root(i)]
            default_root(i) == (if 0 <= i < r@.len() {
                Some(r@[i]@)
            } else {
                None
            }),
{
    webpki_roots::TLS_SERVER_ROOTS
        .iter()
        .map(
            |anchor| TrustAnchor {
                subject: anchor.subject.to_vec(),
                spki: anchor.subject_public_key_info.to_vec(),
                name_constraints: anchor.name_constraints.clone().map(|c| c.to_vec()),
            },
        )
        .collect()
}

/// The trust anchors that a store holds, in the order in which they were added.
pub uninterp spec fn store_anchors(store: RootCertStore) -> Seq<AnchorView>;

/// `RootCertStore::empty`: a store without an anchor.
#[verifier::external_body]
pub(crate) fn empty_store() -> (r: RootCertStore)
    ensures
        store_anchors(r) == Seq::<AnchorView>::empty(),
{
    RootCertStore::empty()
}

/// `RootCertStore::add_trust_anchors` on anchors given by their parts, through
/// `OwnedTrustAnchor::from_subject_spki_name_constraints`: adds them behind those that
/// the store holds.
#[verifier::external_body]
pub(crate) fn add_anchors(store: &mut RootCertStore, anchors: Vec<TrustAnchor>)
    ensures
        store_anchors(*final(store)) == store_anchors(*old(store)) + views(anchors@),
{
    store.add_trust_anchors(anchors.into_iter().map(
        |anchor| OwnedTrustAnchor::from_subject_spki_name_constraints(
            anchor.subject,
            anchor.spki,
            anchor.name_constraints,
        ),
    ));
}

/// `RootCertStore::add_trust_anchors` on the anchors of another store: adds them behind
/// those that the store holds.
#[verifier::external_body]
pub(crate) fn add_store(store: &mut RootCertStore, other: RootCertStore)
    ensures
        store_anchors(*final(store)) == store_anchors(*old(store)) + store_anchors(other),
{
    store.add_trust_anchors(other.roots.into_iter());
}

/// What the configuration of a server is made of.
pub struct ServerParts {
    /// Whether TLS 1.3 is the only protocol version; else the default versions are on.
    pub tls13_only: bool,
    /// The anchors that a client's certificate must go back to; none where clients are
    /// not asked for one.
    pub client_roots: Option<Seq<AnchorView>>,
    /// The certificate chain that the server shows.
    pub certificates: Seq<Seq<u8>>,
    /// The private key that goes with the chain.
    pub key: Seq<u8>,
}

/// What the configuration of a client is made of.
pub struct ClientParts {
    /// Whether TLS 1.3 is the only protocol version; else the default versions are on.
    pub tls13_only: bool,
    /// Whether the name in a server's certificate is checked.
    pub verifies_names: bool,
    /// The anchors that a server's certificate must go back to.
    pub roots: Seq<AnchorView>,
    /// The certificate chain and the private key by which the client authenticates
    /// itself, where it does.
    pub identity: Option<(Seq<Seq<u8>>, Seq<u8>)>,
}

/// What a server configuration was made of.
pub uninterp spec fn server_parts(config: ServerConfig) -> ServerParts;

/// What a client configuration was made of.
pub uninterp spec fn client_parts(config: ClientConfig) -> ClientParts;

/// Whether `rustls::sign::RsaSigningKey::new` reads a private key in DER. It hangs on the
/// bytes alone.
pub uninterp spec fn rsa_key(key: Seq<u8>) -> bool;

/// Whether `rustls::sign::any_eddsa_type` reads a private key in DER. It hangs on the bytes
/// alone.
pub uninterp spec fn eddsa_key(key: Seq<u8>) -> bool;

/// Whether `rustls::sign::any_ecdsa_type` reads a private key in DER where it gets the
/// random numbers that it draws. It hangs on the bytes alone.
pub uninterp spec fn ecdsa_key(key: Seq<u8>) -> bool;

/// Whether bytes begin as a sequence in DER does.
pub open spec fn opens_sequence(bytes: Seq<u8>) -> bool {
    bytes.len() > 0 && bytes[0] == 0x30
}

/// Whether a private key can be taken: it is of one of the three kinds, each of which is a
/// sequence in DER. Any other key is refused.
pub open spec fn may_be_taken(key: Seq<u8>) -> bool {
    opens_sequence(key) && (rsa_key(key) || eddsa_key(key) || ecdsa_key(key))
}

/// Whether a private key is of a kind that is read without random numbers. Reading an
/// ECDSA key draws some, and can fail for want of them.
pub open spec fn surely_taken(key: Seq<u8>) -> bool {
    rsa_key(key) || eddsa_key(key)
}

/// `rustls::sign::RsaSigningKey::new`: whether it reads a private key.
#[verifier::external_body]
pub(crate) fn reads_rsa_key(key: &[u8]) -> (r: bool)
    ensures
        r == rsa_key(key@),
{
    RsaSigningKey::new(&PrivateKey(key.to_vec())).is_ok()
}

/// `rustls::sign::any_eddsa_type`: whether it reads a private key.
#[verifier::external_body]
pub(crate) fn reads_eddsa_key(key: &[u8]) -> (r: bool)
    ensures
        r == eddsa_key(key@),
{
    any_eddsa_type(&PrivateKey(key.to_vec())).is_ok()
}

/// The one error that `rustls` has for a private key that it cannot use.
pub open spec fn key_refusal() -> Seq<char> {
    "unexpected error: invalid private key"@
}

/// `ServerConfig::builder` with the default cipher suites and key exchange groups, TLS 1.3
/// alone, an `AllowAnyAuthenticatedClient` on the given store, and `with_single_cert` on
/// the chain and the key. It fails only where the key is refused. It takes every RSA and
/// EdDSA key that `rustls` can read, and no key that is of neither of these kinds nor an
/// ECDSA key; each of the three begins as a sequence. Whether an ECDSA key is taken is left
/// unsaid, as reading one draws random numbers.
#[verifier::external_body]
pub(crate) fn server_config_with_client_auth(
    roots: RootCertStore,
    certificates: Vec<Vec<u8>>,
    key: Vec<u8>,
) -> (r: Result<ServerConfig, String>)
    ensures
        match r {
            Ok(config) => {
                &&& server_parts(config) == (ServerParts {
                    tls13_only: true,
                    client_roots: Some(store_anchors(roots)),
                    certificates: views(certificates@),
                    key: key@,
                })
                &&& opens_sequence(key@)
                &&& rsa_key(key@) || eddsa_key(key@) || ecdsa_key(key@)
            },
            Err(e) => e@ == key_refusal() && !rsa_key(key@) && !eddsa_key(key@),
        },
{
    ServerConfig::builder()
        .with_safe_default_cipher_suites()
        .with_safe_default_kx_groups()
        .with_protocol_versions(&[&TLS13])
        .map_err(|e| e.to_string())?
        .with_client_cert_verifier(Arc::new(AllowAnyAuthenticatedClient::new(roots)))
        .with_single_cert(certificates.into_iter().map(Certificate).collect(), PrivateKey(key))
        .map_err(|e| e.to_string())
}

/// `ServerConfig::builder` with the safe defaults, no client authentication, and
/// `with_single_cert` on the chain and the key. It fails only where the key is refused. It
/// takes every RSA and EdDSA key that `rustls` can read, and no key that is of neither of
/// these kinds nor an ECDSA key; each of the three begins as a sequence. Whether an ECDSA
/// key is taken is left unsaid, as reading one draws random numbers.
#[verifier::external_body]
pub(crate) fn server_config_without_client_auth(
    certificates: Vec<Vec<u8>>,
    key: Vec<u8>,
) -> (r: Result<ServerConfig, String>)
    ensures
        match r {
            Ok(config) => {
                &&& server_parts(config) == (ServerParts {
                    tls13_only: false,
                    client_roots: None,
                    certificates: views(certificates@),
                    key: key@,
                })
                &&& opens_sequence(key@)
                &&& rsa_key(key@) || eddsa_key(key@) || ecdsa_key(key@)
            },
            Err(e) => e@ == key_refusal() && !rsa_key(key@) && !eddsa_key(key@),
        },
{
    ServerConfig::builder()
        .with_safe_defaults()
        .with_no_client_auth()
        .with_single_cert(certificates.into_iter().map(Certificate).collect(), PrivateKey(key))
        .map_err(|e| e.to_string())
}

/// `ClientConfig::builder` with the default cipher suites and key exchange groups, TLS 1.3
/// alone, `with_root_certificates` on a copy of the given store, which makes the client
/// check server names too, and `with_client_auth_cert` on the chain and the key. The outer result is that of the protocol version, which the default
/// cipher suites always allow. The inner one fails only where the key is refused. Every RSA
/// and EdDSA key that `rustls` can read is taken, and no key that is of neither of these
/// kinds nor an ECDSA key; each of the three begins as a sequence. Whether an ECDSA key is
/// taken is left unsaid, as reading one draws random numbers.
#[verifier::external_body]
pub(crate) fn client_config_with_identity(
    roots: &RootCertStore,
    certificates: Vec<Vec<u8>>,
    key: Vec<u8>,
) -> (r: Result<Result<ClientConfig, String>, String>)
    ensures
        match r {
            Ok(Ok(config)) => {
                &&& client_parts(config) == (ClientParts {
                    tls13_only: true,
                    verifies_names: true,
                    roots: store_anchors(*roots),
                    identity: Some((views(certificates@), key@)),
                })
                &&& opens_sequence(key@)
                &&& rsa_key(key@) || eddsa_key(key@) || ecdsa_key(key@)
            },
            Ok(Err(e)) => e@ == key_refusal() && !rsa_key(key@) && !eddsa_key(key@),
            Err(e) => false,
        },
{
    Ok(
        ClientConfig::builder()
            .with_safe_default_cipher_suites()
            .with_safe_default_kx_groups()
            .with_protocol_versions(&[&TLS13])
            .map_err(|e| e.to_string())?
            .with_root_certificates(roots.clone())
            .with_client_auth_cert(
                certificates.into_iter().map(Certificate).collect(),
                PrivateKey(key),
            )
            .map_err(|e| e.to_string()),
    )
}

/// `ClientConfig::builder` with the safe defaults, `with_root_certificates` on a copy of
/// the given store, which makes the client check server names too, and
/// `with_no_client_auth`. It does not fail.
#[verifier::external_body]
pub(crate) fn client_config_without_identity(roots: &RootCertStore) -> (r: ClientConfig)
    ensures
        client_parts(r) == (ClientParts {
            tls13_only: false,
            verifies_names: true,
            roots: store_anchors(*roots),
            identity: None,
        }),
{
    ClientConfig::builder()
        .with_safe_defaults()
        .with_root_certificates(roots.clone())
        .with_no_client_auth()
}

/// A key is sure to be taken exactly where it is an RSA or an EdDSA key, and may be taken
/// only where it is one of these or an ECDSA key, and begins as a sequence.
pub proof fn keys_of_known_kinds_are_taken(key: Seq<u8>)
    ensures
        surely_taken(key) <==> rsa_key(key) || eddsa_key(key),
        may_be_taken(key) <==> {
            &&& key.len() > 0
            &&& key[0] == 48
            &&& rsa_key(key) || eddsa_key(key) || ecdsa_key(key)
        },
{
}

/// A list without an error holds a value at each place, and a failure shows its text.
pub proof fn items_without_an_error_are_values(
    items: Seq<Result<Seq<u8>, Seq<char>>>,
    why: String,
)
    ensures
        no_error(items) <==> forall|i: int| 0 <= i < items.len() ==> #[trigger] items[i] is Ok,
        failure_text(Some(why)) == Some(why@),
        failure_text(None) is None,
{
}

} // verus!
