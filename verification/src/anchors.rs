//! Trust anchors: the root certificates that a peer's certificate must go back to.

use async_rustls::rustls::RootCertStore;
use vstd::prelude::*;
use vstd::utf8::encode_utf8;

use crate::config::{
    lookup, Config, TLS_ROOT_CA_CERTIFICATE_BASE64, TLS_ROOT_CA_CERTIFICATE_FILE,
    TLS_ROOT_CA_CERTIFICATE_RAW,
};
use crate::credentials::{
    base64_decode, opt_read, FileRead, FileReadView, FileRole, Load, LoadView,
};
use crate::error::{error_with, ErrorKind, ErrorView, TlsError};
use crate::outside::{
    add_anchors, anchor_from_cert, base64_decoded, cert_anchor, default_root, default_roots,
    empty_store, pem_certs, read_pem_certs, store_anchors, DASH,
    LINE_FEED,
};
use crate::pem::{
    collect_items, collected, collected_gives_all_or_first_error, joined_lists_give_joined_values,
};
use crate::views::{result_view, result_views, views};

verus! {

/// A trust anchor, in plain bytes.
#[derive(Debug)]
pub struct TrustAnchor {
    /// The subject, in DER, without the outer sequence.
    pub subject: Vec<u8>,
    /// The public key and its kind, in DER.
    pub spki: Vec<u8>,
    /// The name constraints, in DER, where there are any.
    pub name_constraints: Option<Vec<u8>>,
}

/// The contents of a [`TrustAnchor`].
pub struct AnchorView {
    pub subject: Seq<u8>,
    pub spki: Seq<u8>,
    pub name_constraints: Option<Seq<u8>>,
}

impl View for TrustAnchor {
    type V = AnchorView;

    open spec fn view(&self) -> AnchorView {
        AnchorView {
            subject: self.subject@,
            spki: self.spki@,
            name_constraints: match self.name_constraints {
                Some(bytes) => Some(bytes@),
                None => None,
            },
        }
    }
}

/// The trust anchors of a list of certificates, given what PEM reading yielded: all of
/// them, or the first malformed item, or else the first certificate without an anchor.
pub open spec fn anchors_of_items(items: Seq<Result<Seq<u8>, Seq<char>>>) -> Result<
    Seq<AnchorView>,
    ErrorView,
> {
    match collected(items) {
        Err(e) => Err(error_with(ErrorKind::PemCertificates, e)),
        Ok(certs) => anchors_of_results(certs.map_values(|der: Seq<u8>| cert_anchor(der))),
    }
}

/// All anchors of a list, or the first error in it.
pub open spec fn anchors_of_results(results: Seq<Result<AnchorView, Seq<char>>>) -> Result<
    Seq<AnchorView>,
    ErrorView,
> {
    match collected(results) {
        Err(e) => Err(error_with(ErrorKind::TrustAnchor, e)),
        Ok(anchors) => Ok(anchors),
    }
}

/// The trust anchors of certificates in PEM.
pub open spec fn anchors_of_pem(pem: Seq<u8>) -> Result<Seq<AnchorView>, ErrorView> {
    anchors_of_items(pem_certs(pem, None))
}

/// The trust anchors of certificates in PEM, behind which reading fails: there are none, as
/// the first malformed section, or else the failure, is an error.
pub open spec fn anchors_of_broken_pem(pem: Seq<u8>, why: Seq<char>) -> Result<
    Seq<AnchorView>,
    ErrorView,
> {
    anchors_of_items(pem_certs(pem, Some(why)))
}

/// The trust anchors that a configuration gives: those of the certificates that it holds
/// itself, else of those that it holds in base64, else of those in a file; nothing where
/// it gives none. Where a file cannot be read to its end, a malformed section before that
/// counts first.
pub open spec fn trust_anchors(
    config: Map<Seq<char>, Seq<char>>,
    read: Option<FileReadView>,
) -> Result<LoadView<Option<Seq<AnchorView>>>, ErrorView> {
    if let Some(text) = lookup(config, TLS_ROOT_CA_CERTIFICATE_RAW@) {
        found_anchors(anchors_of_pem(encode_utf8(text)))
    } else if let Some(text) = lookup(config, TLS_ROOT_CA_CERTIFICATE_BASE64@) {
        match base64_decoded(text) {
            Ok(bytes) => found_anchors(anchors_of_pem(bytes)),
            Err(e) => Err(error_with(ErrorKind::Base64, e)),
        }
    } else if let Some(path) = lookup(config, TLS_ROOT_CA_CERTIFICATE_FILE@) {
        match read {
            None => Ok(LoadView::Read { file: FileRole::RootCaCertificate, path }),
            Some(FileReadView::OpenFailed(e)) => Err(
                error_with(ErrorKind::RootCertificateFile, e),
            ),
            Some(FileReadView::ReadFailed { before, why }) => found_anchors(
                anchors_of_broken_pem(before, why),
            ),
            Some(FileReadView::Contents(bytes)) => found_anchors(anchors_of_pem(bytes)),
        }
    } else {
        Ok(LoadView::Done(None))
    }
}

/// Anchors that were looked for, as a finished load.
pub open spec fn found_anchors(r: Result<Seq<AnchorView>, ErrorView>) -> Result<
    LoadView<Option<Seq<AnchorView>>>,
    ErrorView,
> {
    match r {
        Ok(anchors) => Ok(LoadView::Done(Some(anchors))),
        Err(e) => Err(e),
    }
}

/// The contents of a loaded store or of the error in its place.
pub open spec fn store_load(r: Result<Load<Option<RootCertStore>>, TlsError>) -> Result<
    LoadView<Option<Seq<AnchorView>>>,
    ErrorView,
> {
    match r {
        Ok(Load::Done(Some(store))) => Ok(LoadView::Done(Some(store_anchors(store)))),
        Ok(Load::Done(None)) => Ok(LoadView::Done(None)),
        Ok(Load::Read { file, path }) => Ok(LoadView::Read { file, path: path@ }),
        Err(e) => Err(e@),
    }
}

/// The contents of a list of anchors or of the error in its place.
pub open spec fn anchors_view(r: Result<Vec<TrustAnchor>, TlsError>) -> Result<
    Seq<AnchorView>,
    ErrorView,
> {
    match r {
        Ok(anchors) => Ok(views(anchors@)),
        Err(e) => Err(e@),
    }
}

/// Takes all anchors out of a list, or the first error in it.
pub fn collect_anchors(results: Vec<Result<TrustAnchor, String>>) -> (r: Result<
    Vec<TrustAnchor>,
    TlsError,
>)
    ensures
        anchors_view(r) == anchors_of_results(result_views(results@)),
{
    match collect_items(results) {
        Ok(anchors) => Ok(anchors),
        Err(e) => Err(TlsError::with(ErrorKind::TrustAnchor, e)),
    }
}

/// The trust anchors of certificates, given what PEM reading yielded.
pub fn anchors_from_items(items: Vec<Result<Vec<u8>, String>>) -> (r: Result<
    Vec<TrustAnchor>,
    TlsError,
>)
    ensures
        anchors_view(r) == anchors_of_items(result_views(items@)),
{
    let certs: Vec<Vec<u8>> = match collect_items(items) {
        Ok(certs) => certs,
        Err(e) => {
            return Err(TlsError::with(ErrorKind::PemCertificates, e));
        },
    };
    let ghost wanted = views(certs@).map_values(|der: Seq<u8>| cert_anchor(der));
    let mut results: Vec<Result<TrustAnchor, String>> = Vec::new();
    let mut i: usize = 0;
    while i < certs.len()
        invariant
            i <= certs.len(),
            wanted == views(certs@).map_values(|der: Seq<u8>| cert_anchor(der)),
            result_views(results@) == wanted.take(i as int),
        decreases certs.len() - i,
    {
        let ghost before = results@;
        let result: Result<TrustAnchor, String> = anchor_from_cert(certs[i].as_slice());
        results.push(result);
        proof {
            assert(result_views(results@) =~= result_views(before).push(result_view(result)));
            assert(wanted[i as int] == cert_anchor(certs@[i as int]@));
            assert(wanted.take(i + 1) =~= wanted.take(i as int).push(wanted[i as int]));
        }
        i = i + 1;
    }
    assert(wanted.take(i as int) =~= wanted);
    collect_anchors(results)
}

/// The anchors of two lists of items behind one another are those of the first and behind
/// them those of the second.
pub proof fn joined_items_give_joined_anchors(
    a: Seq<Result<Seq<u8>, Seq<char>>>,
    b: Seq<Result<Seq<u8>, Seq<char>>>,
)
    requires
        anchors_of_items(a) is Ok,
        anchors_of_items(b) is Ok,
    ensures
        anchors_of_items(a + b) == Ok::<Seq<AnchorView>, ErrorView>(
            anchors_of_items(a)->Ok_0 + anchors_of_items(b)->Ok_0,
        ),
{
    let anchor = |der: Seq<u8>| cert_anchor(der);
    let first = collected(a)->Ok_0;
    let second = collected(b)->Ok_0;
    joined_lists_give_joined_values(a, b);
    assert((first + second).map_values(anchor) =~= first.map_values(anchor) + second.map_values(
        anchor,
    ));
    joined_lists_give_joined_values(first.map_values(anchor), second.map_values(anchor));
}

/// The trust anchors of certificates in PEM.
///
/// Where the bytes are two PEM texts behind one another, the first of which ends its last
/// line, the anchors are those of the first text and behind them those of the second. Bytes
/// without a dash give no anchor.
pub fn process_pem(pem: &[u8]) -> (r: Result<Vec<TrustAnchor>, TlsError>)
    ensures
        anchors_view(r) == anchors_of_pem(pem@),
        !pem@.contains(DASH) ==> (r matches Ok(anchors) && anchors@.len() == 0),
        forall|n: int|
            #![trigger pem@.take(n)]
            0 < n <= pem@.len() && pem@[n - 1] == LINE_FEED && anchors_of_pem(pem@.take(n)) is Ok
                && anchors_of_pem(pem@.skip(n)) is Ok ==> anchors_view(r) == Ok::<
                Seq<AnchorView>,
                ErrorView,
            >(anchors_of_pem(pem@.take(n))->Ok_0 + anchors_of_pem(pem@.skip(n))->Ok_0),
{
    let items: Vec<Result<Vec<u8>, String>> = read_pem_certs(pem, None);
    proof {
        assert forall|n: int|
            #![trigger pem@.take(n)]
            0 < n <= pem@.len() && pem@[n - 1] == LINE_FEED && anchors_of_pem(pem@.take(n)) is Ok
                && anchors_of_pem(pem@.skip(n)) is Ok implies anchors_of_pem(pem@) == Ok::<
            Seq<AnchorView>,
            ErrorView,
        >(anchors_of_pem(pem@.take(n))->Ok_0 + anchors_of_pem(pem@.skip(n))->Ok_0) by {
            collected_gives_all_or_first_error(pem_certs(pem@.take(n), None));
            joined_items_give_joined_anchors(
                pem_certs(pem@.take(n), None),
                pem_certs(pem@.skip(n), None),
            );
        }
        if !pem@.contains(DASH) {
            assert(Seq::<Seq<u8>>::empty().map_values(|der: Seq<u8>| cert_anchor(der))
                =~= Seq::empty());
        }
    }
    let found: Result<Vec<TrustAnchor>, TlsError> = anchors_from_items(items);
    assert(found matches Ok(anchors) ==> views(anchors@).len() == anchors@.len());
    found
}

/// The error of certificates in PEM behind which reading fails.
fn process_broken_pem(pem: &[u8], why: String) -> (r: Result<Vec<TrustAnchor>, TlsError>)
    ensures
        anchors_view(r) == anchors_of_broken_pem(pem@, why@),
        r matches Err(e) && e@.kind == ErrorKind::PemCertificates,
        !pem@.contains(DASH) ==> (r matches Err(e) && e@ == error_with(
            ErrorKind::PemCertificates,
            why@,
        )),
{
    let items: Vec<Result<Vec<u8>, String>> = read_pem_certs(pem, Some(why));
    proof {
        collected_gives_all_or_first_error(result_views(items@));
    }
    anchors_from_items(items)
}

/// A store with trust anchors, where there was no error.
fn store_of(found: Result<Vec<TrustAnchor>, TlsError>) -> (r: Result<
    Load<Option<RootCertStore>>,
    TlsError,
>)
    ensures
        store_load(r) == found_anchors(anchors_view(found)),
{
    match found {
        Ok(anchors) => {
            let mut root_cert_store: RootCertStore = empty_store();
            add_anchors(&mut root_cert_store, anchors);
            assert(store_anchors(root_cert_store) =~= views(anchors@));
            Ok(Load::Done(Some(root_cert_store)))
        },
        Err(e) => Err(e),
    }
}

/// Loads the trust anchors that a configuration gives. `read` is how reading the file went
/// that the configuration names, where it has been read.
pub fn load_trust_anchors(config: &Config, read: &Option<FileRead>) -> (r: Result<
    Load<Option<RootCertStore>>,
    TlsError,
>)
    ensures
        store_load(r) == trust_anchors(config@, opt_read(*read)),
        lookup(config@, TLS_ROOT_CA_CERTIFICATE_RAW@) is None && lookup(
            config@,
            TLS_ROOT_CA_CERTIFICATE_BASE64@,
        ) is None && lookup(config@, TLS_ROOT_CA_CERTIFICATE_FILE@) is Some && (opt_read(
            *read,
        ) matches Some(FileReadView::ReadFailed { .. })) ==> (r matches Err(e) && e@.kind
            == ErrorKind::PemCertificates),
{
    if let Some(value) = config.get(TLS_ROOT_CA_CERTIFICATE_RAW) {
        return store_of(process_pem(value.as_bytes()));
    }
    if let Some(b64_certificate) = config.get(TLS_ROOT_CA_CERTIFICATE_BASE64) {
        return match base64_decode(b64_certificate) {
            Ok(certificate_pem) => store_of(process_pem(certificate_pem.as_slice())),
            Err(e) => Err(e),
        };
    }
    if let Some(filename) = config.get(TLS_ROOT_CA_CERTIFICATE_FILE) {
        return match read {
            None => Ok(
                Load::Read { file: FileRole::RootCaCertificate, path: filename.to_owned() },
            ),
            Some(FileRead::OpenFailed(e)) => Err(
                TlsError::with(ErrorKind::RootCertificateFile, e.clone()),
            ),
            Some(FileRead::ReadFailed { before, why }) => store_of(
                process_broken_pem(before.as_slice(), why.clone()),
            ),
            Some(FileRead::Contents(bytes)) => store_of(process_pem(bytes.as_slice())),
        };
    }
    Ok(Load::Done(None))
}

/// Whether a list is the one of the anchors that come with the library.
pub open spec fn is_default_roots(list: Seq<AnchorView>) -> bool {
    forall|i: int|
        #![trigger default_root(i)]
        default_root(i) == (if 0 <= i < list.len() {
            Some(list[i])
        } else {
            None
        })
}

/// The anchors that come with the library.
pub open spec fn default_root_list() -> Seq<AnchorView> {
    choose|list: Seq<AnchorView>| is_default_roots(list)
}

/// There is one list of the anchors that come with the library.
proof fn lemma_default_roots_unique(a: Seq<AnchorView>, b: Seq<AnchorView>)
    requires
        is_default_roots(a),
        is_default_roots(b),
    ensures
        a == b,
{
    if a.len() < b.len() {
        assert(default_root(a.len() as int) is None);
        assert(default_root(a.len() as int) is Some);
    }
    if b.len() < a.len() {
        assert(default_root(b.len() as int) is None);
        assert(default_root(b.len() as int) is Some);
    }
    assert forall|i: int| 0 <= i < a.len() implies a[i] == b[i] by {
        assert(default_root(i) == Some(a[i]));
        assert(default_root(i) == Some(b[i]));
    }
    assert(a =~= b);
}

/// A store with the anchors that come with the library.
pub fn load_default_webpki_certs() -> (r: RootCertStore)
    ensures
        store_anchors(r) == default_root_list(),
        is_default_roots(store_anchors(r)),
{
    let mut root_cert_store: RootCertStore = empty_store();
    let roots: Vec<TrustAnchor> = default_roots();
    add_anchors(&mut root_cert_store, roots);
    proof {
        assert(store_anchors(root_cert_store) =~= views(roots@));
        assert(is_default_roots(views(roots@)));
        lemma_default_roots_unique(views(roots@), default_root_list());
    }
    root_cert_store
}

/// Certificates that all have an anchor give as many anchors as there are certificates, and
/// at each place that of the certificate there.
pub proof fn each_certificate_gives_its_anchor(items: Seq<Result<Seq<u8>, Seq<char>>>)
    ensures
        anchors_of_items(items) is Ok <==> forall|i: int|
            0 <= i < items.len() ==> (#[trigger] items[i] matches Ok(der) && cert_anchor(der) is Ok),
        anchors_of_items(items) matches Ok(anchors) ==> anchors.len() == items.len() && forall|i: int|
            0 <= i < items.len() ==> cert_anchor((#[trigger] items[i])->Ok_0) == Ok::<
                AnchorView,
                Seq<char>,
            >(anchors[i]),
{
    collected_gives_all_or_first_error(items);
    if let Ok(certs) = collected(items) {
        let results = certs.map_values(|der: Seq<u8>| cert_anchor(der));
        collected_gives_all_or_first_error(results);
        assert forall|i: int| 0 <= i < items.len() implies #[trigger] results[i] == cert_anchor(
            items[i]->Ok_0,
        ) by {
            assert(items[i] == Ok::<Seq<u8>, Seq<char>>(certs[i]));
        }
        match collected(results) {
            Ok(anchors) => {
                assert forall|i: int| 0 <= i < items.len() implies cert_anchor(
                    (#[trigger] items[i])->Ok_0,
                ) == Ok::<AnchorView, Seq<char>>(anchors[i]) by {
                    assert(results[i] == cert_anchor(items[i]->Ok_0));
                }
            },
            Err(e) => {
                let k = choose|k: int|
                    0 <= k < results.len() && #[trigger] results[k] == Err::<AnchorView, Seq<char>>(
                        e,
                    );
                assert(results[k] == cert_anchor(items[k]->Ok_0));
            },
        }
    }
}

/// The first malformed item is the error of a list of items. Where none is malformed, it is
/// that of the first certificate without an anchor.
pub proof fn first_bad_certificate_is_the_error(items: Seq<Result<Seq<u8>, Seq<char>>>, i: int)
    requires
        0 <= i < items.len(),
    ensures
        items[i] is Err && (forall|j: int| 0 <= j < i ==> #[trigger] items[j] is Ok)
            ==> anchors_of_items(items) == Err::<Seq<AnchorView>, ErrorView>(
            ErrorView {
                kind: ErrorKind::PemCertificates,
                subject: Seq::empty(),
                detail: items[i]->Err_0,
            },
        ),
        (forall|j: int| 0 <= j < items.len() ==> #[trigger] items[j] is Ok) && cert_anchor(
            items[i]->Ok_0,
        ) is Err && (forall|j: int|
            0 <= j < i ==> cert_anchor((#[trigger] items[j])->Ok_0) is Ok) ==> anchors_of_items(items)
            == Err::<Seq<AnchorView>, ErrorView>(
            ErrorView {
                kind: ErrorKind::TrustAnchor,
                subject: Seq::empty(),
                detail: cert_anchor(items[i]->Ok_0)->Err_0,
            },
        ),
{
    collected_gives_all_or_first_error(items);
    if let Ok(certs) = collected(items) {
        let results = certs.map_values(|der: Seq<u8>| cert_anchor(der));
        collected_gives_all_or_first_error(results);
        assert forall|j: int| 0 <= j < items.len() implies #[trigger] results[j] == cert_anchor(
            items[j]->Ok_0,
        ) by {
            assert(items[j] == Ok::<Seq<u8>, Seq<char>>(certs[j]));
        }
        assert(results[i] == cert_anchor(items[i]->Ok_0));
        if forall|j: int| 0 <= j < i ==> cert_anchor((#[trigger] items[j])->Ok_0) is Ok {
            assert forall|j: int| 0 <= j < i implies #[trigger] results[j] is Ok by {
                assert(cert_anchor(items[j]->Ok_0) is Ok);
            }
        }
    }
}

/// A PEM text whose items are all certificates with an anchor gives these anchors, place by
/// place, and no other text gives any. Where reading fails behind a text, there are none.
pub proof fn pem_text_gives_the_anchors_of_its_certificates(pem: Seq<u8>, why: Seq<char>)
    ensures
        anchors_of_pem(pem) is Ok <==> forall|i: int|
            0 <= i < pem_certs(pem, None).len() ==> (#[trigger] pem_certs(pem, None)[i] matches Ok(
                der,
            ) && cert_anchor(der) is Ok),
        anchors_of_pem(pem) matches Ok(anchors) ==> anchors.len() == pem_certs(pem, None).len()
            && forall|i: int|
            0 <= i < anchors.len() ==> cert_anchor((#[trigger] pem_certs(pem, None)[i])->Ok_0)
                == Ok::<AnchorView, Seq<char>>(anchors[i]),
        anchors_of_pem(pem) == anchors_of_items(pem_certs(pem, None)),
        anchors_of_broken_pem(pem, why) == anchors_of_items(pem_certs(pem, Some(why))),
{
    each_certificate_gives_its_anchor(pem_certs(pem, None));
}

/// All results are anchors, place by place, or the first error among them is the error.
pub proof fn anchors_are_taken_place_by_place(results: Seq<Result<AnchorView, Seq<char>>>, i: int)
    ensures
        anchors_of_results(results) matches Ok(anchors) ==> anchors.len() == results.len()
            && forall|j: int|
            0 <= j < results.len() ==> #[trigger] results[j] == Ok::<AnchorView, Seq<char>>(
                anchors[j],
            ),
        0 <= i < results.len() && results[i] is Err && (forall|j: int|
            0 <= j < i ==> #[trigger] results[j] is Ok) ==> anchors_of_results(results) == Err::<Seq<AnchorView>, ErrorView>(
            ErrorView {
                kind: ErrorKind::TrustAnchor,
                subject: Seq::empty(),
                detail: results[i]->Err_0,
            },
        ),
        (forall|j: int| 0 <= j < results.len() ==> #[trigger] results[j] is Ok)
            ==> anchors_of_results(results) is Ok,
{
    collected_gives_all_or_first_error(results);
}

/// Root certificates are the value of the first of their names; else what the value of the
/// second decodes to; else what the file holds that the third names, which is read under
/// that path; and there are none where a configuration has none of these names.
pub proof fn roots_come_from_their_first_source(
    config: Map<Seq<char>, Seq<char>>,
    read: Option<FileReadView>,
)
    ensures
        config.contains_key("root_ca_certificate_raw"@) ==> trust_anchors(config, read) == (match anchors_of_pem(encode_utf8(config["root_ca_certificate_raw"@])) {
            Ok(anchors) => Ok::<LoadView<Option<Seq<AnchorView>>>, ErrorView>(LoadView::Done(Some(anchors))),
            Err(e) => Err(e),
        }),
        !config.contains_key("root_ca_certificate_raw"@) && config.contains_key("root_ca_certificate_base64"@) ==> trust_anchors(config, read)
            == (match base64_decoded(config["root_ca_certificate_base64"@]) {
            Ok(bytes) => (match anchors_of_pem(bytes) {
            Ok(anchors) => Ok::<LoadView<Option<Seq<AnchorView>>>, ErrorView>(LoadView::Done(Some(anchors))),
            Err(e) => Err(e),
        }),
            Err(e) => Err::<LoadView<Option<Seq<AnchorView>>>, ErrorView>(
                ErrorView { kind: ErrorKind::Base64, subject: Seq::empty(), detail: e },
            ),
        }),
        !config.contains_key("root_ca_certificate_raw"@) && !config.contains_key("root_ca_certificate_base64"@) && config.contains_key(
            "root_ca_certificate_file"@,
        ) ==> trust_anchors(config, read) == (match read {
            None => Ok::<LoadView<Option<Seq<AnchorView>>>, ErrorView>(
                LoadView::Read {
                    file: FileRole::RootCaCertificate,
                    path: config["root_ca_certificate_file"@],
                },
            ),
            Some(FileReadView::OpenFailed(why)) => Err(
                ErrorView {
                    kind: ErrorKind::RootCertificateFile,
                    subject: Seq::empty(),
                    detail: why,
                },
            ),
            Some(FileReadView::ReadFailed { before, why }) => (match anchors_of_items(pem_certs(before, Some(why))) {
            Ok(anchors) => Ok::<LoadView<Option<Seq<AnchorView>>>, ErrorView>(LoadView::Done(Some(anchors))),
            Err(e) => Err(e),
        }),
            Some(FileReadView::Contents(bytes)) => (match anchors_of_pem(bytes) {
            Ok(anchors) => Ok::<LoadView<Option<Seq<AnchorView>>>, ErrorView>(LoadView::Done(Some(anchors))),
            Err(e) => Err(e),
        }),
        }),
        !config.contains_key("root_ca_certificate_raw"@) && !config.contains_key("root_ca_certificate_base64"@) && !config.contains_key(
            "root_ca_certificate_file"@,
        ) ==> trust_anchors(config, read) == Ok::<LoadView<Option<Seq<AnchorView>>>, ErrorView>(LoadView::Done(None)),
{
}

/// Two configurations that agree on the three names of the root certificates give the same.
pub proof fn roots_hang_on_their_names(
    config: Map<Seq<char>, Seq<char>>,
    other: Map<Seq<char>, Seq<char>>,
    read: Option<FileReadView>,
)
    requires
        config.contains_key("root_ca_certificate_raw"@) == other.contains_key("root_ca_certificate_raw"@),
        config.contains_key("root_ca_certificate_raw"@) ==> config["root_ca_certificate_raw"@] == other["root_ca_certificate_raw"@],
        config.contains_key("root_ca_certificate_base64"@) == other.contains_key("root_ca_certificate_base64"@),
        config.contains_key("root_ca_certificate_base64"@) ==> config["root_ca_certificate_base64"@] == other["root_ca_certificate_base64"@],
        config.contains_key("root_ca_certificate_file"@) == other.contains_key("root_ca_certificate_file"@),
        config.contains_key("root_ca_certificate_file"@) ==> config["root_ca_certificate_file"@] == other["root_ca_certificate_file"@],
    ensures
        trust_anchors(config, read) == trust_anchors(other, read),
{
}

/// The list of the anchors that come with the library holds each of them at its place, and
/// nothing else.
pub proof fn default_roots_are_the_whole_list(list: Seq<AnchorView>)
    ensures
        is_default_roots(list) <==> forall|i: int|
            #![trigger default_root(i)]
            default_root(i) == (if 0 <= i < list.len() {
                Some(list[i])
            } else {
                None
            }),
        is_default_roots(list) ==> default_root_list() == list,
{
    if is_default_roots(list) {
        lemma_default_roots_unique(list, default_root_list());
    }
}

/// An anchor shows its three parts.
pub proof fn anchor_shows_its_parts(anchor: TrustAnchor)
    ensures
        anchor@.subject == anchor.subject@,
        anchor@.spki == anchor.spki@,
        anchor@.name_constraints == (match anchor.name_constraints {
            Some(bytes) => Some(bytes@),
            None => None,
        }),
{
}

/// Anchors, a loaded store and a file that is asked for show what they hold, and an error
/// its contents.
pub proof fn loaded_anchors_show_themselves(
    anchors: Vec<TrustAnchor>,
    store: RootCertStore,
    file: FileRole,
    path: String,
    error: TlsError,
)
    ensures
        anchors_view(Ok(anchors)) matches Ok(list) && list.len() == anchors@.len() && forall|i: int|
            0 <= i < list.len() ==> #[trigger] list[i] == anchors@[i]@,
        anchors_view(Err(error)) == Err::<Seq<AnchorView>, ErrorView>(error@),
        store_load(Ok(Load::Done(Some(store)))) == Ok::<LoadView<Option<Seq<AnchorView>>>, ErrorView>(LoadView::Done(Some(store_anchors(store)))),
        store_load(Ok(Load::Done(None))) == Ok::<LoadView<Option<Seq<AnchorView>>>, ErrorView>(LoadView::Done(None)),
        store_load(Ok(Load::Read { file, path })) == Ok::<LoadView<Option<Seq<AnchorView>>>, ErrorView>(LoadView::Read { file, path: path@ }),
        store_load(Err(error)) == Err::<LoadView<Option<Seq<AnchorView>>>, ErrorView>(error@),
{
}

} // verus!
