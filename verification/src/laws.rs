//! What holds of the library as a whole.

use vstd::prelude::*;
use vstd::utf8::encode_utf8;

use crate::anchors::{
    anchors_of_pem, default_root_list, found_anchors, trust_anchors, AnchorView,
};
use crate::client::client_setup;
use crate::config::{
    lookup, switch, TLS_CLIENT_AUTH, TLS_CLIENT_CERTIFICATE_BASE64, TLS_CLIENT_CERTIFICATE_FILE,
    TLS_CLIENT_CERTIFICATE_RAW, TLS_CLIENT_PRIVATE_KEY_BASE64, TLS_CLIENT_PRIVATE_KEY_FILE,
    TLS_CLIENT_PRIVATE_KEY_RAW, TLS_ROOT_CA_CERTIFICATE_BASE64, TLS_ROOT_CA_CERTIFICATE_FILE,
    TLS_ROOT_CA_CERTIFICATE_RAW, TLS_SERVER_CERTIFICATE_BASE64, TLS_SERVER_CERTIFICATE_FILE,
    TLS_SERVER_CERTIFICATE_RAW, TLS_SERVER_NAME_VERIFICATION, TLS_SERVER_PRIVATE_KEY_BASE_64,
    TLS_SERVER_PRIVATE_KEY_FILE, TLS_SERVER_PRIVATE_KEY_RAW,
};
use crate::credentials::{
    loaded_certificate, loaded_key, FileReadView, FileRole, FilesView, LoadView,
};
use crate::error::{error_with, ErrorKind, ErrorView};
use crate::identity::Side;
use crate::outside::{base64_decoded, ClientParts, ServerParts};
use crate::server::server_setup;

verus! {

/// The name under which a configuration names the file of a role, for one side.
pub open spec fn file_name(side: Side, role: FileRole) -> Seq<char> {
    match (role, side) {
        (FileRole::PrivateKey, Side::Server) => TLS_SERVER_PRIVATE_KEY_FILE@,
        (FileRole::PrivateKey, Side::Client) => TLS_CLIENT_PRIVATE_KEY_FILE@,
        (FileRole::Certificate, Side::Server) => TLS_SERVER_CERTIFICATE_FILE@,
        (FileRole::Certificate, Side::Client) => TLS_CLIENT_CERTIFICATE_FILE@,
        (FileRole::RootCaCertificate, _) => TLS_ROOT_CA_CERTIFICATE_FILE@,
    }
}

/// How many files have not been read.
pub open spec fn unread(files: FilesView) -> nat {
    (if files.private_key is None {
        1nat
    } else {
        0nat
    }) + (if files.certificate is None {
        1nat
    } else {
        0nat
    }) + (if files.root_ca is None {
        1nat
    } else {
        0nat
    })
}

/// No file has been read.
pub open spec fn no_files() -> FilesView {
    FilesView { private_key: None, certificate: None, root_ca: None }
}

/// What each file holds, by its role and its path.
pub type Disk = spec_fn(FileRole, Seq<char>) -> FileReadView;

/// The file of a role, where the configuration names one, as it is on disk.
pub open spec fn named_file(
    side: Side,
    config: Map<Seq<char>, Seq<char>>,
    disk: Disk,
    role: FileRole,
) -> Option<FileReadView> {
    match lookup(config, file_name(side, role)) {
        Some(path) => Some(disk(role, path)),
        None => None,
    }
}

/// All files that a configuration names, as they are on disk.
pub open spec fn named_files(
    side: Side,
    config: Map<Seq<char>, Seq<char>>,
    disk: Disk,
) -> FilesView {
    FilesView {
        private_key: named_file(side, config, disk, FileRole::PrivateKey),
        certificate: named_file(side, config, disk, FileRole::Certificate),
        root_ca: named_file(side, config, disk, FileRole::RootCaCertificate),
    }
}

/// Whether every file that has been read is as another collection has it.
pub open spec fn part_of(files: FilesView, all: FilesView) -> bool {
    &&& files.private_key is Some ==> files.private_key == all.private_key
    &&& files.certificate is Some ==> files.certificate == all.certificate
    &&& files.root_ca is Some ==> files.root_ca == all.root_ca
}

/// A server asks only for a file that it has not been given, under the path that the
/// configuration gives.
pub proof fn server_asks_for_unread_files(config: Map<Seq<char>, Seq<char>>, files: FilesView)
    ensures
        server_setup(config, files) matches Ok(LoadView::Read { file, path }) ==> files.of(file) is None
            && lookup(config, file_name(Side::Server, file)) == Some(path),
{
}

/// A client asks only for a file that it has not been given, under the path that the
/// configuration gives.
pub proof fn client_asks_for_unread_files(config: Map<Seq<char>, Seq<char>>, files: FilesView)
    ensures
        client_setup(config, files) matches Ok(LoadView::Read { file, path }) ==> files.of(file) is None
            && lookup(config, file_name(Side::Client, file)) == Some(path),
{
}

/// An answer that a server has come to stays the same whatever more is read.
pub proof fn server_answer_is_final(
    config: Map<Seq<char>, Seq<char>>,
    files: FilesView,
    all: FilesView,
)
    requires
        part_of(files, all),
        !(server_setup(config, files) matches Ok(LoadView::Read { .. })),
    ensures
        server_setup(config, all) == server_setup(config, files),
{
}

/// An answer that a client has come to stays the same whatever more is read.
pub proof fn client_answer_is_final(
    config: Map<Seq<char>, Seq<char>>,
    files: FilesView,
    all: FilesView,
)
    requires
        part_of(files, all),
        !(client_setup(config, files) matches Ok(LoadView::Read { .. })),
    ensures
        client_setup(config, all) == client_setup(config, files),
{
}

/// What a server comes to when each file that it asks for is read from a disk.
pub open spec fn server_answer(
    config: Map<Seq<char>, Seq<char>>,
    disk: Disk,
    files: FilesView,
) -> Result<LoadView<ServerParts>, ErrorView>
    decreases unread(files),
{
    match server_setup(config, files) {
        Ok(LoadView::Read { file, path }) => if files.of(file) is None {
            server_answer(config, disk, files.with(file, disk(file, path)))
        } else {
            Ok(LoadView::Read { file, path })
        },
        answer => answer,
    }
}

/// What a client comes to when each file that it asks for is read from a disk.
pub open spec fn client_answer(
    config: Map<Seq<char>, Seq<char>>,
    disk: Disk,
    files: FilesView,
) -> Result<LoadView<(bool, ClientParts)>, ErrorView>
    decreases unread(files),
{
    match client_setup(config, files) {
        Ok(LoadView::Read { file, path }) => if files.of(file) is None {
            client_answer(config, disk, files.with(file, disk(file, path)))
        } else {
            Ok(LoadView::Read { file, path })
        },
        answer => answer,
    }
}

proof fn lemma_server_answer(
    config: Map<Seq<char>, Seq<char>>,
    disk: Disk,
    files: FilesView,
)
    requires
        part_of(files, named_files(Side::Server, config, disk)),
    ensures
        server_answer(config, disk, files) == server_setup(
            config,
            named_files(Side::Server, config, disk),
        ),
    decreases unread(files),
{
    let all = named_files(Side::Server, config, disk);
    server_asks_for_unread_files(config, files);
    match server_setup(config, files) {
        Ok(LoadView::Read { file, path }) => {
            let more = files.with(file, disk(file, path));
            assert(part_of(more, all));
            lemma_server_answer(config, disk, more);
        },
        _ => {
            server_answer_is_final(config, files, all);
        },
    }
}

proof fn lemma_client_answer(
    config: Map<Seq<char>, Seq<char>>,
    disk: Disk,
    files: FilesView,
)
    requires
        part_of(files, named_files(Side::Client, config, disk)),
    ensures
        client_answer(config, disk, files) == client_setup(
            config,
            named_files(Side::Client, config, disk),
        ),
    decreases unread(files),
{
    let all = named_files(Side::Client, config, disk);
    client_asks_for_unread_files(config, files);
    match client_setup(config, files) {
        Ok(LoadView::Read { file, path }) => {
            let more = files.with(file, disk(file, path));
            assert(part_of(more, all));
            lemma_client_answer(config, disk, more);
        },
        _ => {
            client_answer_is_final(config, files, all);
        },
    }
}

/// Reading the files that a server asks for, one after the other, comes to an answer, and
/// to the one that reading all files that the configuration names comes to.
pub proof fn server_reads_on_demand(config: Map<Seq<char>, Seq<char>>, disk: Disk)
    ensures
        server_answer(config, disk, no_files()) == server_setup(
            config,
            named_files(Side::Server, config, disk),
        ),
        !(server_answer(config, disk, no_files()) matches Ok(LoadView::Read { .. })),
{
    lemma_server_answer(config, disk, no_files());
    server_asks_for_unread_files(config, named_files(Side::Server, config, disk));
}

/// Reading the files that a client asks for, one after the other, comes to an answer, and
/// to the one that reading all files that the configuration names comes to.
pub proof fn client_reads_on_demand(config: Map<Seq<char>, Seq<char>>, disk: Disk)
    ensures
        client_answer(config, disk, no_files()) == client_setup(
            config,
            named_files(Side::Client, config, disk),
        ),
        !(client_answer(config, disk, no_files()) matches Ok(LoadView::Read { .. })),
{
    lemma_client_answer(config, disk, no_files());
    client_asks_for_unread_files(config, named_files(Side::Client, config, disk));
}

/// A server has anchors for its clients, and TLS 1.3 as its only protocol version, exactly
/// where the configuration switches client authentication on.
pub proof fn server_client_auth_needs_roots_and_tls13(
    config: Map<Seq<char>, Seq<char>>,
    files: FilesView,
)
    ensures
        server_setup(config, files) matches Ok(LoadView::Done(parts)) ==> {
            let on = switch(config, TLS_CLIENT_AUTH@) == Ok::<bool, Seq<char>>(true);
            &&& parts.client_roots is Some <==> on
            &&& parts.tls13_only <==> on
        },
{
}

/// A client shows who it is, and has TLS 1.3 as its only protocol version, exactly where
/// the configuration switches client authentication on.
pub proof fn client_auth_needs_identity_and_tls13(
    config: Map<Seq<char>, Seq<char>>,
    files: FilesView,
)
    ensures
        client_setup(config, files) matches Ok(LoadView::Done((check_names, parts))) ==> {
            let on = switch(config, TLS_CLIENT_AUTH@) == Ok::<bool, Seq<char>>(true);
            &&& parts.identity is Some <==> on
            &&& parts.tls13_only <==> on
        },
{
}

/// A client checks server names exactly where the configuration switches that on.
pub proof fn client_checks_names_when_asked(
    config: Map<Seq<char>, Seq<char>>,
    files: FilesView,
)
    ensures
        client_setup(config, files) matches Ok(LoadView::Done((check_names, parts))) ==> (
        check_names <==> switch(config, TLS_SERVER_NAME_VERIFICATION@) == Ok::<bool, Seq<char>>(
            true,
        )),
{
}

/// A client trusts all anchors that come with the library, and behind them those that the
/// configuration gives, and no others.
pub proof fn client_trusts_default_and_custom_roots(
    config: Map<Seq<char>, Seq<char>>,
    files: FilesView,
)
    ensures
        client_setup(config, files) matches Ok(LoadView::Done((check_names, parts))) ==> {
            &&& default_root_list().is_prefix_of(parts.roots)
            &&& trust_anchors(config, files.root_ca) matches Ok(LoadView::Done(custom))
            &&& match custom {
                None => parts.roots == default_root_list(),
                Some(anchors) => parts.roots == default_root_list() + anchors,
            }
        },
{
}

/// The names of a configuration differ where they stand for different things: in their first
/// letter, or else in their length.
proof fn lemma_names_differ()
    ensures
        TLS_ROOT_CA_CERTIFICATE_RAW@[0] == 'r',
        TLS_ROOT_CA_CERTIFICATE_BASE64@[0] == 'r',
        TLS_ROOT_CA_CERTIFICATE_FILE@[0] == 'r',
        TLS_SERVER_PRIVATE_KEY_RAW@[0] == 's',
        TLS_SERVER_PRIVATE_KEY_BASE_64@[0] == 's',
        TLS_SERVER_PRIVATE_KEY_FILE@[0] == 's',
        TLS_SERVER_CERTIFICATE_RAW@[0] == 's',
        TLS_SERVER_CERTIFICATE_BASE64@[0] == 's',
        TLS_SERVER_CERTIFICATE_FILE@[0] == 's',
        TLS_SERVER_NAME_VERIFICATION@[0] == 's',
        TLS_CLIENT_PRIVATE_KEY_RAW@[0] == 'c',
        TLS_CLIENT_PRIVATE_KEY_BASE64@[0] == 'c',
        TLS_CLIENT_PRIVATE_KEY_FILE@[0] == 'c',
        TLS_CLIENT_CERTIFICATE_RAW@[0] == 'c',
        TLS_CLIENT_CERTIFICATE_BASE64@[0] == 'c',
        TLS_CLIENT_CERTIFICATE_FILE@[0] == 'c',
        TLS_CLIENT_AUTH@[0] == 'c',
        TLS_CLIENT_AUTH@.len() < TLS_CLIENT_PRIVATE_KEY_RAW@.len(),
        TLS_CLIENT_AUTH@.len() < TLS_CLIENT_PRIVATE_KEY_BASE64@.len(),
        TLS_CLIENT_AUTH@.len() < TLS_CLIENT_PRIVATE_KEY_FILE@.len(),
        TLS_CLIENT_AUTH@.len() < TLS_CLIENT_CERTIFICATE_RAW@.len(),
        TLS_CLIENT_AUTH@.len() < TLS_CLIENT_CERTIFICATE_BASE64@.len(),
        TLS_CLIENT_AUTH@.len() < TLS_CLIENT_CERTIFICATE_FILE@.len(),
{
    reveal_strlit("root_ca_certificate_raw");
    reveal_strlit("root_ca_certificate_base64");
    reveal_strlit("root_ca_certificate_file");
    reveal_strlit("server_private_key_raw");
    reveal_strlit("server_private_key_base64");
    reveal_strlit("server_private_key_file");
    reveal_strlit("server_certificate_raw");
    reveal_strlit("server_certificate_base64");
    reveal_strlit("server_certificate_file");
    reveal_strlit("server_name_verification");
    reveal_strlit("client_private_key_raw");
    reveal_strlit("client_private_key_base64");
    reveal_strlit("client_private_key_file");
    reveal_strlit("client_certificate_raw");
    reveal_strlit("client_certificate_base64");
    reveal_strlit("client_certificate_file");
    reveal_strlit("client_auth");
}

/// A server that does not ask clients to authenticate themselves does not look at the root
/// certificates: two configurations that agree on all other names, and files that agree but
/// for that of the root certificates, come to the same.
pub proof fn server_without_client_auth_ignores_roots(
    config: Map<Seq<char>, Seq<char>>,
    other: Map<Seq<char>, Seq<char>>,
    files: FilesView,
    read: Option<FileReadView>,
)
    requires
        switch(config, TLS_CLIENT_AUTH@) == Ok::<bool, Seq<char>>(false),
        forall|name: Seq<char>|
            name != TLS_ROOT_CA_CERTIFICATE_RAW@ && name != TLS_ROOT_CA_CERTIFICATE_BASE64@ && name
                != TLS_ROOT_CA_CERTIFICATE_FILE@ ==> #[trigger] lookup(config, name) == lookup(
                other,
                name,
            ),
    ensures
        server_setup(other, FilesView { root_ca: read, ..files }) == server_setup(config, files),
{
    lemma_names_differ();
}

/// A client that does not authenticate itself does not look at its key and certificates:
/// two configurations that agree on all other names, and files that agree on the root
/// certificates, come to the same.
pub proof fn client_without_auth_ignores_identity(
    config: Map<Seq<char>, Seq<char>>,
    other: Map<Seq<char>, Seq<char>>,
    files: FilesView,
    key: Option<FileReadView>,
    certificate: Option<FileReadView>,
)
    requires
        switch(config, TLS_CLIENT_AUTH@) == Ok::<bool, Seq<char>>(false),
        forall|name: Seq<char>|
            name != TLS_CLIENT_PRIVATE_KEY_RAW@ && name != TLS_CLIENT_PRIVATE_KEY_BASE64@ && name
                != TLS_CLIENT_PRIVATE_KEY_FILE@ && name != TLS_CLIENT_CERTIFICATE_RAW@ && name
                != TLS_CLIENT_CERTIFICATE_BASE64@ && name != TLS_CLIENT_CERTIFICATE_FILE@
                ==> #[trigger] lookup(config, name) == lookup(other, name),
    ensures
        client_setup(
            other,
            FilesView { private_key: key, certificate, root_ca: files.root_ca },
        ) == client_setup(config, files),
{
    lemma_names_differ();
}

/// A private key that stands in the configuration itself is taken before one in base64,
/// and that before one in a file. A file is asked for only where neither of the others is
/// there, and a key out of a file is not empty.
pub proof fn key_sources_have_an_order(
    config: Map<Seq<char>, Seq<char>>,
    raw: Seq<char>,
    file: Seq<char>,
    base64: Seq<char>,
    read: Option<FileReadView>,
)
    ensures
        lookup(config, raw) matches Some(text) ==> loaded_key(config, raw, file, base64, read)
            == Ok::<LoadView<Seq<u8>>, ErrorView>(LoadView::Done(encode_utf8(text))),
        lookup(config, raw) is None ==> (lookup(config, base64) matches Some(text) ==> loaded_key(
            config,
            raw,
            file,
            base64,
            read,
        ) == (match base64_decoded(text) {
            Ok(bytes) => Ok::<LoadView<Seq<u8>>, ErrorView>(LoadView::Done(bytes)),
            Err(e) => Err(error_with(ErrorKind::Base64, e)),
        })),
        loaded_key(config, raw, file, base64, read) matches Ok(LoadView::Read { .. }) ==> lookup(
            config,
            raw,
        ) is None && lookup(config, base64) is None,
        lookup(config, raw) is None && lookup(config, base64) is None ==> (loaded_key(
            config,
            raw,
            file,
            base64,
            read,
        ) matches Ok(LoadView::Done(bytes)) ==> bytes.len() > 0 && read == Some(
            FileReadView::Contents(bytes),
        )),
{
}

/// Certificates that stand in the configuration itself are taken before ones in base64, and
/// those before ones in a file. A file is asked for only where neither of the others is
/// there.
pub proof fn certificate_sources_have_an_order(
    config: Map<Seq<char>, Seq<char>>,
    raw: Seq<char>,
    file: Seq<char>,
    base64: Seq<char>,
    read: Option<FileReadView>,
)
    ensures
        lookup(config, raw) matches Some(text) ==> loaded_certificate(
            config,
            raw,
            file,
            base64,
            read,
        ) == Ok::<LoadView<Seq<u8>>, ErrorView>(LoadView::Done(encode_utf8(text))),
        lookup(config, raw) is None ==> (lookup(config, base64) matches Some(text) ==> loaded_certificate(
            config,
            raw,
            file,
            base64,
            read,
        ) == (match base64_decoded(text) {
            Ok(bytes) => Ok::<LoadView<Seq<u8>>, ErrorView>(LoadView::Done(bytes)),
            Err(e) => Err(error_with(ErrorKind::Base64, e)),
        })),
        loaded_certificate(config, raw, file, base64, read) matches Ok(LoadView::Read { .. })
            ==> lookup(config, raw) is None && lookup(config, base64) is None,
{
}

/// Root certificates that stand in the configuration itself are taken before ones in base64,
/// and those before ones in a file. A file is asked for only where neither of the others is
/// there, and there are no anchors only where none of the three is.
pub proof fn root_sources_have_an_order(
    config: Map<Seq<char>, Seq<char>>,
    read: Option<FileReadView>,
)
    ensures
        lookup(config, TLS_ROOT_CA_CERTIFICATE_RAW@) matches Some(text) ==> trust_anchors(
            config,
            read,
        ) == found_anchors(anchors_of_pem(encode_utf8(text))),
        lookup(config, TLS_ROOT_CA_CERTIFICATE_RAW@) is None ==> (lookup(
            config,
            TLS_ROOT_CA_CERTIFICATE_BASE64@,
        ) matches Some(text) ==> (base64_decoded(text) matches Ok(pem) ==> trust_anchors(
            config,
            read,
        ) == found_anchors(anchors_of_pem(pem)))),
        trust_anchors(config, read) matches Ok(LoadView::Read { .. }) ==> lookup(
            config,
            TLS_ROOT_CA_CERTIFICATE_RAW@,
        ) is None && lookup(config, TLS_ROOT_CA_CERTIFICATE_BASE64@) is None,
        trust_anchors(config, read) == Ok::<LoadView<Option<Seq<AnchorView>>>, ErrorView>(
            LoadView::Done(None),
        ) <==> lookup(config, TLS_ROOT_CA_CERTIFICATE_RAW@) is None && lookup(
            config,
            TLS_ROOT_CA_CERTIFICATE_BASE64@,
        ) is None && lookup(config, TLS_ROOT_CA_CERTIFICATE_FILE@) is None,
{
}

} // verus!
