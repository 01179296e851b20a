//! Where private keys and certificates come from: from the configuration itself, or
//! from a file that it names.

use vstd::prelude::*;
use vstd::slice::slice_to_vec;
use vstd::utf8::encode_utf8;

use crate::config::{lookup, Config};
use crate::error::{error_with, plain_error, ErrorKind, ErrorView, TlsError};
use crate::outside::{base64_decoded, decode_base64};

verus! {

/// How reading a file went.
#[derive(Debug)]
pub enum FileRead {
    /// The file could not be opened, and why.
    OpenFailed(String),
    /// The file was opened, but not read to its end: the bytes that could be read, and why
    /// no more could.
    ReadFailed { before: Vec<u8>, why: String },
    /// All that the file holds.
    Contents(Vec<u8>),
}

/// The contents of a [`FileRead`].
pub enum FileReadView {
    OpenFailed(Seq<char>),
    ReadFailed { before: Seq<u8>, why: Seq<char> },
    Contents(Seq<u8>),
}

impl View for FileRead {
    type V = FileReadView;

    open spec fn view(&self) -> FileReadView {
        match self {
            FileRead::OpenFailed(e) => FileReadView::OpenFailed(e@),
            FileRead::ReadFailed { before, why } => FileReadView::ReadFailed {
                before: before@,
                why: why@,
            },
            FileRead::Contents(bytes) => FileReadView::Contents(bytes@),
        }
    }
}

/// The contents of a file that may not have been read yet.
pub open spec fn opt_read(read: Option<FileRead>) -> Option<FileReadView> {
    match read {
        Some(r) => Some(r@),
        None => None,
    }
}

/// The files that a configuration can name.
#[derive(Clone, Copy, Debug, PartialEq, Eq, Structural)]
pub enum FileRole {
    PrivateKey,
    Certificate,
    RootCaCertificate,
}

/// The files that have been read so far, each under its role.
pub struct Files {
    pub private_key: Option<FileRead>,
    pub certificate: Option<FileRead>,
    pub root_ca: Option<FileRead>,
}

/// The contents of [`Files`].
pub struct FilesView {
    pub private_key: Option<FileReadView>,
    pub certificate: Option<FileReadView>,
    pub root_ca: Option<FileReadView>,
}

impl View for Files {
    type V = FilesView;

    open spec fn view(&self) -> FilesView {
        FilesView {
            private_key: opt_read(self.private_key),
            certificate: opt_read(self.certificate),
            root_ca: opt_read(self.root_ca),
        }
    }
}

impl FilesView {
    /// What is known of the file of a role.
    pub open spec fn of(self, role: FileRole) -> Option<FileReadView> {
        match role {
            FileRole::PrivateKey => self.private_key,
            FileRole::Certificate => self.certificate,
            FileRole::RootCaCertificate => self.root_ca,
        }
    }

    /// The same files, and how reading the file of a role went.
    pub open spec fn with(self, role: FileRole, read: FileReadView) -> FilesView {
        match role {
            FileRole::PrivateKey => FilesView { private_key: Some(read), ..self },
            FileRole::Certificate => FilesView { certificate: Some(read), ..self },
            FileRole::RootCaCertificate => FilesView { root_ca: Some(read), ..self },
        }
    }
}

impl Files {
    /// No file has been read.
    pub fn none() -> (files: Files)
        ensures
            files@ == (FilesView { private_key: None, certificate: None, root_ca: None }),
    {
        Files { private_key: None, certificate: None, root_ca: None }
    }

    /// Notes how reading the file of a role went.
    pub fn record(&mut self, role: FileRole, read: FileRead)
        ensures
            final(self)@ == old(self)@.with(role, read@),
    {
        match role {
            FileRole::PrivateKey => {
                self.private_key = Some(read);
            },
            FileRole::Certificate => {
                self.certificate = Some(read);
            },
            FileRole::RootCaCertificate => {
                self.root_ca = Some(read);
            },
        }
    }
}

/// What loading something led to: the thing itself, or a file that has to be read first.
pub enum Load<T> {
    Done(T),
    Read { file: FileRole, path: String },
}

/// The contents of a [`Load`].
pub enum LoadView<V> {
    Done(V),
    Read { file: FileRole, path: Seq<char> },
}

/// The contents of loaded bytes or of the error in their place.
pub open spec fn bytes_load(r: Result<Load<Vec<u8>>, TlsError>) -> Result<
    LoadView<Seq<u8>>,
    ErrorView,
> {
    match r {
        Ok(Load::Done(bytes)) => Ok(LoadView::Done(bytes@)),
        Ok(Load::Read { file, path }) => Ok(LoadView::Read { file, path: path@ }),
        Err(e) => Err(e@),
    }
}

/// A private key, under the three names that it may have in a configuration: as it is,
/// else in base64, else in a file, which must be readable and not empty.
pub open spec fn loaded_key(
    config: Map<Seq<char>, Seq<char>>,
    raw: Seq<char>,
    file: Seq<char>,
    base64: Seq<char>,
    read: Option<FileReadView>,
) -> Result<LoadView<Seq<u8>>, ErrorView> {
    if let Some(text) = lookup(config, raw) {
        Ok(LoadView::Done(encode_utf8(text)))
    } else if let Some(text) = lookup(config, base64) {
        match base64_decoded(text) {
            Ok(bytes) => Ok(LoadView::Done(bytes)),
            Err(e) => Err(error_with(ErrorKind::Base64, e)),
        }
    } else if let Some(path) = lookup(config, file) {
        match read {
            None => Ok(LoadView::Read { file: FileRole::PrivateKey, path }),
            Some(FileReadView::OpenFailed(e)) => Err(error_with(ErrorKind::InvalidKeyFile, e)),
            Some(FileReadView::ReadFailed { why, .. }) => Err(
                error_with(ErrorKind::InvalidKeyFile, why),
            ),
            Some(FileReadView::Contents(bytes)) => if bytes.len() == 0 {
                Err(plain_error(ErrorKind::EmptyKey))
            } else {
                Ok(LoadView::Done(bytes))
            },
        }
    } else {
        Err(plain_error(ErrorKind::MissingKey))
    }
}

/// Certificates, under the three names that they may have in a configuration: as they
/// are, else in base64, else in a file, which must be readable.
pub open spec fn loaded_certificate(
    config: Map<Seq<char>, Seq<char>>,
    raw: Seq<char>,
    file: Seq<char>,
    base64: Seq<char>,
    read: Option<FileReadView>,
) -> Result<LoadView<Seq<u8>>, ErrorView> {
    if let Some(text) = lookup(config, raw) {
        Ok(LoadView::Done(encode_utf8(text)))
    } else if let Some(text) = lookup(config, base64) {
        match base64_decoded(text) {
            Ok(bytes) => Ok(LoadView::Done(bytes)),
            Err(e) => Err(error_with(ErrorKind::Base64, e)),
        }
    } else if let Some(path) = lookup(config, file) {
        match read {
            None => Ok(LoadView::Read { file: FileRole::Certificate, path }),
            Some(FileReadView::OpenFailed(e)) => Err(
                error_with(ErrorKind::InvalidCertificateFile, e),
            ),
            Some(FileReadView::ReadFailed { why, .. }) => Err(
                error_with(ErrorKind::InvalidCertificateFile, why),
            ),
            Some(FileReadView::Contents(bytes)) => Ok(LoadView::Done(bytes)),
        }
    } else {
        Err(plain_error(ErrorKind::MissingCertificates))
    }
}

/// Decodes a base64 value of a configuration.
pub fn base64_decode(text: &str) -> (r: Result<Vec<u8>, TlsError>)
    ensures
        match r {
            Ok(bytes) => base64_decoded(text@) == Ok::<Seq<u8>, Seq<char>>(bytes@),
            Err(e) => base64_decoded(text@) is Err && e@ == error_with(
                ErrorKind::Base64,
                base64_decoded(text@)->Err_0,
            ),
        },
{
    match decode_base64(text) {
        Ok(bytes) => Ok(bytes),
        Err(e) => Err(TlsError::with(ErrorKind::Base64, e)),
    }
}

/// Turns the outcome of reading a private key file into the key.
pub fn key_from_file(read: &FileRead) -> (r: Result<Vec<u8>, TlsError>)
    ensures
        match (r, read@) {
            (Ok(bytes), FileReadView::Contents(found)) => bytes@ == found && found.len() > 0,
            (Ok(bytes), _) => false,
            (Err(e), FileReadView::Contents(found)) => found.len() == 0 && e@ == plain_error(
                ErrorKind::EmptyKey,
            ),
            (Err(e), FileReadView::OpenFailed(why)) => e@ == error_with(
                ErrorKind::InvalidKeyFile,
                why,
            ),
            (Err(e), FileReadView::ReadFailed { why, .. }) => e@ == error_with(
                ErrorKind::InvalidKeyFile,
                why,
            ),
        },
{
    match read {
        FileRead::OpenFailed(e) => Err(TlsError::with(ErrorKind::InvalidKeyFile, e.clone())),
        FileRead::ReadFailed { why, .. } => Err(
            TlsError::with(ErrorKind::InvalidKeyFile, why.clone()),
        ),
        FileRead::Contents(bytes) => {
            if bytes.len() == 0 {
                Err(TlsError::plain(ErrorKind::EmptyKey))
            } else {
                Ok(slice_to_vec(bytes.as_slice()))
            }
        },
    }
}

/// Loads a private key. `read` is how reading the file went that the configuration names,
/// where it has been read.
pub fn load_tls_key(
    config: &Config,
    tls_private_key_raw_config_key: &str,
    tls_private_key_file_config_key: &str,
    tls_private_key_base64_config_key: &str,
    read: &Option<FileRead>,
) -> (r: Result<Load<Vec<u8>>, TlsError>)
    ensures
        bytes_load(r) == loaded_key(
            config@,
            tls_private_key_raw_config_key@,
            tls_private_key_file_config_key@,
            tls_private_key_base64_config_key@,
            opt_read(*read),
        ),
{
    if let Some(value) = config.get(tls_private_key_raw_config_key) {
        return Ok(Load::Done(slice_to_vec(value.as_bytes())));
    }
    if let Some(b64_key) = config.get(tls_private_key_base64_config_key) {
        return match base64_decode(b64_key) {
            Ok(bytes) => Ok(Load::Done(bytes)),
            Err(e) => Err(e),
        };
    }
    if let Some(path) = config.get(tls_private_key_file_config_key) {
        return match read {
            None => Ok(Load::Read { file: FileRole::PrivateKey, path: path.to_owned() }),
            Some(outcome) => match key_from_file(outcome) {
                Ok(bytes) => Ok(Load::Done(bytes)),
                Err(e) => Err(e),
            },
        };
    }
    Err(TlsError::plain(ErrorKind::MissingKey))
}

/// Loads certificates. `read` is how reading the file went that the configuration names,
/// where it has been read.
pub fn load_tls_certificate(
    config: &Config,
    tls_certificate_raw_config_key: &str,
    tls_certificate_file_config_key: &str,
    tls_certificate_base64_config_key: &str,
    read: &Option<FileRead>,
) -> (r: Result<Load<Vec<u8>>, TlsError>)
    ensures
        bytes_load(r) == loaded_certificate(
            config@,
            tls_certificate_raw_config_key@,
            tls_certificate_file_config_key@,
            tls_certificate_base64_config_key@,
            opt_read(*read),
        ),
{
    if let Some(value) = config.get(tls_certificate_raw_config_key) {
        return Ok(Load::Done(slice_to_vec(value.as_bytes())));
    }
    if let Some(b64_certificate) = config.get(tls_certificate_base64_config_key) {
        return match base64_decode(b64_certificate) {
            Ok(bytes) => Ok(Load::Done(bytes)),
            Err(e) => Err(e),
        };
    }
    if let Some(path) = config.get(tls_certificate_file_config_key) {
        return match read {
            None => Ok(Load::Read { file: FileRole::Certificate, path: path.to_owned() }),
            Some(FileRead::OpenFailed(e)) => Err(
                TlsError::with(ErrorKind::InvalidCertificateFile, e.clone()),
            ),
            Some(FileRead::ReadFailed { why, .. }) => Err(
                TlsError::with(ErrorKind::InvalidCertificateFile, why.clone()),
            ),
            Some(FileRead::Contents(bytes)) => Ok(Load::Done(slice_to_vec(bytes.as_slice()))),
        };
    }
    Err(TlsError::plain(ErrorKind::MissingCertificates))
}

/// A private key is the value of the first of its names, taken as bytes; else what the value
/// of the second decodes to; else what the file holds that the third names, which is read
/// under that path and must hold something.
pub proof fn key_comes_from_its_first_source(
    config: Map<Seq<char>, Seq<char>>,
    raw: Seq<char>,
    file: Seq<char>,
    base64: Seq<char>,
    read: Option<FileReadView>,
)
    ensures
        config.contains_key(raw) ==> loaded_key(config, raw, file, base64, read) == Ok::<LoadView<Seq<u8>>, ErrorView>(
            LoadView::Done(encode_utf8(config[raw])),
        ),
        !config.contains_key(raw) && config.contains_key(base64) ==> loaded_key(config, raw, file, base64, read) == (
        match base64_decoded(config[base64]) {
            Ok(bytes) => Ok::<LoadView<Seq<u8>>, ErrorView>(LoadView::Done(bytes)),
            Err(e) => Err(
                ErrorView { kind: ErrorKind::Base64, subject: Seq::empty(), detail: e },
            ),
        }),
        !config.contains_key(raw) && !config.contains_key(base64) && config.contains_key(
            file,
        ) ==> loaded_key(config, raw, file, base64, read) == (match read {
            None => Ok::<LoadView<Seq<u8>>, ErrorView>(
                LoadView::Read { file: FileRole::PrivateKey, path: config[file] },
            ),
            Some(FileReadView::Contents(bytes)) => if bytes.len() > 0 {
                Ok(LoadView::Done(bytes))
            } else {
                Err(
                    ErrorView {
                        kind: ErrorKind::EmptyKey,
                        subject: Seq::empty(),
                        detail: Seq::empty(),
                    },
                )
            },
            Some(FileReadView::OpenFailed(why)) => Err(
                ErrorView { kind: ErrorKind::InvalidKeyFile, subject: Seq::empty(), detail: why },
            ),
            Some(FileReadView::ReadFailed { why, .. }) => Err(
                ErrorView { kind: ErrorKind::InvalidKeyFile, subject: Seq::empty(), detail: why },
            ),
        }),
        !config.contains_key(raw) && !config.contains_key(base64) && !config.contains_key(
            file,
        ) ==> loaded_key(config, raw, file, base64, read) == Err::<LoadView<Seq<u8>>, ErrorView>(
            ErrorView { kind: ErrorKind::MissingKey, subject: Seq::empty(), detail: Seq::empty() },
        ),
{
}

/// Certificates are the value of the first of their names, taken as bytes; else what the
/// value of the second decodes to; else what the file holds that the third names, which is
/// read under that path.
pub proof fn certificates_come_from_their_first_source(
    config: Map<Seq<char>, Seq<char>>,
    raw: Seq<char>,
    file: Seq<char>,
    base64: Seq<char>,
    read: Option<FileReadView>,
)
    ensures
        config.contains_key(raw) ==> loaded_certificate(config, raw, file, base64, read) == Ok::<LoadView<Seq<u8>>, ErrorView>(
            LoadView::Done(encode_utf8(config[raw])),
        ),
        !config.contains_key(raw) && config.contains_key(base64) ==> loaded_certificate(config, raw, file, base64, read) == (
        match base64_decoded(config[base64]) {
            Ok(bytes) => Ok::<LoadView<Seq<u8>>, ErrorView>(LoadView::Done(bytes)),
            Err(e) => Err(
                ErrorView { kind: ErrorKind::Base64, subject: Seq::empty(), detail: e },
            ),
        }),
        !config.contains_key(raw) && !config.contains_key(base64) && config.contains_key(
            file,
        ) ==> loaded_certificate(config, raw, file, base64, read) == (match read {
            None => Ok::<LoadView<Seq<u8>>, ErrorView>(
                LoadView::Read { file: FileRole::Certificate, path: config[file] },
            ),
            Some(FileReadView::Contents(bytes)) => Ok(LoadView::Done(bytes)),
            Some(FileReadView::OpenFailed(why)) => Err(
                ErrorView {
                    kind: ErrorKind::InvalidCertificateFile,
                    subject: Seq::empty(),
                    detail: why,
                },
            ),
            Some(FileReadView::ReadFailed { why, .. }) => Err(
                ErrorView {
                    kind: ErrorKind::InvalidCertificateFile,
                    subject: Seq::empty(),
                    detail: why,
                },
            ),
        }),
        !config.contains_key(raw) && !config.contains_key(base64) && !config.contains_key(
            file,
        ) ==> loaded_certificate(config, raw, file, base64, read) == Err::<LoadView<Seq<u8>>, ErrorView>(
            ErrorView { kind: ErrorKind::MissingCertificates, subject: Seq::empty(), detail: Seq::empty() },
        ),
{
}

/// A file that was recorded is found under its role, and the other files are as before.
pub proof fn recorded_file_is_found(files: FilesView, role: FileRole, read: FileReadView)
    ensures
        files.with(role, read).of(role) == Some(read),
        forall|other: FileRole|
            other != role ==> #[trigger] files.with(role, read).of(other) == files.of(other),
        files.of(FileRole::PrivateKey) == files.private_key,
        files.of(FileRole::Certificate) == files.certificate,
        files.of(FileRole::RootCaCertificate) == files.root_ca,
{
}

/// What is known of files is how reading each of them went, with all bytes that were read.
pub proof fn files_show_what_was_read(files: Files, bytes: Vec<u8>, why: String)
    ensures
        FileRead::Contents(bytes)@ == FileReadView::Contents(bytes@),
        FileRead::OpenFailed(why)@ == FileReadView::OpenFailed(why@),
        (FileRead::ReadFailed { before: bytes, why })@ == (FileReadView::ReadFailed {
            before: bytes@,
            why: why@,
        }),
        files@.private_key == (match files.private_key {
            Some(read) => Some(read@),
            None => None,
        }),
        files@.certificate == (match files.certificate {
            Some(read) => Some(read@),
            None => None,
        }),
        files@.root_ca == (match files.root_ca {
            Some(read) => Some(read@),
            None => None,
        }),
{
}

/// A file that has been read is known as it was read.
pub proof fn read_file_is_known(read: FileRead)
    ensures
        opt_read(Some(read)) == Some(read@),
        opt_read(None) is None,
{
}

/// Loaded bytes show all of their bytes, a file that is asked for its role and path, and an
/// error its contents.
pub proof fn loaded_bytes_show_themselves(
    bytes: Vec<u8>,
    file: FileRole,
    path: String,
    error: TlsError,
)
    ensures
        bytes_load(Ok(Load::Done(bytes))) == Ok::<LoadView<Seq<u8>>, ErrorView>(
            LoadView::Done(bytes@),
        ),
        bytes_load(Ok(Load::Read { file, path })) == Ok::<LoadView<Seq<u8>>, ErrorView>(
            LoadView::Read { file, path: path@ },
        ),
        bytes_load(Err(error)) == Err::<LoadView<Seq<u8>>, ErrorView>(error@),
{
}

} // verus!
