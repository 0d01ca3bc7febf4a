//! Setting up a client: the errors that setup can end in, and the choices
//! made on the caller's credentials.
//!
//! Setup errors are surfaced once, as text, to whoever asked for the
//! connection. Each error here holds the text of what went wrong underneath.
//!
//! Reading PEM is left to `rustls_pemfile`; the two functions at the end of
//! this file call it. What they return has a name, and no more is claimed of
//! it than that the same input reads the same.

use vstd::prelude::*;
use vstd::string::StringExecFns;

verus! {

#[verifier::external_type_specification]
#[verifier::external_body]
pub struct ExPemItem(rustls_pemfile::Item);

/// What a section of a PEM file holds, by kind.
#[derive(Clone, Copy, Debug, PartialEq, Eq, Structural)]
pub enum PemKind {
    /// A certificate.
    X509Certificate,
    /// A public key.
    SubjectPublicKeyInfo,
    /// An RSA private key.
    Pkcs1Key,
    /// A private key in PKCS#8.
    Pkcs8Key,
    /// An elliptic-curve private key.
    Sec1Key,
    /// A certificate revocation list.
    Crl,
    /// A certificate signing request.
    Csr,
    /// A kind that this library does not know.
    Other,
}

impl PemKind {
    /// One of the three encodings of a private key.
    pub open spec fn is_private_key(self) -> bool {
        self is Pkcs1Key || self is Pkcs8Key || self is Sec1Key
    }

    /// Tells whether a section of this kind is a private key.
    pub fn private_key(&self) -> (b: bool)
        ensures
            b == self.is_private_key(),
    {
        match self {
            PemKind::Pkcs1Key => true,
            PemKind::Pkcs8Key => true,
            PemKind::Sec1Key => true,
            PemKind::X509Certificate => false,
            PemKind::SubjectPublicKeyInfo => false,
            PemKind::Crl => false,
            PemKind::Csr => false,
            PemKind::Other => false,
        }
    }
}

/// Why the trust roots could not be put together.
#[derive(Debug, PartialEq, Eq)]
pub enum GetCertsError {
    /// The platform's certificates could not be loaded; one text per failure.
    NativeLoad(Vec<String>),
    /// A certificate authority file could not be read.
    CertificateAuthority(String),
    /// A certificate was refused by the trust store.
    Load(String),
}

/// A trust-root error by what it holds.
pub enum GetCertsErrorView {
    NativeLoad(Seq<Seq<char>>),
    CertificateAuthority(Seq<char>),
    Load(Seq<char>),
}

/// The views of a list of texts, in order.
pub open spec fn text_views(texts: Seq<String>) -> Seq<Seq<char>> {
    texts.map_values(|t: String| t@)
}

impl View for GetCertsError {
    type V = GetCertsErrorView;

    open spec fn view(&self) -> GetCertsErrorView {
        match *self {
            GetCertsError::NativeLoad(texts) => GetCertsErrorView::NativeLoad(text_views(texts@)),
            GetCertsError::CertificateAuthority(text) => GetCertsErrorView::CertificateAuthority(
                text@,
            ),
            GetCertsError::Load(text) => GetCertsErrorView::Load(text@),
        }
    }
}

/// The texts of `items` in a row, with a comma and a space between each two.
pub open spec fn comma_separated(items: Seq<Seq<char>>) -> Seq<char>
    decreases items.len(),
{
    if items.len() == 0 {
        Seq::empty()
    } else if items.len() == 1 {
        items[0]
    } else {
        comma_separated(items.drop_last()) + ", "@ + items.last()
    }
}

/// A list of texts as it is shown: in square brackets, separated by commas.
pub open spec fn bracketed(items: Seq<Seq<char>>) -> Seq<char> {
    "["@ + comma_separated(items) + "]"@
}

impl GetCertsErrorView {
    /// The text shown to the caller.
    pub open spec fn text(self) -> Seq<char> {
        match self {
            GetCertsErrorView::NativeLoad(items) => "Unable to load native certificate(s): "@
                + bracketed(items),
            GetCertsErrorView::CertificateAuthority(text) =>
                "Unable to load certificate authority file: "@ + text,
            GetCertsErrorView::Load(text) => "Unable to load certificate: "@ + text,
        }
    }
}

/// Renders a list of texts in square brackets, separated by commas.
fn bracketed_list(items: &Vec<String>) -> (text: String)
    ensures
        text@ == bracketed(text_views(items@)),
{
    let mut text = String::from_str("[");
    let mut i: usize = 0;
    while i < items.len()
        invariant
            i <= items.len(),
            text@ == "["@ + comma_separated(text_views(items@).take(i as int)),
        decreases items.len() - i,
    {
        let ghost before = text_views(items@).take(i as int);
        let ghost after = text_views(items@).take(i + 1);
        proof {
            assert(after.drop_last() =~= before);
            assert(after.last() == items@[i as int]@);
        }
        if i > 0 {
            text.append(", ");
        }
        text.append(items[i].as_str());
        proof {
            if i == 0 {
                assert(before =~= Seq::<Seq<char>>::empty());
                assert(text@ =~= "["@ + comma_separated(after));
            } else {
                assert(text@ =~= "["@ + comma_separated(after));
            }
        }
        i = i + 1;
    }
    proof {
        assert(text_views(items@).take(i as int) =~= text_views(items@));
    }
    text.append("]");
    text
}

impl GetCertsError {
    /// The text shown to the caller.
    pub fn to_string(&self) -> (text: String)
        ensures
            text@ == self@.text(),
    {
        match self {
            GetCertsError::NativeLoad(items) => {
                let list = bracketed_list(items);
                String::from_str("Unable to load native certificate(s): ").concat(list.as_str())
            },
            GetCertsError::CertificateAuthority(text) => String::from_str(
                "Unable to load certificate authority file: ",
            ).concat(text.as_str()),
            GetCertsError::Load(text) => String::from_str("Unable to load certificate: ").concat(
                text.as_str(),
            ),
        }
    }
}

/// Why a client could not be set up or connected.
#[derive(Debug, PartialEq, Eq)]
pub enum ClientError {
    /// The trust roots could not be put together.
    CertRootStore(GetCertsError),
    /// Reading the client's certificates or binding the socket failed.
    Io(String),
    /// The connection attempt could not be started.
    QuinnConnect(String),
    /// The handshake failed.
    QuinnConnection(String),
    /// The client's certificate chain and key were refused.
    InvalidClientAuthCertificate(String),
    /// The client's key file holds no usable key.
    InvalidClientAuthKey(String),
}

/// A setup error by what it holds.
pub enum ClientErrorView {
    CertRootStore(GetCertsErrorView),
    Io(Seq<char>),
    QuinnConnect(Seq<char>),
    QuinnConnection(Seq<char>),
    InvalidClientAuthCertificate(Seq<char>),
    InvalidClientAuthKey(Seq<char>),
}

impl View for ClientError {
    type V = ClientErrorView;

    open spec fn view(&self) -> ClientErrorView {
        match *self {
            ClientError::CertRootStore(inner) => ClientErrorView::CertRootStore(inner@),
            ClientError::Io(text) => ClientErrorView::Io(text@),
            ClientError::QuinnConnect(text) => ClientErrorView::QuinnConnect(text@),
            ClientError::QuinnConnection(text) => ClientErrorView::QuinnConnection(text@),
            ClientError::InvalidClientAuthCertificate(text) =>
                ClientErrorView::InvalidClientAuthCertificate(text@),
            ClientError::InvalidClientAuthKey(text) => ClientErrorView::InvalidClientAuthKey(text@),
        }
    }
}

impl ClientErrorView {
    /// The text shown to the caller: that of the error underneath.
    pub open spec fn text(self) -> Seq<char> {
        match self {
            ClientErrorView::CertRootStore(inner) => inner.text(),
            ClientErrorView::Io(text) => text,
            ClientErrorView::QuinnConnect(text) => text,
            ClientErrorView::QuinnConnection(text) => text,
            ClientErrorView::InvalidClientAuthCertificate(text) => text,
            ClientErrorView::InvalidClientAuthKey(text) => text,
        }
    }
}

impl ClientError {
    /// The text shown to the caller.
    pub fn to_string(&self) -> (text: String)
        ensures
            text@ == self@.text(),
    {
        match self {
            ClientError::CertRootStore(inner) => inner.to_string(),
            ClientError::Io(text) => text.clone(),
            ClientError::QuinnConnect(text) => text.clone(),
            ClientError::QuinnConnection(text) => text.clone(),
            ClientError::InvalidClientAuthCertificate(text) => text.clone(),
            ClientError::InvalidClientAuthKey(text) => text.clone(),
        }
    }
}

/// The client's certificate file and key file among the credentials that the
/// caller passed: the first two entries, if there are at least two.
pub open spec fn auth_pair(credentials: Option<Seq<Seq<u8>>>) -> Option<(Seq<u8>, Seq<u8>)> {
    match credentials {
        Some(files) => if files.len() < 2 {
            None
        } else {
            Some((files[0], files[1]))
        },
        None => None,
    }
}

/// The views of a list of files, in order.
pub open spec fn file_views(files: Seq<Vec<u8>>) -> Seq<Seq<u8>> {
    files.map_values(|f: Vec<u8>| f@)
}

/// Picks the client's certificate file and key file out of the credentials
/// that the caller passed. Fewer than two files mean no client
/// authentication.
pub fn client_auth(credentials: Option<Vec<Vec<u8>>>) -> (pair: Option<(Vec<u8>, Vec<u8>)>)
    ensures
        match pair {
            Some((cert, key)) => Some((cert@, key@)),
            None => None,
        } == auth_pair(
            match credentials {
                Some(files) => Some(file_views(files@)),
                None => None,
            },
        ),
{
    match credentials {
        None => None,
        Some(mut files) => {
            if files.len() < 2 {
                None
            } else {
                let ghost all = file_views(files@);
                let key = files.swap_remove(1);
                let cert = files.swap_remove(0);
                proof {
                    assert(key@ == all[1]);
                    assert(cert@ == all[0]);
                }
                Some((cert, key))
            }
        },
    }
}

/// The text for a key file without any section.
pub open spec fn no_keys_text() -> Seq<char> {
    "key file did not contain any keys"@
}

/// The text for a key file whose first section is not a private key.
pub open spec fn invalid_type_text() -> Seq<char> {
    "Invalid file type"@
}

/// What the first section of a key file is good for: a private key of one of
/// the three known encodings is taken, anything else is refused. The section
/// itself, `T`, is carried along with its kind.
pub open spec fn key_choice<T>(first: Result<Option<(PemKind, T)>, Seq<char>>) -> Result<
    (PemKind, T),
    ClientErrorView,
> {
    match first {
        Err(text) => Err(ClientErrorView::InvalidClientAuthKey(text)),
        Ok(None) => Err(ClientErrorView::InvalidClientAuthKey(no_keys_text())),
        Ok(Some(section)) => if section.0.is_private_key() {
            Ok(section)
        } else {
            Err(ClientErrorView::InvalidClientAuthKey(invalid_type_text()))
        },
    }
}

/// The view of the outcome of choosing a key.
pub open spec fn choice_view<T>(choice: Result<(PemKind, T), ClientError>) -> Result<
    (PemKind, T),
    ClientErrorView,
> {
    match choice {
        Ok(section) => Ok(section),
        Err(error) => Err(error@),
    }
}

/// The view of what reading a key file came to.
pub open spec fn reading_view<T>(first: Result<Option<(PemKind, T)>, String>) -> Result<
    Option<(PemKind, T)>,
    Seq<char>,
> {
    match first {
        Ok(section) => Ok(section),
        Err(text) => Err(text@),
    }
}

/// Decides on the first section of the client's key file, given what reading
/// it came to.
pub fn select_client_key<T>(first: Result<Option<(PemKind, T)>, String>) -> (choice: Result<
    (PemKind, T),
    ClientError,
>)
    ensures
        choice_view(choice) == key_choice(reading_view(first)),
{
    match first {
        Err(text) => Err(ClientError::InvalidClientAuthKey(text)),
        Ok(None) => Err(
            ClientError::InvalidClientAuthKey(
                String::from_str("key file did not contain any keys"),
            ),
        ),
        Ok(Some(section)) => {
            if section.0.private_key() {
                Ok(section)
            } else {
                Err(ClientError::InvalidClientAuthKey(String::from_str("Invalid file type")))
            }
        },
    }
}

/// What `rustls_pemfile` reads first in a file holding `bytes`: a section,
/// no section, or an error as text.
pub uninterp spec fn pem_first(bytes: Seq<u8>) -> Result<Option<rustls_pemfile::Item>, Seq<char>>;

/// The kind of a PEM section, as `pem_item_kind` reads it.
pub uninterp spec fn pem_kind(item: rustls_pemfile::Item) -> PemKind;

/// What reading the first section of a file holding `bytes` comes to: the
/// section beside its kind, no section, or an error as text.
pub open spec fn first_section(bytes: Seq<u8>) -> Result<
    Option<(PemKind, rustls_pemfile::Item)>,
    Seq<char>,
> {
    match pem_first(bytes) {
        Ok(Some(item)) => Ok(Some((pem_kind(item), item))),
        Ok(None) => Ok(None),
        Err(text) => Err(text),
    }
}

/// Reads the first section of the client's key file and decides on it as
/// `select_client_key` does: the section comes back beside its kind if it is
/// a private key, and the file is refused otherwise.
pub fn client_key(key_file: &[u8]) -> (key: Result<(PemKind, rustls_pemfile::Item), ClientError>)
    ensures
        choice_view(key) == key_choice(first_section(key_file@)),
{
    let first = match pem_read_one(key_file) {
        Ok(Some(item)) => {
            let kind = pem_item_kind(&item);
            Ok(Some((kind, item)))
        },
        Ok(None) => Ok(None),
        Err(text) => Err(text),
    };
    select_client_key(first)
}

/// `rustls_pemfile::read_one` on a cursor over `bytes`: the first PEM section,
/// `None` where there is none, or the error as text. The contract gives the
/// result its name; it claims no more than that the same bytes read the same.
#[verifier::external_body]
fn pem_read_one(bytes: &[u8]) -> (first: Result<Option<rustls_pemfile::Item>, String>)
    ensures
        match first {
            Ok(section) => Ok(section),
            Err(text) => Err(text@),
        } == pem_first(bytes@),
{
    match rustls_pemfile::read_one(&mut std::io::Cursor::new(bytes)) {
        Ok(item) => Ok(item),
        Err(error) => Err(error.to_string()),
    }
}

/// The kind of a `rustls_pemfile::Item`: each variant of that enum goes to the
/// variant of the same name, and one added later to `Other`. The contract
/// gives the result its name; it claims no more than that the same section
/// has the same kind.
#[verifier::external_body]
fn pem_item_kind(item: &rustls_pemfile::Item) -> (kind: PemKind)
    ensures
        kind == pem_kind(*item),
{
    match item {
        rustls_pemfile::Item::X509Certificate(_) => PemKind::X509Certificate,
        rustls_pemfile::Item::SubjectPublicKeyInfo(_) => PemKind::SubjectPublicKeyInfo,
        rustls_pemfile::Item::Pkcs1Key(_) => PemKind::Pkcs1Key,
        rustls_pemfile::Item::Pkcs8Key(_) => PemKind::Pkcs8Key,
        rustls_pemfile::Item::Sec1Key(_) => PemKind::Sec1Key,
        rustls_pemfile::Item::Crl(_) => PemKind::Crl,
        rustls_pemfile::Item::Csr(_) => PemKind::Csr,
        _ => PemKind::Other,
    }
}

} // verus!
