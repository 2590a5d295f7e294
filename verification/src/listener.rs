//! The transport the server listens on: plaintext, or TLS with a pinned
//! range of protocol versions.

use vstd::prelude::*;
use vstd::string::StringExecFns;
use vstd::utf8::encode_utf8;
use crate::error::StartupError;
use crate::material::{CertificateMaterial, MaterialView};

verus! {

/// A parsed X.509 certificate. Its contents are not visible here; it is
/// carried to the acceptor as it is.
#[verifier::external_type_specification]
#[verifier::external_body]
pub struct ExX509(openssl::x509::X509);

/// A protocol version that a TLS handshake can ask for, oldest first.
#[derive(Clone, Copy, Debug, PartialEq, Eq, Structural)]
pub enum TlsVersion {
    Ssl3,
    Tls10,
    Tls11,
    Tls12,
    Tls13,
}

impl TlsVersion {
    /// The position of the version in the order of their release.
    pub open spec fn rank(self) -> nat {
        match self {
            TlsVersion::Ssl3 => 0,
            TlsVersion::Tls10 => 1,
            TlsVersion::Tls11 => 2,
            TlsVersion::Tls12 => 3,
            TlsVersion::Tls13 => 4,
        }
    }

    /// The position of the version in the order of their release.
    pub fn ordinal(self) -> (r: u8)
        ensures
            r == self.rank(),
    {
        match self {
            TlsVersion::Ssl3 => 0,
            TlsVersion::Tls10 => 1,
            TlsVersion::Tls11 => 2,
            TlsVersion::Tls12 => 3,
            TlsVersion::Tls13 => 4,
        }
    }
}

/// The server-side configuration that the acceptor starts from, before the
/// certificate and the versions are set.
#[derive(Clone, Copy, Debug, PartialEq, Eq, Structural)]
pub enum ServerProfile {
    /// Mozilla's intermediate recommendation, version 4.
    MozillaIntermediate,
    /// Mozilla's intermediate recommendation, version 5.
    MozillaIntermediateV5,
    /// Mozilla's modern recommendation, version 4.
    MozillaModern,
}

/// The family of protocols the acceptor speaks.
#[derive(Clone, Copy, Debug, PartialEq, Eq, Structural)]
pub enum ProtocolMethod {
    /// TLS over a stream.
    Tls,
    /// DTLS over datagrams.
    Dtls,
}

/// The encoding of a key file.
#[derive(Clone, Copy, Debug, PartialEq, Eq, Structural)]
pub enum KeyFileFormat {
    Pem,
    Asn1,
}

/// Where the acceptor reads the private key from.
pub open spec fn private_key_path() -> Seq<char> {
    "./cert/key.pem"@
}

/// Where the acceptor reads the certificate chain from.
pub open spec fn certificate_chain_path() -> Seq<char> {
    "./cert/cert.pem"@
}

/// The longest certificate text that is handed to the parser, in bytes.
pub const MAX_PEM_LEN: usize = 0x7fff_ffff;

/// The bytes of `Proc-Type:`, the header that marks a PEM block as
/// encrypted.
pub open spec fn encryption_header() -> Seq<u8> {
    seq![80u8, 114u8, 111u8, 99u8, 45u8, 84u8, 121u8, 112u8, 101u8, 58u8]
}

/// `word` stands in `text` at position `at`.
pub open spec fn occurs_at(text: Seq<u8>, word: Seq<u8>, at: int) -> bool {
    &&& 0 <= at
    &&& at + word.len() <= text.len()
    &&& text.subrange(at, at + word.len()) == word
}

/// The text holds the header of an encrypted block somewhere.
pub open spec fn holds_encryption_header(pem: Seq<u8>) -> bool {
    exists|at: int| occurs_at(pem, encryption_header(), at)
}

/// A certificate text that is refused without being parsed: one longer than
/// the parser takes, and one that announces encryption. A certificate is
/// public and never encrypted; the parser would stop and ask for a pass
/// phrase.
pub open spec fn refused_unparsed(text: Seq<char>) -> bool {
    encode_utf8(text).len() > MAX_PEM_LEN || holds_encryption_header(encode_utf8(text))
}

/// Whether the text holds the header of an encrypted block.
pub fn has_encryption_header(pem: &[u8]) -> (r: bool)
    ensures
        r == holds_encryption_header(pem@),
{
    let word: [u8; 10] = [80, 114, 111, 99, 45, 84, 121, 112, 101, 58];
    assert(word@ =~= encryption_header());
    let n = pem.len();
    if n < 10 {
        return false;
    }
    let mut at: usize = 0;
    while at <= n - 10
        invariant
            n == pem@.len(),
            n >= 10,
            at <= n - 10 + 1,
            word@ == encryption_header(),
            forall|k: int| 0 <= k < at ==> !occurs_at(pem@, encryption_header(), k),
        decreases n - 10 + 1 - at,
    {
        let mut j: usize = 0;
        while j < 10 && pem[at + j] == word[j]
            invariant
                j <= 10,
                at + 10 <= n,
                n == pem@.len(),
                word@ == encryption_header(),
                forall|k: int| 0 <= k < j ==> pem@[at + k] == word@[k],
            decreases 10 - j,
        {
            j += 1;
        }
        if j == 10 {
            proof {
                assert(pem@.subrange(at as int, at + 10) =~= encryption_header());
                assert(occurs_at(pem@, encryption_header(), at as int));
            }
            return true;
        }
        proof {
            assert(pem@.subrange(at as int, at + 10)[j as int] == pem@[at + j]);
        }
        at += 1;
    }
    false
}

/// How to build the TLS acceptor: what it starts from, the certificate to
/// present, the files that hold the private key and the certificate chain,
/// and the protocol versions to accept.
pub struct AcceptorSettings {
    pub profile: ServerProfile,
    pub method: ProtocolMethod,
    pub certificate: openssl::x509::X509,
    pub private_key_file: String,
    pub private_key_format: KeyFileFormat,
    pub certificate_chain_file: String,
    pub min_proto_version: TlsVersion,
    pub max_proto_version: TlsVersion,
}

impl AcceptorSettings {
    /// The settings are the ones every TLS listener of this service has:
    /// Mozilla's intermediate profile for TLS, key (PEM) and chain at their
    /// fixed paths, TLS 1.2 as the oldest version and TLS 1.3 as the newest.
    pub open spec fn pinned(self) -> bool {
        &&& self.profile == ServerProfile::MozillaIntermediate
        &&& self.method == ProtocolMethod::Tls
        &&& self.private_key_file@ == private_key_path()
        &&& self.private_key_format == KeyFileFormat::Pem
        &&& self.certificate_chain_file@ == certificate_chain_path()
        &&& self.min_proto_version == TlsVersion::Tls12
        &&& self.max_proto_version == TlsVersion::Tls13
    }

    /// A handshake that asks for `version` is within the accepted range.
    pub open spec fn admits(self, version: TlsVersion) -> bool {
        self.min_proto_version.rank() <= version.rank() <= self.max_proto_version.rank()
    }

    /// Whether a handshake that asks for `version` is accepted.
    pub fn accepts(&self, version: TlsVersion) -> (r: bool)
        ensures
            r == self.admits(version),
    {
        let asked: u8 = version.ordinal();
        self.min_proto_version.ordinal() <= asked && asked <= self.max_proto_version.ordinal()
    }
}

/// What the server listens on.
pub enum Transport {
    /// Connections are served as they come.
    Plaintext,
    /// Connections are accepted through a TLS acceptor built from the
    /// settings.
    Tls(AcceptorSettings),
}

/// Calls `openssl::x509::X509::from_pem`, which reads one PEM-encoded
/// certificate from the bytes; `None` where OpenSSL rejects them. What
/// OpenSSL accepts is its own affair and may differ between its versions,
/// so nothing is claimed of the result. OpenSSL takes at most `c_int::MAX`
/// bytes at once, and for a block that announces encryption it asks for a
/// pass phrase on the terminal: both kinds of input are left out.
#[verifier::external_body]
fn parse_certificate(pem: &[u8]) -> (r: Option<openssl::x509::X509>)
    requires
        pem@.len() <= 0x7fff_ffff,
        !holds_encryption_header(pem@),
{
    openssl::x509::X509::from_pem(pem).ok()
}

/// The acceptor settings for a certificate, given what parsing it gave: the
/// pinned settings with that certificate, or `MalformedCertificate` where it
/// did not parse.
pub fn acceptor_settings(parsed: Option<openssl::x509::X509>) -> (r: Result<
    AcceptorSettings,
    StartupError,
>)
    ensures
        match parsed {
            Some(certificate) => r is Ok && r->Ok_0.certificate == certificate
                && r->Ok_0.pinned(),
            None => r == Err::<AcceptorSettings, StartupError>(StartupError::MalformedCertificate),
        },
{
    match parsed {
        Some(certificate) => Ok(
            AcceptorSettings {
                profile: ServerProfile::MozillaIntermediate,
                method: ProtocolMethod::Tls,
                certificate,
                private_key_file: String::from_str("./cert/key.pem"),
                private_key_format: KeyFileFormat::Pem,
                certificate_chain_file: String::from_str("./cert/cert.pem"),
                min_proto_version: TlsVersion::Tls12,
                max_proto_version: TlsVersion::Tls13,
            },
        ),
        None => Err(StartupError::MalformedCertificate),
    }
}

/// The settings of the TLS acceptor that presents `certificate`.
///
/// The certificate comes from memory; the private key and the chain are read
/// by the acceptor from their fixed paths. A text that is too long or
/// announces encryption is refused unparsed. Any other text is parsed, and
/// whatever the parser makes of it, the result is the pinned settings or
/// `MalformedCertificate`; `acceptor_settings` says which, for each result
/// of the parser.
pub fn make_ssl_acceptor_builder(certificate: &String) -> (r: Result<AcceptorSettings, StartupError>)
    ensures
        refused_unparsed(certificate@) ==> r is Err,
        r matches Ok(settings) ==> settings.pinned(),
        r matches Err(e) ==> e == StartupError::MalformedCertificate,
{
    let pem = certificate.as_str().as_bytes();
    if pem.len() > MAX_PEM_LEN || has_encryption_header(pem) {
        Err(StartupError::MalformedCertificate)
    } else {
        acceptor_settings(parse_certificate(pem))
    }
}

/// The outcome `r` is one that is owed to a process with the given
/// material: plaintext without material; with it, TLS with the pinned
/// settings or `MalformedCertificate`, and the latter where its certificate
/// is refused unparsed.
pub open spec fn transport_for(r: Result<Transport, StartupError>, material: Option<MaterialView>) -> bool {
    match material {
        None => r == Ok::<Transport, StartupError>(Transport::Plaintext),
        Some(m) => match r {
            Ok(Transport::Tls(settings)) => settings.pinned() && !refused_unparsed(m.certificate),
            Ok(Transport::Plaintext) => false,
            Err(e) => e == StartupError::MalformedCertificate,
        },
    }
}

impl Transport {
    /// The transport for a process with the given TLS material.
    ///
    /// Without material it is plaintext. With material it is TLS with the
    /// pinned settings, or startup ends with `MalformedCertificate` where
    /// the certificate is refused or does not parse: a process that has
    /// material never listens in plaintext.
    pub fn for_material(pair: &Option<CertificateMaterial>) -> (r: Result<Transport, StartupError>)
        ensures
            transport_for(
                r,
                match *pair {
                    Some(material) => Some(material@),
                    None => None,
                },
            ),
    {
        match pair {
            None => Ok(Transport::Plaintext),
            Some(material) => match make_ssl_acceptor_builder(material.certificate()) {
                Ok(settings) => Ok(Transport::Tls(settings)),
                Err(e) => Err(e),
            },
        }
    }
}

} // verus!
