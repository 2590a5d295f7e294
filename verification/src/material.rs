//! TLS material: none, or a certificate and private key generated at process
//! start.

use vstd::prelude::*;
use vstd::string::StringExecFns;
use vstd::utf8::is_ascii_chars;
use crate::config::{Config, TlsConfig};
use crate::error::StartupError;
use crate::secret::Secret;

verus! {

/// What a `CertificateMaterial` holds, as mathematical text.
pub struct MaterialView {
    pub certificate: Seq<char>,
    pub private_key: Seq<char>,
}

impl MaterialView {
    /// Both texts are present and they differ.
    pub open spec fn distinct_and_present(self) -> bool {
        &&& self.certificate.len() > 0
        &&& self.private_key.len() > 0
        &&& self.certificate != self.private_key
    }
}

/// A certificate and its private key, both PEM text and both held as
/// secrets: the texts leave the type only through the two accessors.
pub struct CertificateMaterial {
    certificate: Secret,
    private_key: Secret,
}

impl View for CertificateMaterial {
    type V = MaterialView;

    closed spec fn view(&self) -> MaterialView {
        MaterialView { certificate: self.certificate@, private_key: self.private_key@ }
    }
}

impl CertificateMaterial {
    /// Every value of this type holds two non-empty texts that differ.
    #[verifier::type_invariant]
    pub closed spec fn wf(self) -> bool {
        self@.distinct_and_present()
    }

    /// The material made of the two texts, or `DegenerateMaterial` where one
    /// of them is empty or the two are the same.
    pub fn new(certificate: String, private_key: String) -> (r: Result<Self, StartupError>)
        ensures
            usable_pair(certificate@, private_key@) ==> r is Ok
                && r->Ok_0@ == (MaterialView { certificate: certificate@, private_key: private_key@ }),
            !usable_pair(certificate@, private_key@) ==> r == Err::<Self, StartupError>(
                StartupError::DegenerateMaterial,
            ),
    {
        if certificate.as_str().is_empty() || private_key.as_str().is_empty() || certificate
            == private_key {
            Err(StartupError::DegenerateMaterial)
        } else {
            Ok(
                CertificateMaterial {
                    certificate: Secret::new(certificate),
                    private_key: Secret::new(private_key),
                },
            )
        }
    }

    /// The certificate, PEM text.
    pub fn certificate(&self) -> (r: &String)
        ensures
            r@ == self@.certificate,
            self@.distinct_and_present(),
    {
        proof {
            use_type_invariant(self);
        }
        self.certificate.expose_secret()
    }

    /// The private key, PEM text.
    pub fn private_key(&self) -> (r: &String)
        ensures
            r@ == self@.private_key,
            self@.distinct_and_present(),
    {
        proof {
            use_type_invariant(self);
        }
        self.private_key.expose_secret()
    }
}

/// Two texts that can stand as certificate and key: both present, and not the
/// same text.
pub open spec fn usable_pair(certificate: Seq<char>, private_key: Seq<char>) -> bool {
    (MaterialView { certificate, private_key }).distinct_and_present()
}

/// The names a self-signed certificate of this service is valid for. The
/// choice is this library's: such a certificate serves local and bootstrap
/// use, so it names the local host.
pub open spec fn subject_names() -> Seq<Seq<char>> {
    seq!["localhost"@]
}

/// The texts of a list of names.
pub open spec fn texts_of(names: Seq<String>) -> Seq<Seq<char>> {
    Seq::new(names.len(), |i: int| names[i]@)
}

/// The names handed to the certificate generator.
pub fn subject_alt_names() -> (r: Vec<String>)
    ensures
        texts_of(r@) == subject_names(),
        forall|i: int| 0 <= i < r@.len() ==> is_ascii_chars(#[trigger] r@[i]@),
{
    let mut names: Vec<String> = Vec::new();
    names.push(String::from_str("localhost"));
    proof {
        reveal_strlit("localhost");
        assert(texts_of(names@) =~= subject_names());
    }
    names
}

/// The certificate generator of this library is `rcgen`.
///
/// Calls `rcgen::generate_simple_self_signed` for the given subject names and
/// serialises the certificate and its key pair as PEM. The key pair is drawn
/// from fresh randomness on every call, so nothing is claimed of the texts;
/// an error of the generator comes back as its message. A name that is no
/// IP address is written into the certificate as an ASCII string, which the
/// encoder insists on, so every name must be ASCII.
#[verifier::external_body]
fn create_self_signed_certificate(subject_alt_names: Vec<String>) -> (r: Result<
    (String, String),
    String,
>)
    requires
        forall|i: int|
            0 <= i < subject_alt_names@.len() ==> is_ascii_chars(#[trigger] subject_alt_names@[i]@),
{
    match rcgen::generate_simple_self_signed(subject_alt_names) {
        Ok(generated) => match generated.serialize_pem() {
            Ok(certificate) => Ok((certificate, generated.serialize_private_key_pem())),
            Err(e) => Err(e.to_string()),
        },
        Err(e) => Err(e.to_string()),
    }
}

/// The material that a run of the generator yields: its two texts where it
/// succeeded and they are usable, else the failure that ends startup.
pub fn self_signed_material(generated: Result<(String, String), String>) -> (r: Result<
    CertificateMaterial,
    StartupError,
>)
    ensures
        match generated {
            Ok((certificate, private_key)) => if usable_pair(certificate@, private_key@) {
                r is Ok && r->Ok_0@ == (MaterialView {
                    certificate: certificate@,
                    private_key: private_key@,
                })
            } else {
                r == Err::<CertificateMaterial, StartupError>(StartupError::DegenerateMaterial)
            },
            Err(cause) => r == Err::<CertificateMaterial, StartupError>(
                StartupError::CertificateGeneration { cause },
            ),
        },
{
    match generated {
        Ok((certificate, private_key)) => CertificateMaterial::new(certificate, private_key),
        Err(cause) => Err(StartupError::CertificateGeneration { cause }),
    }
}

/// The TLS material for this process.
///
/// Without a TLS mode, or with `NoTls`, there is none and the generator is
/// not run. With `SelfSigned` a fresh certificate and key are generated; the
/// result is then material with two present, distinct texts, or the failure
/// that ends startup. It is never "no material": a process asked for TLS does
/// not fall back to plaintext.
pub fn get_certificate_and_server_key(config: &Config) -> (r: Result<
    Option<CertificateMaterial>,
    StartupError,
>)
    ensures
        !config.wants_tls() ==> r == Ok::<Option<CertificateMaterial>, StartupError>(None),
        config.wants_tls() ==> match r {
            Ok(Some(material)) => material@.distinct_and_present(),
            Ok(None) => false,
            Err(e) => e is CertificateGeneration || e is DegenerateMaterial,
        },
{
    match config.application.tls_config {
        None => Ok(None),
        Some(TlsConfig::NoTls) => Ok(None),
        Some(TlsConfig::SelfSigned) => {
            match self_signed_material(create_self_signed_certificate(subject_alt_names())) {
                Ok(material) => Ok(Some(material)),
                Err(e) => Err(e),
            }
        },
    }
}

} // verus!
