//! What can stop startup, and how it is reported.

use vstd::prelude::*;
use vstd::string::StringExecFns;
use crate::address::{database_target, database_target_of};
use crate::config::DatabaseSetting;

verus! {

/// What the caller reports after performing a requested action.
#[derive(Clone, Debug, PartialEq, Eq)]
pub enum Outcome {
    /// The action completed.
    Succeeded,
    /// The action failed; `cause` is the underlying error as text.
    Failed { cause: String },
}

impl Outcome {
    /// True for `Succeeded`.
    pub fn succeeded(&self) -> (r: bool)
        ensures
            r == (*self is Succeeded),
    {
        match self {
            Outcome::Succeeded => true,
            Outcome::Failed { .. } => false,
        }
    }
}

/// The families of startup failure.
#[derive(Clone, Copy, Debug, PartialEq, Eq, Structural)]
pub enum ErrorCategory {
    /// The listener could not be attached to its socket.
    Bind,
    /// Certificate or key material could not be produced or loaded.
    Credential,
    /// A dependency was not ready: database, schema, identity provider, session store.
    Dependency,
    /// The collaboration actor did not start.
    Actor,
    /// The running server ended with an I/O failure.
    ServerIo,
}

/// A failure that ends startup. None leaves the service in a degraded mode:
/// every one of them is fatal to the process.
///
/// No variant holds secret material. `cause` is the text of the underlying
/// error as the caller reported it; `target` names the dependency that was
/// not ready.
#[derive(Clone, Debug, PartialEq, Eq)]
pub enum StartupError {
    /// The certificate generator reported a failure.
    CertificateGeneration { cause: String },
    /// The generator returned an empty certificate, an empty key, or the same
    /// text for both.
    DegenerateMaterial,
    /// The certificate text is not a PEM-encoded X.509 certificate.
    MalformedCertificate,
    /// The private key text has fewer bytes than a session key needs.
    ServerKeyTooShort,
    /// The operating system gave no randomness for a fresh session key.
    SessionKeyGeneration,
    /// The connection pool could not be established within its timeout.
    DatabaseUnreachable { target: DatabaseSetting, cause: String },
    /// A pending schema migration did not apply.
    MigrationFailed { target: DatabaseSetting, cause: String },
    /// The identity provider did not answer its liveness probe.
    IdentityProviderUnreachable { target: String, cause: String },
    /// The session store could not be reached.
    SessionStoreUnreachable { cause: String },
    /// The collaboration actor could not be constructed or started.
    ActorStart { cause: String },
    /// The server could not be attached to the bound listener.
    Listen { cause: String },
    /// The server task ended with an I/O failure.
    Server { cause: String },
    /// The application was asked to run before it was built.
    NotBuilt,
    /// The application was to be built on dependencies that are not ready.
    DependenciesNotReady,
}

/// What stands in a message where a secret value would otherwise appear.
pub open spec fn redacted() -> Seq<char> {
    "[REDACTED]"@
}

impl StartupError {
    /// The family this failure belongs to.
    pub open spec fn category_of(self) -> ErrorCategory {
        match self {
            StartupError::CertificateGeneration { .. } => ErrorCategory::Credential,
            StartupError::DegenerateMaterial => ErrorCategory::Credential,
            StartupError::MalformedCertificate => ErrorCategory::Credential,
            StartupError::ServerKeyTooShort => ErrorCategory::Credential,
            StartupError::SessionKeyGeneration => ErrorCategory::Credential,
            StartupError::DatabaseUnreachable { .. } => ErrorCategory::Dependency,
            StartupError::MigrationFailed { .. } => ErrorCategory::Dependency,
            StartupError::IdentityProviderUnreachable { .. } => ErrorCategory::Dependency,
            StartupError::SessionStoreUnreachable { .. } => ErrorCategory::Dependency,
            StartupError::ActorStart { .. } => ErrorCategory::Actor,
            StartupError::Listen { .. } => ErrorCategory::Bind,
            StartupError::Server { .. } => ErrorCategory::ServerIo,
            StartupError::NotBuilt => ErrorCategory::ServerIo,
            StartupError::DependenciesNotReady => ErrorCategory::Dependency,
        }
    }

    /// The fixed part of the message, which names what failed.
    pub open spec fn headline(self) -> Seq<char> {
        match self {
            StartupError::CertificateGeneration { .. } => "Failed to generate a self-signed certificate"@,
            StartupError::DegenerateMaterial => "Generated certificate material is empty or not distinct"@,
            StartupError::MalformedCertificate => "Certificate is not valid PEM"@,
            StartupError::ServerKeyTooShort => "Server key is too short to derive a session key"@,
            StartupError::SessionKeyGeneration => "Failed to generate a session key"@,
            StartupError::DatabaseUnreachable { .. } => "Failed to connect to Postgres"@,
            StartupError::MigrationFailed { .. } => "Failed to run migrations"@,
            StartupError::IdentityProviderUnreachable { .. } => "Failed to connect to GoTrue"@,
            StartupError::SessionStoreUnreachable { .. } => "Failed to connect to Redis"@,
            StartupError::ActorStart { .. } => "Failed to start the collaboration actor"@,
            StartupError::Listen { .. } => "Failed to listen on the bound socket"@,
            StartupError::Server { .. } => "Server stopped with an I/O error"@,
            StartupError::NotBuilt => "Application is not built"@,
            StartupError::DependenciesNotReady => "Dependencies are not ready"@,
        }
    }

    /// The underlying cause, where the failure carries one.
    pub open spec fn cause_of(self) -> Option<Seq<char>> {
        match self {
            StartupError::CertificateGeneration { cause } => Some(cause@),
            StartupError::DatabaseUnreachable { cause, .. } => Some(cause@),
            StartupError::MigrationFailed { cause, .. } => Some(cause@),
            StartupError::IdentityProviderUnreachable { cause, .. } => Some(cause@),
            StartupError::SessionStoreUnreachable { cause } => Some(cause@),
            StartupError::ActorStart { cause } => Some(cause@),
            StartupError::Listen { cause } => Some(cause@),
            StartupError::Server { cause } => Some(cause@),
            _ => None,
        }
    }

    /// The dependency that was not ready, as the message shows it. The
    /// session store's address is a secret and shows as the marker.
    pub open spec fn target_of(self) -> Option<Seq<char>> {
        match self {
            StartupError::DatabaseUnreachable { target, .. } => Some(database_target_of(target)),
            StartupError::MigrationFailed { target, .. } => Some(database_target_of(target)),
            StartupError::IdentityProviderUnreachable { target, .. } => Some(target@),
            StartupError::SessionStoreUnreachable { .. } => Some(redacted()),
            _ => None,
        }
    }

    /// The whole message: the headline, then `" at "` and the target if
    /// there is one, then `": "` and the cause if there is one.
    pub open spec fn message_text(self) -> Seq<char> {
        self.headline() + (match self.target_of() {
            Some(target) => " at "@ + target,
            None => Seq::<char>::empty(),
        }) + (match self.cause_of() {
            Some(cause) => ": "@ + cause,
            None => Seq::<char>::empty(),
        })
    }

    /// The family this failure belongs to.
    pub fn category(&self) -> (r: ErrorCategory)
        ensures
            r == self.category_of(),
    {
        match self {
            StartupError::CertificateGeneration { .. } => ErrorCategory::Credential,
            StartupError::DegenerateMaterial => ErrorCategory::Credential,
            StartupError::MalformedCertificate => ErrorCategory::Credential,
            StartupError::ServerKeyTooShort => ErrorCategory::Credential,
            StartupError::SessionKeyGeneration => ErrorCategory::Credential,
            StartupError::DatabaseUnreachable { .. } => ErrorCategory::Dependency,
            StartupError::MigrationFailed { .. } => ErrorCategory::Dependency,
            StartupError::IdentityProviderUnreachable { .. } => ErrorCategory::Dependency,
            StartupError::SessionStoreUnreachable { .. } => ErrorCategory::Dependency,
            StartupError::ActorStart { .. } => ErrorCategory::Actor,
            StartupError::Listen { .. } => ErrorCategory::Bind,
            StartupError::Server { .. } => ErrorCategory::ServerIo,
            StartupError::NotBuilt => ErrorCategory::ServerIo,
            StartupError::DependenciesNotReady => ErrorCategory::Dependency,
        }
    }

    /// The message to show for this failure. It names what failed and the
    /// underlying cause; where the target is a secret it shows a fixed marker
    /// in its place.
    pub fn message(&self) -> (r: String)
        ensures
            r@ == self.message_text(),
    {
        match self {
            StartupError::CertificateGeneration { cause } => with_cause("Failed to generate a self-signed certificate", cause),
            StartupError::DegenerateMaterial => bare("Generated certificate material is empty or not distinct"),
            StartupError::MalformedCertificate => bare("Certificate is not valid PEM"),
            StartupError::ServerKeyTooShort => bare("Server key is too short to derive a session key"),
            StartupError::SessionKeyGeneration => bare("Failed to generate a session key"),
            StartupError::DatabaseUnreachable { target, cause } => with_target(
                "Failed to connect to Postgres",
                database_target(target).as_str(),
                cause,
            ),
            StartupError::MigrationFailed { target, cause } => with_target(
                "Failed to run migrations",
                database_target(target).as_str(),
                cause,
            ),
            StartupError::IdentityProviderUnreachable { target, cause } => with_target(
                "Failed to connect to GoTrue",
                target.as_str(),
                cause,
            ),
            StartupError::SessionStoreUnreachable { cause } => with_target(
                "Failed to connect to Redis",
                "[REDACTED]",
                cause,
            ),
            StartupError::ActorStart { cause } => with_cause("Failed to start the collaboration actor", cause),
            StartupError::Listen { cause } => with_cause("Failed to listen on the bound socket", cause),
            StartupError::Server { cause } => with_cause("Server stopped with an I/O error", cause),
            StartupError::NotBuilt => bare("Application is not built"),
            StartupError::DependenciesNotReady => bare("Dependencies are not ready"),
        }
    }
}

/// `headline`, then `": "`, then `cause`.
fn with_cause(headline: &str, cause: &String) -> (r: String)
    ensures
        r@ == headline@ + Seq::<char>::empty() + (": "@ + cause@),
{
    let r = String::from_str(headline).concat(": ").concat(cause.as_str());
    assert(r@ =~= headline@ + Seq::<char>::empty() + (": "@ + cause@));
    r
}

/// `headline`, then `" at "` and `target`, then `": "` and `cause`.
fn with_target(headline: &str, target: &str, cause: &String) -> (r: String)
    ensures
        r@ == headline@ + (" at "@ + target@) + (": "@ + cause@),
{
    let r = String::from_str(headline).concat(" at ").concat(target).concat(": ").concat(
        cause.as_str(),
    );
    assert(r@ =~= headline@ + (" at "@ + target@) + (": "@ + cause@));
    r
}

/// `headline` alone.
fn bare(headline: &str) -> (r: String)
    ensures
        r@ == headline@ + Seq::<char>::empty() + Seq::<char>::empty(),
{
    let r = String::from_str(headline);
    assert(r@ =~= headline@ + Seq::<char>::empty() + Seq::<char>::empty());
    r
}

} // verus!
