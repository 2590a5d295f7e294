use cloud_startup::address::database_target;
use cloud_startup::config::DatabaseSetting;
use cloud_startup::error::{ErrorCategory, Outcome, StartupError};

fn cause() -> String {
    "boom".to_string()
}

fn database() -> DatabaseSetting {
    DatabaseSetting { host: "10.0.0.7".to_string(), port: 5433, database_name: "docs".to_string() }
}

#[test]
fn outcome_knows_success() {
    assert!(Outcome::Succeeded.succeeded());
    assert!(!Outcome::Failed { cause: cause() }.succeeded());
}

#[test]
fn session_store_message_redacts_the_address() {
    let e = StartupError::SessionStoreUnreachable { cause: cause() };
    assert_eq!(e.message(), "Failed to connect to Redis at [REDACTED]: boom");
    assert_eq!(e.category(), ErrorCategory::Dependency);
}

#[test]
fn every_failure_has_its_family() {
    assert_eq!(
        StartupError::CertificateGeneration { cause: cause() }.category(),
        ErrorCategory::Credential
    );
    assert_eq!(StartupError::DegenerateMaterial.category(), ErrorCategory::Credential);
    assert_eq!(StartupError::MalformedCertificate.category(), ErrorCategory::Credential);
    assert_eq!(StartupError::ServerKeyTooShort.category(), ErrorCategory::Credential);
    assert_eq!(StartupError::SessionKeyGeneration.category(), ErrorCategory::Credential);
    assert_eq!(
        StartupError::DatabaseUnreachable { target: database(), cause: cause() }.category(),
        ErrorCategory::Dependency
    );
    assert_eq!(StartupError::MigrationFailed { target: database(), cause: cause() }.category(), ErrorCategory::Dependency);
    assert_eq!(
        StartupError::IdentityProviderUnreachable { target: "http://idp".to_string(), cause: cause() }.category(),
        ErrorCategory::Dependency
    );
    assert_eq!(StartupError::DependenciesNotReady.category(), ErrorCategory::Dependency);
    assert_eq!(StartupError::ActorStart { cause: cause() }.category(), ErrorCategory::Actor);
    assert_eq!(StartupError::Listen { cause: cause() }.category(), ErrorCategory::Bind);
    assert_eq!(StartupError::Server { cause: cause() }.category(), ErrorCategory::ServerIo);
    assert_eq!(StartupError::NotBuilt.category(), ErrorCategory::ServerIo);
}

#[test]
fn every_failure_has_its_message() {
    assert_eq!(
        StartupError::ActorStart { cause: cause() }.message(),
        "Failed to start the collaboration actor: boom"
    );
    assert_eq!(
        StartupError::Listen { cause: cause() }.message(),
        "Failed to listen on the bound socket: boom"
    );
    assert_eq!(
        StartupError::Server { cause: cause() }.message(),
        "Server stopped with an I/O error: boom"
    );
    assert_eq!(StartupError::NotBuilt.message(), "Application is not built");
    assert_eq!(StartupError::DependenciesNotReady.message(), "Dependencies are not ready");
}

#[test]
fn message_with_empty_cause_keeps_the_separator() {
    assert_eq!(
        StartupError::MigrationFailed { target: database(), cause: String::new() }.message(),
        "Failed to run migrations at 10.0.0.7:5433/docs: "
    );
}

#[test]
fn dependency_failures_name_their_target() {
    assert_eq!(
        StartupError::DatabaseUnreachable { target: database(), cause: cause() }.message(),
        "Failed to connect to Postgres at 10.0.0.7:5433/docs: boom"
    );
    assert_eq!(
        StartupError::IdentityProviderUnreachable {
            target: "http://idp:9999".to_string(),
            cause: cause()
        }
        .message(),
        "Failed to connect to GoTrue at http://idp:9999: boom"
    );
}

#[test]
fn database_target_is_host_port_and_name() {
    assert_eq!(database_target(&database()), "10.0.0.7:5433/docs");
    let bare = DatabaseSetting { host: "h".to_string(), port: 0, database_name: String::new() };
    assert_eq!(database_target(&bare), "h:0/");
}

#[test]
fn database_setting_clone_keeps_every_field() {
    assert_eq!(database().clone(), database());
}
