use cloud_startup::config::{ApplicationSetting, Config, DatabaseSetting, GoTrueSetting, TlsConfig};
use cloud_startup::error::{ErrorCategory, Outcome, StartupError};
use cloud_startup::state::{init_state, InitAction, InitStage, ACQUIRE_TIMEOUT_SECS, ID_GEN_NODE};
use cloud_startup::secret::Secret;

fn config() -> Config {
    Config {
        application: ApplicationSetting {
            host: "127.0.0.1".to_string(),
            port: 8000,
            tls_config: Some(TlsConfig::NoTls),
        },
        database: DatabaseSetting {
            host: "db.local".to_string(),
            port: 5432,
            database_name: "collab".to_string(),
        },
        gotrue: GoTrueSetting { base_url: "http://localhost:9998".to_string() },
        redis_uri: Secret::new("redis://127.0.0.1:6379".to_string()),
    }
}

fn failed(cause: &str) -> Outcome {
    Outcome::Failed { cause: cause.to_string() }
}

#[test]
fn init_begins_with_the_connection_pool() {
    let (state, action) = init_state(&config());
    assert_eq!(state.stage(), InitStage::ConnectingPool);
    assert!(!state.is_ready());
    assert_eq!(state.id_gen_node(), 1);
    assert_eq!(state.config().gotrue.base_url, "http://localhost:9998");
    match action {
        InitAction::ConnectPool { acquire_timeout_secs } => assert_eq!(acquire_timeout_secs, 5),
        _ => panic!("the pool is requested first"),
    }
    assert_eq!(ACQUIRE_TIMEOUT_SECS, 5);
    assert_eq!(ID_GEN_NODE, 1);
}

#[test]
fn init_runs_every_check_in_order() {
    let (state, _) = init_state(&config());
    let (state, action) = state.advance(Outcome::Succeeded);
    assert_eq!(state.stage(), InitStage::Migrating);
    assert!(matches!(action, InitAction::RunMigrations));
    let (state, action) = state.advance(Outcome::Succeeded);
    assert_eq!(state.stage(), InitStage::ProbingIdentity);
    match action {
        InitAction::ProbeIdentityProvider { base_url } => {
            assert_eq!(base_url, "http://localhost:9998")
        },
        _ => panic!("the identity provider is probed third"),
    }
    assert!(!state.is_ready());
    let (state, action) = state.advance(Outcome::Succeeded);
    assert_eq!(state.stage(), InitStage::Ready);
    assert!(state.is_ready());
    match action {
        InitAction::SeedIdGenerator { node_id } => assert_eq!(node_id, 1),
        _ => panic!("the generator is seeded last"),
    }
    let (state, action) = state.advance(Outcome::Succeeded);
    assert!(state.is_ready());
    assert!(matches!(action, InitAction::Halt));
    let (state, action) = state.advance(failed("late"));
    assert!(state.is_ready());
    assert!(matches!(action, InitAction::Halt));
}

#[test]
fn unreachable_database_ends_initialisation() {
    let (state, _) = init_state(&config());
    let (state, action) = state.advance(failed("pool timed out"));
    assert_eq!(state.stage(), InitStage::Failed);
    match action {
        InitAction::Abort(e) => {
            assert_eq!(
                e,
                StartupError::DatabaseUnreachable {
                    target: config().database.clone(),
                    cause: "pool timed out".to_string()
                }
            );
            assert_eq!(e.category(), ErrorCategory::Dependency);
            assert_eq!(
                e.message(),
                "Failed to connect to Postgres at db.local:5432/collab: pool timed out"
            );
        },
        _ => panic!("a failed pool aborts"),
    }
    let (state, action) = state.advance(Outcome::Succeeded);
    assert_eq!(state.stage(), InitStage::Failed);
    assert!(matches!(action, InitAction::Halt));
    let (state, action) = state.advance(Outcome::Succeeded);
    assert!(!state.is_ready());
    assert!(matches!(action, InitAction::Halt));
}

#[test]
fn failing_migration_ends_initialisation() {
    let (state, _) = init_state(&config());
    let (state, _) = state.advance(Outcome::Succeeded);
    let (state, action) = state.advance(failed("0003 did not apply"));
    assert_eq!(state.stage(), InitStage::Failed);
    match action {
        InitAction::Abort(e) => {
            assert_eq!(
                e,
                StartupError::MigrationFailed {
                    target: config().database.clone(),
                    cause: "0003 did not apply".to_string()
                }
            );
            assert_eq!(
                e.message(),
                "Failed to run migrations at db.local:5432/collab: 0003 did not apply"
            );
        },
        _ => panic!("a failed migration aborts"),
    }
    let (state, action) = state.advance(Outcome::Succeeded);
    assert!(!state.is_ready());
    assert!(matches!(action, InitAction::Halt));
}

#[test]
fn unreachable_identity_provider_ends_initialisation() {
    let (state, _) = init_state(&config());
    let (state, _) = state.advance(Outcome::Succeeded);
    let (state, _) = state.advance(Outcome::Succeeded);
    let (state, action) = state.advance(failed("connection refused"));
    assert_eq!(state.stage(), InitStage::Failed);
    match action {
        InitAction::Abort(e) => {
            assert_eq!(
                e,
                StartupError::IdentityProviderUnreachable {
                    target: "http://localhost:9998".to_string(),
                    cause: "connection refused".to_string()
                }
            );
            assert_eq!(e.category(), ErrorCategory::Dependency);
            assert_eq!(
                e.message(),
                "Failed to connect to GoTrue at http://localhost:9998: connection refused"
            );
        },
        _ => panic!("a silent identity provider aborts"),
    }
    let (state, action) = state.advance(Outcome::Succeeded);
    assert!(!state.is_ready());
    assert!(matches!(action, InitAction::Halt));
}

#[test]
fn config_clone_keeps_every_field() {
    let first = config();
    let copy = first.clone();
    assert_eq!(copy.application.host, "127.0.0.1");
    assert_eq!(copy.application.port, 8000);
    assert_eq!(copy.application.tls_config, Some(TlsConfig::NoTls));
    assert_eq!(copy.gotrue.base_url, "http://localhost:9998");
    assert_eq!(copy.database, first.database);
    assert_eq!(copy.database.database_name, "collab");
    assert_eq!(copy.redis_uri.expose_secret(), "redis://127.0.0.1:6379");
}

#[test]
fn state_clone_keeps_stage_and_configuration() {
    let (state, _) = init_state(&config());
    let (state, _) = state.advance(Outcome::Succeeded);
    let copy = state.clone();
    assert_eq!(copy.stage(), InitStage::Migrating);
    assert_eq!(copy.id_gen_node(), state.id_gen_node());
    assert_eq!(copy.config().gotrue.base_url, state.config().gotrue.base_url);
    assert_eq!(copy.config().database, state.config().database);
}
