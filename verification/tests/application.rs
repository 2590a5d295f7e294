use cloud_startup::application::{run, Action, Application, Phase};
use cloud_startup::config::{ApplicationSetting, Config, DatabaseSetting, GoTrueSetting, TlsConfig};
use cloud_startup::error::{ErrorCategory, Outcome, StartupError};
use cloud_startup::listener::{
    KeyFileFormat, ProtocolMethod, ServerProfile, TlsVersion, Transport,
};
use cloud_startup::middleware::Layer;
use cloud_startup::state::{init_state, AppState};
use cloud_startup::secret::Secret;

fn config(port: u16, tls_config: Option<TlsConfig>) -> Config {
    Config {
        application: ApplicationSetting { host: "127.0.0.1".to_string(), port, tls_config },
        database: DatabaseSetting {
            host: "db.local".to_string(),
            port: 5432,
            database_name: "collab".to_string(),
        },
        gotrue: GoTrueSetting { base_url: "http://localhost:9998".to_string() },
        redis_uri: Secret::new("redis://:secret@127.0.0.1:6379".to_string()),
    }
}

fn ready(config: &Config) -> AppState {
    let (state, _) = init_state(config);
    let (state, _) = state.advance(Outcome::Succeeded);
    let (state, _) = state.advance(Outcome::Succeeded);
    let (state, _) = state.advance(Outcome::Succeeded);
    assert!(state.is_ready());
    state
}

fn failed(cause: &str) -> Outcome {
    Outcome::Failed { cause: cause.to_string() }
}

#[test]
fn plaintext_service_is_built_and_serves() {
    let config = config(8000, Some(TlsConfig::NoTls));
    let state = ready(&config);
    let (app, action) = Application::build(config, state, 8000);
    assert_eq!(app.port(), 8000);
    assert_eq!(app.phase(), Phase::ConnectingSessionStore);
    match action {
        Action::ConnectSessionStore { uri } => {
            assert_eq!(uri.expose_secret(), "redis://:secret@127.0.0.1:6379")
        },
        _ => panic!("the session store is requested first"),
    }
    let (app, action) = run(app, Outcome::Succeeded);
    assert_eq!(app.phase(), Phase::StartingActor);
    assert!(matches!(action, Action::StartActor));
    let (app, action) = run(app, Outcome::Succeeded);
    assert_eq!(app.phase(), Phase::Listening);
    match action {
        Action::Listen(plan) => {
            assert!(matches!(plan.transport, Transport::Plaintext));
            let worker = plan.worker_app();
            assert_eq!(
                worker.layers,
                vec![Layer::Identity, Layer::Session, Layer::Cors, Layer::Tracing]
            );
            assert_eq!(worker.json_limit, 4096);
            assert_eq!(worker.session_key.master(), plan.session_key.master());
        },
        _ => panic!("the server is asked to listen"),
    }
    let (app, action) = run(app, Outcome::Succeeded);
    assert_eq!(app.phase(), Phase::Built);
    assert!(matches!(action, Action::Serve));
    assert_eq!(app.port(), 8000);
    assert_eq!(app.run_until_stopped(Outcome::Succeeded), Ok(()));
}

#[test]
fn port_zero_reports_the_port_the_system_chose() {
    let config = config(0, None);
    let state = ready(&config);
    let (app, _) = Application::build(config, state, 49152);
    assert_eq!(app.port(), 49152);
    let (app, _) = run(app, Outcome::Succeeded);
    let (app, _) = run(app, Outcome::Succeeded);
    let (app, _) = run(app, Outcome::Succeeded);
    assert_eq!(app.phase(), Phase::Built);
    assert_eq!(app.port(), 49152);
}

#[test]
fn self_signed_service_listens_over_tls() {
    let config = config(8443, Some(TlsConfig::SelfSigned));
    let state = ready(&config);
    let (app, _) = Application::build(config, state, 8443);
    let (app, action) = run(app, Outcome::Succeeded);
    assert!(matches!(action, Action::StartActor));
    let (app, action) = run(app, Outcome::Succeeded);
    assert_eq!(app.phase(), Phase::Listening);
    match action {
        Action::Listen(plan) => match plan.transport {
            Transport::Tls(settings) => {
                assert_eq!(settings.profile, ServerProfile::MozillaIntermediate);
                assert_eq!(settings.method, ProtocolMethod::Tls);
                assert_eq!(settings.private_key_format, KeyFileFormat::Pem);
                assert_eq!(settings.private_key_file, "./cert/key.pem");
                assert_eq!(settings.certificate_chain_file, "./cert/cert.pem");
                assert!(!settings.accepts(TlsVersion::Tls11));
                assert!(!settings.accepts(TlsVersion::Tls10));
                assert!(settings.accepts(TlsVersion::Tls12));
                assert!(settings.accepts(TlsVersion::Tls13));
            },
            Transport::Plaintext => panic!("a self-signed service never listens in plaintext"),
        },
        _ => panic!("the server is asked to listen"),
    }
    let (app, action) = run(app, Outcome::Succeeded);
    assert_eq!(app.phase(), Phase::Built);
    assert!(matches!(action, Action::Serve));
}

#[test]
fn workers_share_one_session_key() {
    let config = config(8000, Some(TlsConfig::NoTls));
    let state = ready(&config);
    let (app, _) = Application::build(config, state, 8000);
    let (app, _) = run(app, Outcome::Succeeded);
    let (_, action) = run(app, Outcome::Succeeded);
    let plan = match action {
        Action::Listen(plan) => plan,
        _ => panic!("the server is asked to listen"),
    };
    let workers: Vec<_> = (0..16).map(|_| plan.worker_app()).collect();
    for worker in &workers {
        assert_eq!(worker.session_key.master(), plan.session_key.master());
        assert_eq!(worker.session_key.master(), workers[0].session_key.master());
        assert_eq!(worker.cookie_name, "token");
    }
}

#[test]
fn session_key_differs_between_processes_without_tls() {
    let listen = |port: u16| {
        let config = config(port, None);
        let state = ready(&config);
        let (app, _) = Application::build(config, state, port);
        let (app, _) = run(app, Outcome::Succeeded);
        match run(app, Outcome::Succeeded).1 {
            Action::Listen(plan) => *plan.session_key.master(),
            _ => panic!("the server is asked to listen"),
        }
    };
    assert_ne!(listen(8000), listen(8001));
}

#[test]
fn unready_dependencies_build_nothing() {
    let config = config(8000, None);
    let (state, _) = init_state(&config);
    let (state, _) = state.advance(failed("pool timed out"));
    let (app, action) = Application::build(config, state, 8000);
    assert_eq!(app.phase(), Phase::Failed);
    match action {
        Action::Abort(e) => {
            assert_eq!(e, StartupError::DependenciesNotReady);
            assert_eq!(e.category(), ErrorCategory::Dependency);
        },
        _ => panic!("nothing is built on failed dependencies"),
    }
    let (app, action) = run(app, Outcome::Succeeded);
    assert!(matches!(action, Action::Halt));
    let (app, action) = run(app, Outcome::Succeeded);
    assert!(matches!(action, Action::Halt));
    assert_eq!(app.phase(), Phase::Failed);
}

#[test]
fn unfinished_dependencies_build_nothing() {
    let config = config(8000, None);
    let (state, _) = init_state(&config);
    let (state, _) = state.advance(Outcome::Succeeded);
    let (state, _) = state.advance(Outcome::Succeeded);
    let (app, action) = Application::build(config, state, 8000);
    assert_eq!(app.phase(), Phase::Failed);
    assert!(matches!(action, Action::Abort(StartupError::DependenciesNotReady)));
}

#[test]
fn unreachable_session_store_is_fatal() {
    let config = config(8000, None);
    let state = ready(&config);
    let (app, _) = Application::build(config, state, 8000);
    let (app, action) = run(app, failed("connection refused"));
    assert_eq!(app.phase(), Phase::Failed);
    match action {
        Action::Abort(e) => {
            assert_eq!(
                e,
                StartupError::SessionStoreUnreachable { cause: "connection refused".to_string() }
            );
            let message = e.message();
            assert_eq!(message, "Failed to connect to Redis at [REDACTED]: connection refused");
            assert!(!message.contains("secret"));
        },
        _ => panic!("a failed session store aborts"),
    }
    let (_, action) = run(app, Outcome::Succeeded);
    assert!(matches!(action, Action::Halt));
}

#[test]
fn failed_actor_start_is_fatal() {
    let config = config(8000, None);
    let state = ready(&config);
    let (app, _) = Application::build(config, state, 8000);
    let (app, _) = run(app, Outcome::Succeeded);
    let (app, action) = run(app, failed("mailbox closed"));
    assert_eq!(app.phase(), Phase::Failed);
    match action {
        Action::Abort(e) => {
            assert_eq!(e, StartupError::ActorStart { cause: "mailbox closed".to_string() });
            assert_eq!(e.category(), ErrorCategory::Actor);
        },
        _ => panic!("a failed actor aborts"),
    }
    let (_, action) = run(app, Outcome::Succeeded);
    assert!(matches!(action, Action::Halt));
}

#[test]
fn failed_listen_is_fatal() {
    let config = config(8000, None);
    let state = ready(&config);
    let (app, _) = Application::build(config, state, 8000);
    let (app, _) = run(app, Outcome::Succeeded);
    let (app, _) = run(app, Outcome::Succeeded);
    let (app, action) = run(app, failed("address in use"));
    assert_eq!(app.phase(), Phase::Failed);
    match action {
        Action::Abort(e) => {
            assert_eq!(e, StartupError::Listen { cause: "address in use".to_string() });
            assert_eq!(e.category(), ErrorCategory::Bind);
        },
        _ => panic!("a failed listen aborts"),
    }
    assert_eq!(app.run_until_stopped(Outcome::Succeeded), Err(StartupError::NotBuilt));
}

#[test]
fn built_application_requests_nothing_more() {
    let config = config(8000, None);
    let state = ready(&config);
    let (app, _) = Application::build(config, state, 8000);
    let (app, _) = run(app, Outcome::Succeeded);
    let (app, _) = run(app, Outcome::Succeeded);
    let (app, _) = run(app, Outcome::Succeeded);
    let (app, action) = run(app, Outcome::Succeeded);
    assert!(matches!(action, Action::Halt));
    let (app, action) = run(app, failed("late"));
    assert!(matches!(action, Action::Halt));
    assert_eq!(app.phase(), Phase::Built);
}

#[test]
fn server_failure_is_handed_on() {
    let config = config(8000, None);
    let state = ready(&config);
    let (app, _) = Application::build(config, state, 8000);
    let (app, _) = run(app, Outcome::Succeeded);
    let (app, _) = run(app, Outcome::Succeeded);
    let (app, _) = run(app, Outcome::Succeeded);
    assert_eq!(
        app.run_until_stopped(failed("broken pipe")),
        Err(StartupError::Server { cause: "broken pipe".to_string() })
    );
}

#[test]
fn application_that_is_not_built_cannot_run() {
    let config = config(8000, None);
    let state = ready(&config);
    let (app, _) = Application::build(config, state, 8000);
    assert_eq!(app.run_until_stopped(Outcome::Succeeded), Err(StartupError::NotBuilt));
}
