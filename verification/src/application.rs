//! The application handle: composition of the server once the dependencies
//! are ready, and its life after that.
//!
//! As with dependency initialisation, the caller performs each requested
//! action and reports its outcome. Certificate generation, key derivation and
//! certificate parsing are plain computations and happen here, between two
//! requests.

use vstd::prelude::*;
use vstd::utf8::encode_utf8;
use crate::config::Config;
use crate::error::{Outcome, StartupError};
use crate::listener::{transport_for, Transport};
use crate::material::{get_certificate_and_server_key, CertificateMaterial, MaterialView};
use crate::middleware::{compose, WorkerApp};
use crate::secret::Secret;
use crate::session::{derived_key, SessionKey, KEY_LEN};
use crate::state::{AppState, InitStage};

verus! {

/// Where the application stands.
#[derive(Clone, Copy, Debug, PartialEq, Eq, Structural)]
pub enum Phase {
    /// The connection to the session store was requested.
    ConnectingSessionStore,
    /// TLS material and session key are made; the collaboration actor was
    /// requested.
    StartingActor,
    /// The actor runs; the server was asked to listen.
    Listening,
    /// The server is composed and attached to its listener.
    Built,
    /// Startup failed.
    Failed,
}

/// What the server is started with: its transport, and the session key that
/// every worker shares.
pub struct ServerPlan {
    pub transport: Transport,
    pub session_key: SessionKey,
}

impl ServerPlan {
    /// The middleware of one worker. The server calls this once for each
    /// worker it replicates; the key is the plan's, never a new one.
    pub fn worker_app(&self) -> (r: WorkerApp)
        ensures
            r.composed_with(self.session_key@),
    {
        compose(&self.session_key)
    }
}

/// What the caller is asked to do next.
pub enum Action {
    /// Connect to the session store at this address. The address is a
    /// secret: it is for dialling, not for printing.
    ConnectSessionStore { uri: Secret },
    /// Construct the one collaboration actor of this process on the storage
    /// handle and start it.
    StartActor,
    /// Create the server, whose workers each take `worker_app()` of the
    /// plan, and attach it to the bound listener over the plan's transport.
    Listen(ServerPlan),
    /// Hand the server task to the owner of the application.
    Serve,
    /// End the process with this failure.
    Abort(StartupError),
    /// Nothing: startup was over before this outcome came.
    Halt,
}

/// What was made after the session store answered and is kept until the
/// server listens.
pub struct Prepared {
    pub material: Option<MaterialView>,
    pub session_key: Seq<u8>,
}

enum Stage {
    ConnectingSessionStore,
    StartingActor { pair: Option<CertificateMaterial>, key: SessionKey },
    Listening,
    Built,
    Failed,
}

/// The application: the port it is bound to and how far its composition has
/// come.
pub struct Application {
    port: u16,
    config: Config,
    stage: Stage,
}

/// What an `Application` holds.
pub struct ApplicationView {
    pub port: u16,
    pub config: Config,
    pub phase: Phase,
    /// Material and key, while the actor is being started.
    pub prepared: Option<Prepared>,
}

impl View for Application {
    type V = ApplicationView;

    closed spec fn view(&self) -> ApplicationView {
        ApplicationView {
            port: self.port,
            config: self.config,
            phase: match self.stage {
                Stage::ConnectingSessionStore => Phase::ConnectingSessionStore,
                Stage::StartingActor { .. } => Phase::StartingActor,
                Stage::Listening => Phase::Listening,
                Stage::Built => Phase::Built,
                Stage::Failed => Phase::Failed,
            },
            prepared: match self.stage {
                Stage::StartingActor { pair, key } => Some(
                    Prepared {
                        material: match pair {
                            Some(material) => Some(material@),
                            None => None,
                        },
                        session_key: key@,
                    },
                ),
                _ => None,
            },
        }
    }
}

impl ApplicationView {
    /// A view is coherent when material and key are held exactly while the
    /// actor is being started.
    pub open spec fn coherent(self) -> bool {
        (self.phase == Phase::StartingActor) == (self.prepared is Some)
    }
}

/// What was prepared fits the configuration: material exactly where TLS was
/// asked for, and then two present and distinct texts and the key that the
/// private key gives; in any case a key of full length.
pub open spec fn prepared_for(config: Config, prepared: Prepared) -> bool {
    &&& prepared.session_key.len() == KEY_LEN
    &&& (prepared.material is Some) == config.wants_tls()
    &&& prepared.material matches Some(material) ==> {
        &&& material.distinct_and_present()
        &&& derived_key(encode_utf8(material.private_key)) == Ok::<Seq<u8>, StartupError>(
            prepared.session_key,
        )
    }
}

/// A failure that preparing material and key can end in, for a
/// configuration that asks for TLS or does not.
pub open spec fn preparing_failure(wants_tls: bool, e: StartupError) -> bool {
    if wants_tls {
        e is CertificateGeneration || e == StartupError::DegenerateMaterial || e
            == StartupError::ServerKeyTooShort
    } else {
        e == StartupError::SessionKeyGeneration
    }
}

/// The plan is the one that follows from what was prepared: the same key;
/// plaintext without material; with it, TLS with the pinned settings.
pub open spec fn plan_from(prepared: Prepared, plan: ServerPlan) -> bool {
    &&& plan.session_key@ == prepared.session_key
    &&& transport_for(Ok(plan.transport), prepared.material)
}

/// One step of composition: `before` received `outcome`, became `after` and
/// requested `action`.
///
/// Failures of the caller's actions and of the computations in between end
/// in `Failed` with the error that names them. Two steps leave something
/// open, because they run the certificate generator, the random source or
/// the certificate parser: for those the step says what holds of every
/// result.
pub open spec fn step(
    before: ApplicationView,
    outcome: Outcome,
    after: ApplicationView,
    action: Action,
) -> bool {
    &&& after.port == before.port
    &&& after.config == before.config
    &&& after.coherent()
    &&& match before.phase {
        Phase::ConnectingSessionStore => match outcome {
            Outcome::Failed { cause } => {
                &&& after.phase == Phase::Failed
                &&& action == Action::Abort(StartupError::SessionStoreUnreachable { cause })
            },
            Outcome::Succeeded => {
                ||| {
                    &&& after.phase == Phase::StartingActor
                    &&& action == Action::StartActor
                    &&& after.prepared matches Some(prepared)
                    &&& prepared_for(before.config, prepared)
                }
                ||| {
                    &&& after.phase == Phase::Failed
                    &&& action matches Action::Abort(e)
                    &&& preparing_failure(before.config.wants_tls(), e)
                }
            },
        },
        Phase::StartingActor => match outcome {
            Outcome::Failed { cause } => {
                &&& after.phase == Phase::Failed
                &&& action == Action::Abort(StartupError::ActorStart { cause })
            },
            Outcome::Succeeded => {
                &&& before.prepared matches Some(prepared)
                &&& {
                    ||| {
                        &&& after.phase == Phase::Listening
                        &&& action matches Action::Listen(plan)
                        &&& plan_from(prepared, plan)
                    }
                    ||| {
                        &&& prepared.material is Some
                        &&& after.phase == Phase::Failed
                        &&& action == Action::Abort(StartupError::MalformedCertificate)
                    }
                }
            },
        },
        Phase::Listening => match outcome {
            Outcome::Failed { cause } => {
                &&& after.phase == Phase::Failed
                &&& action == Action::Abort(StartupError::Listen { cause })
            },
            Outcome::Succeeded => {
                &&& after.phase == Phase::Built
                &&& action == Action::Serve
            },
        },
        Phase::Built => after.phase == Phase::Built && action == Action::Halt,
        Phase::Failed => after.phase == Phase::Failed && action == Action::Halt,
    }
}

/// The phase an application begins in, built on dependencies at `stage`.
pub open spec fn first_phase(stage: InitStage) -> Phase {
    if stage == InitStage::Ready {
        Phase::ConnectingSessionStore
    } else {
        Phase::Failed
    }
}

/// The first action of an application built on dependencies at `stage`.
pub open spec fn first_action(config: Config, stage: InitStage) -> Action {
    if stage == InitStage::Ready {
        Action::ConnectSessionStore { uri: config.redis_uri }
    } else {
        Action::Abort(StartupError::DependenciesNotReady)
    }
}

/// Takes the outcome of the action that was requested last and says what
/// comes next.
///
/// After the session store answers, the TLS material and the session key of
/// the process are made, once; then the collaboration actor is requested,
/// once; then the server is asked to listen, in plaintext without material
/// and over TLS with it. Any failure ends startup.
pub fn run(app: Application, outcome: Outcome) -> (r: (Application, Action))
    ensures
        step(app@, outcome, r.0@, r.1),
{
    let Application { port, config, stage } = app;
    match stage {
        Stage::ConnectingSessionStore => match outcome {
            Outcome::Failed { cause } => (
                Application { port, config, stage: Stage::Failed },
                Action::Abort(StartupError::SessionStoreUnreachable { cause }),
            ),
            Outcome::Succeeded => match get_certificate_and_server_key(&config) {
                Err(e) => (Application { port, config, stage: Stage::Failed }, Action::Abort(e)),
                Ok(pair) => match SessionKey::for_process(&pair) {
                    Err(e) => (
                        Application { port, config, stage: Stage::Failed },
                        Action::Abort(e),
                    ),
                    Ok(key) => (
                        Application { port, config, stage: Stage::StartingActor { pair, key } },
                        Action::StartActor,
                    ),
                },
            },
        },
        Stage::StartingActor { pair, key } => match outcome {
            Outcome::Failed { cause } => (
                Application { port, config, stage: Stage::Failed },
                Action::Abort(StartupError::ActorStart { cause }),
            ),
            Outcome::Succeeded => match Transport::for_material(&pair) {
                Err(e) => (Application { port, config, stage: Stage::Failed }, Action::Abort(e)),
                Ok(transport) => (
                    Application { port, config, stage: Stage::Listening },
                    Action::Listen(ServerPlan { transport, session_key: key }),
                ),
            },
        },
        Stage::Listening => match outcome {
            Outcome::Failed { cause } => (
                Application { port, config, stage: Stage::Failed },
                Action::Abort(StartupError::Listen { cause }),
            ),
            Outcome::Succeeded => (
                Application { port, config, stage: Stage::Built },
                Action::Serve,
            ),
        },
        Stage::Built => (Application { port, config, stage: Stage::Built }, Action::Halt),
        Stage::Failed => (Application { port, config, stage: Stage::Failed }, Action::Halt),
    }
}

impl Application {
    /// Begins the composition of the server on the port its listener was
    /// bound to.
    ///
    /// With dependencies that are ready, the application waits for the
    /// session store and the connection to it is requested. With any other
    /// state it has failed at once, with `DependenciesNotReady`: nothing is
    /// composed on a database that is not connected and migrated, or on an
    /// identity provider that did not answer.
    pub fn build(config: Config, state: AppState, port: u16) -> (r: (Application, Action))
        ensures
            r.0@.port == port,
            r.0@.config == config,
            r.0@.prepared is None,
            r.0@.coherent(),
            r.0@.phase == first_phase(state@.stage),
            r.1 == first_action(config, state@.stage),
    {
        if state.is_ready() {
            let uri = config.redis_uri.clone();
            (
                Application { port, config, stage: Stage::ConnectingSessionStore },
                Action::ConnectSessionStore { uri },
            )
        } else {
            (
                Application { port, config, stage: Stage::Failed },
                Action::Abort(StartupError::DependenciesNotReady),
            )
        }
    }

    /// Takes how the server task ended and hands its failure on.
    ///
    /// An application that is built ends as its server did: `Ok` where it
    /// stopped of itself, its I/O failure where it had one. One that is not
    /// built has no server to wait for, and says so.
    pub fn run_until_stopped(self, exit: Outcome) -> (r: Result<(), StartupError>)
        ensures
            r == (if self@.phase != Phase::Built {
                Err(StartupError::NotBuilt)
            } else {
                match exit {
                    Outcome::Succeeded => Ok(()),
                    Outcome::Failed { cause } => Err(StartupError::Server { cause }),
                }
            }),
    {
        match self.stage {
            Stage::Built => match exit {
                Outcome::Succeeded => Ok(()),
                Outcome::Failed { cause } => Err(StartupError::Server { cause }),
            },
            _ => Err(StartupError::NotBuilt),
        }
    }

    /// The port the listener was bound to: the configured one, or the one
    /// the system chose where the configuration asked for port 0.
    pub fn port(&self) -> (r: u16)
        ensures
            r == self@.port,
    {
        self.port
    }

    /// Where the application stands.
    pub fn phase(&self) -> (r: Phase)
        ensures
            r == self@.phase,
    {
        match self.stage {
            Stage::ConnectingSessionStore => Phase::ConnectingSessionStore,
            Stage::StartingActor { .. } => Phase::StartingActor,
            Stage::Listening => Phase::Listening,
            Stage::Built => Phase::Built,
            Stage::Failed => Phase::Failed,
        }
    }
}

} // verus!
