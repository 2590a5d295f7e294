//! Dependency initialisation: the checks that must succeed, in order, before
//! the service may listen.
//!
//! The caller performs each requested action and reports its outcome; the
//! state decides what comes next. Every failure is final: nothing is retried
//! and nothing further is requested.

use vstd::prelude::*;
use crate::config::Config;
use crate::error::{Outcome, StartupError};

verus! {

/// How long the pool waits for a connection, in seconds.
pub const ACQUIRE_TIMEOUT_SECS: u64 = 5;

/// The node identifier that the unique-ID generator is seeded with.
pub const ID_GEN_NODE: u64 = 1;

/// How far dependency initialisation has come.
#[derive(Clone, Copy, Debug, PartialEq, Eq, Structural)]
pub enum InitStage {
    /// The connection pool was requested.
    ConnectingPool,
    /// The pool stands; the schema migrations were requested.
    Migrating,
    /// The schema is current; the identity provider's liveness probe was
    /// requested.
    ProbingIdentity,
    /// Every check succeeded.
    Ready,
    /// A check failed.
    Failed,
}

/// What the caller is asked to do next.
pub enum InitAction {
    /// Establish the bounded connection pool, giving up after the timeout.
    ConnectPool { acquire_timeout_secs: u64 },
    /// Apply every pending schema migration through the pool.
    RunMigrations,
    /// Construct the identity-provider client for the base URL and probe it.
    ProbeIdentityProvider { base_url: String },
    /// Seed the unique-ID generator and put it behind its lock. The
    /// dependencies are ready.
    SeedIdGenerator { node_id: u64 },
    /// End the process with this failure.
    Abort(StartupError),
    /// Nothing: initialisation was over before this outcome came.
    Halt,
}

impl InitStage {
    /// The stage that follows when the action pending in `self` succeeded
    /// (`ok`) or failed.
    pub open spec fn next(self, ok: bool) -> InitStage {
        match self {
            InitStage::ConnectingPool => if ok {
                InitStage::Migrating
            } else {
                InitStage::Failed
            },
            InitStage::Migrating => if ok {
                InitStage::ProbingIdentity
            } else {
                InitStage::Failed
            },
            InitStage::ProbingIdentity => if ok {
                InitStage::Ready
            } else {
                InitStage::Failed
            },
            InitStage::Ready => InitStage::Ready,
            InitStage::Failed => InitStage::Failed,
        }
    }

    /// The stage reached from `self` after the outcomes `oks`, oldest first.
    pub open spec fn after(self, oks: Seq<bool>) -> InitStage
        decreases oks.len(),
    {
        if oks.len() == 0 {
            self
        } else {
            self.next(oks[0]).after(oks.drop_first())
        }
    }
}

/// The shared state of the application while its dependencies are brought
/// up, and after. It is made once per process, and every worker is handed a
/// copy.
pub struct AppState {
    config: Config,
    id_gen_node: u64,
    stage: InitStage,
}

/// What an `AppState` holds.
pub struct AppStateView {
    pub config: Config,
    pub id_gen_node: u64,
    pub stage: InitStage,
}

impl View for AppState {
    type V = AppStateView;

    closed spec fn view(&self) -> AppStateView {
        AppStateView { config: self.config, id_gen_node: self.id_gen_node, stage: self.stage }
    }
}

impl Clone for AppState {
    fn clone(&self) -> (r: AppState)
        ensures
            r@ == self@,
    {
        AppState { config: self.config.clone(), id_gen_node: self.id_gen_node, stage: self.stage }
    }
}

/// The action requested when `outcome` arrives in `state`.
pub open spec fn action_on(state: AppStateView, outcome: Outcome) -> InitAction {
    match (state.stage, outcome) {
        (InitStage::ConnectingPool, Outcome::Succeeded) => InitAction::RunMigrations,
        (InitStage::ConnectingPool, Outcome::Failed { cause }) => InitAction::Abort(
            StartupError::DatabaseUnreachable { target: state.config.database, cause },
        ),
        (InitStage::Migrating, Outcome::Succeeded) => InitAction::ProbeIdentityProvider {
            base_url: state.config.gotrue.base_url,
        },
        (InitStage::Migrating, Outcome::Failed { cause }) => InitAction::Abort(
            StartupError::MigrationFailed { target: state.config.database, cause },
        ),
        (InitStage::ProbingIdentity, Outcome::Succeeded) => InitAction::SeedIdGenerator {
            node_id: state.id_gen_node,
        },
        (InitStage::ProbingIdentity, Outcome::Failed { cause }) => InitAction::Abort(
            StartupError::IdentityProviderUnreachable {
                target: state.config.gotrue.base_url,
                cause,
            },
        ),
        (InitStage::Ready, _) => InitAction::Halt,
        (InitStage::Failed, _) => InitAction::Halt,
    }
}

/// Begins dependency initialisation for `config`: the state waits for the
/// connection pool, and the pool is requested with its fixed timeout.
pub fn init_state(config: &Config) -> (r: (AppState, InitAction))
    ensures
        r.0@ == (AppStateView {
            config: *config,
            id_gen_node: ID_GEN_NODE,
            stage: InitStage::ConnectingPool,
        }),
        r.1 == (InitAction::ConnectPool { acquire_timeout_secs: ACQUIRE_TIMEOUT_SECS }),
{
    (
        AppState { config: config.clone(), id_gen_node: ID_GEN_NODE, stage: InitStage::ConnectingPool },
        InitAction::ConnectPool { acquire_timeout_secs: ACQUIRE_TIMEOUT_SECS },
    )
}

impl AppState {
    /// Takes the outcome of the action that was requested last and says what
    /// comes next.
    ///
    /// A success moves on to the next check, and the last one makes the state
    /// ready. A failure ends initialisation with the error that names the
    /// check. Once ready or failed, the state stays as it is and asks for
    /// nothing.
    pub fn advance(self, outcome: Outcome) -> (r: (AppState, InitAction))
        ensures
            r.0@ == (AppStateView { stage: self@.stage.next(outcome is Succeeded), ..self@ }),
            r.1 == action_on(self@, outcome),
    {
        let AppState { config, id_gen_node, stage } = self;
        match stage {
            InitStage::ConnectingPool => match outcome {
                Outcome::Succeeded => (
                    AppState { config, id_gen_node, stage: InitStage::Migrating },
                    InitAction::RunMigrations,
                ),
                Outcome::Failed { cause } => {
                    let target = config.database.clone();
                    (
                        AppState { config, id_gen_node, stage: InitStage::Failed },
                        InitAction::Abort(StartupError::DatabaseUnreachable { target, cause }),
                    )
                },
            },
            InitStage::Migrating => match outcome {
                Outcome::Succeeded => {
                    let base_url = config.gotrue.base_url.clone();
                    (
                        AppState { config, id_gen_node, stage: InitStage::ProbingIdentity },
                        InitAction::ProbeIdentityProvider { base_url },
                    )
                },
                Outcome::Failed { cause } => {
                    let target = config.database.clone();
                    (
                        AppState { config, id_gen_node, stage: InitStage::Failed },
                        InitAction::Abort(StartupError::MigrationFailed { target, cause }),
                    )
                },
            },
            InitStage::ProbingIdentity => match outcome {
                Outcome::Succeeded => (
                    AppState { config, id_gen_node, stage: InitStage::Ready },
                    InitAction::SeedIdGenerator { node_id: id_gen_node },
                ),
                Outcome::Failed { cause } => {
                    let target = config.gotrue.base_url.clone();
                    (
                        AppState { config, id_gen_node, stage: InitStage::Failed },
                        InitAction::Abort(
                            StartupError::IdentityProviderUnreachable { target, cause },
                        ),
                    )
                },
            },
            InitStage::Ready => (
                AppState { config, id_gen_node, stage: InitStage::Ready },
                InitAction::Halt,
            ),
            InitStage::Failed => (
                AppState { config, id_gen_node, stage: InitStage::Failed },
                InitAction::Halt,
            ),
        }
    }

    /// How far initialisation has come.
    pub fn stage(&self) -> (r: InitStage)
        ensures
            r == self@.stage,
    {
        self.stage
    }

    /// Whether every dependency check has succeeded.
    pub fn is_ready(&self) -> (r: bool)
        ensures
            r == (self@.stage == InitStage::Ready),
    {
        match self.stage {
            InitStage::Ready => true,
            _ => false,
        }
    }

    /// The configuration the state was begun with.
    pub fn config(&self) -> (r: &Config)
        ensures
            *r == self@.config,
    {
        &self.config
    }

    /// The node identifier of the unique-ID generator.
    pub fn id_gen_node(&self) -> (r: u64)
        ensures
            r == self@.id_gen_node,
    {
        self.id_gen_node
    }
}

} // verus!
