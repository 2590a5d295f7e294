//! What holds of every run of startup, whatever the outcomes reported.

use vstd::prelude::*;
use crate::application::{first_phase, step, Action, ApplicationView, Phase, ServerPlan};
use crate::listener::{refused_unparsed, TlsVersion, Transport};
use crate::error::Outcome;
use crate::middleware::WorkerApp;
use crate::state::InitStage;

verus! {

/// A run of composition: the application before and after each outcome, and
/// the action each outcome led to.
pub open spec fn composition(
    apps: Seq<ApplicationView>,
    outcomes: Seq<Outcome>,
    actions: Seq<Action>,
) -> bool {
    &&& apps.len() == outcomes.len() + 1
    &&& actions.len() == outcomes.len()
    &&& forall|i: int|
        0 <= i < outcomes.len() ==> step(apps[i], outcomes[i], #[trigger] apps[i + 1], actions[i])
}

/// The phase that a run begun at the session store is in after `i` outcomes,
/// unless it has failed.
pub open spec fn phase_on_schedule(i: int) -> Phase {
    if i <= 0 {
        Phase::ConnectingSessionStore
    } else if i == 1 {
        Phase::StartingActor
    } else if i == 2 {
        Phase::Listening
    } else {
        Phase::Built
    }
}

/// Once a dependency check has failed, no later outcome changes that.
pub proof fn lemma_failed_is_final(oks: Seq<bool>)
    ensures
        InitStage::Failed.after(oks) == InitStage::Failed,
    decreases oks.len(),
{
    if oks.len() > 0 {
        lemma_failed_is_final(oks.drop_first());
    }
}

/// Once the dependencies are ready, no later outcome changes that.
pub proof fn lemma_ready_is_final(oks: Seq<bool>)
    ensures
        InitStage::Ready.after(oks) == InitStage::Ready,
    decreases oks.len(),
{
    if oks.len() > 0 {
        lemma_ready_is_final(oks.drop_first());
    }
}

/// The dependencies are ready exactly when the pool connected, the
/// migrations applied and the identity provider answered, in that order.
pub proof fn lemma_ready_needs_every_check(oks: Seq<bool>)
    ensures
        InitStage::ConnectingPool.after(oks) == InitStage::Ready <==> oks.len() >= 3 && oks[0]
            && oks[1] && oks[2],
        InitStage::ConnectingPool.after(oks) == InitStage::Failed <==> (oks.len() >= 1 && !oks[0])
            || (oks.len() >= 2 && !oks[1]) || (oks.len() >= 3 && !oks[2]),
{
    if oks.len() >= 1 {
        let rest1 = oks.drop_first();
        assert(InitStage::ConnectingPool.after(oks) == InitStage::ConnectingPool.next(oks[0]).after(
            rest1,
        ));
        if !oks[0] {
            lemma_failed_is_final(rest1);
        } else if rest1.len() >= 1 {
            let rest2 = rest1.drop_first();
            assert(rest1[0] == oks[1]);
            assert(InitStage::Migrating.after(rest1) == InitStage::Migrating.next(rest1[0]).after(
                rest2,
            ));
            if !oks[1] {
                lemma_failed_is_final(rest2);
            } else if rest2.len() >= 1 {
                let rest3 = rest2.drop_first();
                assert(rest2[0] == oks[2]);
                assert(InitStage::ProbingIdentity.after(rest2)
                    == InitStage::ProbingIdentity.next(rest2[0]).after(rest3));
                if !oks[2] {
                    lemma_failed_is_final(rest3);
                } else {
                    lemma_ready_is_final(rest3);
                }
            } else {
                assert(InitStage::ProbingIdentity.after(rest2) == InitStage::ProbingIdentity);
            }
        } else {
            assert(InitStage::Migrating.after(rest1) == InitStage::Migrating);
        }
    }
}

/// An application that has failed requests nothing more: every later action
/// is `Halt`, and it stays failed.
pub proof fn lemma_failed_application_requests_nothing(
    apps: Seq<ApplicationView>,
    outcomes: Seq<Outcome>,
    actions: Seq<Action>,
    i: int,
)
    requires
        composition(apps, outcomes, actions),
        apps[0].phase == Phase::Failed,
        0 <= i < outcomes.len(),
    ensures
        actions[i] == Action::Halt,
        apps[i + 1].phase == Phase::Failed,
    decreases i,
{
    if i > 0 {
        lemma_failed_application_requests_nothing(apps, outcomes, actions, i - 1);
    }
    assert(step(apps[i], outcomes[i], apps[i + 1], actions[i]));
}

/// A run begun at the session store is, after `i` outcomes, either failed or
/// in the phase the schedule gives.
pub proof fn lemma_phases_follow_schedule(
    apps: Seq<ApplicationView>,
    outcomes: Seq<Outcome>,
    actions: Seq<Action>,
    i: int,
)
    requires
        composition(apps, outcomes, actions),
        apps[0].phase == Phase::ConnectingSessionStore,
        0 <= i <= outcomes.len(),
    ensures
        apps[i].phase == Phase::Failed || apps[i].phase == phase_on_schedule(i),
    decreases i,
{
    if i > 0 {
        lemma_phases_follow_schedule(apps, outcomes, actions, i - 1);
        assert(step(apps[i - 1], outcomes[i - 1], apps[i - 1 + 1], actions[i - 1]));
    }
}

/// In a run begun at the session store, the collaboration actor is requested
/// only as the first action, the server is asked to listen only as the
/// second and after the actor was requested, and it is handed over only as
/// the third. So each happens at most once in the life of a process, and in
/// that order.
pub proof fn lemma_one_actor_then_one_listener(
    apps: Seq<ApplicationView>,
    outcomes: Seq<Outcome>,
    actions: Seq<Action>,
    i: int,
)
    requires
        composition(apps, outcomes, actions),
        apps[0].phase == Phase::ConnectingSessionStore,
        0 <= i < outcomes.len(),
    ensures
        actions[i] == Action::StartActor ==> i == 0 && outcomes[0] is Succeeded,
        actions[i] is Listen ==> i == 1 && actions[0] == Action::StartActor
            && outcomes[1] is Succeeded,
        actions[i] == Action::Serve ==> i == 2 && actions[1] is Listen
            && outcomes[2] is Succeeded,
{
    lemma_phases_follow_schedule(apps, outcomes, actions, i);
    assert(step(apps[i], outcomes[i], apps[i + 1], actions[i]));
    if i >= 1 {
        lemma_phases_follow_schedule(apps, outcomes, actions, i - 1);
        assert(step(apps[i - 1], outcomes[i - 1], apps[i - 1 + 1], actions[i - 1]));
    }
}

/// Where the database cannot be reached, the dependencies never become
/// ready, and an application built on them starts neither the collaboration
/// actor nor the listener: whatever is reported to it, it requests nothing.
pub proof fn lemma_unreachable_database_starts_nothing(
    oks: Seq<bool>,
    apps: Seq<ApplicationView>,
    outcomes: Seq<Outcome>,
    actions: Seq<Action>,
    i: int,
)
    requires
        oks.len() >= 1,
        !oks[0],
        composition(apps, outcomes, actions),
        apps[0].phase == first_phase(InitStage::ConnectingPool.after(oks)),
        0 <= i < outcomes.len(),
    ensures
        InitStage::ConnectingPool.after(oks) == InitStage::Failed,
        actions[i] == Action::Halt,
{
    lemma_ready_needs_every_check(oks);
    lemma_failed_application_requests_nothing(apps, outcomes, actions, i);
}

/// Where the database is reached but a migration fails, the dependencies
/// never become ready, and an application built on them requests nothing:
/// no actor, no listener.
pub proof fn lemma_failing_migration_starts_nothing(
    oks: Seq<bool>,
    apps: Seq<ApplicationView>,
    outcomes: Seq<Outcome>,
    actions: Seq<Action>,
    i: int,
)
    requires
        oks.len() >= 2,
        oks[0],
        !oks[1],
        composition(apps, outcomes, actions),
        apps[0].phase == first_phase(InitStage::ConnectingPool.after(oks)),
        0 <= i < outcomes.len(),
    ensures
        InitStage::ConnectingPool.after(oks) == InitStage::Failed,
        actions[i] == Action::Halt,
{
    lemma_ready_needs_every_check(oks);
    lemma_failed_application_requests_nothing(apps, outcomes, actions, i);
}

/// Where database and migrations succeed but the identity provider does not
/// answer, the dependencies never become ready, and an application built on
/// them requests nothing: no actor, no listener.
pub proof fn lemma_unreachable_identity_provider_starts_nothing(
    oks: Seq<bool>,
    apps: Seq<ApplicationView>,
    outcomes: Seq<Outcome>,
    actions: Seq<Action>,
    i: int,
)
    requires
        oks.len() >= 3,
        oks[0],
        oks[1],
        !oks[2],
        composition(apps, outcomes, actions),
        apps[0].phase == first_phase(InitStage::ConnectingPool.after(oks)),
        0 <= i < outcomes.len(),
    ensures
        InitStage::ConnectingPool.after(oks) == InitStage::Failed,
        actions[i] == Action::Halt,
{
    lemma_ready_needs_every_check(oks);
    lemma_failed_application_requests_nothing(apps, outcomes, actions, i);
}

/// While the dependency checks are still under way, an application built on
/// them requests nothing either: the listener waits for all three.
pub proof fn lemma_listener_waits_for_dependencies(
    oks: Seq<bool>,
    apps: Seq<ApplicationView>,
    outcomes: Seq<Outcome>,
    actions: Seq<Action>,
    i: int,
)
    requires
        composition(apps, outcomes, actions),
        apps[0].phase == first_phase(InitStage::ConnectingPool.after(oks)),
        0 <= i < outcomes.len(),
        actions[i] != Action::Halt,
    ensures
        oks.len() >= 3,
        oks[0],
        oks[1],
        oks[2],
{
    lemma_ready_needs_every_check(oks);
    if InitStage::ConnectingPool.after(oks) != InitStage::Ready {
        lemma_failed_application_requests_nothing(apps, outcomes, actions, i);
    }
}

/// Without TLS, a run on ready dependencies in which a session key could be
/// made and every reported outcome is a success goes straight through: the
/// actor is requested, the server listens in plaintext, it is handed over,
/// and the application is built on the port it was bound to.
pub proof fn lemma_plaintext_run_is_built(
    apps: Seq<ApplicationView>,
    outcomes: Seq<Outcome>,
    actions: Seq<Action>,
)
    requires
        composition(apps, outcomes, actions),
        apps[0].phase == first_phase(InitStage::Ready),
        !apps[0].config.wants_tls(),
        outcomes.len() >= 3,
        outcomes[0] is Succeeded,
        outcomes[1] is Succeeded,
        outcomes[2] is Succeeded,
        apps[1].phase == Phase::StartingActor,
    ensures
        actions[0] == Action::StartActor,
        actions[1] matches Action::Listen(plan) && plan.transport == Transport::Plaintext,
        actions[2] == Action::Serve,
        apps[3].phase == Phase::Built,
        apps[3].port == apps[0].port,
{
    assert(step(apps[0], outcomes[0], apps[0int + 1], actions[0]));
    assert(step(apps[1], outcomes[1], apps[1int + 1], actions[1]));
    assert(step(apps[2], outcomes[2], apps[2int + 1], actions[2]));
}

/// With self-signed TLS, whenever the server is asked to listen it is over
/// TLS, never in plaintext: with the pinned settings, which admit no
/// handshake older than TLS 1.2, and for material that was made in this run
/// and whose certificate was not refused unparsed.
pub proof fn lemma_self_signed_run_listens_over_tls(
    apps: Seq<ApplicationView>,
    outcomes: Seq<Outcome>,
    actions: Seq<Action>,
    i: int,
)
    requires
        composition(apps, outcomes, actions),
        apps[0].phase == Phase::ConnectingSessionStore,
        apps[0].config.wants_tls(),
        0 <= i < outcomes.len(),
        actions[i] is Listen,
    ensures
        i == 1,
        apps[1].prepared matches Some(prepared) && prepared.material matches Some(material)
            && actions[1]->Listen_0.transport matches Transport::Tls(settings)
            && !refused_unparsed(material.certificate) && settings.pinned() && !settings.admits(TlsVersion::Ssl3) && !settings.admits(
            TlsVersion::Tls10,
        ) && !settings.admits(TlsVersion::Tls11) && settings.admits(TlsVersion::Tls12)
            && settings.admits(TlsVersion::Tls13),
{
    lemma_one_actor_then_one_listener(apps, outcomes, actions, i);
    assert(step(apps[0], outcomes[0], apps[0int + 1], actions[0]));
    assert(step(apps[1], outcomes[1], apps[1int + 1], actions[1]));
}

/// Any two workers composed from one plan carry the plan's session key, and
/// so the same bytes.
pub proof fn lemma_workers_share_session_key(plan: ServerPlan, one: WorkerApp, other: WorkerApp)
    requires
        one.composed_with(plan.session_key@),
        other.composed_with(plan.session_key@),
    ensures
        one.session_key@ == plan.session_key@,
        other.session_key@ == one.session_key@,
        one.session_key@.len() == 64,
{
    plan.session_key.lemma_len();
}

/// The key of the plan that the server listens with is the key that was made
/// when the actor was requested: it is made once in a run, before any worker
/// exists.
pub proof fn lemma_session_key_is_made_once(
    apps: Seq<ApplicationView>,
    outcomes: Seq<Outcome>,
    actions: Seq<Action>,
)
    requires
        composition(apps, outcomes, actions),
        apps[0].phase == Phase::ConnectingSessionStore,
        outcomes.len() >= 2,
        actions[1] is Listen,
    ensures
        apps[1].prepared is Some,
        actions[1]->Listen_0.session_key@ == apps[1].prepared->Some_0.session_key,
{
    lemma_one_actor_then_one_listener(apps, outcomes, actions, 1);
    assert(step(apps[0], outcomes[0], apps[0int + 1], actions[0]));
    assert(step(apps[1], outcomes[1], apps[1int + 1], actions[1]));
}

} // verus!
