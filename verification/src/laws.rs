//! Laws of the orchestrator, stated and proved over whole runs.
//!
//! [`crate::orchestrator::run_from`] gives the final state and the full
//! ordered trace of calls a run issues; the proof functions here pin down
//! the run-level guarantees: a failed call ends the run with no further
//! call of any kind, an existing administrator account suppresses every
//! registration call, and the final stage branches between create and
//! update exactly on observed existence.

use vstd::prelude::*;
use crate::config::ConfigView;
use crate::orchestrator::{
    RunState, AbortReason, EventView, ActionView, UserSummaryView, AppSummaryView,
    spec_step, run_from, event_fits, is_failure_event, opt_action_seq,
};
use crate::requests::{desired_tenant_patch, desired_application_definition};

verus! {

/// A run from a terminal state issues no call and stays where it is.
pub proof fn lemma_terminal_run_is_empty(s: RunState, events: Seq<EventView>, c: ConfigView, tid: Seq<char>)
    requires
        s.is_terminal(),
    ensures
        run_from(s, events, c, tid) == (s, Seq::<ActionView>::empty()),
{
}

/// Law (fail-fast): if the call a stage awaits fails, the run aborts at
/// that stage and issues not a single further call, whatever outcomes
/// would have followed.
pub proof fn lemma_fail_fast(s: RunState, events: Seq<EventView>, c: ConfigView, tid: Seq<char>)
    requires
        !s.is_terminal(),
        events.len() > 0,
        event_fits(s, events[0]),
        is_failure_event(events[0]),
    ensures
        run_from(s, events, c, tid).1 == Seq::<ActionView>::empty(),
        run_from(s, events, c, tid).0 == (RunState::Aborted {
            stage: s.stage(),
            reason: AbortReason::RemoteCallFailed,
        }),
{
    let stepped = spec_step(s, events[0], c, tid);
    assert(stepped.0 == (RunState::Aborted { stage: s.stage(), reason: AbortReason::RemoteCallFailed })
        && stepped.1 is None);
    lemma_terminal_run_is_empty(stepped.0, events.drop_first(), c, tid);
    assert(run_from(s, events, c, tid).1 =~= Seq::<ActionView>::empty());
}

/// States from which the administrator stage is settled: the run has
/// passed the admin-user stage (or ended), and will never again consider
/// registering the administrator.
pub open spec fn admin_stage_settled(s: RunState) -> bool {
    ||| s is AwaitingTenantPatch
    ||| s is AwaitingApplicationLookup
    ||| s is AwaitingApplicationCreate
    ||| s is AwaitingApplicationUpdate
    ||| s is Completed
    ||| s is Aborted
}

/// Once the administrator stage is settled, no run from there ever issues
/// a registration call, and the stage stays settled.
pub proof fn lemma_no_registration_once_settled(s: RunState, events: Seq<EventView>, c: ConfigView, tid: Seq<char>)
    requires
        admin_stage_settled(s),
    ensures
        admin_stage_settled(run_from(s, events, c, tid).0),
        forall|k: int| 0 <= k < run_from(s, events, c, tid).1.len()
            ==> !(#[trigger] run_from(s, events, c, tid).1[k] is RegisterUser),
    decreases events.len(),
{
    if events.len() == 0 || s.is_terminal() || !event_fits(s, events[0]) {
    } else {
        let stepped = spec_step(s, events[0], c, tid);
        assert(admin_stage_settled(stepped.0));
        lemma_no_registration_once_settled(stepped.0, events.drop_first(), c, tid);
        let first = opt_action_seq(stepped.1);
        let rest = run_from(stepped.0, events.drop_first(), c, tid);
        assert(run_from(s, events, c, tid).1 == first + rest.1);
        assert forall|k: int| 0 <= k < run_from(s, events, c, tid).1.len()
            implies !(#[trigger] run_from(s, events, c, tid).1[k] is RegisterUser) by {
            if k < first.len() {
                assert(run_from(s, events, c, tid).1[k] == first[k]);
            } else {
                assert(run_from(s, events, c, tid).1[k] == rest.1[k - first.len()]);
            }
        }
    }
}

/// Law (idempotence of the administrator stage): if the user lookup finds
/// the administrator already there, the rest of the run issues zero
/// registration calls and moves straight on to the tenant stage — its next
/// call is the tenant patch.
pub proof fn lemma_admin_exists_skips_registration(user: UserSummaryView, events: Seq<EventView>, c: ConfigView, tid: Seq<char>)
    requires
        events.len() > 0,
        events[0] == (EventView::UserLookedUp { outcome: Ok(Some(user)) }),
    ensures
        forall|k: int| 0 <= k < run_from(RunState::AwaitingUserLookup, events, c, tid).1.len()
            ==> !(#[trigger] run_from(RunState::AwaitingUserLookup, events, c, tid).1[k] is RegisterUser),
        run_from(RunState::AwaitingUserLookup, events, c, tid).1.len() > 0,
        run_from(RunState::AwaitingUserLookup, events, c, tid).1[0] == (ActionView::PatchTenant {
            tenant_id: tid,
            patch: desired_tenant_patch(c),
        }),
{
    let s = RunState::AwaitingUserLookup;
    let stepped = spec_step(s, events[0], c, tid);
    assert(stepped.0 == RunState::AwaitingTenantPatch);
    lemma_no_registration_once_settled(stepped.0, events.drop_first(), c, tid);
    let first = opt_action_seq(stepped.1);
    let rest = run_from(stepped.0, events.drop_first(), c, tid);
    assert(run_from(s, events, c, tid).1 == first + rest.1);
    assert(first.len() == 1);
    assert forall|k: int| 0 <= k < run_from(s, events, c, tid).1.len()
        implies !(#[trigger] run_from(s, events, c, tid).1[k] is RegisterUser) by {
        if k < first.len() {
            assert(run_from(s, events, c, tid).1[k] == first[k]);
        } else {
            assert(run_from(s, events, c, tid).1[k] == rest.1[k - first.len()]);
        }
    }
    assert(run_from(s, events, c, tid).1[0] == first[0]);
}

/// Law (branch correctness of the application stage): on the observed
/// existence of the configured application the orchestrator branches
/// exactly — absent means one create call and no update, present means one
/// update call and no create, either way with the full desired definition.
pub proof fn lemma_application_branch(fetched: Option<AppSummaryView>, c: ConfigView, tid: Seq<char>)
    ensures
        fetched is None ==> spec_step(
            RunState::AwaitingApplicationLookup,
            EventView::ApplicationFetched { outcome: Ok(fetched) },
            c,
            tid,
        ) == (
            RunState::AwaitingApplicationCreate,
            Some(ActionView::CreateApplication {
                application_id: c.application.id,
                definition: desired_application_definition(c),
            }),
        ),
        fetched is Some ==> spec_step(
            RunState::AwaitingApplicationLookup,
            EventView::ApplicationFetched { outcome: Ok(fetched) },
            c,
            tid,
        ) == (
            RunState::AwaitingApplicationUpdate,
            Some(ActionView::UpdateApplication {
                application_id: c.application.id,
                definition: desired_application_definition(c),
            }),
        ),
{
}

} // verus!
