//! Reconciliation orchestrator: four ordered provisioning steps.
//!
//! The orchestrator is a state machine. Each non-terminal state awaits the
//! outcome of exactly one remote call; `step` consumes that outcome and
//! decides the next state and, possibly, the next call to issue. The remote
//! calls themselves are performed by the caller (they are I/O), which feeds
//! each outcome back in as an [`Event`]. The transition relation is stated
//! once, as the spec function [`spec_step`], and every executable function
//! here is verified against it.
//!
//! The four stages, in order: patch the singleton system configuration
//! (blind patch); ensure the administrator account exists (existence check,
//! then registration against the platform's built-in default application);
//! patch the externally identified tenant (blind patch); and create or
//! update the configured application, branching on observed existence.
//! Any failed call aborts the run at its stage; no later stage is reached.

use vstd::prelude::*;
use crate::config::{Config, ConfigView};
use crate::requests::{
    SystemConfigurationPatch, SystemConfigurationPatchView, TenantPatch, TenantPatchView,
    ApplicationDefinition, ApplicationDefinitionView, AdminRegistration, AdminRegistrationView,
    desired_system_patch, desired_tenant_patch, desired_application_definition,
    desired_admin_registration, build_system_patch, build_tenant_patch,
    build_application_definition, build_admin_registration,
};

verus! {

/// Display name of the platform's built-in default application, which must
/// already exist when the administrator account is registered.
pub const DEFAULT_APPLICATION_NAME: &'static str = "FusionAuth";

/// The reserved default application name, as a sequence of characters.
pub open spec fn default_application_name() -> Seq<char> {
    "FusionAuth"@
}

/// Opaque failure of a remote call. The orchestrator treats every remote
/// failure uniformly as terminal; the text is only carried for reporting.
pub struct ApiFailure {
    pub message: String,
}

impl View for ApiFailure {
    type V = Seq<char>;

    open spec fn view(&self) -> Seq<char> {
        self.message@
    }
}

/// A user as observed on the remote platform. The orchestrator only tests
/// existence, so only identifying fields are carried.
pub struct UserSummary {
    pub id: String,
    pub username: String,
}

/// Mathematical model of a `UserSummary`.
pub struct UserSummaryView {
    pub id: Seq<char>,
    pub username: Seq<char>,
}

impl View for UserSummary {
    type V = UserSummaryView;

    open spec fn view(&self) -> UserSummaryView {
        UserSummaryView { id: self.id@, username: self.username@ }
    }
}

impl DeepView for UserSummary {
    type V = UserSummaryView;

    open spec fn deep_view(&self) -> UserSummaryView {
        self@
    }
}

/// An application as observed on the remote platform.
pub struct AppSummary {
    pub id: String,
    pub name: String,
}

/// Mathematical model of an `AppSummary`.
pub struct AppSummaryView {
    pub id: Seq<char>,
    pub name: Seq<char>,
}

impl View for AppSummary {
    type V = AppSummaryView;

    open spec fn view(&self) -> AppSummaryView {
        AppSummaryView { id: self.id@, name: self.name@ }
    }
}

impl DeepView for AppSummary {
    type V = AppSummaryView;

    open spec fn deep_view(&self) -> AppSummaryView {
        self@
    }
}

/// The four ordered provisioning stages.
#[derive(Clone, Copy, Debug, PartialEq, Eq, Structural)]
pub enum Stage {
    InitSystem,
    InitAdminUser,
    InitTenant,
    InitApplication,
}

/// Why a run aborted at some stage.
#[derive(Clone, Copy, Debug, PartialEq, Eq, Structural)]
pub enum AbortReason {
    /// The remote call of that stage failed.
    RemoteCallFailed,
    /// No failed call, but the platform's built-in default application was
    /// absent, so the administrator account could not be registered.
    DefaultApplicationMissing,
}

/// State of a reconciliation run. Each `Awaiting*` state names the remote
/// call whose outcome the orchestrator is waiting for; `Completed` and
/// `Aborted` are terminal.
#[derive(Clone, Copy, Debug, PartialEq, Eq, Structural)]
pub enum RunState {
    AwaitingSystemPatch,
    AwaitingUserLookup,
    AwaitingApplicationList,
    AwaitingRegistration,
    AwaitingTenantPatch,
    AwaitingApplicationLookup,
    AwaitingApplicationCreate,
    AwaitingApplicationUpdate,
    Completed,
    Aborted { stage: Stage, reason: AbortReason },
}

/// A remote call the orchestrator asks its caller to perform.
pub enum Action {
    PatchSystemConfiguration { patch: SystemConfigurationPatch },
    FindUserByUsername { username: String },
    ListApplications,
    RegisterUser { registration: AdminRegistration },
    PatchTenant { tenant_id: String, patch: TenantPatch },
    GetApplication { application_id: String },
    CreateApplication { application_id: String, definition: ApplicationDefinition },
    UpdateApplication { application_id: String, definition: ApplicationDefinition },
}

/// Mathematical model of an `Action`.
pub enum ActionView {
    PatchSystemConfiguration { patch: SystemConfigurationPatchView },
    FindUserByUsername { username: Seq<char> },
    ListApplications,
    RegisterUser { registration: AdminRegistrationView },
    PatchTenant { tenant_id: Seq<char>, patch: TenantPatchView },
    GetApplication { application_id: Seq<char> },
    CreateApplication { application_id: Seq<char>, definition: ApplicationDefinitionView },
    UpdateApplication { application_id: Seq<char>, definition: ApplicationDefinitionView },
}

impl View for Action {
    type V = ActionView;

    open spec fn view(&self) -> ActionView {
        match self {
            Action::PatchSystemConfiguration { patch } =>
                ActionView::PatchSystemConfiguration { patch: patch@ },
            Action::FindUserByUsername { username } =>
                ActionView::FindUserByUsername { username: username@ },
            Action::ListApplications => ActionView::ListApplications,
            Action::RegisterUser { registration } =>
                ActionView::RegisterUser { registration: registration@ },
            Action::PatchTenant { tenant_id, patch } =>
                ActionView::PatchTenant { tenant_id: tenant_id@, patch: patch@ },
            Action::GetApplication { application_id } =>
                ActionView::GetApplication { application_id: application_id@ },
            Action::CreateApplication { application_id, definition } =>
                ActionView::CreateApplication { application_id: application_id@, definition: definition@ },
            Action::UpdateApplication { application_id, definition } =>
                ActionView::UpdateApplication { application_id: application_id@, definition: definition@ },
        }
    }
}

impl DeepView for Action {
    type V = ActionView;

    open spec fn deep_view(&self) -> ActionView {
        self@
    }
}

/// Outcome of a remote call, fed back to the orchestrator by its caller.
#[allow(inconsistent_fields)]
pub enum Event {
    SystemPatched { outcome: Result<(), ApiFailure> },
    UserLookedUp { outcome: Result<Option<UserSummary>, ApiFailure> },
    ApplicationsListed { outcome: Result<Vec<AppSummary>, ApiFailure> },
    UserRegistered { outcome: Result<(), ApiFailure> },
    TenantPatched { outcome: Result<(), ApiFailure> },
    ApplicationFetched { outcome: Result<Option<AppSummary>, ApiFailure> },
    ApplicationCreated { outcome: Result<(), ApiFailure> },
    ApplicationUpdated { outcome: Result<(), ApiFailure> },
}

/// Mathematical model of an `Event`.
#[allow(inconsistent_fields)]
pub enum EventView {
    SystemPatched { outcome: Result<(), Seq<char>> },
    UserLookedUp { outcome: Result<Option<UserSummaryView>, Seq<char>> },
    ApplicationsListed { outcome: Result<Seq<AppSummaryView>, Seq<char>> },
    UserRegistered { outcome: Result<(), Seq<char>> },
    TenantPatched { outcome: Result<(), Seq<char>> },
    ApplicationFetched { outcome: Result<Option<AppSummaryView>, Seq<char>> },
    ApplicationCreated { outcome: Result<(), Seq<char>> },
    ApplicationUpdated { outcome: Result<(), Seq<char>> },
}

/// Model of a unit-result outcome.
pub open spec fn unit_outcome_view(r: Result<(), ApiFailure>) -> Result<(), Seq<char>> {
    match r {
        Ok(u) => Ok(u),
        Err(f) => Err(f@),
    }
}

impl View for Event {
    type V = EventView;

    open spec fn view(&self) -> EventView {
        match self {
            Event::SystemPatched { outcome } =>
                EventView::SystemPatched { outcome: unit_outcome_view(*outcome) },
            Event::UserLookedUp { outcome } => EventView::UserLookedUp {
                outcome: match outcome {
                    Ok(Some(u)) => Ok(Some(u@)),
                    Ok(None) => Ok(None),
                    Err(f) => Err(f@),
                },
            },
            Event::ApplicationsListed { outcome } => EventView::ApplicationsListed {
                outcome: match outcome {
                    Ok(apps) => Ok(apps.deep_view()),
                    Err(f) => Err(f@),
                },
            },
            Event::UserRegistered { outcome } =>
                EventView::UserRegistered { outcome: unit_outcome_view(*outcome) },
            Event::TenantPatched { outcome } =>
                EventView::TenantPatched { outcome: unit_outcome_view(*outcome) },
            Event::ApplicationFetched { outcome } => EventView::ApplicationFetched {
                outcome: match outcome {
                    Ok(Some(a)) => Ok(Some(a@)),
                    Ok(None) => Ok(None),
                    Err(f) => Err(f@),
                },
            },
            Event::ApplicationCreated { outcome } =>
                EventView::ApplicationCreated { outcome: unit_outcome_view(*outcome) },
            Event::ApplicationUpdated { outcome } =>
                EventView::ApplicationUpdated { outcome: unit_outcome_view(*outcome) },
        }
    }
}

impl DeepView for Event {
    type V = EventView;

    open spec fn deep_view(&self) -> EventView {
        self@
    }
}

/// Missing startup precondition: the run may not begin.
#[derive(Clone, Copy, Debug, PartialEq, Eq, Structural)]
pub enum PreconditionError {
    /// The externally supplied tenant identifier is absent.
    MissingTenantId,
}

impl RunState {
    /// A terminal state: the run is over, no further call is issued.
    pub open spec fn is_terminal(self) -> bool {
        self is Completed || self is Aborted
    }

    /// The stage a non-terminal state belongs to.
    pub open spec fn stage(self) -> Stage
        recommends
            !self.is_terminal(),
    {
        match self {
            RunState::AwaitingSystemPatch => Stage::InitSystem,
            RunState::AwaitingUserLookup => Stage::InitAdminUser,
            RunState::AwaitingApplicationList => Stage::InitAdminUser,
            RunState::AwaitingRegistration => Stage::InitAdminUser,
            RunState::AwaitingTenantPatch => Stage::InitTenant,
            RunState::AwaitingApplicationLookup => Stage::InitApplication,
            RunState::AwaitingApplicationCreate => Stage::InitApplication,
            RunState::AwaitingApplicationUpdate => Stage::InitApplication,
            RunState::Completed => Stage::InitApplication,
            RunState::Aborted { stage, .. } => stage,
        }
    }

    /// Decides whether this state is terminal.
    pub fn is_terminal_state(&self) -> (b: bool)
        ensures
            b == self.is_terminal(),
    {
        match self {
            RunState::Completed => true,
            RunState::Aborted { .. } => true,
            _ => false,
        }
    }
}

/// The event kind each awaiting state expects: the outcome of exactly the
/// call that was issued on entering that state.
pub open spec fn event_fits(s: RunState, e: EventView) -> bool {
    match s {
        RunState::AwaitingSystemPatch => e is SystemPatched,
        RunState::AwaitingUserLookup => e is UserLookedUp,
        RunState::AwaitingApplicationList => e is ApplicationsListed,
        RunState::AwaitingRegistration => e is UserRegistered,
        RunState::AwaitingTenantPatch => e is TenantPatched,
        RunState::AwaitingApplicationLookup => e is ApplicationFetched,
        RunState::AwaitingApplicationCreate => e is ApplicationCreated,
        RunState::AwaitingApplicationUpdate => e is ApplicationUpdated,
        RunState::Completed => false,
        RunState::Aborted { .. } => false,
    }
}

/// An event that reports a failed remote call.
pub open spec fn is_failure_event(e: EventView) -> bool {
    match e {
        EventView::SystemPatched { outcome } => outcome is Err,
        EventView::UserLookedUp { outcome } => outcome is Err,
        EventView::ApplicationsListed { outcome } => outcome is Err,
        EventView::UserRegistered { outcome } => outcome is Err,
        EventView::TenantPatched { outcome } => outcome is Err,
        EventView::ApplicationFetched { outcome } => outcome is Err,
        EventView::ApplicationCreated { outcome } => outcome is Err,
        EventView::ApplicationUpdated { outcome } => outcome is Err,
    }
}

/// First application in the list whose display name is the reserved default
/// application name.
pub open spec fn find_default_app(apps: Seq<AppSummaryView>) -> Option<AppSummaryView>
    decreases apps.len(),
{
    if apps.len() == 0 {
        None
    } else if apps[0].name == default_application_name() {
        Some(apps[0])
    } else {
        find_default_app(apps.drop_first())
    }
}

/// The transition relation of the orchestrator: given the current state,
/// the outcome of the awaited call, the configuration and the tenant
/// identifier, the next state and the next call to issue, if any.
///
/// A failed call always moves to `Aborted` at the current stage with no
/// further call. A terminal state, or an event of a kind the state does not
/// await, changes nothing and issues nothing.
pub open spec fn spec_step(s: RunState, e: EventView, c: ConfigView, tid: Seq<char>) -> (RunState, Option<ActionView>) {
    match (s, e) {
        (RunState::AwaitingSystemPatch, EventView::SystemPatched { outcome }) => match outcome {
            Ok(_) => (
                RunState::AwaitingUserLookup,
                Some(ActionView::FindUserByUsername { username: c.admin.username }),
            ),
            Err(_) => (
                RunState::Aborted { stage: Stage::InitSystem, reason: AbortReason::RemoteCallFailed },
                None,
            ),
        },
        (RunState::AwaitingUserLookup, EventView::UserLookedUp { outcome }) => match outcome {
            Ok(Some(_)) => (
                RunState::AwaitingTenantPatch,
                Some(ActionView::PatchTenant { tenant_id: tid, patch: desired_tenant_patch(c) }),
            ),
            Ok(None) => (RunState::AwaitingApplicationList, Some(ActionView::ListApplications)),
            Err(_) => (
                RunState::Aborted { stage: Stage::InitAdminUser, reason: AbortReason::RemoteCallFailed },
                None,
            ),
        },
        (RunState::AwaitingApplicationList, EventView::ApplicationsListed { outcome }) => match outcome {
            Ok(apps) => match find_default_app(apps) {
                Some(app) => (
                    RunState::AwaitingRegistration,
                    Some(ActionView::RegisterUser {
                        registration: desired_admin_registration(c, app.id),
                    }),
                ),
                None => (
                    RunState::Aborted {
                        stage: Stage::InitAdminUser,
                        reason: AbortReason::DefaultApplicationMissing,
                    },
                    None,
                ),
            },
            Err(_) => (
                RunState::Aborted { stage: Stage::InitAdminUser, reason: AbortReason::RemoteCallFailed },
                None,
            ),
        },
        (RunState::AwaitingRegistration, EventView::UserRegistered { outcome }) => match outcome {
            Ok(_) => (
                RunState::AwaitingTenantPatch,
                Some(ActionView::PatchTenant { tenant_id: tid, patch: desired_tenant_patch(c) }),
            ),
            Err(_) => (
                RunState::Aborted { stage: Stage::InitAdminUser, reason: AbortReason::RemoteCallFailed },
                None,
            ),
        },
        (RunState::AwaitingTenantPatch, EventView::TenantPatched { outcome }) => match outcome {
            Ok(_) => (
                RunState::AwaitingApplicationLookup,
                Some(ActionView::GetApplication { application_id: c.application.id }),
            ),
            Err(_) => (
                RunState::Aborted { stage: Stage::InitTenant, reason: AbortReason::RemoteCallFailed },
                None,
            ),
        },
        (RunState::AwaitingApplicationLookup, EventView::ApplicationFetched { outcome }) => match outcome {
            Ok(Some(_)) => (
                RunState::AwaitingApplicationUpdate,
                Some(ActionView::UpdateApplication {
                    application_id: c.application.id,
                    definition: desired_application_definition(c),
                }),
            ),
            Ok(None) => (
                RunState::AwaitingApplicationCreate,
                Some(ActionView::CreateApplication {
                    application_id: c.application.id,
                    definition: desired_application_definition(c),
                }),
            ),
            Err(_) => (
                RunState::Aborted { stage: Stage::InitApplication, reason: AbortReason::RemoteCallFailed },
                None,
            ),
        },
        (RunState::AwaitingApplicationCreate, EventView::ApplicationCreated { outcome }) => match outcome {
            Ok(_) => (RunState::Completed, None),
            Err(_) => (
                RunState::Aborted { stage: Stage::InitApplication, reason: AbortReason::RemoteCallFailed },
                None,
            ),
        },
        (RunState::AwaitingApplicationUpdate, EventView::ApplicationUpdated { outcome }) => match outcome {
            Ok(_) => (RunState::Completed, None),
            Err(_) => (
                RunState::Aborted { stage: Stage::InitApplication, reason: AbortReason::RemoteCallFailed },
                None,
            ),
        },
        _ => (s, None),
    }
}

/// Model of an optional action.
pub open spec fn opt_action_view(a: Option<Action>) -> Option<ActionView> {
    match a {
        Some(x) => Some(x@),
        None => None,
    }
}

/// If no application among the first `i` carries the default name, the
/// first match in the whole list is the first match past `i`.
proof fn lemma_find_default_app_skip(apps: Seq<AppSummaryView>, i: int)
    requires
        0 <= i <= apps.len(),
        forall|j: int| 0 <= j < i ==> apps[j].name != default_application_name(),
    ensures
        find_default_app(apps) == find_default_app(apps.skip(i)),
    decreases i,
{
    if i == 0 {
        assert(apps.skip(0) =~= apps);
    } else {
        lemma_find_default_app_skip(apps, i - 1);
        assert(apps.skip(i - 1).len() > 0);
        assert(apps.skip(i - 1)[0] == apps[i - 1]);
        assert(apps.skip(i - 1).drop_first() =~= apps.skip(i));
    }
}

/// Finds the platform's built-in default application: the first entry whose
/// display name is the reserved default application name.
pub fn find_default_application(apps: &Vec<AppSummary>) -> (r: Option<usize>)
    ensures
        match r {
            Some(i) => i < apps@.len() && find_default_app(apps.deep_view()) == Some(apps.deep_view()[i as int]),
            None => find_default_app(apps.deep_view()) is None,
        },
{
    let needle: String = DEFAULT_APPLICATION_NAME.to_owned();
    let mut i: usize = 0;
    while i < apps.len()
        invariant
            i <= apps@.len(),
            needle@ == default_application_name(),
            forall|j: int| 0 <= j < i ==> apps.deep_view()[j].name != default_application_name(),
        decreases apps@.len() - i,
    {
        if apps[i].name == needle {
            proof {
                lemma_find_default_app_skip(apps.deep_view(), i as int);
                assert(apps.deep_view().skip(i as int)[0] == apps.deep_view()[i as int]);
            }
            return Some(i);
        }
        i = i + 1;
    }
    proof {
        lemma_find_default_app_skip(apps.deep_view(), apps.deep_view().len() as int);
    }
    None
}

/// Decides whether this event is of the kind the state awaits.
pub fn event_fits_state(s: RunState, e: &Event) -> (b: bool)
    ensures
        b == event_fits(s, e@),
{
    match (s, e) {
        (RunState::AwaitingSystemPatch, Event::SystemPatched { .. }) => true,
        (RunState::AwaitingUserLookup, Event::UserLookedUp { .. }) => true,
        (RunState::AwaitingApplicationList, Event::ApplicationsListed { .. }) => true,
        (RunState::AwaitingRegistration, Event::UserRegistered { .. }) => true,
        (RunState::AwaitingTenantPatch, Event::TenantPatched { .. }) => true,
        (RunState::AwaitingApplicationLookup, Event::ApplicationFetched { .. }) => true,
        (RunState::AwaitingApplicationCreate, Event::ApplicationCreated { .. }) => true,
        (RunState::AwaitingApplicationUpdate, Event::ApplicationUpdated { .. }) => true,
        _ => false,
    }
}

/// Begins a run: checks the startup precondition and issues the first call.
///
/// Without a tenant identifier no run begins and no call is constructed;
/// with one, the run starts by blindly patching the system configuration.
pub fn begin_run(config: &Config, tenant_id: Option<String>) -> (r: Result<(String, RunState, Action), PreconditionError>)
    ensures
        tenant_id matches Some(t) ==> (r matches Ok(started) && started.0 == t
            && started.1 == RunState::AwaitingSystemPatch
            && started.2@ == (ActionView::PatchSystemConfiguration {
                patch: desired_system_patch(config@),
            })),
        tenant_id is None ==> (r matches Err(e) && e == PreconditionError::MissingTenantId),
{
    match tenant_id {
        None => Err(PreconditionError::MissingTenantId),
        Some(t) => {
            let patch = build_system_patch(config);
            Ok((t, RunState::AwaitingSystemPatch, Action::PatchSystemConfiguration { patch }))
        },
    }
}

/// Performs one transition of the orchestrator.
///
/// Consumes the outcome of the awaited remote call and returns the next
/// state together with the next call to issue, if any; exactly as
/// [`spec_step`] states, for every input.
pub fn step(state: RunState, event: &Event, config: &Config, tenant_id: &String) -> (r: (RunState, Option<Action>))
    ensures
        r.0 == spec_step(state, event@, config@, tenant_id@).0,
        opt_action_view(r.1) == spec_step(state, event@, config@, tenant_id@).1,
{
    match (state, event) {
        (RunState::AwaitingSystemPatch, Event::SystemPatched { outcome }) => match outcome {
            Ok(_) => (
                RunState::AwaitingUserLookup,
                Some(Action::FindUserByUsername { username: config.admin.username.clone() }),
            ),
            Err(_) => (
                RunState::Aborted { stage: Stage::InitSystem, reason: AbortReason::RemoteCallFailed },
                None,
            ),
        },
        (RunState::AwaitingUserLookup, Event::UserLookedUp { outcome }) => match outcome {
            Ok(Some(_)) => (
                RunState::AwaitingTenantPatch,
                Some(Action::PatchTenant {
                    tenant_id: tenant_id.clone(),
                    patch: build_tenant_patch(config),
                }),
            ),
            Ok(None) => (RunState::AwaitingApplicationList, Some(Action::ListApplications)),
            Err(_) => (
                RunState::Aborted { stage: Stage::InitAdminUser, reason: AbortReason::RemoteCallFailed },
                None,
            ),
        },
        (RunState::AwaitingApplicationList, Event::ApplicationsListed { outcome }) => match outcome {
            Ok(apps) => match find_default_application(apps) {
                Some(i) => {
                    let registration = build_admin_registration(config, apps[i].id.clone());
                    (RunState::AwaitingRegistration, Some(Action::RegisterUser { registration }))
                },
                None => (
                    RunState::Aborted {
                        stage: Stage::InitAdminUser,
                        reason: AbortReason::DefaultApplicationMissing,
                    },
                    None,
                ),
            },
            Err(_) => (
                RunState::Aborted { stage: Stage::InitAdminUser, reason: AbortReason::RemoteCallFailed },
                None,
            ),
        },
        (RunState::AwaitingRegistration, Event::UserRegistered { outcome }) => match outcome {
            Ok(_) => (
                RunState::AwaitingTenantPatch,
                Some(Action::PatchTenant {
                    tenant_id: tenant_id.clone(),
                    patch: build_tenant_patch(config),
                }),
            ),
            Err(_) => (
                RunState::Aborted { stage: Stage::InitAdminUser, reason: AbortReason::RemoteCallFailed },
                None,
            ),
        },
        (RunState::AwaitingTenantPatch, Event::TenantPatched { outcome }) => match outcome {
            Ok(_) => (
                RunState::AwaitingApplicationLookup,
                Some(Action::GetApplication { application_id: config.application.id.clone() }),
            ),
            Err(_) => (
                RunState::Aborted { stage: Stage::InitTenant, reason: AbortReason::RemoteCallFailed },
                None,
            ),
        },
        (RunState::AwaitingApplicationLookup, Event::ApplicationFetched { outcome }) => match outcome {
            Ok(Some(_)) => (
                RunState::AwaitingApplicationUpdate,
                Some(Action::UpdateApplication {
                    application_id: config.application.id.clone(),
                    definition: build_application_definition(config),
                }),
            ),
            Ok(None) => (
                RunState::AwaitingApplicationCreate,
                Some(Action::CreateApplication {
                    application_id: config.application.id.clone(),
                    definition: build_application_definition(config),
                }),
            ),
            Err(_) => (
                RunState::Aborted { stage: Stage::InitApplication, reason: AbortReason::RemoteCallFailed },
                None,
            ),
        },
        (RunState::AwaitingApplicationCreate, Event::ApplicationCreated { outcome }) => match outcome {
            Ok(_) => (RunState::Completed, None),
            Err(_) => (
                RunState::Aborted { stage: Stage::InitApplication, reason: AbortReason::RemoteCallFailed },
                None,
            ),
        },
        (RunState::AwaitingApplicationUpdate, Event::ApplicationUpdated { outcome }) => match outcome {
            Ok(_) => (RunState::Completed, None),
            Err(_) => (
                RunState::Aborted { stage: Stage::InitApplication, reason: AbortReason::RemoteCallFailed },
                None,
            ),
        },
        _ => (state, None),
    }
}

/// The actions an optional action contributes to a run's trace.
pub open spec fn opt_action_seq(a: Option<ActionView>) -> Seq<ActionView> {
    match a {
        Some(x) => seq![x],
        None => Seq::empty(),
    }
}

/// The run of the orchestrator from a state over a sequence of call
/// outcomes: the final state reached and the calls issued along the way,
/// in order. The run stops at a terminal state and at the first outcome of
/// a kind the current state does not await.
pub open spec fn run_from(s: RunState, events: Seq<EventView>, c: ConfigView, tid: Seq<char>) -> (RunState, Seq<ActionView>)
    decreases events.len(),
{
    if events.len() == 0 || s.is_terminal() || !event_fits(s, events[0]) {
        (s, Seq::empty())
    } else {
        let stepped = spec_step(s, events[0], c, tid);
        let rest = run_from(stepped.0, events.drop_first(), c, tid);
        (rest.0, opt_action_seq(stepped.1) + rest.1)
    }
}

/// A whole run over scripted call outcomes, from the initial state.
pub open spec fn run(events: Seq<EventView>, c: ConfigView, tid: Seq<char>) -> (RunState, Seq<ActionView>) {
    run_from(RunState::AwaitingSystemPatch, events, c, tid)
}

/// Drives a whole run of the orchestrator over scripted call outcomes.
///
/// Starting where [`begin_run`] leaves off (the system patch has been
/// issued and its outcome is the first event), it consumes the outcomes in
/// order and collects every further call the orchestrator issues, exactly
/// as the spec function [`run`] states. This is the testing seam: a fake
/// remote platform is a list of outcomes.
pub fn run_script(config: &Config, tenant_id: &String, events: &Vec<Event>) -> (r: (RunState, Vec<Action>))
    ensures
        r.0 == run(events.deep_view(), config@, tenant_id@).0,
        r.1.deep_view() == run(events.deep_view(), config@, tenant_id@).1,
{
    let ghost full = events.deep_view();
    let ghost c = config@;
    let ghost tid = tenant_id@;
    let ghost total = run_from(RunState::AwaitingSystemPatch, full, c, tid);
    let mut state = RunState::AwaitingSystemPatch;
    let mut actions: Vec<Action> = Vec::new();
    let mut i: usize = 0;
    proof {
        assert(full.skip(0) =~= full);
        assert(actions.deep_view() =~= Seq::<ActionView>::empty());
        assert(Seq::<ActionView>::empty() + total.1 =~= total.1);
    }
    while i < events.len()
        invariant
            i <= events@.len(),
            full == events.deep_view(),
            c == config@,
            tid == tenant_id@,
            total == run_from(RunState::AwaitingSystemPatch, full, c, tid),
            run_from(state, full.skip(i as int), c, tid).0 == total.0,
            actions.deep_view() + run_from(state, full.skip(i as int), c, tid).1 == total.1,
        ensures
            full == events.deep_view(),
            c == config@,
            tid == tenant_id@,
            total == run_from(RunState::AwaitingSystemPatch, full, c, tid),
            run_from(state, full.skip(i as int), c, tid) == (state, Seq::<ActionView>::empty()),
            run_from(state, full.skip(i as int), c, tid).0 == total.0,
            actions.deep_view() + run_from(state, full.skip(i as int), c, tid).1 == total.1,
        decreases events@.len() - i,
    {
        let event = &events[i];
        proof {
            assert(full.skip(i as int).len() > 0);
            assert(full.skip(i as int)[0] == full[i as int]);
        }
        if state.is_terminal_state() || !event_fits_state(state, event) {
            break;
        }
        proof {
            assert(full.skip(i as int).drop_first() =~= full.skip(i + 1 as int));
        }
        let stepped = step(state, event, config, tenant_id);
        state = stepped.0;
        match stepped.1 {
            Some(a) => {
                let ghost before = actions.deep_view();
                actions.push(a);
                proof {
                    assert(actions.deep_view() =~= before.push(a@));
                    assert(before.push(a@) + run_from(state, full.skip(i + 1 as int), c, tid).1
                        =~= before + (seq![a@] + run_from(state, full.skip(i + 1 as int), c, tid).1));
                }
            },
            None => {
                proof {
                    assert(opt_action_seq(None) + run_from(state, full.skip(i + 1 as int), c, tid).1
                        =~= run_from(state, full.skip(i + 1 as int), c, tid).1);
                }
            },
        }
        i = i + 1;
    }
    proof {
        assert(actions.deep_view() + Seq::<ActionView>::empty() =~= actions.deep_view());
    }
    (state, actions)
}

} // verus!
