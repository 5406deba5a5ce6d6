use fusionauth_bootstrap::config::{Admin, Application, Config, OAuth2};
use fusionauth_bootstrap::orchestrator::{
    Action, AbortReason, ApiFailure, AppSummary, Event, PreconditionError, RunState, Stage,
    UserSummary, begin_run, find_default_application, run_script, step,
};
use fusionauth_bootstrap::requests::{
    Grant, HttpMethod, RefreshTokenPolicy, build_application_definition,
    ACCESS_TOKEN_LIFETIME_SECONDS, REFRESH_TOKEN_MAXIMUM_LIFETIME_MINUTES,
    REFRESH_TOKEN_WINDOW_MINUTES,
};

fn sample_config() -> Config {
    Config {
        base_path: "https://auth.example.com".to_string(),
        api_key: "key-123".to_string(),
        external_url: "https://app.example.com".to_string(),
        issuer: "https://issuer.example.com".to_string(),
        admin: Admin {
            username: "admin".to_string(),
            password: "pw-456".to_string(),
        },
        application: Application {
            id: "app-1".to_string(),
            name: "My App".to_string(),
            oauth: OAuth2 {
                client_secret: "cs-789".to_string(),
                authorized_origin_urls: vec!["https://a.example.com".to_string()],
                authorized_redirect_urls: vec![
                    "https://a.example.com/cb".to_string(),
                    "https://b.example.com/cb".to_string(),
                ],
                logout_url: "https://app.example.com/logout".to_string(),
            },
        },
    }
}

fn tenant_id() -> String {
    "tenant-0".to_string()
}

fn failure() -> ApiFailure {
    ApiFailure { message: "remote call failed".to_string() }
}

fn admin_user() -> UserSummary {
    UserSummary { id: "user-9".to_string(), username: "admin".to_string() }
}

fn default_app() -> AppSummary {
    AppSummary { id: "default-7".to_string(), name: "FusionAuth".to_string() }
}

fn count_register(actions: &[Action]) -> usize {
    actions.iter().filter(|a| matches!(a, Action::RegisterUser { .. })).count()
}

fn count_create(actions: &[Action]) -> usize {
    actions.iter().filter(|a| matches!(a, Action::CreateApplication { .. })).count()
}

fn count_update(actions: &[Action]) -> usize {
    actions.iter().filter(|a| matches!(a, Action::UpdateApplication { .. })).count()
}

#[test]
fn begin_run_without_tenant_id_issues_no_call() {
    let config = sample_config();
    match begin_run(&config, None) {
        Err(PreconditionError::MissingTenantId) => {}
        Ok(_) => panic!("a run must not begin without the tenant identifier"),
    }
}

#[test]
fn begin_run_issues_system_patch_with_cors_settings() {
    let config = sample_config();
    let (tid, state, action) =
        begin_run(&config, Some(tenant_id())).expect("the run must begin");
    assert_eq!(tid, "tenant-0");
    assert_eq!(state, RunState::AwaitingSystemPatch);
    match action {
        Action::PatchSystemConfiguration { patch } => {
            assert!(patch.cors_enabled);
            assert!(patch.cors_allow_credentials);
            assert_eq!(patch.cors_allowed_methods, vec![HttpMethod::Get, HttpMethod::Post]);
            assert_eq!(patch.cors_allowed_origins, vec!["https://app.example.com".to_string()]);
        }
        _ => panic!("the first call must patch the system configuration"),
    }
}

#[test]
fn existing_application_is_updated_never_created() {
    let config = sample_config();
    let event = Event::ApplicationFetched { outcome: Ok(Some(default_app())) };
    let (state, action) = step(RunState::AwaitingApplicationLookup, &event, &config, &tenant_id());
    assert_eq!(state, RunState::AwaitingApplicationUpdate);
    match action {
        Some(Action::UpdateApplication { application_id, .. }) => {
            assert_eq!(application_id, "app-1");
        }
        Some(Action::CreateApplication { .. }) => {
            panic!("an existing application must never be created again")
        }
        _ => panic!("an existing application must be updated"),
    }
}

#[test]
fn missing_application_is_created_never_updated() {
    let config = sample_config();
    let event = Event::ApplicationFetched { outcome: Ok(None) };
    let (state, action) = step(RunState::AwaitingApplicationLookup, &event, &config, &tenant_id());
    assert_eq!(state, RunState::AwaitingApplicationCreate);
    match action {
        Some(Action::CreateApplication { application_id, .. }) => {
            assert_eq!(application_id, "app-1");
        }
        Some(Action::UpdateApplication { .. }) => {
            panic!("a missing application must never be updated")
        }
        _ => panic!("a missing application must be created"),
    }
}

#[test]
fn create_scenario_carries_grants_and_token_lifetime() {
    let config = sample_config();
    let events = vec![
        Event::SystemPatched { outcome: Ok(()) },
        Event::UserLookedUp { outcome: Ok(Some(admin_user())) },
        Event::TenantPatched { outcome: Ok(()) },
        Event::ApplicationFetched { outcome: Ok(None) },
        Event::ApplicationCreated { outcome: Ok(()) },
    ];
    let (state, actions) = run_script(&config, &tenant_id(), &events);
    assert_eq!(state, RunState::Completed);
    assert_eq!(count_create(&actions), 1);
    assert_eq!(count_update(&actions), 0);
    let created = actions
        .iter()
        .find_map(|a| match a {
            Action::CreateApplication { application_id, definition } => {
                Some((application_id, definition))
            }
            _ => None,
        })
        .expect("one create call must be issued");
    assert_eq!(created.0, "app-1");
    assert_eq!(
        created.1.oauth.enabled_grants,
        vec![Grant::AuthorizationCode, Grant::RefreshToken],
    );
    assert_eq!(created.1.jwt.time_to_live_seconds, 3600);
}

#[test]
fn existing_admin_user_skips_registration_and_reaches_tenant_stage() {
    let config = sample_config();
    let events = vec![
        Event::SystemPatched { outcome: Ok(()) },
        Event::UserLookedUp { outcome: Ok(Some(admin_user())) },
        Event::TenantPatched { outcome: Ok(()) },
        Event::ApplicationFetched { outcome: Ok(Some(default_app())) },
        Event::ApplicationUpdated { outcome: Ok(()) },
    ];
    let (state, actions) = run_script(&config, &tenant_id(), &events);
    assert_eq!(state, RunState::Completed);
    assert_eq!(count_register(&actions), 0);
    match &actions[1] {
        Action::PatchTenant { tenant_id, patch } => {
            assert_eq!(tenant_id, "tenant-0");
            assert_eq!(patch.issuer, "https://issuer.example.com");
        }
        _ => panic!("after the user lookup the tenant must be patched"),
    }
}

#[test]
fn missing_admin_user_is_registered_against_default_application() {
    let config = sample_config();
    let apps = vec![
        AppSummary { id: "other-1".to_string(), name: "Other".to_string() },
        default_app(),
    ];
    let events = vec![
        Event::SystemPatched { outcome: Ok(()) },
        Event::UserLookedUp { outcome: Ok(None) },
        Event::ApplicationsListed { outcome: Ok(apps) },
        Event::UserRegistered { outcome: Ok(()) },
        Event::TenantPatched { outcome: Ok(()) },
        Event::ApplicationFetched { outcome: Ok(Some(default_app())) },
        Event::ApplicationUpdated { outcome: Ok(()) },
    ];
    let (state, actions) = run_script(&config, &tenant_id(), &events);
    assert_eq!(state, RunState::Completed);
    assert_eq!(count_register(&actions), 1);
    let registration = actions
        .iter()
        .find_map(|a| match a {
            Action::RegisterUser { registration } => Some(registration),
            _ => None,
        })
        .expect("one registration call must be issued");
    assert_eq!(registration.application_id, "default-7");
    assert_eq!(registration.roles, vec!["admin".to_string()]);
    assert_eq!(registration.username, "admin");
    assert_eq!(registration.password, "pw-456");
    assert!(registration.skip_verification);
}

#[test]
fn missing_default_application_aborts_admin_stage_without_registration() {
    let config = sample_config();
    let apps = vec![AppSummary { id: "other-1".to_string(), name: "Other".to_string() }];
    let events = vec![
        Event::SystemPatched { outcome: Ok(()) },
        Event::UserLookedUp { outcome: Ok(None) },
        Event::ApplicationsListed { outcome: Ok(apps) },
        Event::TenantPatched { outcome: Ok(()) },
    ];
    let (state, actions) = run_script(&config, &tenant_id(), &events);
    assert_eq!(
        state,
        RunState::Aborted {
            stage: Stage::InitAdminUser,
            reason: AbortReason::DefaultApplicationMissing,
        },
    );
    assert_eq!(count_register(&actions), 0);
    // the run stops there: find-user and list-applications were the only further calls
    assert_eq!(actions.len(), 2);
}

#[test]
fn failure_in_first_stage_stops_every_later_stage() {
    let config = sample_config();
    let events = vec![
        Event::SystemPatched { outcome: Err(failure()) },
        Event::UserLookedUp { outcome: Ok(None) },
        Event::TenantPatched { outcome: Ok(()) },
        Event::ApplicationFetched { outcome: Ok(None) },
    ];
    let (state, actions) = run_script(&config, &tenant_id(), &events);
    assert_eq!(
        state,
        RunState::Aborted { stage: Stage::InitSystem, reason: AbortReason::RemoteCallFailed },
    );
    assert_eq!(actions.len(), 0);
}

#[test]
fn failure_in_tenant_stage_stops_application_stage() {
    let config = sample_config();
    let events = vec![
        Event::SystemPatched { outcome: Ok(()) },
        Event::UserLookedUp { outcome: Ok(Some(admin_user())) },
        Event::TenantPatched { outcome: Err(failure()) },
        Event::ApplicationFetched { outcome: Ok(None) },
        Event::ApplicationCreated { outcome: Ok(()) },
    ];
    let (state, actions) = run_script(&config, &tenant_id(), &events);
    assert_eq!(
        state,
        RunState::Aborted { stage: Stage::InitTenant, reason: AbortReason::RemoteCallFailed },
    );
    // only the user lookup and the tenant patch were issued after the system patch
    assert_eq!(actions.len(), 2);
    assert!(matches!(actions[0], Action::FindUserByUsername { .. }));
    assert!(matches!(actions[1], Action::PatchTenant { .. }));
    assert_eq!(count_create(&actions), 0);
    assert_eq!(count_update(&actions), 0);
}

#[test]
fn failure_in_user_lookup_aborts_admin_stage() {
    let config = sample_config();
    let event = Event::UserLookedUp { outcome: Err(failure()) };
    let (state, action) = step(RunState::AwaitingUserLookup, &event, &config, &tenant_id());
    assert_eq!(
        state,
        RunState::Aborted { stage: Stage::InitAdminUser, reason: AbortReason::RemoteCallFailed },
    );
    assert!(action.is_none());
}

#[test]
fn mismatched_outcome_stops_the_run_without_calls() {
    let config = sample_config();
    let events = vec![Event::TenantPatched { outcome: Ok(()) }];
    let (state, actions) = run_script(&config, &tenant_id(), &events);
    assert_eq!(state, RunState::AwaitingSystemPatch);
    assert_eq!(actions.len(), 0);
}

#[test]
fn find_default_application_picks_first_match() {
    let apps = vec![
        AppSummary { id: "x-1".to_string(), name: "Other".to_string() },
        AppSummary { id: "x-2".to_string(), name: "FusionAuth".to_string() },
        AppSummary { id: "x-3".to_string(), name: "FusionAuth".to_string() },
    ];
    assert_eq!(find_default_application(&apps), Some(1));
    let none = vec![AppSummary { id: "x-1".to_string(), name: "Other".to_string() }];
    assert_eq!(find_default_application(&none), None);
    assert_eq!(find_default_application(&Vec::new()), None);
}

#[test]
fn desired_application_definition_carries_the_fixed_policy() {
    let config = sample_config();
    let definition = build_application_definition(&config);
    assert_eq!(definition.name, "My App");
    assert!(definition.jwt.enabled);
    assert_eq!(
        definition.jwt.refresh_token_expiration_policy,
        RefreshTokenPolicy::SlidingWindowWithMaximumLifetime,
    );
    assert_eq!(definition.jwt.refresh_token_time_to_live_minutes, 43200);
    assert_eq!(definition.jwt.refresh_token_maximum_lifetime_minutes, 525600);
    assert_eq!(definition.jwt.time_to_live_seconds, 3600);
    assert_eq!(REFRESH_TOKEN_WINDOW_MINUTES, 43200);
    assert_eq!(REFRESH_TOKEN_MAXIMUM_LIFETIME_MINUTES, 525600);
    assert_eq!(ACCESS_TOKEN_LIFETIME_SECONDS, 3600);
    assert_eq!(definition.oauth.client_secret, "cs-789");
    assert!(definition.oauth.generate_refresh_tokens);
    assert!(!definition.oauth.require_registration);
    assert_eq!(definition.oauth.authorized_origin_urls, vec!["https://a.example.com".to_string()]);
    assert_eq!(
        definition.oauth.authorized_redirect_urls,
        vec!["https://a.example.com/cb".to_string(), "https://b.example.com/cb".to_string()],
    );
    assert_eq!(definition.oauth.logout_url, "https://app.example.com/logout");
    assert!(definition.login.allow_token_refresh);
    assert!(definition.login.generate_refresh_tokens);
    assert!(definition.login.require_authentication);
}
