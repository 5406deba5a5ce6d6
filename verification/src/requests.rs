//! Desired-state request payloads derived from the configuration.
//!
//! Each provisioning step sends the remote platform a payload that is a pure
//! function of the configuration. The payloads are plain values; the spec
//! functions `desired_*` state field by field what each one must contain,
//! and the builders are verified to produce exactly that.

use vstd::prelude::*;
use crate::config::{Config, ConfigView};

verus! {

/// Refresh-token sliding window: 43200 minutes (about 30 days).
pub const REFRESH_TOKEN_WINDOW_MINUTES: u64 = 43200;

/// Absolute refresh-token lifetime cap: 525600 minutes (365 days).
pub const REFRESH_TOKEN_MAXIMUM_LIFETIME_MINUTES: u64 = 525600;

/// Access-token lifetime: 3600 seconds.
pub const ACCESS_TOKEN_LIFETIME_SECONDS: u64 = 3600;

/// HTTP methods the system CORS configuration allows.
#[derive(Clone, Copy, Debug, PartialEq, Eq, Structural)]
pub enum HttpMethod {
    Get,
    Post,
}

/// OAuth2 grants enabled on the provisioned application.
#[derive(Clone, Copy, Debug, PartialEq, Eq, Structural)]
pub enum Grant {
    AuthorizationCode,
    RefreshToken,
}

/// Refresh-token expiration policy of the provisioned application.
#[derive(Clone, Copy, Debug, PartialEq, Eq, Structural)]
pub enum RefreshTokenPolicy {
    SlidingWindowWithMaximumLifetime,
}

/// Blind patch applied to the singleton system configuration.
pub struct SystemConfigurationPatch {
    pub cors_allow_credentials: bool,
    pub cors_allowed_methods: Vec<HttpMethod>,
    pub cors_allowed_origins: Vec<String>,
    pub cors_enabled: bool,
}

/// Mathematical model of a `SystemConfigurationPatch`.
#[verifier::ext_equal]
pub struct SystemConfigurationPatchView {
    pub cors_allow_credentials: bool,
    pub cors_allowed_methods: Seq<HttpMethod>,
    pub cors_allowed_origins: Seq<Seq<char>>,
    pub cors_enabled: bool,
}

impl View for SystemConfigurationPatch {
    type V = SystemConfigurationPatchView;

    open spec fn view(&self) -> SystemConfigurationPatchView {
        SystemConfigurationPatchView {
            cors_allow_credentials: self.cors_allow_credentials,
            cors_allowed_methods: self.cors_allowed_methods@,
            cors_allowed_origins: self.cors_allowed_origins.deep_view(),
            cors_enabled: self.cors_enabled,
        }
    }
}

/// Blind patch applied to the externally identified tenant.
pub struct TenantPatch {
    pub issuer: String,
}

/// Mathematical model of a `TenantPatch`.
#[verifier::ext_equal]
pub struct TenantPatchView {
    pub issuer: Seq<char>,
}

impl View for TenantPatch {
    type V = TenantPatchView;

    open spec fn view(&self) -> TenantPatchView {
        TenantPatchView { issuer: self.issuer@ }
    }
}

/// JWT settings of the provisioned application. Plain data, shared between
/// executable payloads and their mathematical models.
#[derive(Clone, Copy, Debug, PartialEq, Eq, Structural)]
pub struct JwtSettings {
    pub enabled: bool,
    pub refresh_token_expiration_policy: RefreshTokenPolicy,
    pub refresh_token_maximum_lifetime_minutes: u64,
    pub refresh_token_time_to_live_minutes: u64,
    pub time_to_live_seconds: u64,
}

/// Login settings of the provisioned application.
#[derive(Clone, Copy, Debug, PartialEq, Eq, Structural)]
pub struct LoginSettings {
    pub allow_token_refresh: bool,
    pub generate_refresh_tokens: bool,
    pub require_authentication: bool,
}

/// OAuth2 settings of the provisioned application.
pub struct OAuthSettings {
    pub client_secret: String,
    pub generate_refresh_tokens: bool,
    pub require_registration: bool,
    pub enabled_grants: Vec<Grant>,
    pub authorized_origin_urls: Vec<String>,
    pub authorized_redirect_urls: Vec<String>,
    pub logout_url: String,
}

/// Mathematical model of an `OAuthSettings`.
#[verifier::ext_equal]
pub struct OAuthSettingsView {
    pub client_secret: Seq<char>,
    pub generate_refresh_tokens: bool,
    pub require_registration: bool,
    pub enabled_grants: Seq<Grant>,
    pub authorized_origin_urls: Seq<Seq<char>>,
    pub authorized_redirect_urls: Seq<Seq<char>>,
    pub logout_url: Seq<char>,
}

impl View for OAuthSettings {
    type V = OAuthSettingsView;

    open spec fn view(&self) -> OAuthSettingsView {
        OAuthSettingsView {
            client_secret: self.client_secret@,
            generate_refresh_tokens: self.generate_refresh_tokens,
            require_registration: self.require_registration,
            enabled_grants: self.enabled_grants@,
            authorized_origin_urls: self.authorized_origin_urls.deep_view(),
            authorized_redirect_urls: self.authorized_redirect_urls.deep_view(),
            logout_url: self.logout_url@,
        }
    }
}

/// Full desired definition of the provisioned application, used for both
/// create and update.
pub struct ApplicationDefinition {
    pub name: String,
    pub jwt: JwtSettings,
    pub oauth: OAuthSettings,
    pub login: LoginSettings,
}

/// Mathematical model of an `ApplicationDefinition`.
#[verifier::ext_equal]
pub struct ApplicationDefinitionView {
    pub name: Seq<char>,
    pub jwt: JwtSettings,
    pub oauth: OAuthSettingsView,
    pub login: LoginSettings,
}

impl View for ApplicationDefinition {
    type V = ApplicationDefinitionView;

    open spec fn view(&self) -> ApplicationDefinitionView {
        ApplicationDefinitionView {
            name: self.name@,
            jwt: self.jwt,
            oauth: self.oauth@,
            login: self.login,
        }
    }
}

/// Registration of the administrator account against an application.
pub struct AdminRegistration {
    pub application_id: String,
    pub roles: Vec<String>,
    pub username: String,
    pub password: String,
    pub skip_verification: bool,
}

/// Mathematical model of an `AdminRegistration`.
#[verifier::ext_equal]
pub struct AdminRegistrationView {
    pub application_id: Seq<char>,
    pub roles: Seq<Seq<char>>,
    pub username: Seq<char>,
    pub password: Seq<char>,
    pub skip_verification: bool,
}

impl View for AdminRegistration {
    type V = AdminRegistrationView;

    open spec fn view(&self) -> AdminRegistrationView {
        AdminRegistrationView {
            application_id: self.application_id@,
            roles: self.roles.deep_view(),
            username: self.username@,
            password: self.password@,
            skip_verification: self.skip_verification,
        }
    }
}

/// The system patch a configuration calls for: CORS enabled, credentials
/// allowed, methods GET and POST, sole allowed origin the external URL.
pub open spec fn desired_system_patch(c: ConfigView) -> SystemConfigurationPatchView {
    SystemConfigurationPatchView {
        cors_allow_credentials: true,
        cors_allowed_methods: seq![HttpMethod::Get, HttpMethod::Post],
        cors_allowed_origins: seq![c.external_url],
        cors_enabled: true,
    }
}

/// The tenant patch a configuration calls for: issuer set to the configured
/// issuer URL.
pub open spec fn desired_tenant_patch(c: ConfigView) -> TenantPatchView {
    TenantPatchView { issuer: c.issuer }
}

/// The application definition a configuration calls for.
pub open spec fn desired_application_definition(c: ConfigView) -> ApplicationDefinitionView {
    ApplicationDefinitionView {
        name: c.application.name,
        jwt: JwtSettings {
            enabled: true,
            refresh_token_expiration_policy: RefreshTokenPolicy::SlidingWindowWithMaximumLifetime,
            refresh_token_maximum_lifetime_minutes: REFRESH_TOKEN_MAXIMUM_LIFETIME_MINUTES,
            refresh_token_time_to_live_minutes: REFRESH_TOKEN_WINDOW_MINUTES,
            time_to_live_seconds: ACCESS_TOKEN_LIFETIME_SECONDS,
        },
        oauth: OAuthSettingsView {
            client_secret: c.application.oauth.client_secret,
            generate_refresh_tokens: true,
            require_registration: false,
            enabled_grants: seq![Grant::AuthorizationCode, Grant::RefreshToken],
            authorized_origin_urls: c.application.oauth.authorized_origin_urls,
            authorized_redirect_urls: c.application.oauth.authorized_redirect_urls,
            logout_url: c.application.oauth.logout_url,
        },
        login: LoginSettings {
            allow_token_refresh: true,
            generate_refresh_tokens: true,
            require_authentication: true,
        },
    }
}

/// The registration the administrator account calls for against the given
/// application: role `admin`, email verification skipped.
pub open spec fn desired_admin_registration(c: ConfigView, application_id: Seq<char>) -> AdminRegistrationView {
    AdminRegistrationView {
        application_id: application_id,
        roles: seq!["admin"@],
        username: c.admin.username,
        password: c.admin.password,
        skip_verification: true,
    }
}

/// Copies a list of strings, preserving contents and order.
fn clone_string_vec(v: &Vec<String>) -> (r: Vec<String>)
    ensures
        r.deep_view() == v.deep_view(),
{
    let mut r: Vec<String> = Vec::new();
    let mut i: usize = 0;
    while i < v.len()
        invariant
            i <= v.len(),
            r@.len() == i,
            forall|j: int| 0 <= j < i ==> r@[j] == v@[j],
        decreases v.len() - i,
    {
        r.push(v[i].clone());
        i = i + 1;
    }
    assert(r.deep_view() =~= v.deep_view());
    r
}

/// Builds the system configuration patch for this configuration.
pub fn build_system_patch(config: &Config) -> (p: SystemConfigurationPatch)
    ensures
        p@ == desired_system_patch(config@),
{
    let mut methods: Vec<HttpMethod> = Vec::new();
    methods.push(HttpMethod::Get);
    methods.push(HttpMethod::Post);
    let mut origins: Vec<String> = Vec::new();
    origins.push(config.external_url.clone());
    let p = SystemConfigurationPatch {
        cors_allow_credentials: true,
        cors_allowed_methods: methods,
        cors_allowed_origins: origins,
        cors_enabled: true,
    };
    proof {
        assert(p@.cors_allowed_methods =~= desired_system_patch(config@).cors_allowed_methods);
        assert(p@.cors_allowed_origins =~= desired_system_patch(config@).cors_allowed_origins);
        assert(p@ =~= desired_system_patch(config@));
    }
    p
}

/// Builds the tenant patch for this configuration.
pub fn build_tenant_patch(config: &Config) -> (p: TenantPatch)
    ensures
        p@ == desired_tenant_patch(config@),
{
    TenantPatch { issuer: config.issuer.clone() }
}

/// Builds the full application definition for this configuration.
pub fn build_application_definition(config: &Config) -> (d: ApplicationDefinition)
    ensures
        d@ == desired_application_definition(config@),
{
    let mut grants: Vec<Grant> = Vec::new();
    grants.push(Grant::AuthorizationCode);
    grants.push(Grant::RefreshToken);
    let d = ApplicationDefinition {
        name: config.application.name.clone(),
        jwt: JwtSettings {
            enabled: true,
            refresh_token_expiration_policy: RefreshTokenPolicy::SlidingWindowWithMaximumLifetime,
            refresh_token_maximum_lifetime_minutes: REFRESH_TOKEN_MAXIMUM_LIFETIME_MINUTES,
            refresh_token_time_to_live_minutes: REFRESH_TOKEN_WINDOW_MINUTES,
            time_to_live_seconds: ACCESS_TOKEN_LIFETIME_SECONDS,
        },
        oauth: OAuthSettings {
            client_secret: config.application.oauth.client_secret.clone(),
            generate_refresh_tokens: true,
            require_registration: false,
            enabled_grants: grants,
            authorized_origin_urls: clone_string_vec(&config.application.oauth.authorized_origin_urls),
            authorized_redirect_urls: clone_string_vec(&config.application.oauth.authorized_redirect_urls),
            logout_url: config.application.oauth.logout_url.clone(),
        },
        login: LoginSettings {
            allow_token_refresh: true,
            generate_refresh_tokens: true,
            require_authentication: true,
        },
    };
    proof {
        assert(d@.oauth.enabled_grants =~= desired_application_definition(config@).oauth.enabled_grants);
        assert(d@.oauth =~= desired_application_definition(config@).oauth);
        assert(d@ =~= desired_application_definition(config@));
    }
    d
}

/// Builds the administrator registration for this configuration against the
/// application with the given identifier.
pub fn build_admin_registration(config: &Config, application_id: String) -> (r: AdminRegistration)
    ensures
        r@ == desired_admin_registration(config@, application_id@),
{
    let mut roles: Vec<String> = Vec::new();
    roles.push("admin".to_owned());
    let r = AdminRegistration {
        application_id: application_id,
        roles: roles,
        username: config.admin.username.clone(),
        password: config.admin.password.clone(),
        skip_verification: true,
    };
    proof {
        assert(r@.roles =~= desired_admin_registration(config@, r.application_id@).roles);
        assert(r@ =~= desired_admin_registration(config@, r.application_id@));
    }
    r
}

} // verus!
