//! Typed configuration model: the desired end state of the platform.
//!
//! A `Config` is constructed once at startup from a configuration document,
//! validated, and then read-only for the rest of the run. All scalar string
//! fields must be non-empty; the two authorized-URL lists may be empty, and
//! the syntactic validity of their elements is deliberately deferred to the
//! remote platform.

use vstd::prelude::*;

verus! {

/// Administrator account to provision.
pub struct Admin {
    pub username: String,
    pub password: String,
}

/// OAuth2 settings of the application to provision.
pub struct OAuth2 {
    pub client_secret: String,
    pub authorized_origin_urls: Vec<String>,
    pub authorized_redirect_urls: Vec<String>,
    pub logout_url: String,
}

/// OAuth2-enabled application to provision.
pub struct Application {
    pub id: String,
    pub name: String,
    pub oauth: OAuth2,
}

/// Full desired end state: platform connection, admin account, application.
pub struct Config {
    pub base_path: String,
    pub api_key: String,
    pub external_url: String,
    pub issuer: String,
    pub admin: Admin,
    pub application: Application,
}

/// Mathematical model of an `Admin`.
pub struct AdminView {
    pub username: Seq<char>,
    pub password: Seq<char>,
}

/// Mathematical model of an `OAuth2`.
pub struct OAuth2View {
    pub client_secret: Seq<char>,
    pub authorized_origin_urls: Seq<Seq<char>>,
    pub authorized_redirect_urls: Seq<Seq<char>>,
    pub logout_url: Seq<char>,
}

/// Mathematical model of an `Application`.
pub struct ApplicationView {
    pub id: Seq<char>,
    pub name: Seq<char>,
    pub oauth: OAuth2View,
}

/// Mathematical model of a `Config`.
pub struct ConfigView {
    pub base_path: Seq<char>,
    pub api_key: Seq<char>,
    pub external_url: Seq<char>,
    pub issuer: Seq<char>,
    pub admin: AdminView,
    pub application: ApplicationView,
}

impl View for Admin {
    type V = AdminView;

    open spec fn view(&self) -> AdminView {
        AdminView { username: self.username@, password: self.password@ }
    }
}

impl View for OAuth2 {
    type V = OAuth2View;

    open spec fn view(&self) -> OAuth2View {
        OAuth2View {
            client_secret: self.client_secret@,
            authorized_origin_urls: self.authorized_origin_urls.deep_view(),
            authorized_redirect_urls: self.authorized_redirect_urls.deep_view(),
            logout_url: self.logout_url@,
        }
    }
}

impl View for Application {
    type V = ApplicationView;

    open spec fn view(&self) -> ApplicationView {
        ApplicationView { id: self.id@, name: self.name@, oauth: self.oauth@ }
    }
}

impl View for Config {
    type V = ConfigView;

    open spec fn view(&self) -> ConfigView {
        ConfigView {
            base_path: self.base_path@,
            api_key: self.api_key@,
            external_url: self.external_url@,
            issuer: self.issuer@,
            admin: self.admin@,
            application: self.application@,
        }
    }
}

impl ConfigView {
    /// Every scalar string field is non-empty. The URL lists may be empty;
    /// URL syntax of their elements is checked by the remote platform, not
    /// here.
    pub open spec fn well_formed(self) -> bool {
        &&& self.base_path.len() > 0
        &&& self.api_key.len() > 0
        &&& self.external_url.len() > 0
        &&& self.issuer.len() > 0
        &&& self.admin.username.len() > 0
        &&& self.admin.password.len() > 0
        &&& self.application.id.len() > 0
        &&& self.application.name.len() > 0
        &&& self.application.oauth.client_secret.len() > 0
        &&& self.application.oauth.logout_url.len() > 0
    }
}

/// Loading a configuration either fails to read the document at all or
/// fails to conform it to the schema. The underlying cause is carried as
/// plain text; no partial configuration is ever produced.
#[derive(Debug)]
pub enum ReadConfigError {
    IoError { message: String },
    ParseError { message: String },
}

impl Config {
    /// Decides whether this configuration satisfies the model invariant.
    pub fn validate(&self) -> (b: bool)
        ensures
            b == self@.well_formed(),
    {
        !self.base_path.as_str().is_empty() && !self.api_key.as_str().is_empty()
            && !self.external_url.as_str().is_empty() && !self.issuer.as_str().is_empty()
            && !self.admin.username.as_str().is_empty()
            && !self.admin.password.as_str().is_empty()
            && !self.application.id.as_str().is_empty()
            && !self.application.name.as_str().is_empty()
            && !self.application.oauth.client_secret.as_str().is_empty()
            && !self.application.oauth.logout_url.as_str().is_empty()
    }
}

/// Enforces the schema invariant on a freshly parsed configuration: a
/// well-formed configuration passes through unchanged, any other is
/// rejected as a parse failure (an empty required field does not conform
/// to the schema).
pub fn conform_config(config: Config) -> (r: Result<Config, ReadConfigError>)
    ensures
        config@.well_formed() ==> (r matches Ok(c) && c == config),
        !config@.well_formed() ==> (r matches Err(e) && e is ParseError),
{
    if config.validate() {
        Ok(config)
    } else {
        Err(ReadConfigError::ParseError { message: "required configuration field is empty".to_owned() })
    }
}

} // verus!
