use fusionauth_bootstrap::config::{Admin, Application, Config, OAuth2, ReadConfigError, conform_config};

fn sample_config() -> Config {
    Config {
        base_path: "https://auth.example.com".to_string(),
        api_key: "key-123".to_string(),
        external_url: "https://app.example.com".to_string(),
        issuer: "https://issuer.example.com".to_string(),
        admin: Admin {
            username: "admin".to_string(),
            password: "pw-456".to_string(),
        },
        application: Application {
            id: "app-1".to_string(),
            name: "My App".to_string(),
            oauth: OAuth2 {
                client_secret: "cs-789".to_string(),
                authorized_origin_urls: vec![
                    "https://a.example.com".to_string(),
                    "https://b.example.com".to_string(),
                ],
                authorized_redirect_urls: vec![
                    "https://b.example.com/cb".to_string(),
                    "https://a.example.com/cb".to_string(),
                    "https://c.example.com/cb".to_string(),
                ],
                logout_url: "https://app.example.com/logout".to_string(),
            },
        },
    }
}

#[test]
fn config_fields_match_document_values() {
    let config = sample_config();
    assert_eq!(config.base_path, "https://auth.example.com");
    assert_eq!(config.api_key, "key-123");
    assert_eq!(config.external_url, "https://app.example.com");
    assert_eq!(config.issuer, "https://issuer.example.com");
    assert_eq!(config.admin.username, "admin");
    assert_eq!(config.admin.password, "pw-456");
    assert_eq!(config.application.id, "app-1");
    assert_eq!(config.application.name, "My App");
    assert_eq!(config.application.oauth.client_secret, "cs-789");
    assert_eq!(config.application.oauth.logout_url, "https://app.example.com/logout");
}

#[test]
fn config_preserves_url_list_order() {
    let config = sample_config();
    assert_eq!(
        config.application.oauth.authorized_origin_urls,
        vec!["https://a.example.com".to_string(), "https://b.example.com".to_string()],
    );
    assert_eq!(
        config.application.oauth.authorized_redirect_urls,
        vec![
            "https://b.example.com/cb".to_string(),
            "https://a.example.com/cb".to_string(),
            "https://c.example.com/cb".to_string(),
        ],
    );
}

#[test]
fn url_lists_may_be_empty() {
    let mut config = sample_config();
    config.application.oauth.authorized_origin_urls = Vec::new();
    config.application.oauth.authorized_redirect_urls = Vec::new();
    assert!(config.validate());
}

#[test]
fn validate_accepts_well_formed() {
    assert!(sample_config().validate());
}

#[test]
fn validate_rejects_empty_scalar_fields() {
    let mut config = sample_config();
    config.issuer = String::new();
    assert!(!config.validate());

    let mut config = sample_config();
    config.admin.username = String::new();
    assert!(!config.validate());

    let mut config = sample_config();
    config.application.oauth.client_secret = String::new();
    assert!(!config.validate());
}

#[test]
fn conform_config_passes_well_formed_through_unchanged() {
    let config = conform_config(sample_config()).expect("well-formed configuration must conform");
    assert_eq!(config.base_path, "https://auth.example.com");
    assert_eq!(config.application.oauth.authorized_origin_urls.len(), 2);
}

#[test]
fn conform_config_rejects_empty_required_field_as_parse_failure() {
    let mut config = sample_config();
    config.api_key = String::new();
    match conform_config(config) {
        Err(ReadConfigError::ParseError { .. }) => {}
        Err(ReadConfigError::IoError { .. }) => panic!("an empty field is a parse failure, not an io failure"),
        Ok(_) => panic!("a configuration with an empty required field must not conform"),
    }
}
