use pistachio_client::app::{
    app_config_from_json, build_create_request, build_update_request, parse_platform_config, platform_fields,
    AndroidAppConfig, App, AppJson, AppState, CreateAppRequest, Platform, PlatformConfig, UpdateAppRequest,
    WebAppConfig,
};
use pistachio_client::convert::{page_from_json, required_from_json, FromJson};
use pistachio_client::problem::ValidationError;

fn s(v: &str) -> Option<String> {
    Some(v.to_string())
}

fn android() -> PlatformConfig {
    PlatformConfig::Android(AndroidAppConfig {
        package_name: "com.example.app".to_string(),
        sha1_hashes: vec![],
        sha256_hashes: vec!["AA:BB".to_string()],
    })
}

#[test]
fn platform_config_round_trip() {
    for config in [
        android(),
        PlatformConfig::Web(WebAppConfig { authorized_domains: vec!["example.com".to_string()], auth_domain: None }),
    ] {
        let platform = match &config {
            PlatformConfig::Android(_) => Platform::Android,
            _ => Platform::Web,
        };
        let fields = platform_fields(config.clone());
        assert_eq!(parse_platform_config(&fields, platform), Ok(config));
    }
}

#[test]
fn platform_member_must_match_platform() {
    let fields = platform_fields(android());
    assert_eq!(parse_platform_config(&fields, Platform::Ios), Err(ValidationError::MissingField("ios")));
}

#[test]
fn create_and_update_bodies() {
    let body = build_create_request(CreateAppRequest {
        project_id: "p".to_string(),
        display_name: "Shop".to_string(),
        platform_config: android(),
    });
    assert_eq!(body.platform, Platform::Android);
    assert_eq!(body.fields.android.as_ref().unwrap().sha1_hashes, None);
    assert_eq!(body.fields.android.as_ref().unwrap().sha256_hashes, Some(vec!["AA:BB".to_string()]));
    assert!(body.fields.ios.is_none());
    let body = build_update_request(UpdateAppRequest {
        project_id: "p".to_string(),
        app_id: "a".to_string(),
        display_name: s("New"),
        platform_config: None,
    });
    assert_eq!(body.display_name, s("New"));
    assert!(body.fields.android.is_none() && body.fields.web.is_none());
}

fn app_json() -> AppJson {
    AppJson {
        name: s("projects/p/apps/a"),
        project_id: s("p"),
        app_id: s("a"),
        pistachio_id: s("ap-1"),
        display_name: s("Shop"),
        platform: Some(Platform::Android),
        state: Some(AppState::Active),
        fields: platform_fields(android()),
        api_key: None,
        created_at: s("2024-01-02T03:04:05Z"),
        updated_at: s("2024-01-02T03:04:05Z"),
    }
}

#[test]
fn app_reads_from_json() {
    let app = App::from_json(app_json()).unwrap();
    assert_eq!(app.platform_config, android());
    assert_eq!(app.state, AppState::Active);
    let mut j = app_json();
    j.fields = platform_fields(PlatformConfig::Web(WebAppConfig { authorized_domains: vec![], auth_domain: None }));
    assert_eq!(App::from_json(j).unwrap_err(), ValidationError::MissingField("android"));
    let mut j = app_json();
    j.state = None;
    assert_eq!(App::from_json(j).unwrap_err(), ValidationError::MissingField("state"));
}

#[test]
fn app_responses() {
    assert_eq!(required_from_json::<App>(None, "app").unwrap_err(), ValidationError::MissingField("app"));
    let page = page_from_json::<App>(Some(vec![app_json()]), None).unwrap();
    assert_eq!(page.items[0].app_id, "a");
}

#[test]
fn app_config_file() {
    assert_eq!(app_config_from_json(None, s("f")).unwrap_err(), ValidationError::MissingField("config_file_contents"));
    assert_eq!(app_config_from_json(s("{}"), None).unwrap_err(), ValidationError::MissingField("config_filename"));
    let c = app_config_from_json(s("{}"), s("google-services.json")).unwrap();
    assert_eq!(c.config_filename, "google-services.json");
}
