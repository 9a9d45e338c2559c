use license_chaser::config::{
    startup_page, AppCache, ConfigError, LicenseType, PageType, UserConfig,
};
use license_chaser::pages::ErrorPage;
use license_chaser::response::Product;
use license_chaser::widgets::{IconState, StatusImage};

fn config(hfs: &str, url: &str) -> UserConfig {
    UserConfig { hfs: String::from(hfs), server_url: String::from(url) }
}

#[test]
fn validity_requires_a_server_url() {
    assert!(config("/opt/hfs20.5", "http://lic:1715").is_valid());
    assert!(!config("/opt/hfs20.5", "").is_valid());
    assert!(config("", "http://lic:1715").is_valid());
}

#[test]
fn default_config_is_empty_and_invalid() {
    let c = UserConfig::default();
    assert_eq!(c.hfs, "");
    assert_eq!(c.server_url, "");
    assert!(!c.is_valid());
}

#[test]
fn executable_is_resolved_per_tier_under_bin() {
    let c = config("/opt/hfs20.5", "http://lic:1715");
    assert_eq!(c.houdini_executable(LicenseType::Core), "/opt/hfs20.5/bin/houdinicore");
    assert_eq!(c.houdini_executable(LicenseType::Fx), "/opt/hfs20.5/bin/houdinifx");
    assert_eq!(c.houdini_executable(LicenseType::Other), "/opt/hfs20.5/bin/houdini");
}

#[test]
fn tiers_follow_product_kinds() {
    assert_eq!(LicenseType::of_product(&Product::HoudiniCore), LicenseType::Core);
    assert_eq!(LicenseType::of_product(&Product::HoudiniFx), LicenseType::Fx);
    assert_eq!(LicenseType::of_product(&Product::KarmaRenderer), LicenseType::Other);
    assert_eq!(LicenseType::of_product(&Product::Render), LicenseType::Other);
    assert_eq!(LicenseType::of_product(&Product::HoudiniEngine), LicenseType::Other);
    assert_eq!(LicenseType::of_product(&Product::Other), LicenseType::Other);
}

#[test]
fn tier_labels() {
    assert_eq!(LicenseType::Core.label(), "Core");
    assert_eq!(LicenseType::Fx.label(), "Fx");
    assert_eq!(LicenseType::Other.label(), "Other");
}

#[test]
fn startup_lands_on_main_only_with_a_usable_config() {
    let ok = Ok(config("/opt/hfs", "http://lic:1715"));
    assert_eq!(startup_page(&ok, true), PageType::Main);
    assert_eq!(startup_page(&ok, false), PageType::Settings);
    let no_url = Ok(config("/opt/hfs", ""));
    assert_eq!(startup_page(&no_url, true), PageType::Settings);
}

#[test]
fn startup_routes_load_failures() {
    let missing: Result<UserConfig, ConfigError> = Err(ConfigError::Missing);
    assert_eq!(startup_page(&missing, true), PageType::Settings);
    let broken: Result<UserConfig, ConfigError> =
        Err(ConfigError::ParseError(String::from("unexpected token")));
    assert_eq!(startup_page(&broken, true), PageType::Error);
    let io: Result<UserConfig, ConfigError> = Err(ConfigError::Io(String::from("denied")));
    assert_eq!(startup_page(&io, false), PageType::Error);
}

#[test]
fn config_error_messages() {
    assert_eq!(ConfigError::Missing.message(), "Config file is missing");
    assert_eq!(
        ConfigError::Io(String::from("denied")).message(),
        "IO Error: denied"
    );
    assert_eq!(
        ConfigError::ParseError(String::from("bad json")).message(),
        "Could not load config: bad json"
    );
    assert_eq!(ConfigError::Other(String::from("anything")).message(), "anything");
}

#[test]
fn cache_defaults_to_origin() {
    let cache = AppCache::default();
    assert_eq!(cache.window_position, [0, 0]);
}

#[test]
fn status_image_state_and_frame_are_independent() {
    let mut img = StatusImage::new();
    assert_eq!(img.state, IconState::Idle);
    assert_eq!(img.frame, 0);
    img.set_frame(41);
    assert_eq!(img.frame, 41);
    assert_eq!(img.state, IconState::Idle);
    img.set_state(IconState::Working);
    assert_eq!(img.state, IconState::Working);
    assert_eq!(img.frame, 41);
    img.set_state(IconState::Error);
    assert_eq!(img.state, IconState::Error);
}

#[test]
fn error_page_starts_with_placeholders() {
    let page = ErrorPage::new();
    assert_eq!(page.title, "Error");
    assert_eq!(page.body, "------");
}
