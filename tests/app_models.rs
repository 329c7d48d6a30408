use anilist_client::config::Config;
use anilist_client::models::User;
use anilist_client::settings::Theme;
use anilist_client::theme::{
    apply_theme, default_surface_color, default_text_secondary_color, default_theme,
    get_current_theme, get_embedded_theme, parse_hex_color, theme_file_path,
    theme_resource_path, AppTheme, BorderRadiusType, ColorType, FontSizeType, Rgb, SpacingType,
    ThemeType, DARK_THEME_JSON, DEFAULT_THEME_JSON,
};
use anilist_client::ui::{Navigation, Screen, State, UserStats};

#[test]
fn hex_colors() {
    assert_eq!(parse_hex_color("#7957D5"), Rgb { r: 0x79, g: 0x57, b: 0xD5 });
    assert_eq!(parse_hex_color("##ffffff"), Rgb { r: 255, g: 255, b: 255 });
    assert_eq!(parse_hex_color("123456"), Rgb { r: 0x12, g: 0x34, b: 0x56 });
    assert_eq!(parse_hex_color("#123"), Rgb { r: 0, g: 0, b: 0 });
    assert_eq!(parse_hex_color("#zz00Ff"), Rgb { r: 0, g: 0, b: 255 });
    assert_eq!(parse_hex_color("+F+f+1"), Rgb { r: 15, g: 15, b: 1 });
    assert_eq!(parse_hex_color("#é12345"), Rgb { r: 0, g: 0, b: 0 });
    assert_eq!(parse_hex_color(""), Rgb { r: 0, g: 0, b: 0 });
}

#[test]
fn theme_selection() {
    assert_eq!(get_current_theme("light", true), ThemeType::Light);
    assert_eq!(get_current_theme("dark", false), ThemeType::Dark);
    assert_eq!(get_current_theme("system", true), ThemeType::Dark);
    assert_eq!(get_current_theme("system", false), ThemeType::Light);
    assert_eq!(
        get_current_theme("ocean", false),
        ThemeType::Custom("ocean".to_string())
    );
}

#[test]
fn embedded_themes() {
    assert_eq!(
        get_embedded_theme("themes/default.json"),
        Some(DEFAULT_THEME_JSON.to_string())
    );
    assert_eq!(
        get_embedded_theme("themes/dark.json"),
        Some(DARK_THEME_JSON.to_string())
    );
    assert_eq!(get_embedded_theme("themes/other.json"), None);
    assert_eq!(theme_resource_path("dark"), "themes/dark.json");
    assert_eq!(theme_file_path("dark"), "resources/themes/dark.json");
    assert!(DEFAULT_THEME_JSON.contains("\"primary\": \"#7957D5\""));
}

#[test]
fn default_colors() {
    assert_eq!(default_surface_color(), "#FFFFFF");
    assert_eq!(default_text_secondary_color(), "#4A4A4A");
}

#[test]
fn light_and_dark_themes() {
    let light = default_theme();
    assert!(!light.dark);
    assert_eq!(light.config.name, "Default Light");
    assert_eq!(light.get_color(ColorType::Primary), Rgb { r: 0x79, g: 0x57, b: 0xD5 });
    assert_eq!(light.get_color(ColorType::Surface), Rgb { r: 0xF7, g: 0xF7, b: 0xF7 });
    assert_eq!(light.get_spacing(SpacingType::Small), 5);
    assert_eq!(light.get_spacing(SpacingType::XLarge), 40);
    assert_eq!(light.get_font_size(FontSizeType::Medium), 16);
    assert_eq!(light.get_border_radius(BorderRadiusType::Round), 9999);

    let dark = apply_theme(ThemeType::Dark, None);
    assert!(dark.dark);
    assert_eq!(dark.config.name, "Default Dark");
    assert_eq!(dark.get_color(ColorType::Info), Rgb { r: 0x7A, g: 0xA2, b: 0xF7 });
}

#[test]
fn custom_theme_falls_back_to_light() {
    let t = AppTheme::new(ThemeType::Custom("missing".to_string()), None);
    assert!(!t.dark);
    assert_eq!(t.config.name, "Default Light");

    let mut loaded = apply_theme(ThemeType::Dark, None).config;
    loaded.name = "Mine".to_string();
    loaded.colors.primary = "#000001".to_string();
    let t = AppTheme::new(ThemeType::Custom("mine".to_string()), Some(loaded));
    assert!(!t.dark);
    assert_eq!(t.config.name, "Mine");
    assert_eq!(t.get_color(ColorType::Primary), Rgb { r: 0, g: 0, b: 1 });
}

#[test]
fn settings_theme_names() {
    assert_eq!(Theme::Light.name(), "Light");
    assert_eq!(Theme::System.name(), "System");
    for t in [Theme::Light, Theme::Dark, Theme::System] {
        assert_eq!(Theme::from_setting(&t.setting()), t);
    }
    assert_eq!(Theme::from_setting("default"), Theme::System);
}

#[test]
fn config_defaults() {
    let c = Config::default();
    assert_eq!(c.auth_config.client_id, "your-client-id");
    assert_eq!(c.auth_config.redirect_uri, "http://localhost:8080/callback");
    assert_eq!(c.theme, "default");
    assert_eq!(c.language, "en");
    assert!(!c.offline_mode);
}

#[test]
fn navigation_history() {
    let mut n = Navigation::new(Screen::Home);
    n.navigate_to(Screen::Search);
    n.navigate_to(Screen::Search);
    n.navigate_to(Screen::Details(5));
    assert_eq!(n.current, Screen::Details(5));
    assert_eq!(n.history, vec![Screen::Home, Screen::Search]);
    n.navigate_to(Screen::Profile("bob".to_string()));
    n.go_back();
    assert_eq!(n.current, Screen::Details(5));
    n.go_back();
    n.go_back();
    assert_eq!(n.current, Screen::Home);
    n.go_back();
    assert_eq!(n.current, Screen::Home);
    assert!(n.history.is_empty());
}

#[test]
fn login_component_states() {
    assert!(State::login_completed(Ok("ann".to_string())).is_authenticated());
    assert_eq!(
        State::login_completed(Err("no".to_string())),
        State::Failed { error: "no".to_string() }
    );
    assert_eq!(State::logout_completed(Ok(())), State::Idle);
    assert!(!State::LoggingOut.is_authenticated());
}

#[test]
fn user_stats_keeps_user() {
    let user = User { id: 3, name: "ann".to_string(), avatar: None, banner_image: None };
    let stats = UserStats::new(user);
    assert_eq!(stats.user.id, 3);
    assert_eq!(stats.user.name, "ann");
}
