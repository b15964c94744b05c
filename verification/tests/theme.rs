use eza_options::config::{theme_from_contents, ConfigLoc, ThemeConfig};
use eza_options::grid::Options as GridOptions;

#[test]
fn unreadable_contents_yield_no_theme() {
    assert_eq!(theme_from_contents(None), None);
}

#[test]
fn malformed_contents_yield_no_theme() {
    assert_eq!(theme_from_contents(Some("{ not: [valid")), None);
    assert_eq!(theme_from_contents(Some(":\n:")), None);
}

#[test]
fn well_formed_contents_yield_their_parsed_document() {
    let text = "colours:\n  punctuation: red\nicons: true\n";
    let expected: serde_yaml::Value = serde_yaml::from_str(text).unwrap();
    assert_eq!(theme_from_contents(Some(text)), Some(expected));
    let other: serde_yaml::Value = serde_yaml::from_str("icons: false").unwrap();
    assert_ne!(theme_from_contents(Some(text)), Some(other));
}

#[test]
fn env_location_is_used_as_given() {
    let config = ThemeConfig {
        location: ConfigLoc::Env("/tmp/my-theme.yml".to_string()),
    };
    assert_eq!(
        config.theme_file_path(Some("/home/me/.config".to_string())),
        Some("/tmp/my-theme.yml".to_string())
    );
    assert_eq!(
        config.resolve_theme_path(),
        Some("/tmp/my-theme.yml".to_string())
    );
}

#[test]
fn default_location_joins_the_configuration_home() {
    let config = ThemeConfig {
        location: ConfigLoc::Default,
    };
    assert_eq!(
        config.theme_file_path(Some("/home/me/.config".to_string())),
        Some("/home/me/.config/eza/theme.yml".to_string())
    );
    assert_eq!(config.theme_file_path(None), None);
}

#[test]
fn direction_follows_across() {
    assert_eq!(
        GridOptions { across: true }.direction(),
        term_grid::Direction::LeftToRight
    );
    assert_eq!(
        GridOptions { across: false }.direction(),
        term_grid::Direction::TopToBottom
    );
}
