use eza_options::error::{NumberSource, OptionsError};
use eza_options::file_name::{Classify, EmbedHyperlinks, Options, QuoteStyle, ShowIcons};
use eza_options::numbers::ParseError;
use eza_options::parser::{Flag, MatchedFlags};
use eza_options::vars::Vars;

fn flags(entries: Vec<(Flag, Option<&str>)>) -> MatchedFlags {
    MatchedFlags::from_entries(
        entries
            .into_iter()
            .map(|(f, v)| (f, v.map(|s| s.to_string())))
            .collect(),
    )
}

fn vars(pairs: Vec<(&str, &str)>) -> Vars {
    Vars::from_pairs(
        pairs
            .into_iter()
            .map(|(k, v)| (k.to_string(), v.to_string()))
            .collect(),
    )
}

#[test]
fn icons_unflagged_is_never_even_with_malformed_spacing() {
    let m = flags(vec![(Flag::Classify, None)]);
    let v = vars(vec![("EZA_ICON_SPACING", "not-a-number")]);
    assert_eq!(ShowIcons::deduce(&m, &v), Ok(ShowIcons::Never));
}

#[test]
fn icons_never_token_short_circuits_malformed_spacing() {
    let m = flags(vec![(Flag::Icons, Some("never"))]);
    let v = vars(vec![("EZA_ICON_SPACING", "not-a-number")]);
    assert_eq!(ShowIcons::deduce(&m, &v), Ok(ShowIcons::Never));
}

#[test]
fn icons_always_with_malformed_spacing_fails_parse() {
    let m = flags(vec![(Flag::Icons, Some("always"))]);
    let v = vars(vec![("EZA_ICON_SPACING", "four")]);
    assert_eq!(
        ShowIcons::deduce(&m, &v),
        Err(OptionsError::FailedParse(
            "four".to_string(),
            NumberSource::Env("EZA_ICON_SPACING".to_string()),
            ParseError::InvalidDigit,
        ))
    );
}

#[test]
fn icons_auto_with_malformed_spacing_fails_parse() {
    let m = flags(vec![(Flag::Icons, Some("auto"))]);
    let v = vars(vec![("EXA_ICON_SPACING", "2x")]);
    assert_eq!(
        ShowIcons::deduce(&m, &v),
        Err(OptionsError::FailedParse(
            "2x".to_string(),
            NumberSource::Env("EXA_ICON_SPACING".to_string()),
            ParseError::InvalidDigit,
        ))
    );
}

#[test]
fn icons_modes_and_spacing_resolve() {
    let v = vars(vec![("EZA_ICON_SPACING", "3")]);
    let always = flags(vec![(Flag::Icons, Some("always"))]);
    assert_eq!(ShowIcons::deduce(&always, &v), Ok(ShowIcons::Always(3)));
    let auto = flags(vec![(Flag::Icons, Some("auto"))]);
    assert_eq!(ShowIcons::deduce(&auto, &v), Ok(ShowIcons::Automatic(3)));
    let automatic = flags(vec![(Flag::Icons, Some("automatic"))]);
    assert_eq!(ShowIcons::deduce(&automatic, &v), Ok(ShowIcons::Automatic(3)));
    let bare = flags(vec![(Flag::Icons, None)]);
    assert_eq!(ShowIcons::deduce(&bare, &v), Ok(ShowIcons::Automatic(3)));
}

#[test]
fn icons_spacing_defaults_to_one_and_primary_key_wins() {
    let bare = flags(vec![(Flag::Icons, None)]);
    assert_eq!(
        ShowIcons::deduce(&bare, &vars(vec![])),
        Ok(ShowIcons::Automatic(1))
    );
    let both = vars(vec![("EZA_ICON_SPACING", "4"), ("EXA_ICON_SPACING", "9")]);
    assert_eq!(ShowIcons::deduce(&bare, &both), Ok(ShowIcons::Automatic(4)));
    let legacy = vars(vec![("EXA_ICON_SPACING", "9")]);
    assert_eq!(ShowIcons::deduce(&bare, &legacy), Ok(ShowIcons::Automatic(9)));
}

#[test]
fn icons_bad_token_is_bad_argument() {
    let m = flags(vec![(Flag::Icons, Some("sometimes"))]);
    let v = vars(vec![]);
    assert_eq!(
        ShowIcons::deduce(&m, &v),
        Err(OptionsError::BadArgument(
            Flag::Icons,
            "sometimes".to_string()
        ))
    );
}

#[test]
fn quote_style_env_always_beats_conflicting_flag() {
    let m = flags(vec![(Flag::Quotes, Some("never"))]);
    let v = vars(vec![("EZA_QUOTE_STYLE", "always")]);
    assert_eq!(QuoteStyle::deduce(&m, &v), Ok(QuoteStyle::Always));
}

#[test]
fn quote_style_env_bogus_degrades_to_auto() {
    let m = flags(vec![(Flag::Quotes, Some("never"))]);
    let v = vars(vec![("EZA_QUOTE_STYLE", "bogus")]);
    assert_eq!(QuoteStyle::deduce(&m, &v), Ok(QuoteStyle::Auto));
}

#[test]
fn quote_style_flag_consulted_only_without_env() {
    let v = vars(vec![]);
    let never = flags(vec![(Flag::Quotes, Some("never"))]);
    assert_eq!(QuoteStyle::deduce(&never, &v), Ok(QuoteStyle::Never));
    let always = flags(vec![(Flag::Quotes, Some("always"))]);
    assert_eq!(QuoteStyle::deduce(&always, &v), Ok(QuoteStyle::Always));
    let auto = flags(vec![(Flag::Quotes, Some("auto"))]);
    assert_eq!(QuoteStyle::deduce(&auto, &v), Ok(QuoteStyle::Auto));
}

#[test]
fn quote_style_flag_bogus_is_bad_argument() {
    let m = flags(vec![(Flag::Quotes, Some("bogus"))]);
    let v = vars(vec![]);
    assert_eq!(
        QuoteStyle::deduce(&m, &v),
        Err(OptionsError::BadArgument(Flag::Quotes, "bogus".to_string()))
    );
}

#[test]
fn quote_style_defaults_to_auto() {
    assert_eq!(
        QuoteStyle::deduce(&flags(vec![]), &vars(vec![])),
        Ok(QuoteStyle::Auto)
    );
}

#[test]
fn classify_follows_flag_presence_and_is_idempotent() {
    let present = flags(vec![(Flag::Classify, None)]);
    let absent = flags(vec![]);
    assert_eq!(
        Classify::deduce(&present),
        Ok(Classify::AddFileIndicators)
    );
    assert_eq!(Classify::deduce(&absent), Ok(Classify::JustFilenames));
    assert_eq!(Classify::deduce(&present), Classify::deduce(&present));
    assert_eq!(Classify::deduce(&absent), Classify::deduce(&absent));
}

#[test]
fn hyperlinks_follow_flag_presence_and_are_idempotent() {
    let present = flags(vec![(Flag::Hyperlink, None)]);
    let absent = flags(vec![]);
    assert_eq!(EmbedHyperlinks::deduce(&present), Ok(EmbedHyperlinks::On));
    assert_eq!(EmbedHyperlinks::deduce(&absent), Ok(EmbedHyperlinks::Off));
    assert_eq!(
        EmbedHyperlinks::deduce(&present),
        EmbedHyperlinks::deduce(&present)
    );
}

#[test]
fn last_flag_value_wins() {
    let m = flags(vec![
        (Flag::Icons, Some("never")),
        (Flag::Icons, None),
        (Flag::Icons, Some("always")),
    ]);
    assert_eq!(m.get(Flag::Icons), Some("always".to_string()));
    assert!(m.has(Flag::Icons));
}

#[test]
fn aggregate_bundles_every_setting() {
    let m = flags(vec![
        (Flag::Classify, None),
        (Flag::Icons, Some("always")),
        (Flag::Quotes, Some("never")),
    ]);
    let v = vars(vec![("EZA_ICON_SPACING", "2")]);
    assert_eq!(
        Options::deduce(&m, &v, true),
        Ok(Options {
            classify: Classify::AddFileIndicators,
            show_icons: ShowIcons::Always(2),
            quote_style: QuoteStyle::Never,
            embed_hyperlinks: EmbedHyperlinks::Off,
            is_a_tty: true,
        })
    );
}

#[test]
fn aggregate_surfaces_first_failure_and_no_partial_result() {
    let m = flags(vec![
        (Flag::Icons, Some("always")),
        (Flag::Quotes, Some("bogus")),
    ]);
    let v = vars(vec![("EZA_ICON_SPACING", "oops")]);
    assert_eq!(
        Options::deduce(&m, &v, false),
        Err(OptionsError::FailedParse(
            "oops".to_string(),
            NumberSource::Env("EZA_ICON_SPACING".to_string()),
            ParseError::InvalidDigit,
        ))
    );
}

#[test]
fn resolving_twice_from_identical_snapshots_is_deterministic() {
    let m = flags(vec![
        (Flag::Icons, Some("auto")),
        (Flag::Hyperlink, None),
        (Flag::Quotes, Some("always")),
    ]);
    let v = vars(vec![("EZA_ICON_SPACING", "2"), ("EZA_QUOTE_STYLE", "x")]);
    assert_eq!(Options::deduce(&m, &v, true), Options::deduce(&m, &v, true));
    let m2 = flags(vec![
        (Flag::Icons, Some("auto")),
        (Flag::Hyperlink, None),
        (Flag::Quotes, Some("always")),
    ]);
    let v2 = vars(vec![("EZA_ICON_SPACING", "2"), ("EZA_QUOTE_STYLE", "x")]);
    assert_eq!(Options::deduce(&m, &v, true), Options::deduce(&m2, &v2, true));
}

#[test]
fn vars_report_which_key_supplied_the_value() {
    let v = vars(vec![("EXA_ICON_SPACING", "9")]);
    assert_eq!(
        v.source("EZA_ICON_SPACING", "EXA_ICON_SPACING"),
        Some("EXA_ICON_SPACING".to_string())
    );
    assert_eq!(
        v.get_with_fallback("EZA_ICON_SPACING", "EXA_ICON_SPACING"),
        Some("9".to_string())
    );
    assert_eq!(v.source("EZA_QUOTE_STYLE", "EZA_QUOTE_STYLE"), None);
}

#[test]
fn the_first_of_two_equal_keys_wins() {
    let v = vars(vec![("EZA_ICON_SPACING", "2"), ("EZA_ICON_SPACING", "5")]);
    assert_eq!(v.get("EZA_ICON_SPACING"), Some("2".to_string()));
}
