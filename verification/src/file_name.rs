//! The per-option deducers and the resolved aggregate.
//!
//! Each deducer is a pure function from the flag and variable snapshots to a
//! typed, validated value or a classified failure, and each has its own
//! precedence order:
//!
//! - `Classify` and `EmbedHyperlinks` look at flag presence alone;
//! - `ShowIcons` interprets an optional mode token and, unless icons are
//!   explicitly disabled, a numeric spacing variable with a legacy alias;
//! - `QuoteStyle` consults the environment first — leniently — and only
//!   then the flag value, strictly.

use vstd::prelude::*;
use crate::error::{NumberSource, OptionsError};
use crate::numbers::{parse_u32, parse_u32_outcome};
use crate::parser::{flag_value, has_flag, Flag, MatchedFlags};
use crate::strings::str_eq;
use crate::vars::{fallback_source, fallback_value, var_value, Vars};

verus! {

/// Whether file names get a type-indicator suffix.
#[derive(Debug, Clone, Copy, PartialEq, Eq, Structural)]
pub enum Classify {
    /// Plain names.
    JustFilenames,
    /// Append file-type indicator suffixes to names.
    AddFileIndicators,
}

/// Whether icons are shown before file names, and with how many columns of
/// spacing.
#[derive(Debug, Clone, Copy, PartialEq, Eq, Structural)]
pub enum ShowIcons {
    /// No icons.
    Never,
    /// Icons when the output is a terminal, with the given spacing width.
    Automatic(u32),
    /// Icons unconditionally, with the given spacing width.
    Always(u32),
}

/// How file names are quoted.
#[derive(Debug, Clone, Copy, PartialEq, Eq, Structural)]
pub enum QuoteStyle {
    /// Always quote.
    Always,
    /// Never quote.
    Never,
    /// Quote when needed.
    Auto,
}

/// Whether hyperlinks are embedded in file names.
#[derive(Debug, Clone, Copy, PartialEq, Eq, Structural)]
pub enum EmbedHyperlinks {
    /// No hyperlinks.
    Off,
    /// Embed a hyperlink in each name.
    On,
}

/// The resolved, immutable bundle of file-name display settings.
///
/// Constructed once per invocation by `Options::deduce` and never mutated
/// afterwards; once built, it fully determines rendering behaviour.
#[derive(Debug, Clone, Copy, PartialEq, Eq, Structural)]
pub struct Options {
    /// Whether names get a type-indicator suffix.
    pub classify: Classify,
    /// Whether and how icons are shown.
    pub show_icons: ShowIcons,
    /// How names are quoted.
    pub quote_style: QuoteStyle,
    /// Whether hyperlinks are embedded.
    pub embed_hyperlinks: EmbedHyperlinks,
    /// Whether output is attached to an interactive display.
    pub is_a_tty: bool,
}

/// What `Classify::deduce` returns: presence of the classify flag alone
/// decides.
pub open spec fn classify_outcome(fs: Seq<(Flag, Option<String>)>) -> Classify {
    if has_flag(fs, Flag::Classify) {
        Classify::AddFileIndicators
    } else {
        Classify::JustFilenames
    }
}

/// What `EmbedHyperlinks::deduce` returns: presence of the hyperlink flag
/// alone decides.
pub open spec fn hyperlinks_outcome(fs: Seq<(Flag, Option<String>)>) -> EmbedHyperlinks {
    if has_flag(fs, Flag::Hyperlink) {
        EmbedHyperlinks::On
    } else {
        EmbedHyperlinks::Off
    }
}

/// The resolved icon-spacing width: the spacing variable (current key, then
/// the legacy alias) parsed as an integer when set, 1 when unset; a value
/// that fails to parse is a `FailedParse` carrying the raw string and the
/// key that supplied it.
pub open spec fn spacing_outcome(vs: Seq<(String, String)>) -> Result<u32, OptionsError> {
    match fallback_value(vs, "EZA_ICON_SPACING"@, "EXA_ICON_SPACING"@) {
        Some(raw) => match parse_u32_outcome(raw@) {
            Ok(w) => Ok(w),
            Err(e) => Err(
                OptionsError::FailedParse(
                    raw,
                    NumberSource::Env(
                        fallback_source(vs, "EZA_ICON_SPACING"@, "EXA_ICON_SPACING"@).unwrap(),
                    ),
                    e,
                ),
            ),
        },
        None => Ok(1),
    }
}

/// An icon mode together with the resolved spacing width, or the spacing
/// failure.
pub open spec fn icons_with_spacing(vs: Seq<(String, String)>, always: bool) -> Result<
    ShowIcons,
    OptionsError,
> {
    match spacing_outcome(vs) {
        Ok(w) => Ok(
            if always {
                ShowIcons::Always(w)
            } else {
                ShowIcons::Automatic(w)
            },
        ),
        Err(e) => Err(e),
    }
}

/// What `ShowIcons::deduce` returns. When the icons flag was not supplied
/// at all, icons are off and the spacing variable is never consulted; an
/// explicit "never" token short-circuits the same way.
pub open spec fn show_icons_outcome(
    fs: Seq<(Flag, Option<String>)>,
    vs: Seq<(String, String)>,
) -> Result<ShowIcons, OptionsError> {
    let mode_opt = flag_value(fs, Flag::Icons);
    if !has_flag(fs, Flag::Icons) && mode_opt is None {
        Ok(ShowIcons::Never)
    } else {
        match mode_opt {
            Some(word) => {
                if word@ == "always"@ {
                    icons_with_spacing(vs, true)
                } else if word@ == "auto"@ || word@ == "automatic"@ {
                    icons_with_spacing(vs, false)
                } else if word@ == "never"@ {
                    Ok(ShowIcons::Never)
                } else {
                    Err(OptionsError::BadArgument(Flag::Icons, word))
                }
            },
            None => icons_with_spacing(vs, false),
        }
    }
}

/// What `QuoteStyle::deduce` returns. The environment variable is checked
/// first and, when set at all, wins outright: recognized tokens map
/// directly and anything else degrades to `Auto` — never an error. Only
/// when it is absent is the flag value consulted, strictly: an
/// unrecognized token is a `BadArgument`.
pub open spec fn quote_style_outcome(
    fs: Seq<(Flag, Option<String>)>,
    vs: Seq<(String, String)>,
) -> Result<QuoteStyle, OptionsError> {
    match var_value(vs, "EZA_QUOTE_STYLE"@) {
        Some(env) => {
            if env@ == "always"@ {
                Ok(QuoteStyle::Always)
            } else if env@ == "never"@ {
                Ok(QuoteStyle::Never)
            } else {
                Ok(QuoteStyle::Auto)
            }
        },
        None => match flag_value(fs, Flag::Quotes) {
            Some(word) => {
                if word@ == "always"@ {
                    Ok(QuoteStyle::Always)
                } else if word@ == "never"@ {
                    Ok(QuoteStyle::Never)
                } else if word@ == "auto"@ {
                    Ok(QuoteStyle::Auto)
                } else {
                    Err(OptionsError::BadArgument(Flag::Quotes, word))
                }
            },
            None => Ok(QuoteStyle::Auto),
        },
    }
}

/// What `Options::deduce` returns: every deducer consulted once, the first
/// failure — in the fixed order icons, then quote style — surfaced alone,
/// and no partial aggregate ever built.
pub open spec fn options_outcome(
    fs: Seq<(Flag, Option<String>)>,
    vs: Seq<(String, String)>,
    is_a_tty: bool,
) -> Result<Options, OptionsError> {
    match show_icons_outcome(fs, vs) {
        Err(e) => Err(e),
        Ok(show_icons) => match quote_style_outcome(fs, vs) {
            Err(e) => Err(e),
            Ok(quote_style) => Ok(
                Options {
                    classify: classify_outcome(fs),
                    show_icons,
                    quote_style,
                    embed_hyperlinks: hyperlinks_outcome(fs),
                    is_a_tty,
                },
            ),
        },
    }
}

impl Classify {
    /// Resolves the classify setting from flag presence alone; it cannot
    /// fail.
    pub fn deduce(matches: &MatchedFlags) -> (r: Result<Classify, OptionsError>)
        ensures
            r == Ok::<Classify, OptionsError>(classify_outcome(matches@)),
    {
        if matches.has(Flag::Classify) {
            Ok(Classify::AddFileIndicators)
        } else {
            Ok(Classify::JustFilenames)
        }
    }
}

impl EmbedHyperlinks {
    /// Resolves the hyperlink setting from flag presence alone; it cannot
    /// fail.
    pub fn deduce(matches: &MatchedFlags) -> (r: Result<EmbedHyperlinks, OptionsError>)
        ensures
            r == Ok::<EmbedHyperlinks, OptionsError>(hyperlinks_outcome(matches@)),
    {
        if matches.has(Flag::Hyperlink) {
            Ok(EmbedHyperlinks::On)
        } else {
            Ok(EmbedHyperlinks::Off)
        }
    }
}

impl ShowIcons {
    /// Resolves the icons setting: an optional mode token, then — unless
    /// icons end up off — the spacing width from the variables.
    pub fn deduce(matches: &MatchedFlags, vars: &Vars) -> (r: Result<ShowIcons, OptionsError>)
        ensures
            r == show_icons_outcome(matches@, vars@),
    {
        let mode_opt = matches.get(Flag::Icons);
        if !matches.has(Flag::Icons) && mode_opt.is_none() {
            return Ok(ShowIcons::Never);
        }
        let always: bool = match &mode_opt {
            Some(word) => {
                if str_eq(word.as_str(), "always") {
                    true
                } else if str_eq(word.as_str(), "auto") || str_eq(word.as_str(), "automatic") {
                    false
                } else if str_eq(word.as_str(), "never") {
                    return Ok(ShowIcons::Never);
                } else {
                    return Err(OptionsError::BadArgument(Flag::Icons, word.clone()));
                }
            },
            None => false,
        };
        let width: u32 = match vars.get_with_fallback("EZA_ICON_SPACING", "EXA_ICON_SPACING") {
            Some(columns) => match parse_u32(columns.as_str()) {
                Ok(w) => w,
                Err(e) => {
                    let source = vars.source("EZA_ICON_SPACING", "EXA_ICON_SPACING");
                    return Err(
                        OptionsError::FailedParse(columns, NumberSource::Env(source.unwrap()), e),
                    );
                },
            },
            None => 1,
        };
        if always {
            Ok(ShowIcons::Always(width))
        } else {
            Ok(ShowIcons::Automatic(width))
        }
    }
}

impl QuoteStyle {
    /// Resolves the quote style: the environment variable leniently first,
    /// the flag value strictly second, `Auto` when neither is given.
    pub fn deduce(matches: &MatchedFlags, vars: &Vars) -> (r: Result<QuoteStyle, OptionsError>)
        ensures
            r == quote_style_outcome(matches@, vars@),
    {
        match vars.get("EZA_QUOTE_STYLE") {
            Some(env) => {
                if str_eq(env.as_str(), "always") {
                    Ok(QuoteStyle::Always)
                } else if str_eq(env.as_str(), "never") {
                    Ok(QuoteStyle::Never)
                } else {
                    Ok(QuoteStyle::Auto)
                }
            },
            None => match matches.get(Flag::Quotes) {
                Some(word) => {
                    if str_eq(word.as_str(), "always") {
                        Ok(QuoteStyle::Always)
                    } else if str_eq(word.as_str(), "never") {
                        Ok(QuoteStyle::Never)
                    } else if str_eq(word.as_str(), "auto") {
                        Ok(QuoteStyle::Auto)
                    } else {
                        Err(OptionsError::BadArgument(Flag::Quotes, word))
                    }
                },
                None => Ok(QuoteStyle::Auto),
            },
        }
    }
}

impl Options {
    /// Resolves every setting once, in a fixed order, and bundles them with
    /// the "is output a live terminal" bit; the first failure is surfaced
    /// and no partial aggregate is ever returned.
    pub fn deduce(matches: &MatchedFlags, vars: &Vars, is_a_tty: bool) -> (r: Result<
        Options,
        OptionsError,
    >)
        ensures
            r == options_outcome(matches@, vars@, is_a_tty),
    {
        let classify = match Classify::deduce(matches) {
            Ok(c) => c,
            Err(e) => {
                return Err(e);
            },
        };
        let show_icons = match ShowIcons::deduce(matches, vars) {
            Ok(s) => s,
            Err(e) => {
                return Err(e);
            },
        };
        let quote_style = match QuoteStyle::deduce(matches, vars) {
            Ok(q) => q,
            Err(e) => {
                return Err(e);
            },
        };
        let embed_hyperlinks = match EmbedHyperlinks::deduce(matches) {
            Ok(h) => h,
            Err(e) => {
                return Err(e);
            },
        };
        Ok(Options { classify, show_icons, quote_style, embed_hyperlinks, is_a_tty })
    }
}

} // verus!
