//! Laws the resolution engine obeys, proved once and for all inputs.

use vstd::prelude::*;
use crate::error::OptionsError;
use crate::file_name::{
    classify_outcome, hyperlinks_outcome, options_outcome, quote_style_outcome,
    show_icons_outcome, Options, ShowIcons,
};
use crate::numbers::{parse_u32_outcome, ParseError};
use crate::parser::{flag_value, has_flag, Flag};
use crate::vars::{fallback_value, var_value};

verus! {

/// A flag that occurs nowhere in the snapshot carries no value either.
proof fn lemma_no_flag_no_value(fs: Seq<(Flag, Option<String>)>, flag: Flag)
    requires
        !has_flag(fs, flag),
    ensures
        flag_value(fs, flag) is None,
    decreases fs.len(),
{
    if fs.len() > 0 {
        assert(fs[fs.len() - 1].0 != flag);
        assert(!has_flag(fs.drop_last(), flag)) by {
            assert(forall|i: int|
                0 <= i < fs.len() - 1 ==> (#[trigger] fs.drop_last()[i]) == fs[i]);
        }
        lemma_no_flag_no_value(fs.drop_last(), flag);
    }
}

/// The icon mode tokens are pairwise distinct words.
proof fn lemma_icon_tokens_distinct()
    ensures
        "never"@ != "always"@,
        "never"@ != "auto"@,
        "never"@ != "automatic"@,
        "auto"@ != "always"@,
        "automatic"@ != "always"@,
{
    reveal_strlit("never");
    reveal_strlit("always");
    reveal_strlit("auto");
    reveal_strlit("automatic");
    assert("never"@.len() == 5);
    assert("always"@.len() == 6);
    assert("auto"@.len() == 4);
    assert("automatic"@.len() == 9);
}

/// When no icons flag or value was supplied at all, icons resolve to
/// `Never`, whatever the variables hold — even a malformed spacing value.
pub proof fn lemma_icons_unflagged_never(fs: Seq<(Flag, Option<String>)>, vs: Seq<(String, String)>)
    requires
        !has_flag(fs, Flag::Icons),
    ensures
        show_icons_outcome(fs, vs) == Ok::<ShowIcons, OptionsError>(ShowIcons::Never),
{
    lemma_no_flag_no_value(fs, Flag::Icons);
}

/// With the icons token explicitly `never`, resolution succeeds whatever
/// the variables hold: the spacing value is never consulted, so a
/// malformed one raises no error.
pub proof fn lemma_icons_never_short_circuits(
    fs: Seq<(Flag, Option<String>)>,
    vs: Seq<(String, String)>,
    word: String,
)
    requires
        flag_value(fs, Flag::Icons) == Some(word),
        word@ == "never"@,
    ensures
        show_icons_outcome(fs, vs) == Ok::<ShowIcons, OptionsError>(ShowIcons::Never),
{
    lemma_icon_tokens_distinct();
}

/// With icons in effect (token `always`, `auto` or `automatic`, or the
/// flag given without a token), a spacing value that fails integer parsing
/// fails the whole resolution, carrying the original string and the parse
/// failure.
pub proof fn lemma_icons_spacing_parse_error(
    fs: Seq<(Flag, Option<String>)>,
    vs: Seq<(String, String)>,
    raw: String,
    e: ParseError,
)
    requires
        has_flag(fs, Flag::Icons),
        flag_value(fs, Flag::Icons) matches Some(w) ==> (w@ == "always"@ || w@ == "auto"@
            || w@ == "automatic"@),
        fallback_value(vs, "EZA_ICON_SPACING"@, "EXA_ICON_SPACING"@) == Some(raw),
        parse_u32_outcome(raw@) == Err::<u32, ParseError>(e),
    ensures
        show_icons_outcome(fs, vs) matches Err(OptionsError::FailedParse(bad, _, detail))
            && bad == raw && detail == e,
{
    lemma_icon_tokens_distinct();
}

/// The quote-style environment variable, once set, decides alone: the
/// command line plays no part in the outcome.
pub proof fn lemma_quote_env_wins(
    fs1: Seq<(Flag, Option<String>)>,
    fs2: Seq<(Flag, Option<String>)>,
    vs: Seq<(String, String)>,
)
    requires
        var_value(vs, "EZA_QUOTE_STYLE"@) is Some,
    ensures
        quote_style_outcome(fs1, vs) == quote_style_outcome(fs2, vs),
{
}

/// A set quote-style variable never causes an error, whatever it holds:
/// environment input degrades to `Auto`, it is not validated strictly.
pub proof fn lemma_quote_env_lenient(fs: Seq<(Flag, Option<String>)>, vs: Seq<(String, String)>)
    requires
        var_value(vs, "EZA_QUOTE_STYLE"@) is Some,
    ensures
        quote_style_outcome(fs, vs) is Ok,
{
}

/// Classify is a pure function of the presence of its flag: two snapshots
/// that agree on that presence resolve it alike.
pub proof fn lemma_classify_presence_only(
    fs1: Seq<(Flag, Option<String>)>,
    fs2: Seq<(Flag, Option<String>)>,
)
    requires
        has_flag(fs1, Flag::Classify) == has_flag(fs2, Flag::Classify),
    ensures
        classify_outcome(fs1) == classify_outcome(fs2),
{
}

/// EmbedHyperlinks is a pure function of the presence of its flag: two
/// snapshots that agree on that presence resolve it alike.
pub proof fn lemma_hyperlinks_presence_only(
    fs1: Seq<(Flag, Option<String>)>,
    fs2: Seq<(Flag, Option<String>)>,
)
    requires
        has_flag(fs1, Flag::Hyperlink) == has_flag(fs2, Flag::Hyperlink),
    ensures
        hyperlinks_outcome(fs1) == hyperlinks_outcome(fs2),
{
}

/// Resolution is deterministic: two results obtained from byte-identical
/// flag and variable snapshots are equal aggregates.
pub proof fn lemma_deduce_deterministic(
    r1: Result<Options, OptionsError>,
    r2: Result<Options, OptionsError>,
    fs: Seq<(Flag, Option<String>)>,
    vs: Seq<(String, String)>,
    is_a_tty: bool,
)
    requires
        r1 == options_outcome(fs, vs, is_a_tty),
        r2 == options_outcome(fs, vs, is_a_tty),
    ensures
        r1 == r2,
{
}

} // verus!
