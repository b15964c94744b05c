//! The theme/config loader: where the theme file lives and how its text
//! becomes a style document.
//!
//! Loading is best-effort by design: a missing configuration home, an
//! unreadable file and a malformed document all collapse to "no theme", and
//! never abort resolution. Reading the file itself is I/O and stays with the
//! caller; this module resolves the path and interprets the contents.

use vstd::prelude::*;
use vstd::string::StringExecFns;

verus! {

/// Where the theme file is looked for.
#[derive(Debug, PartialEq, Eq, Default)]
pub enum ConfigLoc {
    /// The platform configuration-home directory, under a fixed subpath.
    #[default]
    Default,
    /// An explicit path taken from the environment.
    Env(String),
}

/// The resolved theme-file location; asked at most once for a style
/// document, which may be absent.
#[derive(Debug, PartialEq, Eq, Default)]
pub struct ThemeConfig {
    /// Where to look for the theme file.
    pub location: ConfigLoc,
}

/// Relies on serde_yaml::Value: an arbitrary parsed YAML document, carried
/// opaquely as the style document.
#[verifier::external_type_specification]
#[verifier::external_body]
pub struct ExValue(serde_yaml::Value);

/// Whether serde_yaml parses the text as a YAML document.
pub uninterp spec fn yaml_well_formed(s: Seq<char>) -> bool;

/// Relies on serde_yaml::from_str: whether a string parses as a YAML
/// document is a function of its characters alone.
#[verifier::external_body]
fn parse_style_document(s: &str) -> (r: Option<serde_yaml::Value>)
    ensures
        r is Some <==> yaml_well_formed(s@),
{
    serde_yaml::from_str(s).ok()
}

/// Relies on dirs::config_dir: the platform configuration-home directory.
/// The outcome depends on the environment, so nothing is promised of it;
/// a directory whose name is not valid character data counts as absent.
#[verifier::external_body]
fn platform_config_home() -> (r: Option<String>) {
    dirs::config_dir().and_then(|p| p.into_os_string().into_string().ok())
}

/// The path the theme file is read from, given a location and a
/// configuration home: an explicit `Env` path as given; the `Default`
/// location under the home, at the fixed subpath; no home, no path.
pub open spec fn theme_path_view(loc: ConfigLoc, home: Option<String>) -> Option<Seq<char>> {
    match loc {
        ConfigLoc::Env(path) => Some(path@),
        ConfigLoc::Default => match home {
            Some(h) => Some(h@ + "/eza/theme.yml"@),
            None => None,
        },
    }
}

impl ThemeConfig {
    /// The path of the theme file under the given configuration home.
    pub fn theme_file_path(&self, config_home: Option<String>) -> (r: Option<String>)
        ensures
            r.deep_view() == theme_path_view(self.location, config_home),
    {
        match &self.location {
            ConfigLoc::Env(path) => Some(path.clone()),
            ConfigLoc::Default => match config_home {
                Some(home) => Some(home.concat("/eza/theme.yml")),
                None => None,
            },
        }
    }

    /// Resolves where the theme file would be read from. An explicit `Env`
    /// path is used exactly as given; the `Default` location asks the
    /// platform for its configuration home, which may be undeterminable —
    /// then there is no path, and so no theme.
    pub fn resolve_theme_path(&self) -> (r: Option<String>)
        ensures
            self.location matches ConfigLoc::Env(path) ==> r.deep_view() == Some(path@),
            self.location is Default ==> (r matches Some(p) ==> exists|h: Seq<char>|
                p@ == h + "/eza/theme.yml"@),
    {
        let home = platform_config_home();
        self.theme_file_path(home)
    }
}

/// The style document held in theme-file contents that may have failed to
/// be read: absent contents (a missing or unreadable file) and malformed
/// contents both collapse to "no theme", indistinguishably.
pub fn theme_from_contents(contents: Option<&str>) -> (r: Option<serde_yaml::Value>)
    ensures
        r is Some <==> (contents matches Some(s) && yaml_well_formed(s@)),
{
    match contents {
        Some(s) => parse_style_document(s),
        None => None,
    }
}

} // verus!
