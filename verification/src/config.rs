//! The configuration: an ordered list of handlers, and where the handler
//! scripts live on disk.

use vstd::prelude::*;
use vstd::string::*;

verus! {

/// One entry of the configuration: URLs whose text matches `pattern` are
/// handed to the script called `script`.
pub struct Handler {
    pub pattern: String,
    pub script: String,
}

/// The mathematical content of a `Handler`: its two strings as character
/// sequences.
pub struct HandlerView {
    pub pattern: Seq<char>,
    pub script: Seq<char>,
}

impl View for Handler {
    type V = HandlerView;

    open spec fn view(&self) -> HandlerView {
        HandlerView { pattern: self.pattern@, script: self.script@ }
    }
}

/// The handler list read from the configuration file. Order is significant:
/// the first handler whose pattern matches wins. An empty list is valid and
/// means every URL falls through to the default handler.
pub struct Config {
    pub handlers: Vec<Handler>,
}

impl View for Config {
    type V = Seq<HandlerView>;

    open spec fn view(&self) -> Seq<HandlerView> {
        self.handlers@.map_values(|h: Handler| h@)
    }
}

#[verifier::external_type_specification]
#[verifier::external_body]
pub struct ExPathBuf(std::path::PathBuf);

#[verifier::external_type_specification]
#[verifier::external_body]
pub struct ExBaseDirectories(xdg::BaseDirectories);

/// Relies on xdg::BaseDirectories::with_prefix: reads the process environment
/// and determines the XDG base directories, with every later lookup
/// namespaced by `prefix`. The result depends on the environment, so nothing
/// is claimed of it.
#[verifier::external_body]
fn base_directories(prefix: &str) -> xdg::BaseDirectories {
    xdg::BaseDirectories::with_prefix(prefix)
}

/// Relies on xdg::BaseDirectories::find_config_file: returns the absolute
/// path of an existing configuration file found under the relative path
/// `rel`, or `None` when no such file exists. The result depends on the file
/// system, so nothing is claimed of it.
#[verifier::external_body]
fn find_config_file(dirs: &xdg::BaseDirectories, rel: &String) -> Option<std::path::PathBuf> {
    dirs.find_config_file(rel.as_str())
}

impl Config {
    /// Resolves a script name to the path of an existing file named after it
    /// under the `scripts/` subdirectory of this application's configuration
    /// root, or `None` when the script is not installed there. Absence is not
    /// an error here; the caller decides whether a resolution was required.
    pub fn get_script_path(script_name: &String) -> Option<std::path::PathBuf> {
        let dirs = base_directories("open-url");
        let rel = String::from_str("scripts/").concat(script_name.as_str());
        find_config_file(&dirs, &rel)
    }

    /// Where the configuration file lives, if anywhere: an existing
    /// `config.toml` under this application's configuration root. A missing
    /// file is not an error; it stands for an empty handler list.
    pub fn get_config_path() -> Option<std::path::PathBuf> {
        let dirs = base_directories("open-url");
        let rel = String::from_str("config.toml");
        find_config_file(&dirs, &rel)
    }
}

} // verus!
