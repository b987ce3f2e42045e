use vstd::prelude::*;

use crate::domain::Feed;

verus! {

/// The reader's configuration: the feeds to follow.
#[derive(Debug)]
pub struct AppConfig {
    pub feeds: Vec<FeedConfig>,
}

/// One feed as the configuration names it.
#[derive(Debug, Clone)]
pub struct FeedConfig {
    pub name: String,
    pub url: String,
    pub category: Option<String>,
    pub country: Option<String>,
}

/// Why no configuration file could be named.
#[derive(Debug, Clone, Copy, PartialEq, Eq, Structural)]
pub enum ConfigError {
    /// There is no local configuration and the system has no configuration
    /// directory.
    NoConfigDir,
}

/// The configuration file looked for first, relative to the working
/// directory.
pub const LOCAL_CONFIG_PATH: &'static str = "config/feeds.toml";

/// The directory of the reader inside the system configuration directory.
pub const APP_DIR_NAME: &'static str = "news-tui";

/// The name of the configuration file inside the reader's directory.
pub const CONFIG_FILE_NAME: &'static str = "feeds.toml";

impl From<FeedConfig> for Feed {
    fn from(fc: FeedConfig) -> (feed: Feed) {
        Feed { id: None, name: fc.name, url: fc.url, category: fc.category, country: fc.country }
    }
}

impl vstd::std_specs::convert::FromSpecImpl<FeedConfig> for Feed {
    open spec fn obeys_from_spec() -> bool {
        true
    }

    /// A configured feed becomes a feed without an id and with the same name,
    /// url, category and country.
    open spec fn from_spec(fc: FeedConfig) -> Feed {
        Feed { id: None, name: fc.name, url: fc.url, category: fc.category, country: fc.country }
    }
}

/// A path component that `Path::join` appends to a path: not empty, not
/// starting with `.`, and without separators or a drive prefix.
pub open spec fn plain_component(part: Seq<char>) -> bool {
    &&& part.len() > 0
    &&& part[0] != '.'
    &&& !part.contains('/')
    &&& !part.contains('\\')
    &&& !part.contains(':')
}

/// A path separator on some platform.
pub open spec fn separator(c: char) -> bool {
    c == '/' || c == '\\'
}

/// A Windows drive prefix alone, such as `C:`.
pub open spec fn bare_drive(path: Seq<char>) -> bool {
    path.len() == 2 && path[1] == ':'
}

/// A Windows verbatim path (`\\?\...`), which `PathBuf::push` rebuilds.
pub open spec fn verbatim_path(path: Seq<char>) -> bool {
    path.len() >= 4 && path[0] == '\\' && path[1] == '\\' && path[2] == '?' && path[3] == '\\'
}

/// `joined` is `base`, one separator and `part`.
pub open spec fn separated(base: Seq<char>, part: Seq<char>, joined: Seq<char>) -> bool {
    &&& joined.len() == base.len() + 1 + part.len()
    &&& separator(joined[base.len() as int])
    &&& joined == base.push(joined[base.len() as int]) + part
}

/// `joined` is what joining `part` to `base` gives on some platform: `base`
/// and `part`, with a separator between them unless `base` is empty, ends
/// in a separator or is a bare drive. Of a verbatim `base` nothing is said.
pub open spec fn joined_path(base: Seq<char>, part: Seq<char>, joined: Seq<char>) -> bool {
    !verbatim_path(base) ==> {
        &&& joined == base + part || separated(base, part, joined)
        &&& base.len() > 0 && !separator(base.last()) && !bare_drive(base) ==> separated(base, part, joined)
        &&& base.len() == 0 || base.last() == '/' ==> joined == base + part
    }
}

/// Calls `std::path::Path::join` on `base` and `part` and takes the result
/// as text. The documentation of `PathBuf::push` says that a relative
/// `part` without a root or prefix is adjoined to `base`, with a separator
/// added if needed: unless `base` is empty or ends in a separator (`/`, and
/// on Windows also `\`), or is a bare drive (`C:`) on Windows. Which
/// separator is added depends on the platform. A verbatim `base` is
/// normalised; nothing is stated of it. Both texts are valid UTF-8, so the
/// text of the result loses nothing.
#[verifier::external_body]
fn join_path(base: &str, part: &str) -> (joined: String)
    requires
        plain_component(part@),
    ensures
        joined_path(base@, part@, joined@),
{
    std::path::Path::new(base).join(part).to_string_lossy().into_owned()
}

/// The configuration file to read: the local one when it exists, else
/// `news-tui/feeds.toml` inside the system configuration directory, which
/// must be known.
pub fn resolve_config_path(local_exists: bool, config_dir: Option<String>) -> (path: Result<
    String,
    ConfigError,
>)
    ensures
        local_exists ==> (path matches Ok(p) && p@ == LOCAL_CONFIG_PATH@),
        !local_exists && config_dir is None ==> path == Err::<String, ConfigError>(
            ConfigError::NoConfigDir,
        ),
        !local_exists && config_dir is Some ==> (path matches Ok(p) && exists|app_dir: Seq<char>|
            #[trigger] joined_path(config_dir.unwrap()@, APP_DIR_NAME@, app_dir) && joined_path(
                app_dir,
                CONFIG_FILE_NAME@,
                p@,
            )),
{
    if local_exists {
        return Ok(String::from_str(LOCAL_CONFIG_PATH));
    }
    match config_dir {
        Some(dir) => {
            proof {
                reveal_strlit("news-tui");
                reveal_strlit("feeds.toml");
                assert(!APP_DIR_NAME@.contains('/'));
                assert(!APP_DIR_NAME@.contains('\\'));
                assert(!APP_DIR_NAME@.contains(':'));
                assert(!CONFIG_FILE_NAME@.contains('/'));
                assert(!CONFIG_FILE_NAME@.contains('\\'));
                assert(!CONFIG_FILE_NAME@.contains(':'));
            }
            let app_dir = join_path(dir.as_str(), APP_DIR_NAME);
            let file = join_path(app_dir.as_str(), CONFIG_FILE_NAME);
            assert(joined_path(dir@, APP_DIR_NAME@, app_dir@));
            Ok(file)
        },
        None => Err(ConfigError::NoConfigDir),
    }
}

} // verus!
