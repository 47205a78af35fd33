//! The settings that are kept between runs.

use crate::blacklist::Blacklist;
use crate::followed::FollowedTag;
use vstd::prelude::*;
use vstd::string::*;

verus! {

/// What stands for a switch that is missing from the settings file and is on
/// unless switched off.
pub fn _default_true() -> (on: bool)
    ensures
        on,
{
    true
}

/// What stands for a switch that is missing from the settings file and is off
/// unless switched on.
pub fn _default_false() -> (on: bool)
    ensures
        !on,
{
    false
}

/// How many posts a row of the grid holds unless the settings say otherwise.
pub fn default_ppr() -> (posts: usize)
    ensures
        posts == 5,
{
    5
}

/// How wide a tile of the grid is unless the settings say otherwise.
pub fn default_tile_width() -> (width: usize)
    ensures
        width == 180,
{
    180
}

/// Why the settings could not be loaded or saved.
#[derive(Clone, Copy, Debug, PartialEq, Eq, Structural)]
pub enum ConfigError {
    /// The directory of the settings is not known.
    LoadPathError,
    /// The file could not be read or written.
    IOError,
    /// The file is no TOML, or not that of the settings.
    TomlDeError,
    /// The settings could not be written as TOML.
    TomlSerError,
}

impl ConfigError {
    /// What went wrong, in words.
    pub fn to_string(&self) -> (text: String)
        ensures
            text@ == (match self {
                ConfigError::LoadPathError => "couldn't get config path"@,
                ConfigError::IOError => "IO error"@,
                ConfigError::TomlDeError => "TOML deserialize error"@,
                ConfigError::TomlSerError => "TOML serialize error"@,
            }),
    {
        match self {
            ConfigError::LoadPathError => String::from_str("couldn't get config path"),
            ConfigError::IOError => String::from_str("IO error"),
            ConfigError::TomlDeError => String::from_str("TOML deserialize error"),
            ConfigError::TomlSerError => String::from_str("TOML serialize error"),
        }
    }
}

/// The colors of the program.
#[derive(Clone, Copy, Debug, PartialEq, Eq, Structural)]
pub enum MsgTheme {
    Light,
    Dark,
}

impl Default for MsgTheme {
    fn default() -> (theme: Self)
        ensures
            theme == MsgTheme::Dark,
    {
        MsgTheme::Dark
    }
}

impl MsgTheme {
    /// The name of the theme.
    pub fn to_string(&self) -> (name: String)
        ensures
            name@ == (match self {
                MsgTheme::Dark => "Dark"@,
                MsgTheme::Light => "Light"@,
            }),
    {
        match self {
            MsgTheme::Dark => String::from_str("Dark"),
            MsgTheme::Light => String::from_str("Light"),
        }
    }
}

/// The account on the board.
#[derive(PartialEq)]
pub struct Auth {
    pub username: String,
    pub api_key: String,
}

impl Default for Auth {
    fn default() -> (auth: Self)
        ensures
            auth.username@ == Seq::<char>::empty(),
            auth.api_key@ == Seq::<char>::empty(),
    {
        Auth { username: String::new(), api_key: String::new() }
    }
}

impl Clone for Auth {
    fn clone(&self) -> (copy: Self)
        ensures
            copy == *self,
    {
        Auth { username: self.username.clone(), api_key: self.api_key.clone() }
    }
}

impl Auth {
    /// The account as a log may show it: the user's name, and in place of
    /// the key a word that says that it is withheld.
    pub fn redacted(&self) -> (text: String)
        ensures
            text@ == "Auth { username: \""@ + self.username@ + "\", api_key: \"<redacted>\" }"@,
    {
        let mut text = String::from_str("Auth { username: \"");
        text.append(self.username.as_str());
        text.append("\", api_key: \"<redacted>\" }");
        text
    }
}

/// How the posts are shown.
#[derive(Clone, Copy, Debug, PartialEq, Eq, Structural)]
pub struct ViewConfig {
    pub theme: MsgTheme,
    /// How many posts a row of the grid holds at most.
    pub posts_per_row: usize,
    /// How wide a tile of the grid is.
    pub tile_width: usize,
    /// Whether the sample image of a post is fetched when the post is shown.
    pub download_sample: bool,
    /// Whether the full image of a post is fetched when the post is shown.
    pub download_fullsize: bool,
}

impl Default for ViewConfig {
    fn default() -> (view: Self)
        ensures
            view == (ViewConfig {
                theme: MsgTheme::Dark,
                posts_per_row: 5,
                tile_width: 180,
                download_sample: false,
                download_fullsize: true,
            }),
    {
        ViewConfig {
            theme: MsgTheme::Dark,
            posts_per_row: default_ppr(),
            tile_width: default_tile_width(),
            download_sample: _default_false(),
            download_fullsize: _default_true(),
        }
    }
}

/// The settings.
#[derive(Clone, PartialEq)]
pub struct Config {
    pub auth: Option<Auth>,
    pub blacklist: Blacklist,
    pub followed_tags: Vec<FollowedTag>,
    pub view: ViewConfig,
}

/// Whether `config` is the settings of a first run: no account, nothing
/// blacklisted, nothing followed, and the view as it is by default.
pub open spec fn is_default_config(config: Config) -> bool {
    &&& config.auth is None
    &&& config.blacklist.rules@.len() == 0
    &&& config.followed_tags@.len() == 0
    &&& config.view == (ViewConfig {
        theme: MsgTheme::Dark,
        posts_per_row: 5,
        tile_width: 180,
        download_sample: false,
        download_fullsize: true,
    })
}

impl Default for Config {
    fn default() -> (config: Self)
        ensures
            is_default_config(config),
    {
        Config {
            auth: None,
            blacklist: Blacklist { rules: Vec::new() },
            followed_tags: Vec::new(),
            view: ViewConfig::default(),
        }
    }
}

impl Config {
    /// The settings to start with: those that were loaded, or those of a
    /// first run where loading failed.
    pub fn new(loaded: Result<Config, ConfigError>) -> (config: Config)
        ensures
            match loaded {
                Ok(found) => config == found,
                Err(_) => is_default_config(config),
            },
    {
        match loaded {
            Ok(found) => found,
            Err(_) => Config::default(),
        }
    }

    /// The file of the settings in `config_dir`.
    pub fn file_in(config_dir: &str) -> (path: String)
        ensures
            path@ == config_dir@ + "/config.toml"@,
    {
        let mut path = String::from_str(config_dir);
        path.append("/config.toml");
        path
    }
}

/// The directory of the settings: the one that the system names, or an error
/// where it names none.
pub fn config_path(config_dir: Option<String>) -> (path: Result<String, ConfigError>)
    ensures
        match config_dir {
            Some(dir) => path == Ok::<String, ConfigError>(dir),
            None => path == Err::<String, ConfigError>(ConfigError::LoadPathError),
        },
{
    match config_dir {
        Some(dir) => Ok(dir),
        None => Err(ConfigError::LoadPathError),
    }
}

} // verus!
