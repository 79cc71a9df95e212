//! Configuration record, its location on disk and the outcome of loading
//! and saving it.

use vstd::prelude::*;

verus! {

/// Name of the configuration file inside the configuration directory.
pub open spec fn config_file_name() -> Seq<char> {
    seq!['c', 'o', 'n', 'f', 'i', 'g', '.', 'j', 's', 'o', 'n']
}

/// `dir` joined with `name` the way a path join does it: nothing is added to
/// an empty directory, and a separator is added only where `dir` lacks one.
pub open spec fn join_path(dir: Seq<char>, name: Seq<char>) -> Seq<char> {
    if dir.len() == 0 {
        name
    } else if dir.last() == '/' {
        dir + name
    } else {
        dir + seq!['/'] + name
    }
}

/// Where the configuration file lives: inside the per-user configuration
/// directory when one was resolved, else relative to the working directory.
pub open spec fn config_path_for(dir: Option<Seq<char>>) -> Seq<char> {
    match dir {
        Some(d) => join_path(d, config_file_name()),
        None => config_file_name(),
    }
}

/// Path of the scratch file that a save writes before renaming it into place.
pub open spec fn temp_path_of(path: Seq<char>) -> Seq<char> {
    path + seq!['.', 't', 'm', 'p']
}

/// Host of the backend when the configuration does not name one.
pub open spec fn default_host() -> Seq<char> {
    seq!['1', '2', '7', '.', '0', '.', '0', '.', '1']
}

/// Port of the backend when the configuration does not name one.
pub const DEFAULT_PORT: u16 = 8318;

/// Health-check timeout, in milliseconds, when the configuration names none.
pub const DEFAULT_TIMEOUT_MS: u64 = 5000;

/// Settings from which a backend client is built.
#[derive(Clone, Debug)]
pub struct BackendConfig {
    pub host: String,
    pub port: u16,
    pub timeout_ms: u64,
}

/// The application configuration; only its `backend` part is read here.
#[derive(Clone, Debug)]
pub struct AppConfig {
    pub backend: BackendConfig,
}

/// Whether `c` holds the default value of every field.
pub open spec fn is_default_config(c: AppConfig) -> bool {
    &&& c.backend.host@ == default_host()
    &&& c.backend.port == DEFAULT_PORT
    &&& c.backend.timeout_ms == DEFAULT_TIMEOUT_MS
}

impl Default for BackendConfig {
    fn default() -> (r: Self)
        ensures
            r.host@ == default_host(),
            r.port == DEFAULT_PORT,
            r.timeout_ms == DEFAULT_TIMEOUT_MS,
    {
        let host = String::from_str("127.0.0.1");
        proof {
            reveal_strlit("127.0.0.1");
            assert(host@ =~= default_host());
        }
        BackendConfig { host, port: DEFAULT_PORT, timeout_ms: DEFAULT_TIMEOUT_MS }
    }
}

impl Default for AppConfig {
    fn default() -> (r: Self)
        ensures
            is_default_config(r),
    {
        AppConfig { backend: BackendConfig::default() }
    }
}

/// What the caller found when it looked for the configuration file.
#[derive(Clone, Debug)]
pub enum ConfigFile {
    /// No file at the configuration path.
    Absent,
    /// The file exists but could not be read; the cause in words.
    Unreadable(String),
    /// The file was read but does not parse; the cause in words.
    Malformed(String),
    /// The file was read and parsed.
    Parsed(AppConfig),
}

/// Failures of the configuration store; each names the file concerned.
#[derive(Clone, Debug)]
pub enum ConfigError {
    Read { path: String, detail: String },
    Parse { path: String, detail: String },
    Write { path: String, detail: String },
}

/// Owns the location of the configuration file, fixed at construction.
pub struct ConfigManager {
    config_path: String,
}

impl ConfigManager {
    pub closed spec fn path(&self) -> Seq<char> {
        self.config_path@
    }

    /// A store whose file lies in `config_dir`, or in the working directory
    /// when no per-user configuration directory could be resolved.
    pub fn new(config_dir: Option<&str>) -> (r: Self)
        ensures
            r.path() == config_path_for(
                match config_dir {
                    Some(d) => Some(d@),
                    None => None,
                },
            ),
    {
        let name = "config.json";
        proof {
            reveal_strlit("config.json");
            assert(name@ =~= config_file_name());
        }
        match config_dir {
            None => ConfigManager { config_path: name.to_owned() },
            Some(d) => {
                let n = d.unicode_len();
                let config_path = if n == 0 {
                    name.to_owned()
                } else if d.get_char(n - 1) == '/' {
                    d.to_owned().concat(name)
                } else {
                    d.to_owned().concat("/").concat(name)
                };
                proof {
                    reveal_strlit("/");
                    assert(config_path@ =~= join_path(d@, config_file_name()));
                }
                ConfigManager { config_path }
            },
        }
    }

    /// The path of the configuration file.
    pub fn get_config_path(&self) -> (r: &String)
        ensures
            r@ == self.path(),
    {
        &self.config_path
    }

    /// The scratch file that a save writes before renaming it over the
    /// configuration file, so that a reader never sees a partial file.
    pub fn temp_path(&self) -> (r: String)
        ensures
            r@ == temp_path_of(self.path()),
    {
        let r = self.config_path.clone().concat(".tmp");
        proof {
            reveal_strlit(".tmp");
            assert(r@ =~= temp_path_of(self.path()));
        }
        r
    }

    /// The configuration, from what was found at the configuration path:
    /// defaults when there is no file, the parsed record when there is one,
    /// and an error naming the path when it cannot be read or parsed.
    pub fn load(&self, found: ConfigFile) -> (r: Result<AppConfig, ConfigError>)
        ensures
            match found {
                ConfigFile::Absent => r is Ok && is_default_config(r->Ok_0),
                ConfigFile::Parsed(c) => r == Ok::<AppConfig, ConfigError>(c),
                ConfigFile::Unreadable(d) => match r {
                    Err(ConfigError::Read { path, detail }) => path@ == self.path() && detail == d,
                    _ => false,
                },
                ConfigFile::Malformed(d) => match r {
                    Err(ConfigError::Parse { path, detail }) => path@ == self.path() && detail == d,
                    _ => false,
                },
            },
    {
        match found {
            ConfigFile::Absent => Ok(AppConfig::default()),
            ConfigFile::Parsed(c) => Ok(c),
            ConfigFile::Unreadable(detail) => Err(
                ConfigError::Read { path: self.config_path.clone(), detail },
            ),
            ConfigFile::Malformed(detail) => Err(
                ConfigError::Parse { path: self.config_path.clone(), detail },
            ),
        }
    }

    /// The outcome of a save, from the outcome of writing the serialized
    /// record: success, or an error naming the path with the cause.
    pub fn save(&self, written: Result<(), String>) -> (r: Result<(), ConfigError>)
        ensures
            match written {
                Ok(()) => r is Ok,
                Err(d) => match r {
                    Err(ConfigError::Write { path, detail }) => path@ == self.path() && detail == d,
                    _ => false,
                },
            },
    {
        match written {
            Ok(()) => Ok(()),
            Err(detail) => Err(ConfigError::Write { path: self.config_path.clone(), detail }),
        }
    }
}

} // verus!
