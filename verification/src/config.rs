//! The relayer's configuration and the choice of the store it runs on.

use vstd::prelude::*;
use vstd::string::*;

verus! {

/// The name under which the relayer keeps its configuration and data.
pub const APP_NAME: &'static str = "fs-relayer";

/// The keys of the document store: the node key and the namespaces of the
/// author, the models and the streams.
pub struct IrohConfig {
    pub key: String,
    pub author: String,
    pub model: String,
    pub streams: String,
}

impl Clone for IrohConfig {
    fn clone(&self) -> (res: Self)
        ensures
            res == *self,
    {
        IrohConfig {
            key: self.key.clone(),
            author: self.author.clone(),
            model: self.model.clone(),
            streams: self.streams.clone(),
        }
    }
}

impl Default for IrohConfig {
    fn default() -> (res: Self)
        ensures
            res.key@.len() == 0,
            res.author@.len() == 0,
            res.model@.len() == 0,
            res.streams@.len() == 0,
    {
        IrohConfig {
            key: String::new(),
            author: String::new(),
            model: String::new(),
            streams: String::new(),
        }
    }
}

/// The namespaces that the document store is opened with.
pub struct KeySet {
    pub author: String,
    pub model: String,
    pub streams: String,
}

impl From<IrohConfig> for KeySet {
    fn from(val: IrohConfig) -> (res: KeySet) {
        KeySet { author: val.author, model: val.model, streams: val.streams }
    }
}

impl vstd::std_specs::convert::FromSpecImpl<IrohConfig> for KeySet {
    open spec fn obeys_from_spec() -> bool {
        true
    }

    open spec fn from_spec(val: IrohConfig) -> KeySet {
        KeySet { author: val.author, model: val.model, streams: val.streams }
    }
}

/// Where the block cache lives and how long an entry stays.
pub struct RedisConfig {
    pub url: String,
    pub exp_seconds: u64,
}

impl Default for RedisConfig {
    fn default() -> (res: Self)
        ensures
            res.url@.len() == 0,
            res.exp_seconds == 0,
    {
        RedisConfig { url: String::new(), exp_seconds: 0 }
    }
}

/// Which dapps' models are indexed: none (`Nothing`), all, or the listed dapps (by the
/// value of their UUID).
pub enum IndexModels {
    Nothing,
    All,
    Dapps(Vec<u128>),
}

impl Default for IndexModels {
    fn default() -> (res: Self)
        ensures
            res is All,
    {
        IndexModels::All
    }
}

/// The relayer's configuration. `pgsql_dsn` and `iroh` are optional; one of
/// them must be given.
pub struct Config {
    pub data_path: Option<String>,
    pub kubo_path: String,
    pub networks: Vec<String>,
    pub queue_dsn: String,
    pub queue_pool: u32,
    pub queue_worker: u32,
    pub cache_size: usize,
    pub index_models: IndexModels,
    pub ceramic: String,
    pub pgsql_dsn: Option<String>,
    pub iroh: Option<IrohConfig>,
    pub redis: RedisConfig,
}

impl Default for Config {
    fn default() -> (res: Self)
        ensures
            res.data_path is None,
            res.kubo_path@.len() == 0,
            res.networks@.len() == 0,
            res.queue_dsn@.len() == 0,
            res.queue_pool == 0,
            res.queue_worker == 0,
            res.cache_size == 0,
            res.index_models is All,
            res.ceramic@.len() == 0,
            res.pgsql_dsn is None,
            res.iroh is None,
            res.redis.url@.len() == 0,
            res.redis.exp_seconds == 0,
    {
        Config {
            data_path: None,
            kubo_path: String::new(),
            networks: Vec::new(),
            queue_dsn: String::new(),
            queue_pool: 0,
            queue_worker: 0,
            cache_size: 0,
            index_models: IndexModels::All,
            ceramic: String::new(),
            pgsql_dsn: None,
            iroh: None,
            redis: RedisConfig::default(),
        }
    }
}

/// Errors of the configuration.
#[derive(Debug, Clone, Copy, PartialEq, Eq, Structural)]
pub enum ConfigError {
    PgsqlDsnNotSet,
    IrohNotSet,
    NoProjectDirs,
}

/// The text of a `ConfigError`.
pub open spec fn config_error_text(e: ConfigError) -> Seq<char> {
    match e {
        ConfigError::PgsqlDsnNotSet => "pgsql_dsn is not set"@,
        ConfigError::IrohNotSet => "iroh is not set"@,
        ConfigError::NoProjectDirs => "Failed to get project dirs"@,
    }
}

impl ConfigError {
    /// The human-readable description of this error.
    pub fn message(&self) -> (res: String)
        ensures
            res@ == config_error_text(*self),
    {
        match self {
            ConfigError::PgsqlDsnNotSet => String::from_str("pgsql_dsn is not set"),
            ConfigError::IrohNotSet => String::from_str("iroh is not set"),
            ConfigError::NoProjectDirs => String::from_str("Failed to get project dirs"),
        }
    }
}

/// The store that the relayer runs on.
pub enum StoreBackend {
    Pgsql(String),
    Iroh(IrohConfig),
}

/// The store that a configuration selects: the SQL store where a DSN is
/// given, else the document store where its keys are given.
pub open spec fn selected_store(cfg: Config) -> Option<StoreBackend> {
    match cfg.pgsql_dsn {
        Some(dsn) => Some(StoreBackend::Pgsql(dsn)),
        None => match cfg.iroh {
            Some(iroh) => Some(StoreBackend::Iroh(iroh)),
            None => None,
        },
    }
}

/// An application name that every platform's project directories keep as it
/// is: not empty, and made of lowercase ASCII letters, digits, `-`, `_` and
/// `.` only.
pub open spec fn plain_app_name(name: Seq<char>) -> bool {
    &&& name.len() > 0
    &&& forall|i: int|
        0 <= i < name.len() ==> {
            let c = #[trigger] name[i];
            ('a' <= c <= 'z') || ('0' <= c <= '9') || c == '-' || c == '_' || c == '.'
        }
}

/// `needle` occurs in `hay` as a run of consecutive characters.
pub open spec fn contains_run(hay: Seq<char>, needle: Seq<char>) -> bool {
    exists|i: int| 0 <= i <= hay.len() - needle.len() && #[trigger] hay.subrange(i, i + needle.len()) == needle
}

/// `name` occurs in `path` as a run that some directory of the path holds: it
/// starts after the first character, right after a path separator (`/` or
/// `\\`) or after the `.` that joins it to a qualifier or organization.
pub open spec fn names_project_dir(path: Seq<char>, name: Seq<char>) -> bool {
    exists|i: int|
        1 <= i && i + name.len() <= path.len() && #[trigger] path.subrange(i, i + name.len()) == name
            && (path[i - 1] == '/' || path[i - 1] == '\\' || path[i - 1] == '.')
}

/// A path that names a project directory is more than the bare name: a data
/// path is never the relayer's name alone, relative to wherever the process
/// runs.
pub proof fn lemma_project_dir_is_not_bare_name(path: Seq<char>, name: Seq<char>)
    requires
        names_project_dir(path, name),
    ensures
        path.len() > name.len(),
        path != name,
{
}

/// Calls `directories::ProjectDirs::from` and `ProjectDirs::data_dir`. Whether
/// there is a result, and which directory it is, depends on the platform and
/// the environment (the home directory). The contract claims only what every
/// platform's source shows: the data directory is a base directory joined with
/// a project path that holds the application name, unchanged when the name is
/// plain (Linux lower-cases it and drops whitespace, macOS replaces spaces,
/// Windows keeps it). The base directory is never empty (Linux joins
/// `.local/share` to the home directory or takes an absolute
/// `XDG_DATA_HOME`; macOS and Windows take a directory under the home or a
/// known folder), so the name comes after a separator, or after the `.` of a
/// macOS bundle id. The path is handed back as text; bytes that are not UTF-8
/// are replaced, which leaves the ASCII name and its separator as they are.
#[verifier::external_body]
fn project_data_dir(qualifier: &str, organization: &str, application: &str) -> (res: Option<
    String,
>)
    ensures
        plain_app_name(application@) ==> (res matches Some(p) ==> contains_run(p@, application@)),
        plain_app_name(application@) ==> (res matches Some(p) ==> names_project_dir(
            p@,
            application@,
        )),
{
    match directories::ProjectDirs::from(qualifier, organization, application) {
        Some(dirs) => Some(dirs.data_dir().to_string_lossy().into_owned()),
        None => None,
    }
}

/// The data directory from what the platform reports: an error where it
/// reports no project directories.
pub fn data_dir_from(dirs: Option<String>) -> (res: Result<String, ConfigError>)
    ensures
        match dirs {
            Some(d) => res matches Ok(p) && p == d,
            None => res == Err::<String, ConfigError>(ConfigError::NoProjectDirs),
        },
{
    match dirs {
        Some(d) => Ok(d),
        None => Err(ConfigError::NoProjectDirs),
    }
}

/// The names that the relayer's project directories are asked for: the
/// qualifier `rs`, no organization, and the relayer's name.
pub fn project_identity() -> (res: (String, String, String))
    ensures
        res.0@ == "rs"@,
        res.1@ == ""@,
        res.2@ == APP_NAME@,
{
    (String::from_str("rs"), String::from_str(""), String::from_str(APP_NAME))
}

impl Config {
    /// The directory where the relayer keeps its data, as the platform's
    /// project directories give it for the relayer's name: a directory whose
    /// path holds that name; an error where the platform gives no project
    /// directories.
    pub fn data_path(&self) -> (res: Result<String, ConfigError>)
        ensures
            res matches Err(e) ==> e == ConfigError::NoProjectDirs,
            res matches Ok(p) ==> contains_run(p@, APP_NAME@),
            res matches Ok(p) ==> names_project_dir(p@, APP_NAME@),
    {
        proof {
            reveal_strlit("fs-relayer");
            assert(plain_app_name(APP_NAME@));
        }
        let (qualifier, organization, application) = project_identity();
        data_dir_from(
            project_data_dir(qualifier.as_str(), organization.as_str(), application.as_str()),
        )
    }

    /// The DSN of the SQL store, which must be given.
    pub fn pgsql_store_dsn(&self) -> (res: Result<String, ConfigError>)
        ensures
            match self.pgsql_dsn {
                Some(dsn) => res matches Ok(d) && d == dsn,
                None => res == Err::<String, ConfigError>(ConfigError::PgsqlDsnNotSet),
            },
    {
        match &self.pgsql_dsn {
            Some(dsn) => Ok(dsn.clone()),
            None => Err(ConfigError::PgsqlDsnNotSet),
        }
    }

    /// The keys of the document store, which must be given.
    pub fn iroh_store_config(&self) -> (res: Result<IrohConfig, ConfigError>)
        ensures
            match self.iroh {
                Some(iroh) => res matches Ok(i) && i == iroh,
                None => res == Err::<IrohConfig, ConfigError>(ConfigError::IrohNotSet),
            },
    {
        match &self.iroh {
            Some(iroh) => Ok(iroh.clone()),
            None => Err(ConfigError::IrohNotSet),
        }
    }

    /// The store to run on: the SQL store when a DSN is given, else the
    /// document store; an error when neither is given.
    pub fn store_backend(&self) -> (res: Result<StoreBackend, ConfigError>)
        ensures
            match selected_store(*self) {
                Some(b) => res matches Ok(r) && r == b,
                None => res == Err::<StoreBackend, ConfigError>(ConfigError::IrohNotSet),
            },
            res is Ok <==> (self.pgsql_dsn is Some || self.iroh is Some),
    {
        if self.pgsql_dsn.is_some() {
            match self.pgsql_store_dsn() {
                Ok(dsn) => Ok(StoreBackend::Pgsql(dsn)),
                Err(e) => Err(e),
            }
        } else {
            match self.iroh_store_config() {
                Ok(iroh) => Ok(StoreBackend::Iroh(iroh)),
                Err(e) => Err(e),
            }
        }
    }
}

} // verus!
