//! Configuration values and the on-disk layout under the data root.

use crate::command::texts;
use crate::http::ErrorTrait;
use crate::text::{concat3, is_absolute, join, joined, starts_at_root};
use vstd::prelude::*;

verus! {

/// The data root: every file the controller keeps lives below it.
#[derive(Debug)]
pub struct DataDir(pub String);

impl View for DataDir {
    type V = Seq<char>;

    open spec fn view(&self) -> Seq<char> {
        self.0@
    }
}

/// The database file under `root`.
pub open spec fn sqlite_path_of(root: Seq<char>) -> Seq<char> {
    joined(root, "sqlite.db"@)
}

/// The directory under `root` that caches the agent binary.
pub open spec fn envoy_dir_of(root: Seq<char>) -> Seq<char> {
    joined(root, "bin"@)
}

/// The cached agent binary under `root`.
pub open spec fn envoy_bin_path_of(root: Seq<char>) -> Seq<char> {
    joined(envoy_dir_of(root), "av1-envoy"@)
}

/// The directory of the fallback key under `root`.
pub open spec fn ssh_global_dir_of(root: Seq<char>) -> Seq<char> {
    joined(joined(root, "ssh"@), "global"@)
}

/// The directory of committed per-host keys under `root`.
pub open spec fn ssh_key_dir_of(root: Seq<char>) -> Seq<char> {
    joined(joined(root, "ssh"@), "keys"@)
}

/// The staging directory for per-host keys under `root`.
pub open spec fn ssh_key_tmp_dir_of(root: Seq<char>) -> Seq<char> {
    joined(joined(root, "ssh"@), "tmp"@)
}

/// The address under which the database file under `root` is opened,
/// created if it is not there.
pub open spec fn sqlite_url_of(root: Seq<char>) -> Seq<char> {
    "sqlite://"@ + sqlite_path_of(root) + "?mode=rwc"@
}

/// The directories for keys under `root`, in the order in which they are
/// made: committed keys, staged keys, the fallback key.
pub open spec fn ssh_dirs_of(root: Seq<char>) -> Seq<Seq<char>> {
    seq![ssh_key_dir_of(root), ssh_key_tmp_dir_of(root), ssh_global_dir_of(root)]
}

impl DataDir {
    /// The root itself.
    pub fn as_str(&self) -> (s: &str)
        ensures
            s@ == self@,
    {
        self.0.as_str()
    }

    /// Whether the root is an absolute path.
    pub fn is_absolute(&self) -> (b: bool)
        ensures
            b == is_absolute(self@),
    {
        starts_at_root(self.0.as_str())
    }

    /// The database file.
    pub fn sqlite_path(&self) -> (path: String)
        ensures
            path@ == sqlite_path_of(self@),
    {
        join(self.0.as_str(), "sqlite.db")
    }

    /// The address under which the database file is opened.
    pub fn sqlite_url(&self) -> (url: String)
        ensures
            url@ == sqlite_url_of(self@),
    {
        let path = self.sqlite_path();
        concat3("sqlite://", path.as_str(), "?mode=rwc")
    }

    /// The directory that caches the agent binary.
    pub fn envoy_dir(&self) -> (path: String)
        ensures
            path@ == envoy_dir_of(self@),
    {
        join(self.0.as_str(), "bin")
    }

    /// The cached agent binary, which enrollment ships to hosts.
    pub fn envoy_bin_path(&self) -> (path: String)
        ensures
            path@ == envoy_bin_path_of(self@),
    {
        let dir = self.envoy_dir();
        join(dir.as_str(), "av1-envoy")
    }

    /// The directory of the fallback key.
    pub fn ssh_global_dir(&self) -> (path: String)
        ensures
            path@ == ssh_global_dir_of(self@),
    {
        let ssh = join(self.0.as_str(), "ssh");
        join(ssh.as_str(), "global")
    }

    /// The directory of committed per-host keys, each named by its address.
    pub fn ssh_key_dir(&self) -> (path: String)
        ensures
            path@ == ssh_key_dir_of(self@),
    {
        let ssh = join(self.0.as_str(), "ssh");
        join(ssh.as_str(), "keys")
    }

    /// The directory in which per-host keys are staged, each named by its
    /// address.
    pub fn ssh_key_tmp_dir(&self) -> (path: String)
        ensures
            path@ == ssh_key_tmp_dir_of(self@),
    {
        let ssh = join(self.0.as_str(), "ssh");
        join(ssh.as_str(), "tmp")
    }
}

/// Logging verbosity.
#[derive(Debug)]
pub struct LogCfg {
    pub level: String,
}

/// Where the agent binary is cached and on which port agents listen.
#[derive(Debug)]
pub struct EnvoyCfg {
    pub bin_path: String,
    pub port: u16,
}

/// Where the operator API listens.
#[derive(Debug)]
pub struct HttpServerCfg {
    pub bind: String,
    pub port: u16,
}

/// Location of an embedded key-value store.
#[derive(Debug)]
pub struct SledCfg {
    pub path: String,
}

/// Bounds of the storage connection pool.
#[derive(Debug)]
pub struct SqlitePoolConfig {
    /// Connections kept open even when idle.
    pub min_conn: u32,
    /// Connections open at most.
    pub max_conn: u32,
}

/// The complete configuration, built once at startup and handed to each
/// component that needs it.
#[derive(Debug)]
pub struct Settings {
    pub data_dir: DataDir,
    pub log: LogCfg,
    pub envoy: EnvoyCfg,
    pub http_server: HttpServerCfg,
    pub sqlite: SqlitePoolConfig,
}

/// Why a configuration was turned down.
#[derive(Debug, Clone, Copy, PartialEq, Eq, Structural)]
pub enum SettingsError {
    /// The data root is not an absolute path.
    RelativeDataDir,
}

/// The key directories that must exist under `data_dir` before any host
/// is enrolled, in the order in which they are to be made.
pub fn init_dirs(data_dir: &DataDir) -> (dirs: Vec<String>)
    ensures
        texts(dirs@) == ssh_dirs_of(data_dir@),
{
    let mut dirs: Vec<String> = Vec::new();
    dirs.push(data_dir.ssh_key_dir());
    dirs.push(data_dir.ssh_key_tmp_dir());
    dirs.push(data_dir.ssh_global_dir());
    assert(texts(dirs@) =~= ssh_dirs_of(data_dir@));
    dirs
}

/// Every directory that must exist under `data_dir` at startup: the root,
/// the cache of the agent binary, then the key directories.
pub fn init_work_dir(data_dir: &DataDir) -> (dirs: Vec<String>)
    ensures
        texts(dirs@) == seq![data_dir@, envoy_dir_of(data_dir@)] + ssh_dirs_of(data_dir@),
{
    let mut dirs: Vec<String> = Vec::new();
    dirs.push(data_dir.0.clone());
    dirs.push(data_dir.envoy_dir());
    dirs.push(data_dir.ssh_key_dir());
    dirs.push(data_dir.ssh_key_tmp_dir());
    dirs.push(data_dir.ssh_global_dir());
    assert(texts(dirs@) =~= seq![data_dir@, envoy_dir_of(data_dir@)] + ssh_dirs_of(data_dir@));
    dirs
}

impl ErrorTrait for SettingsError {
    open spec fn text(&self) -> Seq<char> {
        "data_dir must be absolute path"@
    }

    fn message(&self) -> (s: String) {
        String::from_str("data_dir must be absolute path")
    }
}

/// Admits a configuration: it is handed back unchanged when its data root
/// is an absolute path, and refused otherwise.
pub fn load_settings(settings: Settings) -> (res: Result<Settings, SettingsError>)
    ensures
        is_absolute(settings.data_dir@) ==> res == Ok::<Settings, SettingsError>(settings),
        !is_absolute(settings.data_dir@) ==> res == Err::<Settings, SettingsError>(
            SettingsError::RelativeDataDir,
        ),
{
    if settings.data_dir.is_absolute() {
        Ok(settings)
    } else {
        Err(SettingsError::RelativeDataDir)
    }
}

} // verus!
