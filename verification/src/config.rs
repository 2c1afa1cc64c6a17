//! The configuration of the service and its defaults.

use vstd::prelude::*;
use vstd::string::StringExecFns;

verus! {

/// How loud the log is.
#[derive(Debug, Clone, Copy, PartialEq, Eq, Structural)]
#[allow(non_camel_case_types)]
pub enum Level {
    error,
    warn,
    info,
    debug,
    trace,
}

/// The mode of operation.
#[derive(Debug)]
pub struct Mode {
    pub debug: bool,
}

/// Where the service listens.
#[derive(Debug)]
pub struct Server {
    pub exernal_url: String,
    pub http_port: u16,
    pub grpc_port: u16,
    pub healthz_port: u16,
    pub metrics_port: u16,
}

/// How many connections to the database are kept.
#[derive(Debug)]
pub struct Connections {
    pub max_idle: u32,
    pub max_open: u32,
}

/// Where the MySQL database is and how to log in.
#[derive(Debug)]
pub struct Mysql {
    pub host: String,
    pub port: u16,
    pub dating: String,
    pub user: String,
    pub pass: String,
    pub connections: Connections,
}

/// The databases.
#[derive(Debug)]
pub struct Db {
    pub mysql: Mysql,
}

/// The log of the application.
#[derive(Debug)]
pub struct App {
    pub level: Level,
}

/// The logs.
#[derive(Debug)]
pub struct Log {
    pub app: App,
}

/// The watchdog: its period and its lock timeout in seconds, and its limit.
#[derive(Debug)]
pub struct Watchdog {
    pub period_secs: u64,
    pub limit: u16,
    pub lock_timeout_secs: u64,
}

/// What runs in the background.
#[derive(Debug)]
pub struct Background {
    pub watchdog: Watchdog,
}

/// The whole configuration.
#[derive(Debug)]
pub struct Config {
    pub mode: Mode,
    pub server: Server,
    pub db: Db,
    pub log: Log,
    pub background: Background,
}

impl Default for Mode {
    fn default() -> (m: Self)
        ensures
            !m.debug,
    {
        Mode { debug: false }
    }
}

impl Default for Server {
    fn default() -> (s: Self)
        ensures
            s.exernal_url@ == "http://127.0.0.1"@,
            s.http_port == 8081,
            s.grpc_port == 8082,
            s.healthz_port == 10025,
            s.metrics_port == 9199,
    {
        Server {
            exernal_url: String::from_str("http://127.0.0.1"),
            http_port: 8081,
            grpc_port: 8082,
            healthz_port: 10025,
            metrics_port: 9199,
        }
    }
}

impl Default for Connections {
    fn default() -> (c: Self)
        ensures
            c.max_idle == 30,
            c.max_open == 30,
    {
        Connections { max_idle: 30, max_open: 30 }
    }
}

impl Default for Mysql {
    fn default() -> (m: Self)
        ensures
            m.host@ == "127.0.0.1"@,
            m.port == 3306,
            m.dating@ == "default"@,
            m.user@ == "root"@,
            m.pass@ == ""@,
            m.connections.max_idle == 30,
            m.connections.max_open == 30,
    {
        Mysql {
            host: String::from_str("127.0.0.1"),
            port: 3306,
            dating: String::from_str("default"),
            user: String::from_str("root"),
            pass: String::from_str(""),
            connections: Connections::default(),
        }
    }
}

impl Default for Db {
    fn default() -> (d: Self)
        ensures
            d.mysql.host@ == "127.0.0.1"@,
            d.mysql.port == 3306,
            d.mysql.dating@ == "default"@,
            d.mysql.user@ == "root"@,
            d.mysql.pass@ == ""@,
            d.mysql.connections.max_idle == 30,
            d.mysql.connections.max_open == 30,
    {
        Db { mysql: Mysql::default() }
    }
}

impl Default for App {
    fn default() -> (a: Self)
        ensures
            a.level == Level::info,
    {
        App { level: Level::info }
    }
}

impl Default for Log {
    fn default() -> (l: Self)
        ensures
            l.app.level == Level::info,
    {
        Log { app: App::default() }
    }
}

impl Default for Watchdog {
    fn default() -> (w: Self)
        ensures
            w.period_secs == 5,
            w.limit == 10,
            w.lock_timeout_secs == 4,
    {
        Watchdog { period_secs: 5, limit: 10, lock_timeout_secs: 4 }
    }
}

impl Default for Background {
    fn default() -> (b: Self)
        ensures
            b.watchdog.period_secs == 5,
            b.watchdog.limit == 10,
            b.watchdog.lock_timeout_secs == 4,
    {
        Background { watchdog: Watchdog::default() }
    }
}

/// `c` holds the default of every setting.
pub open spec fn is_default(c: Config) -> bool {
    &&& !c.mode.debug
    &&& c.server.exernal_url@ == "http://127.0.0.1"@
    &&& c.server.http_port == 8081
    &&& c.server.grpc_port == 8082
    &&& c.server.healthz_port == 10025
    &&& c.server.metrics_port == 9199
    &&& c.db.mysql.host@ == "127.0.0.1"@
    &&& c.db.mysql.port == 3306
    &&& c.db.mysql.dating@ == "default"@
    &&& c.db.mysql.user@ == "root"@
    &&& c.db.mysql.pass@ == ""@
    &&& c.db.mysql.connections.max_idle == 30
    &&& c.db.mysql.connections.max_open == 30
    &&& c.log.app.level == Level::info
    &&& c.background.watchdog.period_secs == 5
    &&& c.background.watchdog.limit == 10
    &&& c.background.watchdog.lock_timeout_secs == 4
}

impl Default for Config {
    fn default() -> (c: Self)
        ensures
            is_default(c),
    {
        Config {
            mode: Mode::default(),
            server: Server::default(),
            db: Db::default(),
            log: Log::default(),
            background: Background::default(),
        }
    }
}

/// The configuration file to read: the one named on the command line, else
/// the one named by the environment, else `config.toml`.
pub fn config_path(argument: Option<String>, environment: Option<String>) -> (path: String)
    ensures
        path@ == (match (argument, environment) {
            (Some(a), _) => a@,
            (None, Some(e)) => e@,
            (None, None) => "config.toml"@,
        }),
{
    match argument {
        Some(a) => a,
        None => match environment {
            Some(e) => e,
            None => String::from_str("config.toml"),
        },
    }
}

/// The configuration file of the application: the one named on the command
/// line, else the one named by the environment, else `/etc/app/app.conf`.
pub fn app_conf_path(argument: Option<String>, environment: Option<String>) -> (path: String)
    ensures
        path@ == (match (argument, environment) {
            (Some(a), _) => a@,
            (None, Some(e)) => e@,
            (None, None) => "/etc/app/app.conf"@,
        }),
{
    match argument {
        Some(a) => a,
        None => match environment {
            Some(e) => e,
            None => String::from_str("/etc/app/app.conf"),
        },
    }
}

} // verus!
