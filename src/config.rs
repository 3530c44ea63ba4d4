use vstd::prelude::*;

verus! {

/// The deployment stage the service runs in.
#[derive(Clone, Copy, Debug, PartialEq, Eq, Structural)]
pub enum Environment {
    Dev,
    Stg,
    Prd,
}

impl Environment {
    pub open spec fn name_of(self) -> Seq<char> {
        match self {
            Environment::Dev => "dev"@,
            Environment::Stg => "stg"@,
            Environment::Prd => "prd"@,
        }
    }

    /// The lower-case name of the stage.
    pub fn as_str(&self) -> (r: &'static str)
        ensures
            r@ == self.name_of(),
    {
        match self {
            Environment::Dev => "dev",
            Environment::Stg => "stg",
            Environment::Prd => "prd",
        }
    }
}

/// The least severity of log records that are kept.
#[derive(Clone, Copy, Debug, PartialEq, Eq, Structural)]
pub enum LogLevel {
    Trace,
    Debug,
    Info,
    Warn,
    Error,
}

impl LogLevel {
    pub open spec fn name_of(self) -> Seq<char> {
        match self {
            LogLevel::Trace => "trace"@,
            LogLevel::Debug => "debug"@,
            LogLevel::Info => "info"@,
            LogLevel::Warn => "warn"@,
            LogLevel::Error => "error"@,
        }
    }

    /// The lower-case name of the level.
    pub fn as_str(&self) -> (r: &'static str)
        ensures
            r@ == self.name_of(),
    {
        match self {
            LogLevel::Trace => "trace",
            LogLevel::Debug => "debug",
            LogLevel::Info => "info",
            LogLevel::Warn => "warn",
            LogLevel::Error => "error",
        }
    }
}

/// Settings of the service.
#[derive(Debug)]
pub struct Config {
    pub name: String,
    pub environment: Environment,
    pub log_level: LogLevel,
    pub port: u32,
    pub url_prefix: String,
    pub api_url: String,
}

impl Default for Config {
    fn default() -> (r: Config)
        ensures
            r.name@ == "gsn_push_processing"@,
            r.environment == Environment::Dev,
            r.log_level == LogLevel::Info,
            r.port == 8080,
            r.url_prefix@ == "/api"@,
            r.api_url@ == "http://localhost:8080"@,
    {
        Config {
            name: String::from_str("gsn_push_processing"),
            environment: Environment::Dev,
            log_level: LogLevel::Info,
            port: 8080,
            url_prefix: String::from_str("/api"),
            api_url: String::from_str("http://localhost:8080"),
        }
    }
}

/// Settings of the database connection pool; the timeouts are in seconds.
#[derive(Debug)]
pub struct DatabaseConfig {
    pub url: String,
    pub max_connections: u32,
    pub min_connections: u32,
    pub connect_timeout: u64,
    pub idle_timeout: u64,
}

impl Default for DatabaseConfig {
    fn default() -> (r: DatabaseConfig)
        ensures
            r.url@.len() == 0,
            r.max_connections == 10,
            r.min_connections == 2,
            r.connect_timeout == 10,
            r.idle_timeout == 600,
    {
        DatabaseConfig {
            url: String::new(),
            max_connections: 10,
            min_connections: 2,
            connect_timeout: 10,
            idle_timeout: 600,
        }
    }
}

pub const MIN_WORKERS: usize = 1;

pub const MAX_WORKERS: usize = 4;

/// The number of HTTP workers for a machine with `cpus` CPUs: that count, kept within 1 to 4.
pub open spec fn workers_spec(cpus: int) -> int {
    if cpus < MIN_WORKERS {
        MIN_WORKERS as int
    } else if cpus > MAX_WORKERS {
        MAX_WORKERS as int
    } else {
        cpus
    }
}

pub fn workers_for(cpus: usize) -> (r: usize)
    ensures
        r == workers_spec(cpus as int),
{
    if cpus < MIN_WORKERS {
        MIN_WORKERS
    } else if cpus > MAX_WORKERS {
        MAX_WORKERS
    } else {
        cpus
    }
}

/// Relies on num_cpus::get: the number of CPUs this process may use, documented as at least 1.
#[verifier::external_body]
fn available_cpus() -> (r: usize)
    ensures
        r >= 1,
{
    num_cpus::get()
}

/// The number of HTTP workers for this machine.
pub fn worker_count() -> (r: usize)
    ensures
        MIN_WORKERS <= r <= MAX_WORKERS,
        exists|cpus: int| cpus >= 1 && r == workers_spec(cpus),
{
    let cpus = available_cpus();
    workers_for(cpus)
}

} // verus!
