//! The miner's configuration, its defaults, and the decisions taken from it
//! at start-up.
use crate::miner::work::Algorithm;
use vstd::prelude::*;

verus! {

/// The daemon address used when none is given.
pub fn default_daemon_address() -> (res: String)
    ensures
        res@ == "127.0.0.1:8080"@,
{
    "127.0.0.1:8080".to_owned()
}

/// The number of iterations a benchmark runs per thread when none is given.
pub fn default_iterations() -> (res: usize)
    ensures
        res == 100,
{
    100
}

/// The log filename used when none is given.
pub fn default_log_filename() -> (res: String)
    ensures
        res@ == "xelis-miner.log"@,
{
    "xelis-miner.log".to_owned()
}

/// The logs directory used when none is given.
pub fn default_logs_path() -> (res: String)
    ensures
        res@ == "logs/"@,
{
    "logs/".to_owned()
}

/// The worker name shown to the daemon when none is given.
pub fn default_worker_name() -> (res: String)
    ensures
        res@ == "default"@,
{
    "default".to_owned()
}

/// How much is logged.
#[derive(Debug, Clone, Copy, PartialEq, Eq, Structural)]
pub enum LogLevel {
    Off,
    Error,
    Warn,
    Info,
    Debug,
    Trace,
}

/// A log level for one module.
#[derive(Debug, Clone, PartialEq, Eq)]
pub struct ModuleConfig {
    /// The module's path.
    pub module: String,
    /// The level for that module.
    pub level: LogLevel,
}

/// Logging settings.
#[derive(Debug, Clone, PartialEq, Eq)]
pub struct LogConfig {
    /// The log level.
    pub log_level: LogLevel,
    /// The log level of the log file; the log level when not given.
    pub file_log_level: Option<LogLevel>,
    /// Whether the log file is disabled.
    pub disable_file_logging: bool,
    /// Whether the log filename is not prefixed by the date.
    pub disable_file_log_date_based: bool,
    /// Whether log files are compressed every day.
    pub auto_compress_logs: bool,
    /// Whether colors are disabled in the log.
    pub disable_log_color: bool,
    /// Whether the terminal's interactive mode is disabled.
    pub disable_interactive_mode: bool,
    /// The log filename, inside the logs directory.
    pub filename_log: String,
    /// The logs directory; it must end with a `/` to name a directory (this
    /// is not checked).
    pub logs_path: String,
    /// Per-module log levels.
    pub logs_modules: Vec<ModuleConfig>,
}

impl LogConfig {
    /// The level of the log file: its own if given, else the log level.
    pub fn effective_file_log_level(&self) -> (res: LogLevel)
        ensures
            res == match self.file_log_level {
                Some(l) => l,
                None => self.log_level,
            },
    {
        match self.file_log_level {
            Some(l) => l,
            None => self.log_level,
        }
    }
}

/// Benchmark settings.
#[derive(Debug, Clone, PartialEq, Eq)]
pub struct BenchmarkConfig {
    /// The algorithm to benchmark; no benchmark when not given.
    pub benchmark: Option<Algorithm>,
    /// Iterations per thread.
    pub iterations: usize,
}

/// The miner's settings.
#[derive(Debug, Clone, PartialEq, Eq)]
pub struct Config {
    /// Logging settings.
    pub log: LogConfig,
    /// Benchmark settings.
    pub benchmark: BenchmarkConfig,
    /// The wallet address that receives block rewards.
    pub miner_address: Option<String>,
    /// The daemon to mine for.
    pub daemon_address: String,
    /// Where to serve the statistics, if anywhere.
    pub api_bind_address: Option<String>,
    /// The number of mining threads; detected from the machine when not given.
    pub num_threads: Option<u16>,
    /// The worker name shown to the daemon.
    pub worker: String,
    /// A JSON file to load the settings from.
    pub config_file: Option<String>,
    /// Whether to write a settings template to `config_file` and stop.
    pub generate_config_template: bool,
}

/// What to do about the configuration file at start-up.
#[derive(Debug, Clone, Copy, PartialEq, Eq, Structural)]
pub enum ConfigFileAction {
    /// No file is involved: keep the command-line settings.
    UseCommandLine,
    /// Replace the settings by those read from the file.
    LoadFile,
    /// A template was asked for but the file exists: say so and stop.
    TemplateExists,
    /// Write the settings as a template to the file and stop.
    WriteTemplate,
    /// A template was asked for without a file path: say so and stop.
    TemplateNeedsPath,
}

/// What to do about the configuration file, given whether its path exists
/// (asked only when a template is to be written there).
pub fn config_file_action(config_file: &Option<String>, generate_config_template: bool, file_exists: bool) -> (res: ConfigFileAction)
    ensures
        res == match config_file {
            Some(_) => if !generate_config_template {
                ConfigFileAction::LoadFile
            } else if file_exists {
                ConfigFileAction::TemplateExists
            } else {
                ConfigFileAction::WriteTemplate
            },
            None => if generate_config_template {
                ConfigFileAction::TemplateNeedsPath
            } else {
                ConfigFileAction::UseCommandLine
            },
        },
{
    match config_file {
        Some(_) => {
            if generate_config_template {
                if file_exists {
                    ConfigFileAction::TemplateExists
                } else {
                    ConfigFileAction::WriteTemplate
                }
            } else {
                ConfigFileAction::LoadFile
            }
        },
        None => {
            if generate_config_template {
                ConfigFileAction::TemplateNeedsPath
            } else {
                ConfigFileAction::UseCommandLine
            }
        },
    }
}

/// The number of threads the machine offers, as the miner counts them: the
/// detected parallelism cut to 16 bits, or 1 when it cannot be detected.
pub fn detected_threads(available: Option<usize>) -> (res: u16)
    ensures
        res == match available {
            Some(n) => n as u16,
            None => 1u16,
        },
{
    match available {
        Some(n) => n as u16,
        None => 1,
    }
}

/// The number of mining threads: the one asked for, else the detected one.
pub fn threads_to_use(requested: Option<u16>, detected: u16) -> (res: u16)
    ensures
        res == match requested {
            Some(n) => n,
            None => detected,
        },
{
    match requested {
        Some(n) => n,
        None => detected,
    }
}

/// What the miner runs.
#[derive(Debug, Clone, PartialEq, Eq)]
pub enum RunMode {
    /// Benchmark the algorithm on 1 to `threads` threads.
    Benchmark { threads: usize, iterations: usize, algorithm: Algorithm },
    /// Mine for the address.
    Mine { address: String },
}

/// Why the miner cannot start.
#[derive(Debug, Clone, Copy, PartialEq, Eq, Structural)]
pub enum StartupError {
    /// Mining was asked for without a miner address.
    NoMinerAddress,
}

/// What the miner runs: a benchmark when one is asked for, else mining,
/// which needs a miner address.
pub fn run_mode(benchmark: &BenchmarkConfig, miner_address: Option<String>, threads: u16) -> (res: Result<RunMode, StartupError>)
    ensures
        match benchmark.benchmark {
            Some(algorithm) => res == Ok::<RunMode, StartupError>(
                RunMode::Benchmark { threads: threads as usize, iterations: benchmark.iterations, algorithm },
            ),
            None => match miner_address {
                Some(a) => res == Ok::<RunMode, StartupError>(RunMode::Mine { address: a }),
                None => res == Err::<RunMode, StartupError>(StartupError::NoMinerAddress),
            },
        },
{
    match benchmark.benchmark {
        Some(algorithm) => Ok(
            RunMode::Benchmark { threads: threads as usize, iterations: benchmark.iterations, algorithm },
        ),
        None => match miner_address {
            Some(address) => Ok(RunMode::Mine { address }),
            None => Err(StartupError::NoMinerAddress),
        },
    }
}

} // verus!
