use xelis::miner::benchmark::{benchmark_runs, BenchmarkRun};
use xelis::miner::config::{
    config_file_action, default_daemon_address, default_iterations, default_log_filename,
    default_logs_path, default_worker_name, detected_threads, run_mode, threads_to_use,
    BenchmarkConfig, ConfigFileAction, LogConfig, LogLevel, RunMode, StartupError,
};
use xelis::miner::work::Algorithm;

#[test]
fn defaults() {
    assert_eq!(default_daemon_address(), "127.0.0.1:8080");
    assert_eq!(default_iterations(), 100);
    assert_eq!(default_log_filename(), "xelis-miner.log");
    assert_eq!(default_logs_path(), "logs/");
    assert_eq!(default_worker_name(), "default");
}

#[test]
fn config_file_actions() {
    let path = Some("miner.json".to_string());
    assert_eq!(config_file_action(&path, false, false), ConfigFileAction::LoadFile);
    assert_eq!(config_file_action(&path, false, true), ConfigFileAction::LoadFile);
    assert_eq!(config_file_action(&path, true, true), ConfigFileAction::TemplateExists);
    assert_eq!(config_file_action(&path, true, false), ConfigFileAction::WriteTemplate);
    assert_eq!(config_file_action(&None, true, false), ConfigFileAction::TemplateNeedsPath);
    assert_eq!(config_file_action(&None, false, false), ConfigFileAction::UseCommandLine);
}

#[test]
fn thread_counts() {
    assert_eq!(detected_threads(Some(8)), 8);
    assert_eq!(detected_threads(None), 1);
    assert_eq!(detected_threads(Some(65536)), 0);
    assert_eq!(detected_threads(Some(65537)), 1);
    assert_eq!(threads_to_use(Some(3), 8), 3);
    assert_eq!(threads_to_use(None, 8), 8);
}

#[test]
fn file_log_level_falls_back_to_log_level() {
    let mut log = LogConfig {
        log_level: LogLevel::Debug,
        file_log_level: None,
        disable_file_logging: false,
        disable_file_log_date_based: false,
        auto_compress_logs: false,
        disable_log_color: false,
        disable_interactive_mode: false,
        filename_log: default_log_filename(),
        logs_path: default_logs_path(),
        logs_modules: Vec::new(),
    };
    assert_eq!(log.effective_file_log_level(), LogLevel::Debug);
    log.file_log_level = Some(LogLevel::Warn);
    assert_eq!(log.effective_file_log_level(), LogLevel::Warn);
}

#[test]
fn run_modes() {
    let bench = BenchmarkConfig { benchmark: Some(Algorithm::V2), iterations: 50 };
    assert_eq!(
        run_mode(&bench, None, 4),
        Ok(RunMode::Benchmark { threads: 4, iterations: 50, algorithm: Algorithm::V2 })
    );
    let mine = BenchmarkConfig { benchmark: None, iterations: 100 };
    assert_eq!(run_mode(&mine, Some("xel:abc".to_string()), 4), Ok(RunMode::Mine { address: "xel:abc".to_string() }));
    assert_eq!(run_mode(&mine, None, 4), Err(StartupError::NoMinerAddress));
}

#[test]
fn benchmark_runs_grow_one_thread_at_a_time() {
    assert_eq!(
        benchmark_runs(3, 100),
        vec![
            BenchmarkRun { threads: 1, total_iterations: 100 },
            BenchmarkRun { threads: 2, total_iterations: 200 },
            BenchmarkRun { threads: 3, total_iterations: 300 },
        ]
    );
    assert!(benchmark_runs(0, 100).is_empty());
}
