use inferno::args::{Args, CliValues, Invocation};
use inferno::config::{Config, FileRead, DEFAULT_PORT};
use inferno::error::Error;
use inferno::level::LogLevel;
use inferno::singletons::{Singletons, Startup};
use inferno::version::{get_version, version_report, BuildInfo};

fn build(debug: bool) -> BuildInfo {
    BuildInfo {
        version: "0.1.0".to_string(),
        hash: "0123456789abcdef".to_string(),
        date: "2024-03-05T12:34:56Z".to_string(),
        debug,
        license: "GPL-3.0".to_string(),
        authors: "Ann:Bo".to_string(),
        target: "x86_64-unknown-linux-gnu".to_string(),
    }
}

fn cli() -> CliValues {
    CliValues { version: false, verbose: false, config_file: None, log_level: None, log_dir: None }
}

fn run_args(r: Result<Invocation, Error>) -> Args {
    match r {
        Ok(Invocation::Run(a)) => a,
        other => panic!("expected arguments, got {:?}", other),
    }
}

#[test]
fn version_in_release_build() {
    assert_eq!(get_version(&build(false), "server"), "inferno 0.1.0.server.2024-03-05");
}

#[test]
fn version_in_debug_build() {
    assert_eq!(get_version(&build(true), "server"), "inferno dev-012345678.server.2024-03-05");
}

#[test]
fn version_of_other_product() {
    assert_eq!(get_version(&build(false), "client"), "inferno 0.1.0.client.2024-03-05");
}

#[test]
fn version_report_plain() {
    assert_eq!(version_report(&build(false), false), vec!["inferno 0.1.0.server.2024-03-05".to_string()]);
}

#[test]
fn version_report_verbose() {
    let lines = version_report(&build(true), true);
    assert_eq!(
        lines,
        vec![
            "inferno dev-012345678.server.2024-03-05".to_string(),
            "release: 0.1.0".to_string(),
            "commit-hash: 0123456789abcdef".to_string(),
            "commit-date: 2024-03-05".to_string(),
            "license: GPL-3.0".to_string(),
            "authors: Ann:Bo".to_string(),
            "build-target: x86_64-unknown-linux-gnu".to_string(),
        ]
    );
}

#[test]
fn level_tokens() {
    assert_eq!(LogLevel::from_token("trace"), Some(LogLevel::Trace));
    assert_eq!(LogLevel::from_token("debug"), Some(LogLevel::Debug));
    assert_eq!(LogLevel::from_token("info"), Some(LogLevel::Info));
    assert_eq!(LogLevel::from_token("warn"), Some(LogLevel::Warn));
    assert_eq!(LogLevel::from_token("error"), Some(LogLevel::Error));
    assert_eq!(LogLevel::from_token("loud"), None);
    assert_eq!(LogLevel::from_token(""), None);
}

#[test]
fn level_tokens_as_tracing_reads_them() {
    assert_eq!(LogLevel::from_token("WARN"), Some(LogLevel::Warn));
    assert_eq!(LogLevel::from_token("3"), Some(LogLevel::Info));
}

#[test]
fn args_default() {
    let a = Args::default();
    assert_eq!(a.config_file, "inferno.toml");
    assert_eq!(a.log_level, None);
    assert_eq!(a.log_dir, "logs");
}

#[test]
fn parse_without_flags_gives_defaults() {
    let a = run_args(Args::parse(&cli(), &build(false)));
    assert_eq!(a.config_file, "inferno.toml");
    assert_eq!(a.log_level, None);
    assert_eq!(a.log_dir, "logs");
}

#[test]
fn parse_keeps_given_paths() {
    let c = CliValues {
        config_file: Some("/etc/inferno/server.toml".to_string()),
        log_dir: Some("/var/log/inferno".to_string()),
        ..cli()
    };
    let a = run_args(Args::parse(&c, &build(false)));
    assert_eq!(a.config_file, "/etc/inferno/server.toml");
    assert_eq!(a.log_dir, "/var/log/inferno");
}

#[test]
fn parse_log_level() {
    let c = CliValues { log_level: Some("warn".to_string()), ..cli() };
    assert_eq!(run_args(Args::parse(&c, &build(false))).log_level, Some(LogLevel::Warn));
}

#[test]
fn verbose_wins_over_log_level() {
    let c = CliValues { verbose: true, log_level: Some("error".to_string()), ..cli() };
    assert_eq!(run_args(Args::parse(&c, &build(false))).log_level, Some(LogLevel::Debug));
    let c = CliValues { verbose: true, ..cli() };
    assert_eq!(run_args(Args::parse(&c, &build(false))).log_level, Some(LogLevel::Debug));
}

#[test]
fn invalid_log_level_is_rejected() {
    let c = CliValues { log_level: Some("chatty".to_string()), ..cli() };
    assert!(matches!(Args::parse(&c, &build(false)), Err(Error::InvalidLogLevel)));
}

#[test]
fn version_mode_prints_and_stops() {
    let c = CliValues { version: true, ..cli() };
    match Args::parse(&c, &build(false)) {
        Ok(Invocation::PrintVersion(lines)) => {
            assert_eq!(lines, vec!["inferno 0.1.0.server.2024-03-05".to_string()])
        }
        other => panic!("expected version mode, got {:?}", other),
    }
    let c = CliValues { version: true, verbose: true, ..cli() };
    match Args::parse(&c, &build(false)) {
        Ok(Invocation::PrintVersion(lines)) => assert_eq!(lines.len(), 7),
        other => panic!("expected version mode, got {:?}", other),
    }
}

#[test]
fn config_default() {
    let c = Config::default(&build(false));
    assert_eq!(c.port, 3000);
    assert_eq!(DEFAULT_PORT, 3000);
    assert_eq!(c.server_version, "inferno 0.1.0.server.2024-03-05");
}

#[test]
fn config_from_parsed_file() {
    let c = Config::from_file(&build(true), FileRead::Parsed { port: 8080 });
    assert_eq!(c.port, 8080);
    assert_eq!(c.server_version, "inferno dev-012345678.server.2024-03-05");
}

#[test]
fn config_from_default_file() {
    let c = Config::from_file(&build(false), FileRead::Parsed { port: DEFAULT_PORT });
    assert_eq!(c.port, 3000);
}

#[test]
fn config_from_unparseable_file() {
    let d = Config::default(&build(false));
    let c = Config::from_file(&build(false), FileRead::Unparseable);
    assert_eq!(c.port, d.port);
    assert_eq!(c.server_version, d.server_version);
}

#[test]
fn config_from_unreadable_file() {
    let c = Config::from_file(&build(false), FileRead::Unreadable);
    assert_eq!(c.port, 3000);
    assert_eq!(c.server_version, "inferno 0.1.0.server.2024-03-05");
}

#[test]
fn config_cell_set_once() {
    let b = build(false);
    let mut s = Singletons::new();
    assert!(Config::instance(&s).is_none());
    assert_eq!(Config::load(&mut s, &b, FileRead::Parsed { port: 4000 }), Ok(()));
    assert_eq!(
        Config::load(&mut s, &b, FileRead::Parsed { port: 5000 }),
        Err(Error::AlreadyInitialized)
    );
    assert_eq!(Config::instance(&s).unwrap().port, 4000);
}

#[test]
fn config_instance_is_cached() {
    let b = build(false);
    let mut s = Singletons::new();
    Config::load(&mut s, &b, FileRead::Parsed { port: 4000 }).unwrap();
    let first = Config::instance(&s).unwrap();
    let second = Config::instance(&s).unwrap();
    assert!(std::ptr::eq(first, second));
    assert_eq!(second.port, 4000);
}

#[test]
fn args_cell_set_once() {
    let b = build(false);
    let mut s = Singletons::new();
    assert!(Args::instance(&s).is_none());
    let first = CliValues { log_dir: Some("one".to_string()), ..cli() };
    assert!(matches!(Args::load(&mut s, &first, &b), Ok(Startup::Continue)));
    let second = CliValues { log_dir: Some("two".to_string()), ..cli() };
    assert!(matches!(Args::load(&mut s, &second, &b), Err(Error::AlreadyInitialized)));
    assert_eq!(Args::instance(&s).unwrap().log_dir, "one");
    assert!(std::ptr::eq(Args::instance(&s).unwrap(), Args::instance(&s).unwrap()));
    assert!(Config::instance(&s).is_none());
}

#[test]
fn args_version_mode_sets_nothing() {
    let b = build(false);
    let mut s = Singletons::new();
    let c = CliValues { version: true, ..cli() };
    match Args::load(&mut s, &c, &b) {
        Ok(Startup::PrintVersion(lines)) => assert_eq!(lines[0], "inferno 0.1.0.server.2024-03-05"),
        other => panic!("expected version mode, got {:?}", other),
    }
    assert!(Args::instance(&s).is_none());
}

#[test]
fn args_load_rejects_bad_level() {
    let b = build(false);
    let mut s = Singletons::new();
    let c = CliValues { log_level: Some("x".to_string()), ..cli() };
    assert!(matches!(Args::load(&mut s, &c, &b), Err(Error::InvalidLogLevel)));
    assert!(Args::instance(&s).is_none());
}

#[test]
fn missing_file_is_created_with_defaults() {
    let c = Config::file_to_create(&build(false), false).unwrap();
    assert_eq!(c.port, 3000);
    assert_eq!(c.server_version, "inferno 0.1.0.server.2024-03-05");
}

#[test]
fn existing_file_is_not_rewritten() {
    assert!(Config::file_to_create(&build(false), true).is_none());
}
