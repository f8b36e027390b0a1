//! The editor domain types: text coordinates, line endings, project
//! configuration, settings defaults, and the error taxonomy.

use atom_ipc::text::{Position, Range, TextEdit, LineEnding};
use atom_ipc::error_handling::{ErrorContext, ErrorHandler, AtomError, SecuritySeverity,
    RecoveryStrategy, LoggingErrorReporter, ErrorReporter, AtomErrorExt,
    setup_default_recovery_strategies};
use atom_ipc::project::{ProjectConfig, ProjectType, ProjectSandboxConfig, is_system_path};
use atom_ipc::settings::{DaemonSettings, EditorSettings, ExtensionSettings, AiSettings};
use atom_ipc::logging::{LoggingConfig, LogLevel, LogRotation};
use atom_ipc::index_types::SearchOptions as IndexSearchOptions;
use atom_ipc::core_types::CoreError;
use atom_ipc::IpcError;

#[test]
fn test_line_ending_detection() {
    assert_eq!(LineEnding::detect("Hello\nWorld"), LineEnding::LF);
    assert_eq!(LineEnding::detect("Hello\r\nWorld"), LineEnding::CRLF);
    assert_eq!(LineEnding::detect("Hello\rWorld"), LineEnding::CR);
}

#[test]
fn line_ending_detect_defaults_and_as_str() {
    assert_eq!(LineEnding::detect("no line breaks"), LineEnding::LF);
    assert_eq!(LineEnding::detect(""), LineEnding::LF);
    assert_eq!(LineEnding::LF.as_str(), "\n");
    assert_eq!(LineEnding::CRLF.as_str(), "\r\n");
    assert_eq!(LineEnding::CR.as_str(), "\r");
    assert_eq!(LineEnding::default(), LineEnding::LF);
}

#[test]
fn test_atom_error_ext() {
    let result: Result<(), String> =
        Err(std::io::Error::new(std::io::ErrorKind::NotFound, "File not found").to_string());

    let _converted = result.with_atom_context("test_operation", "test_component");
}

#[test]
fn atom_error_ext_messages() {
    let failed: Result<u32, String> = Err("File not found".to_string());
    match failed.with_atom_context("open_file", "file_manager") {
        Err(m) => assert_eq!(
            m,
            "Operation 'open_file' failed in component 'file_manager': File not found"
        ),
        Ok(_) => panic!("must stay an error"),
    }
    let fine: Result<u32, String> = Ok(17);
    assert_eq!(fine.with_atom_context("op", "comp"), Ok(17));
    let ctx = ErrorContext::new("save", "buffers");
    let detailed: Result<(), String> = Err("boom".to_string());
    match detailed.with_atom_context_detailed(ctx) {
        Err(m) => assert_eq!(m, "Operation 'save' failed in component 'buffers': boom"),
        Ok(_) => panic!("must stay an error"),
    }
}

#[test]
fn positions_ranges_edits() {
    let p = Position::new(1, 2);
    assert_eq!((p.line, p.column), (1, 2));
    assert_eq!(Position::zero(), Position::new(0, 0));

    let r = Range::new(Position::new(1, 2), Position::new(1, 2));
    assert!(r.is_empty());
    let r2 = Range::new(Position::new(0, 0), Position::new(2, 0));
    assert!(!r2.is_empty());
    assert!(r2.contains(Position::new(1, 5)));
    assert!(r2.contains(Position::new(0, 0)));
    assert!(!r2.contains(Position::new(2, 0)), "the end is exclusive");
    assert!(!r2.contains(Position::new(3, 0)));

    let e = TextEdit::new(r2, "abc".to_string());
    assert_eq!(e.new_text, "abc");
    let ins = TextEdit::insert(Position::new(4, 0), "x".to_string());
    assert!(Range::new(ins.range.start, ins.range.end).is_empty());
    let del = TextEdit::delete(r2);
    assert_eq!(del.new_text, "");
    let rep = TextEdit::replace(r2, "y".to_string());
    assert_eq!(rep.range, r2);
    assert_eq!(rep.new_text, "y");
}

fn valid_config() -> ProjectConfig {
    ProjectConfig {
        name: "Test Project".to_string(),
        root_path: "/work/test".to_string(),
        ..ProjectConfig::default()
    }
}

#[test]
fn project_config_validate_accepts_sound_config() {
    assert!(valid_config().validate().is_ok());
}

#[test]
fn project_config_validate_rejects_bad_names() {
    let mut cfg = valid_config();
    cfg.name = "".to_string();
    assert_eq!(cfg.validate().unwrap_err(), "Project name cannot be empty");
    cfg.name = "   ".to_string();
    assert_eq!(cfg.validate().unwrap_err(), "Project name cannot be empty");
    cfg.name = "x".repeat(256);
    assert_eq!(cfg.validate().unwrap_err(), "Project name too long (max 255 characters)");
    cfg.name = "bad/name".to_string();
    assert_eq!(cfg.validate().unwrap_err(), "Project name contains invalid characters");
}

#[test]
fn project_config_validate_rejects_relative_root() {
    let mut cfg = valid_config();
    cfg.root_path = "relative/path".to_string();
    assert_eq!(cfg.validate().unwrap_err(), "Root path must be absolute");
}

#[test]
fn project_config_validate_rejects_traversal_and_danger() {
    let mut cfg = valid_config();
    cfg.ignore_patterns.push("../secrets".to_string());
    assert!(cfg.validate().unwrap_err().contains("directory traversal"));

    let mut cfg2 = valid_config();
    cfg2.build_command = Some("make && rm -rf /".to_string());
    assert_eq!(cfg2.validate().unwrap_err(), "Potentially dangerous build command detected");

    let mut cfg3 = valid_config();
    cfg3.test_command = Some("format c:".to_string());
    assert_eq!(cfg3.validate().unwrap_err(), "Potentially dangerous test command detected");

    let mut cfg4 = valid_config();
    cfg4.build_command = Some("cargo build".to_string());
    cfg4.test_command = Some("cargo test".to_string());
    assert!(cfg4.validate().is_ok());
}

#[test]
fn project_config_default_values() {
    let cfg = ProjectConfig::default();
    assert_eq!(cfg.name, "Untitled Project");
    assert_eq!(cfg.project_type, ProjectType::Generic);
    assert_eq!(
        cfg.ignore_patterns,
        vec![".git", "node_modules", "target", ".DS_Store", "*.tmp"]
    );
    assert_eq!(cfg.include_patterns, vec!["*"]);
    assert!(cfg.build_command.is_none());
    assert!(cfg.test_command.is_none());
    assert!(cfg.language_servers.is_empty());
}

#[test]
fn sandbox_refuses_system_paths() {
    assert!(is_system_path("/etc/passwd"));
    assert!(is_system_path("/usr/bin"));
    assert!(is_system_path("c:\\windows\\system32"));
    assert!(!is_system_path("/home/dev/projects"));
    assert!(!is_system_path("/usr/local/src"));
}

#[test]
fn sandbox_limits() {
    let sandbox = ProjectSandboxConfig::default();
    assert_eq!(sandbox.max_project_size, 10 * 1024 * 1024 * 1024);
    assert_eq!(sandbox.max_file_size, 100 * 1024 * 1024);
    assert_eq!(sandbox.max_file_count, 100_000);
    assert!(sandbox.allowed_directories.is_empty());
}

#[test]
fn error_context_with_data_overwrites_existing_key() {
    let context = ErrorContext::new("op", "comp")
        .with_data("attempt", "1")
        .with_data("file_size", "1024")
        .with_data("attempt", "2");
    assert_eq!(
        context.additional_data,
        vec![
            ("attempt".to_string(), "2".to_string()),
            ("file_size".to_string(), "1024".to_string()),
        ],
        "a repeated key keeps one entry with the latest value"
    );
}

#[test]
fn error_context_builders() {
    let context = ErrorContext::new("open_file", "file_manager")
        .with_user("test_user")
        .with_file("/test/file.txt")
        .with_data("operation_id", "12345");
    assert_eq!(context.operation, "open_file");
    assert_eq!(context.component, "file_manager");
    assert_eq!(context.user_id.as_deref(), Some("test_user"));
    assert_eq!(context.file_path.as_deref(), Some("/test/file.txt"));
    assert_eq!(
        context.additional_data,
        vec![("operation_id".to_string(), "12345".to_string())]
    );
}

#[test]
fn error_handler_strategies_and_reporters() {
    let mut handler = ErrorHandler::new();
    handler.register_recovery_strategy(
        "file_system",
        RecoveryStrategy::Retry { max_attempts: 3, delay_ms: 1000 },
    );
    handler.register_recovery_strategy(
        "plugin",
        RecoveryStrategy::Fallback { fallback_action: "disable_plugin".to_string() },
    );
    handler.add_reporter(Box::new(LoggingErrorReporter));

    let error = AtomError::FileSystem {
        message: "File not found".to_string(),
        path: "/test/file.txt".to_string(),
        source: None,
    };
    assert_eq!(handler.get_error_type(&error), "file_system");
    assert_eq!(
        handler.get_error_type(&AtomError::DependencyInjection {
            message: "m".to_string(),
            service_type: "s".to_string(),
        }),
        "dependency_injection"
    );

    // Re-registering a name replaces its strategy; others stay put.
    handler.register_recovery_strategy(
        "file_system",
        RecoveryStrategy::Retry { max_attempts: 7, delay_ms: 50 },
    );
    assert_eq!(
        handler.recovery_strategy_for("file_system"),
        Some(&RecoveryStrategy::Retry { max_attempts: 7, delay_ms: 50 })
    );
    assert_eq!(
        handler.recovery_strategy_for("plugin"),
        Some(&RecoveryStrategy::Fallback { fallback_action: "disable_plugin".to_string() })
    );
    assert_eq!(handler.recovery_strategy_for("theme"), None);

    let reporter = LoggingErrorReporter;
    assert_eq!(reporter.get_error_type_name(&error), "FileSystem");
    let context = ErrorContext::new("open_file", "file_manager");
    assert!(reporter.report_error(&error, &context).is_ok());
    assert!(reporter
        .report_recovery_attempt(&error, &RecoveryStrategy::Ignore)
        .is_ok());
}

#[test]
fn default_recovery_strategies_installed() {
    let mut handler = ErrorHandler::new();
    setup_default_recovery_strategies(&mut handler);
    assert_eq!(
        handler.recovery_strategy_for("file_system"),
        Some(&RecoveryStrategy::Retry { max_attempts: 3, delay_ms: 1000 })
    );
    assert_eq!(
        handler.recovery_strategy_for("network"),
        Some(&RecoveryStrategy::Retry { max_attempts: 5, delay_ms: 1000 })
    );
    assert_eq!(handler.recovery_strategy_for("security"), Some(&RecoveryStrategy::Shutdown));
    assert_eq!(handler.recovery_strategy_for("performance"), Some(&RecoveryStrategy::Ignore));
    assert_eq!(handler.recovery_strategy_for("text_buffer"), None);
    // Running the setup again re-registers every name in place.
    setup_default_recovery_strategies(&mut handler);
    assert_eq!(
        handler.recovery_strategy_for("internal"),
        Some(&RecoveryStrategy::Shutdown)
    );
}

#[test]
fn security_severity_labels() {
    assert_eq!(SecuritySeverity::Low.as_str(), "LOW");
    assert_eq!(SecuritySeverity::Medium.as_str(), "MEDIUM");
    assert_eq!(SecuritySeverity::High.as_str(), "HIGH");
    assert_eq!(SecuritySeverity::Critical.as_str(), "CRITICAL");
}

#[test]
fn settings_defaults() {
    let daemon = DaemonSettings::default();
    assert_eq!(daemon.daemon_socket, "127.0.0.1:8877");
    assert!(daemon.auto_start);
    assert_eq!(daemon.ipc_max_frame_bytes, 1024 * 1024);
    assert_eq!(daemon.ipc_request_timeout_ms, 30_000);
    assert_eq!(daemon.ipc_max_inflight_per_conn, 1024);

    let editor = EditorSettings::default();
    assert_eq!(editor.auto_save_delay, 1000);
    assert_eq!(editor.max_highlight_size, 10 * 1024 * 1024);

    let ext = ExtensionSettings::default();
    assert_eq!(ext.registry_url, "https://open-vsx.org");
    assert!(!ext.auto_update);

    let ai = AiSettings::default();
    assert!(ai.api_key.is_none());
    assert!(ai.mcp_servers.is_empty());
}

#[test]
fn daemon_settings_env_overrides() {
    let mut daemon = DaemonSettings::default();
    daemon.apply_ipc_overrides(Some(1), Some(4096), Some(250));
    assert_eq!(daemon.ipc_max_inflight_per_conn, 1);
    assert_eq!(daemon.ipc_max_frame_bytes, 4096);
    assert_eq!(daemon.ipc_request_timeout_ms, 250);
    daemon.apply_ipc_overrides(None, None, None);
    assert_eq!(daemon.ipc_max_inflight_per_conn, 1);
    assert_eq!(daemon.ipc_max_frame_bytes, 4096);
    assert_eq!(daemon.ipc_request_timeout_ms, 250);
}

#[test]
fn logging_defaults() {
    let config = LoggingConfig::default();
    assert_eq!(config.level, LogLevel::Info);
    assert!(config.log_file.is_none());
    assert!(config.enable_console);
    assert!(!config.enable_json);
    assert_eq!(config.rotation, LogRotation::Daily);
}

#[test]
fn index_search_defaults() {
    let options = IndexSearchOptions::default();
    assert!(!options.case_sensitive);
    assert_eq!(options.include_patterns, vec!["*"]);
    assert_eq!(options.max_results, 1000);
    assert_eq!(options.exclude_patterns.len(), 4);
}

#[test]
fn error_messages_render() {
    assert_eq!(IpcError::Backpressure.message(), "Backpressure: too many pending requests");
    assert_eq!(IpcError::Timeout.message(), "Request timeout");
    assert_eq!(IpcError::Cancelled.message(), "Request cancelled");
    assert_eq!(
        IpcError::InvalidFrame("Checksum mismatch".to_string()).message(),
        "Invalid frame: Checksum mismatch"
    );
    assert_eq!(
        CoreError::BufferNotFound("b9".to_string()).message(),
        "Buffer not found: b9"
    );
    assert_eq!(
        CoreError::UnsupportedLanguage("cobol".to_string()).message(),
        "Language not supported: cobol"
    );
}
