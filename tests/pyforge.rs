use pyforge::cli::{execute_command, init_success_lines, run, welcome_lines, Commands, BANNER};
use pyforge::error::{Cause, DataFormat, IoFailure, OptionExt, PyForgeError};
use pyforge::report::{Line, Style};
use pyforge::validation::{
    check_project_name, ensure_python_project, marker_files, validate_project_name,
    validate_python_version,
};

fn refusal_reason(r: Result<(), PyForgeError>) -> (String, String) {
    match r {
        Err(PyForgeError::InvalidProjectName { name, reason }) => (name, reason),
        other => panic!("expected an invalid name, got {:?}", other),
    }
}

fn flat(lines: &[Line]) -> Vec<Vec<(Style, String)>> {
    lines
        .iter()
        .map(|l| l.segments.iter().map(|s| (s.style, s.text.clone())).collect())
        .collect()
}

fn seg(style: Style, text: &str) -> (Style, String) {
    (style, text.to_string())
}

#[test]
fn empty_name_is_refused() {
    let r = validate_project_name("");
    let (name, reason) = refusal_reason(r);
    assert_eq!(name, "");
    assert_eq!(reason, "Name cannot be empty");
}

#[test]
fn long_name_is_refused() {
    let name = "a".repeat(51);
    let (_, reason) = refusal_reason(validate_project_name(&name));
    assert_eq!(reason, "Name is too long (maximum 50 characters)");
    let fifty = "a".repeat(50);
    assert!(validate_project_name(&fifty).is_ok());
    // Length counts characters: thirty two-byte characters are not too long.
    let wide = "é".repeat(30);
    let (_, reason) = refusal_reason(validate_project_name(&wide));
    assert_eq!(reason, "Only letters, numbers, hyphens and underscores. Must start with letter");
    let (_, reason) = refusal_reason(validate_project_name(&"é".repeat(51)));
    assert_eq!(reason, "Name is too long (maximum 50 characters)");
}

#[test]
fn well_formed_names_are_accepted() {
    for name in ["my_project", "awesome-tool", "PyProject2024", "a", "Z-_9", "testing", "libs"] {
        assert!(validate_project_name(name).is_ok(), "{}", name);
    }
}

#[test]
fn bad_syntax_is_refused() {
    for name in ["1abc", "_abc", "-abc", "my project", "my.project", "café"] {
        let (n, reason) = refusal_reason(validate_project_name(name));
        assert_eq!(n, name);
        assert_eq!(reason, "Only letters, numbers, hyphens and underscores. Must start with letter");
    }
}

#[test]
fn reserved_names_are_refused_in_any_case() {
    for name in ["test", "tests", "lib", "src", "build", "dist", "Test", "TESTS", "Lib", "sRc", "BUILD", "Dist"] {
        let (n, reason) = refusal_reason(validate_project_name(name));
        assert_eq!(n, name);
        assert_eq!(reason, format!("'{}' is a reserved word", name));
    }
}

#[test]
fn name_check_with_given_inputs() {
    assert!(check_project_name("Test", true, "tests").is_err());
    assert!(check_project_name("Test", true, "Test").is_ok());
    let (_, reason) = refusal_reason(check_project_name("abc", false, "abc"));
    assert_eq!(reason, "Only letters, numbers, hyphens and underscores. Must start with letter");
    let (_, reason) = refusal_reason(check_project_name("", true, ""));
    assert_eq!(reason, "Name cannot be empty");
}

#[test]
fn exit_codes_follow_the_variant() {
    let cause = Cause { messages: vec!["inner".to_string()] };
    let s = || "x".to_string();
    let cases: Vec<(PyForgeError, i32)> = vec![
        (PyForgeError::FileError { message: s(), source: None }, 2),
        (PyForgeError::FileError { message: "other".to_string(), source: Some(cause.clone()) }, 2),
        (PyForgeError::DirectoryNotFound { path: s() }, 1),
        (PyForgeError::PermissionDenied { path: s(), reason: s() }, 126),
        (PyForgeError::ProjectAlreadyExists { name: s(), path: s() }, 1),
        (PyForgeError::NotAPythonProject, 65),
        (PyForgeError::InvalidConfig { file: s(), source: cause.clone() }, 1),
        (PyForgeError::CommandFailed { command: s(), code: 3 }, 1),
        (PyForgeError::CommandNotFound { command: s() }, 127),
        (PyForgeError::CommandTimeout { command: s(), timeout: 5 }, 1),
        (PyForgeError::InvalidProjectName { name: s(), reason: s() }, 64),
        (PyForgeError::UnsupportedPythonVersion { version: s() }, 1),
        (PyForgeError::TemplateNotFound { template: s() }, 1),
        (PyForgeError::NetworkError { message: s(), source: None }, 1),
        (PyForgeError::DownloadFailed { url: s(), status: s() }, 1),
        (PyForgeError::ParseError { file_type: s(), message: s() }, 1),
        (PyForgeError::InvalidJson { file: s(), message: s() }, 1),
        (PyForgeError::InvalidToml { file: s(), message: s() }, 1),
        (PyForgeError::Internal { message: s() }, 1),
        (PyForgeError::UserCancelled, 130),
        (PyForgeError::NotImplemented { feature: s() }, 1),
    ];
    for (e, code) in cases {
        assert_eq!(e.exit_code(), code, "{:?}", e);
    }
}

#[test]
fn recoverable_variants() {
    assert!(PyForgeError::NetworkError { message: "m".to_string(), source: None }.is_recoverable());
    assert!(PyForgeError::CommandTimeout { command: "c".to_string(), timeout: 1 }.is_recoverable());
    assert!(PyForgeError::UserCancelled.is_recoverable());
    assert!(!PyForgeError::NotAPythonProject.is_recoverable());
    assert!(!PyForgeError::internal("m".to_string()).is_recoverable());
    assert!(!PyForgeError::command_failed("c".to_string(), 1).is_recoverable());
}

#[test]
fn python_project_markers() {
    assert_eq!(marker_files(), vec!["setup.py", "pyproject.toml", "requirements.txt", "Pipfile"]);
    assert!(matches!(ensure_python_project(&[false, false, false, false]), Err(PyForgeError::NotAPythonProject)));
    assert!(ensure_python_project(&[false, true, false, false]).is_ok());
    assert!(ensure_python_project(&[true, true, true, true]).is_ok());
    assert!(ensure_python_project(&[false, false, false, true]).is_ok());
    assert!(matches!(ensure_python_project(&[]), Err(PyForgeError::NotAPythonProject)));
}

#[test]
fn python_versions() {
    assert!(validate_python_version("3.11.2").is_ok());
    for v in ["3.8", "3.9.1", "3.10", "3.12.0", "3.11"] {
        assert!(validate_python_version(v).is_ok(), "{}", v);
    }
    match validate_python_version("2.7") {
        Err(PyForgeError::UnsupportedPythonVersion { version }) => assert_eq!(version, "2.7"),
        other => panic!("unexpected {:?}", other),
    }
    for v in ["3.1", "3.7", "", "v3.11", "3.13"] {
        assert!(matches!(validate_python_version(v), Err(PyForgeError::UnsupportedPythonVersion { .. })), "{}", v);
    }
}

#[test]
fn init_succeeds_then_collides() {
    assert!(run("my_project", &None, false).is_ok());
    let second = run("my_project", &None, true).unwrap_err();
    match &second {
        PyForgeError::ProjectAlreadyExists { name, path } => {
            assert_eq!(name, "my_project");
            assert_eq!(path, "my_project");
        }
        other => panic!("unexpected {:?}", other),
    }
    assert_eq!(second.exit_code(), 1);
}

#[test]
fn init_reserved_name_exits_64() {
    let e = run("Test", &Some("basic".to_string()), false).unwrap_err();
    assert!(matches!(e, PyForgeError::InvalidProjectName { .. }));
    assert_eq!(e.exit_code(), 64);
    let e = execute_command(Commands::Init { name: "Test".to_string(), template: None }, true).unwrap_err();
    assert_eq!(e.exit_code(), 64);
    match e {
        PyForgeError::InvalidProjectName { name, reason } => {
            assert_eq!(name, "Test");
            assert_eq!(reason, "'Test' is a reserved word");
        }
        other => panic!("unexpected {:?}", other),
    }
    // A refused name takes precedence over a collision, whatever the template.
    match run("1bad", &Some("basic".to_string()), true) {
        Err(PyForgeError::InvalidProjectName { reason, .. }) => {
            assert_eq!(reason, "Only letters, numbers, hyphens and underscores. Must start with letter")
        }
        other => panic!("unexpected {:?}", other),
    }
}

#[test]
fn execute_command_dispatches() {
    assert!(execute_command(Commands::Init { name: "tool".to_string(), template: None }, false).is_ok());
    match execute_command(Commands::Build, false) {
        Err(PyForgeError::NotImplemented { feature }) => assert_eq!(feature, "build"),
        other => panic!("unexpected {:?}", other),
    }
}

#[test]
fn welcome_text() {
    let lines = flat(&welcome_lines());
    assert_eq!(lines.len(), 6);
    assert!(lines[0].is_empty());
    assert_eq!(lines[1], vec![seg(Style::RedBold, BANNER)]);
    assert_eq!(lines[2], vec![seg(Style::Plain, "Welcome to PyForge!")]);
    assert_eq!(
        lines[4],
        vec![
            seg(Style::Plain, "Get started by running '"),
            seg(Style::YellowBold, "pyforge --help"),
            seg(Style::Plain, "'."),
        ]
    );
    assert_eq!(lines[5], vec![seg(Style::Plain, "Happy coding! 🚀")]);
}

#[test]
fn init_progress_text() {
    let done = flat(&init_success_lines("demo"));
    assert_eq!(done[0], vec![seg(Style::Green, "🚀"), seg(Style::Plain, " Creating project: "), seg(Style::Cyan, "demo")]);
    assert_eq!(done[1], vec![
        seg(Style::Green, "✅"),
        seg(Style::Plain, " Project '"),
        seg(Style::Green, "demo"),
        seg(Style::Plain, "' created successfully!"),
    ]);
}

#[test]
fn messages_of_variants() {
    assert_eq!(PyForgeError::command_failed("make".to_string(), -3).message(), "Command 'make' failed with exit code -3");
    assert_eq!(PyForgeError::command_failed("make".to_string(), 0).message(), "Command 'make' failed with exit code 0");
    assert_eq!(
        PyForgeError::command_failed("m".to_string(), i32::MIN).message(),
        "Command 'm' failed with exit code -2147483648"
    );
    assert_eq!(
        PyForgeError::CommandTimeout { command: "pip".to_string(), timeout: 30 }.message(),
        "Timeout executing: 'pip' (expected 30s)"
    );
    assert_eq!(
        PyForgeError::CommandTimeout { command: "pip".to_string(), timeout: u64::MAX }.message(),
        "Timeout executing: 'pip' (expected 18446744073709551615s)"
    );
    assert_eq!(
        PyForgeError::ProjectAlreadyExists { name: "a".to_string(), path: "b".to_string() }.message(),
        "Project 'a' already exists at 'b'"
    );
    assert_eq!(
        PyForgeError::InvalidProjectName { name: "x y".to_string(), reason: "Bad.".to_string() }.message(),
        "Invalid project name: 'x y'. Bad."
    );
    assert_eq!(PyForgeError::NotAPythonProject.message(), "No valid Python project detected in current directory");
    assert_eq!(PyForgeError::UserCancelled.message(), "Operation cancelled by user");
    assert_eq!(PyForgeError::internal("boom".to_string()).message(), "Internal error: boom");
    assert_eq!(
        PyForgeError::from_parse(DataFormat::Toml, "bad key".to_string()).message(),
        "Error parsing TOML: bad key"
    );
}

#[test]
fn conversions_from_lower_failures() {
    let cause = Cause { messages: vec!["no such file".to_string()] };
    match PyForgeError::from_io(IoFailure::NotFound, cause.clone()) {
        PyForgeError::FileError { message, source } => {
            assert_eq!(message, "File or directory not found");
            assert_eq!(source.unwrap().messages, vec!["no such file".to_string()]);
        }
        other => panic!("unexpected {:?}", other),
    }
    match PyForgeError::from_io(IoFailure::PermissionDenied, cause.clone()) {
        PyForgeError::PermissionDenied { path, reason } => {
            assert_eq!(path, "unknown");
            assert_eq!(reason, "Permission denied");
        }
        other => panic!("unexpected {:?}", other),
    }
    match PyForgeError::from_io(IoFailure::Other, cause.clone()) {
        PyForgeError::FileError { message, .. } => assert_eq!(message, "I/O error"),
        other => panic!("unexpected {:?}", other),
    }
    match PyForgeError::from_network(cause.clone()) {
        PyForgeError::NetworkError { message, source } => {
            assert_eq!(message, "HTTP connection error");
            assert!(source.is_some());
        }
        other => panic!("unexpected {:?}", other),
    }
    match PyForgeError::from_parse(DataFormat::Json, "eof".to_string()) {
        PyForgeError::ParseError { file_type, message } => {
            assert_eq!(file_type, "JSON");
            assert_eq!(message, "eof");
        }
        other => panic!("unexpected {:?}", other),
    }
    match PyForgeError::file_error("write failed".to_string(), cause.clone()) {
        PyForgeError::FileError { message, source } => {
            assert_eq!(message, "write failed");
            assert!(source.is_some());
        }
        other => panic!("unexpected {:?}", other),
    }
    assert!(matches!(PyForgeError::network_error("m".to_string(), None), PyForgeError::NetworkError { source: None, .. }));
}

#[test]
fn report_with_guidance() {
    let e = PyForgeError::ProjectAlreadyExists { name: "app".to_string(), path: "./app".to_string() };
    let lines = flat(&e.report());
    assert_eq!(lines.len(), 2);
    assert_eq!(lines[0], vec![seg(Style::RedBold, "❌ Error:"), seg(Style::Plain, " Project 'app' already exists at './app'")]);
    assert_eq!(lines[1], vec![
        seg(Style::Plain, "💡 "),
        seg(Style::Yellow, "Suggestion"),
        seg(Style::Plain, ": rm -rf "),
        seg(Style::Cyan, "./app"),
        seg(Style::Plain, " && pyforge init "),
        seg(Style::Green, "app"),
    ]);
    let lines = flat(&PyForgeError::InvalidProjectName { name: "1".to_string(), reason: "r".to_string() }.report());
    assert_eq!(lines.len(), 3);
    assert_eq!(lines[2][1], seg(Style::Green, "Valid examples:"));
    let lines = flat(&PyForgeError::CommandNotFound { command: "uv".to_string() }.report());
    assert_eq!(lines[1][3], seg(Style::Cyan, "uv"));
    let lines = flat(&PyForgeError::NotAPythonProject.report());
    assert_eq!(lines[1][3], seg(Style::Cyan, "Run 'pyforge init <name>' to create a new project"));
}

#[test]
fn report_with_causal_chain() {
    let cause = Cause { messages: vec!["outer".to_string(), "inner".to_string()] };
    let e = PyForgeError::file_error("read failed".to_string(), cause);
    let lines = flat(&e.report());
    assert_eq!(lines, vec![
        vec![seg(Style::RedBold, "❌ Error:"), seg(Style::Plain, " File error: read failed")],
        vec![seg(Style::Yellow, "Caused by:")],
        vec![seg(Style::Plain, "  - "), seg(Style::BrightBlack, "outer")],
        vec![seg(Style::Plain, "  - "), seg(Style::BrightBlack, "inner")],
    ]);
    let plain = flat(&PyForgeError::FileError { message: "m".to_string(), source: None }.report());
    assert_eq!(plain.len(), 1);
    let empty = flat(&PyForgeError::InvalidConfig { file: "f".to_string(), source: Cause { messages: vec![] } }.report());
    assert_eq!(empty.len(), 1);
}

#[test]
fn option_to_internal_error() {
    assert_eq!(Some(4).ok_or_internal("missing").unwrap(), 4);
    match None::<u8>.ok_or_internal("missing") {
        Err(PyForgeError::Internal { message }) => assert_eq!(message, "missing"),
        other => panic!("unexpected {:?}", other),
    }
}
