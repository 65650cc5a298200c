use edoc::args::{parse_args, BuildRequest, Command, UsageError};
use edoc::document::{build_document, decimal_string, render, render_cmd};
use edoc::output::{emit_ops, FileOp, OutputFiles};
use edoc::plan::{plan, Action, RunError};
use edoc::profile::{resolve_profile, Framework, FrameworkProfile, DEFAULT_PORT};
use edoc::text::str_eq;

fn strings(items: &[&str]) -> Vec<String> {
    items.iter().map(|s| s.to_string()).collect()
}

fn request(args: &[&str]) -> BuildRequest {
    match parse_args(&strings(args)) {
        Ok(Command::Generate(r)) => r,
        other => panic!("expected a request, got {:?}", other),
    }
}

fn check_row(k: &str, base: &str, setup: &[&str], dep: &str, start: &[&str]) {
    let p: FrameworkProfile = resolve_profile(k).expect("supported keyword");
    assert_eq!(p.base_image, base);
    assert_eq!(p.setup_commands, strings(setup));
    assert_eq!(p.dependency_install_command, dep);
    assert_eq!(p.default_port, 3000);
    assert_eq!(p.start_command, strings(start));
}

#[test]
fn profile_node() {
    check_row(
        "node",
        "node:latest",
        &["apt-get install -y nodejs", "apt-get install -y npm", "apt-get install -y yarn"],
        "npm install",
        &["npm", "start"],
    );
}

#[test]
fn profile_python() {
    check_row(
        "python",
        "python:latest",
        &["apt-get install -y python3", "apt-get install -y python3-pip"],
        "pip3 install -r requirements.txt",
        &["python3", "app.py"],
    );
}

#[test]
fn profile_dotnet() {
    check_row(
        "dotnet",
        "mcr.microsoft.com/dotnet/core/sdk:latest",
        &["apt-get install -y dotnet"],
        "dotnet restore",
        &["dotnet", "run"],
    );
}

#[test]
fn profile_ruby() {
    check_row("ruby", "ruby:latest", &["apt-get install -y ruby"], "bundle install", &["ruby", "app.rb"]);
}

#[test]
fn profile_vue() {
    check_row(
        "vue",
        "node:latest",
        &["apt-get install -y npm", "apt-get install -y yarn"],
        "npm install",
        &["npm", "run", "serve"],
    );
}

#[test]
fn profile_react_and_angular() {
    for k in ["react", "angular"] {
        check_row(
            k,
            "node:latest",
            &["apt-get install -y npm", "apt-get install -y yarn"],
            "npm install",
            &["npm", "run", "start"],
        );
    }
}

#[test]
fn unknown_keyword_has_no_profile() {
    assert!(resolve_profile("unknown").is_none());
    assert!(resolve_profile("Node").is_none());
    assert!(resolve_profile("").is_none());
    assert!(resolve_profile("nodejs").is_none());
}

#[test]
fn keyword_lookup() {
    assert_eq!(Framework::from_keyword("angular"), Some(Framework::Angular));
    assert_eq!(Framework::from_keyword("PYTHON"), None);
}

#[test]
fn default_port_for_every_keyword() {
    assert_eq!(DEFAULT_PORT, 3000);
    for k in ["node", "python", "dotnet", "ruby", "vue", "react", "angular"] {
        let r = request(&["./app", k]);
        let lines = r.document();
        assert_eq!(lines[lines.len() - 2], "EXPOSE 3000");
    }
}

#[test]
fn port_override_verbatim() {
    for flag in ["--port", "port"] {
        for value in ["8080", "abc", "80:80"] {
            let r = request(&["./app", "ruby", flag, value]);
            assert_eq!(r.port_override, Some(value.to_string()));
            let lines = r.document();
            assert_eq!(lines[lines.len() - 2], format!("EXPOSE {}", value));
        }
    }
}

#[test]
fn port_flag_before_framework() {
    let r = request(&["./app", "--port", "9000", "dotnet"]);
    assert_eq!(r.framework, Framework::Dotnet);
    assert_eq!(r.port_override, Some("9000".to_string()));
}

#[test]
fn rotation_keeps_one_generation() {
    let mut files = OutputFiles::new();
    files.emit("first".to_string());
    assert_eq!(files.current, Some("first".to_string()));
    assert_eq!(files.backup, None);
    files.emit("second".to_string());
    assert_eq!(files.current, Some("second".to_string()));
    assert_eq!(files.backup, Some("first".to_string()));
    files.emit("third".to_string());
    assert_eq!(files.current, Some("third".to_string()));
    assert_eq!(files.backup, Some("second".to_string()));
}

#[test]
fn emit_steps() {
    let ops = emit_ops(true, "x".to_string());
    assert_eq!(ops.len(), 2);
    assert!(matches!(ops[0], FileOp::MoveToBackup));
    assert!(matches!(&ops[1], FileOp::Write(t) if t == "x"));
    let ops = emit_ops(false, "y".to_string());
    assert_eq!(ops.len(), 1);
    assert!(matches!(&ops[0], FileOp::Write(t) if t == "y"));
}

#[test]
fn move_to_backup_without_file_changes_nothing() {
    let mut files = OutputFiles { current: None, backup: Some("old".to_string()) };
    files.apply(&FileOp::MoveToBackup);
    assert_eq!(files.current, None);
    assert_eq!(files.backup, Some("old".to_string()));
}

#[test]
fn node_scenario() {
    let r = request(&["./app", "node"]);
    assert_eq!(
        r.text(),
        "FROM node:latest\n\
         RUN apt-get update && apt-get install -y\n\
         RUN apt-get install -y nodejs\n\
         RUN apt-get install -y npm\n\
         RUN apt-get install -y yarn\n\
         COPY ./app /usr/src/app/\n\
         WORKDIR /usr/src/app/\n\
         RUN npm install\n\
         EXPOSE 3000\n\
         CMD [\"npm\",\"start\"]\n"
    );
}

#[test]
fn python_port_scenario() {
    let r = request(&["./app", "python", "--port", "8080"]);
    let lines = r.document();
    assert!(lines.contains(&"EXPOSE 8080".to_string()));
    assert_eq!(lines.last().unwrap(), "CMD [\"python3\",\"app.py\"]");
    assert_eq!(lines[0], "FROM python:latest");
}

#[test]
fn missing_directory_scenario() {
    let r = request(&["./missing", "node"]);
    match plan(&r, false, true) {
        Action::Fail(e) => {
            assert_eq!(e, RunError::DirectoryNotFound);
            assert_eq!(e.exit_code(), 1);
        }
        Action::Emit(_) => panic!("a missing folder must not write"),
    }
}

#[test]
fn plan_with_existing_file() {
    let r = request(&["./app", "vue"]);
    match plan(&r, true, true) {
        Action::Emit(ops) => {
            assert_eq!(ops.len(), 2);
            assert!(matches!(ops[0], FileOp::MoveToBackup));
            assert!(matches!(&ops[1], FileOp::Write(t) if *t == r.text()));
        }
        Action::Fail(e) => panic!("unexpected failure {:?}", e),
    }
    match plan(&r, true, false) {
        Action::Emit(ops) => assert_eq!(ops.len(), 1),
        Action::Fail(e) => panic!("unexpected failure {:?}", e),
    }
}

#[test]
fn help_scenario() {
    for h in ["--help", "help", "--version", "version"] {
        assert!(matches!(parse_args(&strings(&["./app", "node", h])), Ok(Command::Help)));
    }
    assert!(matches!(parse_args(&strings(&["--help"])), Ok(Command::Help)));
}

#[test]
fn usage_errors() {
    assert_eq!(parse_args(&Vec::new()).unwrap_err(), UsageError::MissingDirectory);
    assert_eq!(parse_args(&strings(&["./app", "node", "--port"])).unwrap_err(), UsageError::MissingPortValue);
    assert_eq!(parse_args(&strings(&["./app", "cobol"])).unwrap_err(), UsageError::UnknownFramework);
    assert_eq!(parse_args(&strings(&["./app"])).unwrap_err(), UsageError::UnknownFramework);
    assert_eq!(RunError::Usage(UsageError::UnknownFramework).exit_code(), 1);
}

#[test]
fn first_framework_wins() {
    let r = request(&["./app", "ruby", "node"]);
    assert_eq!(r.framework, Framework::Ruby);
    // the folder itself is not read as a keyword
    let r = request(&["node", "python"]);
    assert_eq!(r.framework, Framework::Python);
    assert_eq!(r.directory, "node");
}

#[test]
fn folder_embedded_verbatim() {
    let r = request(&["my dir; rm", "react"]);
    assert!(r.document().contains(&"COPY my dir; rm /usr/src/app/".to_string()));
}

#[test]
fn decimal_values() {
    assert_eq!(decimal_string(0), "0");
    assert_eq!(decimal_string(7), "7");
    assert_eq!(decimal_string(3000), "3000");
    assert_eq!(decimal_string(65535), "65535");
    assert_eq!(decimal_string(u64::MAX), u64::MAX.to_string());
}

#[test]
fn render_lines() {
    assert_eq!(render(&Vec::new()), "");
    assert_eq!(render(&strings(&["a", "b"])), "a\nb\n");
}

#[test]
fn exec_form() {
    assert_eq!(render_cmd(&strings(&["npm", "run", "serve"])), "CMD [\"npm\",\"run\",\"serve\"]");
    assert_eq!(render_cmd(&Vec::new()), "CMD []");
}

#[test]
fn custom_profile_document() {
    let p = FrameworkProfile {
        base_image: "img".to_string(),
        setup_commands: Vec::new(),
        dependency_install_command: "make".to_string(),
        default_port: 42,
        start_command: strings(&["run"]),
    };
    let lines = build_document(&p, "src", &None);
    assert_eq!(
        lines,
        strings(&[
            "FROM img",
            "RUN apt-get update && apt-get install -y",
            "COPY src /usr/src/app/",
            "WORKDIR /usr/src/app/",
            "RUN make",
            "EXPOSE 42",
            "CMD [\"run\"]",
        ])
    );
}

#[test]
fn string_equality() {
    assert!(str_eq("abc", "abc"));
    assert!(!str_eq("abc", "abd"));
    assert!(!str_eq("ab", "abc"));
    assert!(str_eq("", ""));
}
