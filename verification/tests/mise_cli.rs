use miseo::error::Error;
use miseo::mise::cli::{
    bin_paths_args, bin_paths_from_output, capture_output, capture_result, captured_status_result,
    ensure_success, global_runtime_installed, global_runtime_selector, install_into_args, latest_args, latest_tool_spec,
    ls_args, neutral_cd, path_tool_spec, require_non_empty, runtime_spec_from_install_path,
    runtime_spec_from_output, streamed_status_result, trust_args, where_args, LsEntry,
};
use miseo::mise::Cli;
use miseo::spec::{Runtime, RuntimePins, RuntimeSpec, ToolId, ToolSpec};

#[test]
fn ensure_success_returns_mise_command_failed_error() {
    let err = ensure_success(
        "install-into npm:prettier".to_string(),
        false,
        "boom".to_string(),
    )
    .unwrap_err();
    match err {
        Error::MiseCommandFailed { command, stderr } => {
            assert_eq!(command, "mise install-into npm:prettier");
            assert_eq!(stderr, "boom");
        }
        _ => panic!("expected mise command failure"),
    }
}

#[test]
fn ensure_success_accepts_ok_status() {
    ensure_success("latest npm:prettier".to_string(), true, String::new()).unwrap();
}

#[test]
fn install_into_args_builds_expected_exec_command() {
    let mut runtime_versions = RuntimePins::new();
    runtime_versions.insert(
        Runtime::Node,
        RuntimeSpec::new(Runtime::Node, "24.13.1"),
    );
    runtime_versions.insert(
        Runtime::Python,
        RuntimeSpec::new(Runtime::Python, "3.12.8"),
    );

    let spec: ToolSpec = "npm:prettier@3.8.1".parse().unwrap();
    let target_dir = "/tmp/miseo/npm-prettier/3.8.1+node-24.13.1".to_string();

    let args = install_into_args(&runtime_versions, &spec, &target_dir);
    assert_eq!(
        args,
        vec![
            "exec",
            "--cd",
            neutral_cd(),
            "node@24.13.1",
            "python@3.12.8",
            "--",
            "mise",
            "install-into",
            "npm:prettier@3.8.1",
            "/tmp/miseo/npm-prettier/3.8.1+node-24.13.1",
        ]
    );
}

#[test]
fn latest_args_builds_expected_exec_command() {
    let mut runtime_versions = RuntimePins::new();
    runtime_versions.insert(
        Runtime::Node,
        RuntimeSpec::new(Runtime::Node, "24.13.1"),
    );

    let spec: ToolSpec = "npm:prettier@latest".parse().unwrap();

    let args = latest_args(&runtime_versions, &spec);
    assert_eq!(
        args,
        vec![
            "exec",
            "--cd",
            neutral_cd(),
            "node@24.13.1",
            "--",
            "mise",
            "latest",
            "npm:prettier@latest",
            "--cd",
            neutral_cd(),
        ]
    );
}

#[test]
fn path_tool_spec_uses_slashes_for_windows_paths() {
    let tool_id: ToolId = "npm:prettier".parse().unwrap();
    let install_dir =
        r"C:\Users\runneradmin\.miseo\npm-prettier\3.8.1+node-24.15.0".to_string();

    assert_eq!(
        path_tool_spec(&tool_id, &install_dir),
        "npm:prettier@path:C:/Users/runneradmin/.miseo/npm-prettier/3.8.1+node-24.15.0"
    );
}

#[test]
fn runtime_spec_from_install_path_uses_final_path_component() {
    let spec = runtime_spec_from_install_path(
        &Runtime::Node,
        "/home/user/.local/share/mise/installs/node/24.15.0".to_string(),
        "mise where",
    )
    .unwrap();

    assert_eq!(spec, RuntimeSpec::new(Runtime::Node, "24.15.0"));
}

#[test]
fn runtime_spec_from_install_path_follows_path_rules() {
    let spec = runtime_spec_from_install_path(&Runtime::Node, "/x/22.1/./".to_string(), "ctx").unwrap();
    assert_eq!(spec.selector(), "22.1");
    let err = runtime_spec_from_install_path(&Runtime::Node, "/x/..".to_string(), "mise where")
        .unwrap_err();
    assert_eq!(
        err.to_string(),
        "internal state error: mise where returned path without a final component"
    );
    let err = runtime_spec_from_install_path(&Runtime::Node, "/".to_string(), "mise where").unwrap_err();
    assert!(matches!(err, Error::ManifestInvariant(_)));
    let err = runtime_spec_from_install_path(&Runtime::Node, String::new(), "mise where").unwrap_err();
    assert_eq!(
        err.to_string(),
        "internal state error: mise where returned empty output"
    );
}

#[test]
fn empty_answers_are_internal_errors() {
    let err = require_non_empty(String::new(), "ctx").unwrap_err();
    assert!(matches!(&err, Error::ManifestInvariant(m) if m == "ctx returned empty output"));
    assert_eq!(require_non_empty("x".to_string(), "ctx").unwrap(), "x");
    let requested: ToolSpec = "npm:prettier@latest".parse().unwrap();
    let err = latest_tool_spec(&requested, String::new()).unwrap_err();
    assert_eq!(
        err.to_string(),
        "internal state error: mise latest for 'npm:prettier@latest' returned empty output"
    );
    let exact = latest_tool_spec(&requested, "3.8.2".to_string()).unwrap();
    assert_eq!(exact.to_string(), "npm:prettier@3.8.2");
    let err = runtime_spec_from_output(&Runtime::Node, String::new(), "mise ls --global").unwrap_err();
    assert_eq!(err.exit_code(), 1);
    let ok = runtime_spec_from_output(&Runtime::Node, "lts".to_string(), "x").unwrap();
    assert_eq!(ok.runtime_pin(), "node@lts");
}

#[test]
fn captured_output_is_trimmed_and_failures_name_the_command() {
    let args = vec!["latest".to_string(), "npm:prettier".to_string()];
    assert_eq!(capture_result(&args, true, " 3.8.2\n", "").unwrap(), "3.8.2");
    let err = capture_result(&args, false, "", "  bad thing \n").unwrap_err();
    match err {
        Error::MiseCommandFailed { command, stderr } => {
            assert_eq!(command, "mise latest npm:prettier");
            assert_eq!(stderr, "bad thing");
        }
        _ => panic!("expected mise command failure"),
    }
}

#[test]
fn captured_bytes_are_decoded_lossily() {
    let args = vec!["where".to_string()];
    assert_eq!(capture_output(&args, true, b"\t22.1.0\r\n", b"").unwrap(), "22.1.0");
    assert_eq!(capture_output(&args, true, b"a\xffb", b"").unwrap(), "a\u{fffd}b");
    let err = capture_output(&args, false, b"", b"oops\xff").unwrap_err();
    assert!(matches!(err, Error::MiseCommandFailed { stderr, .. } if stderr == "oops\u{fffd}"));
}

#[test]
fn status_results() {
    let args = vec!["trust".to_string(), "/x/mise.toml".to_string()];
    assert!(streamed_status_result(&args, true).is_ok());
    let err = streamed_status_result(&args, false).unwrap_err();
    assert_eq!(
        err.to_string(),
        "failed to run `mise trust /x/mise.toml`: <no stderr output>"
    );
    assert!(captured_status_result(&args, true, b"ignored").is_ok());
    let err = captured_status_result(&args, false, b" denied \n").unwrap_err();
    assert_eq!(err.to_string(), "failed to run `mise trust /x/mise.toml`: denied");
}

#[test]
fn query_arguments() {
    assert_eq!(
        ls_args(&Runtime::Node, false),
        vec!["ls", "--global", "--current", "--json", "node", "--cd", "/"]
    );
    assert_eq!(
        ls_args(&Runtime::Node, true),
        vec!["ls", "--global", "--current", "--installed", "--json", "node", "--cd", "/"]
    );
    assert_eq!(
        where_args(&RuntimeSpec::new(Runtime::Node, "lts")),
        vec!["where", "node@lts", "--cd", "/"]
    );
    let tool_id: ToolId = "npm:prettier".parse().unwrap();
    assert_eq!(
        bin_paths_args(&tool_id, "/tmp/x"),
        vec!["--no-config", "bin-paths", "npm:prettier@path:/tmp/x"]
    );
    assert_eq!(trust_args("/tmp/x/mise.toml"), vec!["trust", "/tmp/x/mise.toml"]);
    assert_eq!(Cli::new(false, 2).verbosity_args(), vec!["-v", "-v"]);
    assert!(Cli::new(true, 0).verbosity_args().is_empty());
    assert!(Cli::new(true, 0).interactive());
    assert_eq!(Cli::new(true, 3).verbose(), 3);
}

#[test]
fn global_selector_is_the_first_requested_version() {
    let entries = vec![
        LsEntry { requested_version: None },
        LsEntry { requested_version: Some("22".to_string()) },
        LsEntry { requested_version: Some("20".to_string()) },
    ];
    let spec = global_runtime_selector(&Runtime::Node, &entries).unwrap().unwrap();
    assert_eq!(spec, RuntimeSpec::new(Runtime::Node, "22"));
    assert!(global_runtime_selector(&Runtime::Node, &vec![]).unwrap().is_none());
    let empty = vec![LsEntry { requested_version: Some(String::new()) }];
    let err = global_runtime_selector(&Runtime::Node, &empty).unwrap_err();
    assert_eq!(
        err.to_string(),
        "internal state error: mise ls --global returned empty output"
    );
}

#[test]
fn bin_paths_are_trimmed_non_blank_lines() {
    assert_eq!(
        bin_paths_from_output(" /a/bin \r\n\n  \n/b/bin"),
        vec!["/a/bin", "/b/bin"]
    );
    assert!(bin_paths_from_output("").is_empty());
}

#[test]
fn trimming_removes_unicode_white_space() {
    let args = vec!["latest".to_string()];
    assert_eq!(
        capture_result(&args, true, "\u{3000}\u{a0} 1.0 \u{2028}\u{85}", "").unwrap(),
        "1.0"
    );
    assert_eq!(capture_result(&args, true, "\u{200b}x", "").unwrap(), "\u{200b}x");
}

#[test]
fn default_client_captures_output_without_verbosity() {
    let cli = Cli::default();
    assert!(!cli.interactive());
    assert_eq!(cli.verbose(), 0);
    assert!(cli.verbosity_args().is_empty());
}

#[test]
fn global_runtime_installed_follows_listed_entries() {
    assert!(!global_runtime_installed(&Vec::new()));
    let listed = vec![LsEntry { requested_version: None }];
    assert!(global_runtime_installed(&listed));
    let pinned = vec![LsEntry { requested_version: Some("22".to_string()) }];
    assert!(global_runtime_installed(&pinned));
}
