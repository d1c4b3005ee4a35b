use miseo::error::Error;

#[test]
fn invariant_macro_builds_manifest_invariant_error() {
    let err = Error::manifest_invariant(format!("broken invariant: {}", "x"));
    assert!(matches!(err, Error::ManifestInvariant(_)));
    assert_eq!(err.to_string(), "internal state error: broken invariant: x");
}

#[test]
fn exit_code_is_2_for_cli_input_errors() {
    let invalid_tool = Error::InvalidToolSpec {
        spec: "npm:".to_string(),
        reason: "bad".to_string(),
    };
    let invalid_use = Error::InvalidRuntimeSelector {
        input: "node".to_string(),
    };
    let dup = Error::DuplicateRuntimeUse {
        runtime: "node".to_string(),
    };

    assert_eq!(invalid_tool.exit_code(), 2);
    assert_eq!(invalid_use.exit_code(), 2);
    assert_eq!(dup.exit_code(), 2);
}

#[test]
fn exit_code_is_3_for_user_actionable_state_errors() {
    let unmapped = Error::UnmappedBackendWithoutUse {
        backend: "aqua".to_string(),
    };
    let missing = Error::MissingGlobalRuntime {
        runtime: "node".to_string(),
    };
    let not_installed = Error::RuntimeNotInstalled {
        runtime: "node".to_string(),
    };
    let conflict = Error::CommandOwnershipConflict {
        command: "prettier".to_string(),
        owner: "npm:prettier".to_string(),
        requested: "npm:other".to_string(),
    };
    let tool_missing = Error::ToolNotInstalled {
        tool_id: "npm:prettier".to_string(),
    };
    let orphan = Error::ToolNotInstalledOrphanFound {
        tool_id: "npm:prettier".to_string(),
        path: "/tmp/x".to_string(),
    };

    assert_eq!(unmapped.exit_code(), 3);
    assert_eq!(missing.exit_code(), 3);
    assert_eq!(not_installed.exit_code(), 3);
    assert_eq!(conflict.exit_code(), 3);
    assert_eq!(tool_missing.exit_code(), 3);
    assert_eq!(orphan.exit_code(), 3);
}

#[test]
fn exit_code_is_1_for_internal_errors() {
    let invariant = Error::ManifestInvariant("oops".to_string());
    let mise_fail = Error::MiseCommandFailed {
        command: "mise x".to_string(),
        stderr: "bad".to_string(),
    };
    let io = Error::Io(std::io::Error::other("io"));
    let toml_de: Error = toml::from_str::<toml::Table>("=").unwrap_err().into();
    let toml_ser: Error = toml::to_string(&f64::NAN).unwrap_err().into();
    let json: Error = serde_json::from_str::<serde_json::Value>("{")
        .unwrap_err()
        .into();

    assert_eq!(invariant.exit_code(), 1);
    assert_eq!(mise_fail.exit_code(), 1);
    assert_eq!(io.exit_code(), 1);
    assert_eq!(toml_de.exit_code(), 1);
    assert_eq!(toml_ser.exit_code(), 1);
    assert_eq!(json.exit_code(), 1);
}

#[test]
fn messages_match_each_variant() {
    let cases: Vec<(Error, &str)> = vec![
        (
            Error::InvalidToolSpec { spec: "npm:".to_string(), reason: "bad".to_string() },
            "invalid tool spec 'npm:': bad",
        ),
        (
            Error::DuplicateRuntimeUse { runtime: "node".to_string() },
            "runtime 'node' was provided more than once in --use; specify each runtime only once",
        ),
        (
            Error::UnmappedBackendWithoutUse { backend: "aqua".to_string() },
            "can't infer a runtime to use for backend 'aqua'; select the runtime(s) explicitly with --use (for example `--use node@lts`)",
        ),
        (
            Error::MissingGlobalRuntime { runtime: "node".to_string() },
            "no global version is configured for runtime 'node'; configure one in mise with `mise use -g node`, or pass --use to select the runtime(s) explicitly for this install (for example `--use node@lts`)",
        ),
        (
            Error::RuntimeNotInstalled { runtime: "node".to_string() },
            "global 'node' runtime is configured but not installed; install it with `mise use -g node`, or pass --use to select the runtime(s) explicitly for this install (for example `--use node@lts`)",
        ),
        (
            Error::CommandOwnershipConflict {
                command: "prettier".to_string(),
                owner: "npm:prettier".to_string(),
                requested: "npm:other".to_string(),
            },
            "cannot install 'npm:other': command 'prettier' is already linked to 'npm:prettier'; run `miseo uninstall npm:prettier` first",
        ),
        (
            Error::ToolNotInstalledOrphanFound { tool_id: "npm:x".to_string(), path: "/p".to_string() },
            "tool 'npm:x' is not installed (found unmanaged install at '/p')",
        ),
        (
            Error::MiseCommandFailed { command: "mise x".to_string(), stderr: String::new() },
            "failed to run `mise x`: <no stderr output>",
        ),
        (
            Error::MiseCommandFailed { command: "mise x".to_string(), stderr: "bad".to_string() },
            "failed to run `mise x`: bad",
        ),
        (Error::Io(std::io::Error::other("disk")), "internal I/O error: disk"),
    ];
    for (err, message) in cases {
        assert_eq!(err.to_string(), message);
    }
    let json: Error = serde_json::from_str::<serde_json::Value>("{").unwrap_err().into();
    assert!(json.to_string().starts_with("internal JSON parse error: "));
    let toml_de: Error = toml::from_str::<toml::Table>("=").unwrap_err().into();
    assert!(toml_de.to_string().starts_with("internal TOML parse error: "));
    let toml_ser: Error = toml::to_string(&f64::NAN).unwrap_err().into();
    assert!(toml_ser.to_string().starts_with("internal TOML serialization error: "));
}
