use miseo::cli::commands::upgrade::Upgrade;
use miseo::cli::output::{Stream, Ui};
use miseo::error::Error;
use miseo::spec::{Runtime, RuntimeSpec, ToolId};
use miseo::tasks::upgrade;

#[test]
fn rejects_versioned_tool_id_for_upgrade() {
    let args = ["miseo", "upgrade", "npm:prettier@3"];
    assert!(args[2].parse::<ToolId>().is_err());
}

#[test]
fn upgrade_rejects_duplicate_use_runtime() {
    let command = Upgrade {
        tool_spec: "npm:prettier".parse().unwrap(),
        uses: vec!["node@22".parse().unwrap(), "node@lts".parse().unwrap()],
    };
    let err = command.runtime_pins().unwrap_err();

    assert!(matches!(err, Error::DuplicateRuntimeUse { runtime } if runtime == "node"));
}

#[test]
fn upgrade_pins_distinct_runtimes() {
    let command = Upgrade {
        tool_spec: "npm:http-server".parse().unwrap(),
        uses: vec![
            RuntimeSpec::new(Runtime::Python, "3.12"),
            RuntimeSpec::new(Runtime::Node, "22"),
        ],
    };
    let pins = command.runtime_pins().unwrap();
    assert_eq!(pins.len(), 2);
    assert_eq!(pins.get(&Runtime::Node), Some(&RuntimeSpec::new(Runtime::Node, "22")));
}

#[test]
fn upgrade_renders_either_outcome() {
    let ui = Ui::new(false, false, false);
    let outcome: upgrade::Outcome = Err(upgrade::AlreadyCurrent {
        tool_id: "npm:prettier".parse().unwrap(),
        package_version: "3.8.2".to_string(),
        runtimes: vec!["node@24.13.1".to_string()],
    });
    let lines = Upgrade::render(&ui, &outcome);
    assert_eq!(lines.len(), 1);
    assert_eq!(lines[0].stream, Stream::Stdout);
    assert_eq!(lines[0].text, "miseo npm:prettier@3.8.2 [node@24.13.1] already current");
}
