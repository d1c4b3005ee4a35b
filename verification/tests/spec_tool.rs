use miseo::error::Error;
use miseo::spec::tool::to_kebab_case;
use miseo::spec::{Backend, ToolId, ToolSpec};

#[test]
fn parses_basic_and_versioned_specs() {
    let s: ToolSpec = "npm:http-server".parse().unwrap();
    assert_eq!(s.backend(), &Backend::Npm);
    assert_eq!(s.tool_id().name(), "http-server");
    assert_eq!(s.to_string(), "npm:http-server");
    assert_eq!(s.tool_id().to_string(), "npm:http-server");

    let s: ToolSpec = "npm:http-server@14".parse().unwrap();
    assert_eq!(s.to_string(), "npm:http-server@14");
    assert_eq!(s.tool_id().to_string(), "npm:http-server");
}

#[test]
fn parses_scoped_names() {
    let s: ToolSpec = "npm:@antfu/ni".parse().unwrap();
    assert_eq!(s.tool_id().name(), "@antfu/ni");
    assert_eq!(s.to_string(), "npm:@antfu/ni");

    let s: ToolSpec = "npm:@antfu/ni@1.0.0".parse().unwrap();
    assert_eq!(s.tool_id().name(), "@antfu/ni");
    assert_eq!(s.to_string(), "npm:@antfu/ni@1.0.0");
}

#[test]
fn rejects_invalid_specs() {
    assert!("npm".parse::<ToolSpec>().is_err());
    assert!(":foo".parse::<ToolSpec>().is_err());
    assert!("npm:".parse::<ToolSpec>().is_err());
    assert!("npm:foo@".parse::<ToolSpec>().is_err());
    assert!("NPM:foo".parse::<ToolSpec>().is_err());
}

#[test]
fn tool_key_normalization_matches_examples() {
    assert_eq!(to_kebab_case("npm:http-server"), "npm-http-server");
    assert_eq!(to_kebab_case("npm:@antfu/ni"), "npm-antfu-ni");
    assert_eq!(
        to_kebab_case("vfox:version-fox/vfox-nodejs"),
        "vfox-version-fox-vfox-nodejs"
    );
}

#[test]
fn tool_spec_display_round_trips_shape() {
    let s: ToolSpec = "npm:prettier@3".parse().unwrap();
    assert_eq!(s.to_string(), "npm:prettier@3");
    let s: ToolSpec = "npm:prettier".parse().unwrap();
    assert_eq!(s.to_string(), "npm:prettier");
}

#[test]
fn tool_id_rejects_versioned_input() {
    assert!("npm:prettier".parse::<ToolId>().is_ok());
    assert!("npm:prettier@3".parse::<ToolId>().is_err());
}

#[test]
fn tool_id_rejects_versioned_input_from_str() {
    let err = "npm:prettier@3".parse::<ToolId>().unwrap_err();
    assert!(matches!(err, Error::InvalidToolSpec { .. }));
}

#[test]
fn tool_layout_builds_expected_paths() {
    let root = "/tmp/miseo";
    let tool_id: ToolId = "npm:prettier".parse().unwrap();
    let layout = tool_id.layout(root);

    assert_eq!(layout.tool_key(), "npm-prettier");
    assert_eq!(layout.root_bin_dir(), "/tmp/miseo/.bin");
    assert_eq!(layout.tool_dir(), "/tmp/miseo/npm-prettier");
}

#[test]
fn variant_layout_builds_command_paths() {
    let root = "/tmp/miseo";
    let tool_id: ToolId = "npm:prettier".parse().unwrap();
    let variant = tool_id.layout(root).variant("3.8.1+node-24.13.1");

    assert_eq!(
        variant.local_command("prettier"),
        "/tmp/miseo/npm-prettier/3.8.1+node-24.13.1/.miseo/prettier"
    );
    assert_eq!(
        variant.public_target("prettier"),
        "/tmp/miseo/npm-prettier/current/.miseo/prettier"
    );
    assert_eq!(
        variant.public_command("prettier"),
        "/tmp/miseo/.bin/prettier"
    );
}

fn reason_of(input: &str) -> String {
    match input.parse::<ToolSpec>().unwrap_err() {
        Error::InvalidToolSpec { spec, reason } => {
            assert_eq!(spec, input);
            reason
        }
        other => panic!("unexpected error {other:?}"),
    }
}

#[test]
fn invalid_spec_reasons_are_specific() {
    assert_eq!(reason_of("npm"), "missing backend separator ':'");
    assert_eq!(reason_of(":foo"), "backend cannot be empty");
    assert_eq!(reason_of("NPM:foo"), "backend must be lowercase");
    assert_eq!(reason_of("npm:"), "package name cannot be empty");
    assert_eq!(reason_of("npm:foo@"), "version cannot be empty after '@'");
    match "npm:prettier@3".parse::<ToolId>().unwrap_err() {
        Error::InvalidToolSpec { reason, .. } => {
            assert_eq!(reason, "version is not accepted here; expected <backend>:<name>")
        }
        other => panic!("unexpected error {other:?}"),
    }
}

#[test]
fn tool_spec_version_helpers() {
    let s: ToolSpec = "npm:prettier".parse().unwrap();
    assert_eq!(s.version(), None);
    assert_eq!(s.or_latest().to_string(), "npm:prettier@latest");
    let s: ToolSpec = "npm:prettier@3".parse().unwrap();
    assert_eq!(s.version(), Some("3"));
    assert_eq!(s.or_latest().to_string(), "npm:prettier@3");
    assert_eq!(s.with_version("3.8.1").to_string(), "npm:prettier@3.8.1");
    assert_eq!(s.key(), "npm-prettier");
    let other: ToolSpec = "vfox:version-fox/vfox-nodejs@2".parse().unwrap();
    assert_eq!(other.backend(), &Backend::Other("vfox".to_string()));
    assert_eq!(other.key(), "vfox-version-fox-vfox-nodejs");
    let spec = ToolSpec::from_tool_id("npm:prettier".parse().unwrap());
    assert_eq!(spec.to_string(), "npm:prettier");
}

#[test]
fn kebab_case_lowercases_and_drops_empty_parts() {
    assert_eq!(to_kebab_case("--Foo__BAR--"), "foo-bar");
    assert_eq!(to_kebab_case(""), "");
    assert_eq!(to_kebab_case("ÄB"), "b");
}

#[test]
fn layout_paths_join_like_std() {
    let tool_id: ToolId = "npm:prettier".parse().unwrap();
    let layout = tool_id.layout("/tmp/miseo/");
    assert_eq!(layout.tool_dir(), "/tmp/miseo/npm-prettier");
    let variant = layout.variant("1+node-22");
    assert_eq!(variant.variant_dir(), "/tmp/miseo/npm-prettier/1+node-22");
    assert_eq!(variant.current_link(), "/tmp/miseo/npm-prettier/current");
    assert_eq!(variant.local_bin_dir(), "/tmp/miseo/npm-prettier/1+node-22/.miseo");
    assert_eq!(variant.root_bin_dir(), "/tmp/miseo/.bin");
    assert_eq!(variant.tool_dir(), "/tmp/miseo/npm-prettier");
    assert_eq!(variant.public_command("/abs"), "/abs");
}
