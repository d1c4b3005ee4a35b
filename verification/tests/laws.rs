use miseo::mise::cli::path_tool_spec;
use miseo::spec::{Runtime, RuntimePins, RuntimeSpec, ToolId, ToolSpec};

#[test]
fn tool_keys_use_only_safe_chars() {
    for input in ["npm:@antfu/ni", "vfox:Version_Fox/vfox.NodeJS", "cargo:ripgrep@14", "go:x/y/z..."] {
        let spec: ToolSpec = input.parse().unwrap();
        let key = spec.key();
        assert!(key
            .chars()
            .all(|c| c.is_ascii_lowercase() || c.is_ascii_digit() || c == '-'));
    }
}

#[test]
fn parsed_specs_display_as_their_input() {
    for input in ["npm:prettier", "npm:prettier@3", "npm:@antfu/ni@1.0.0", "go:a:b@c", "x:@"] {
        let spec: ToolSpec = input.parse().unwrap();
        assert_eq!(spec.to_string(), input);
        let again: ToolSpec = spec.to_string().parse().unwrap();
        assert_eq!(again, spec);
    }
    for input in ["node@22", "python@3.12@x", "vfox@lts"] {
        let spec: RuntimeSpec = input.parse().unwrap();
        assert_eq!(spec.to_string(), input);
        let again: RuntimeSpec = spec.to_string().parse().unwrap();
        assert_eq!(again, spec);
    }
    let id: ToolId = "npm:prettier".parse().unwrap();
    let again: ToolId = id.to_string().parse().unwrap();
    assert_eq!(again, id);
}

#[test]
fn pins_read_back_what_was_written() {
    let mut pins = RuntimePins::new();
    pins.insert(Runtime::Ruby, RuntimeSpec::new(Runtime::Ruby, "3.3"));
    pins.insert(Runtime::Node, RuntimeSpec::new(Runtime::Node, "22"));
    pins.insert(Runtime::Node, RuntimeSpec::new(Runtime::Node, "24"));
    assert_eq!(pins.get(&Runtime::Node), Some(&RuntimeSpec::new(Runtime::Node, "24")));
    assert_eq!(pins.get(&Runtime::Ruby), Some(&RuntimeSpec::new(Runtime::Ruby, "3.3")));
}

#[test]
fn path_specs_hold_no_backslash_in_the_directory() {
    let id: ToolId = "npm:x".parse().unwrap();
    let spec = path_tool_spec(&id, r"a\b\\c");
    assert_eq!(spec, "npm:x@path:a/b//c");
}
