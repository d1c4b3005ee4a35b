use miseo::error::Error;
use miseo::spec::{Runtime, RuntimePins, RuntimeSpec};

#[test]
fn runtime_spec_from_str_validates_shape() {
    assert!("node@22".parse::<RuntimeSpec>().is_ok());
    assert!("node".parse::<RuntimeSpec>().is_err());
    assert!("@22".parse::<RuntimeSpec>().is_err());
    assert!("node@".parse::<RuntimeSpec>().is_err());
    assert!("Node@22".parse::<RuntimeSpec>().is_err());
}

#[test]
fn runtime_helpers_format_consistently() {
    let runtime = Runtime::Node;
    assert_eq!(runtime.with_selector("lts"), "node@lts");
    assert_eq!(runtime.with_version("24.13.1"), "node-24.13.1");
    assert_eq!(Runtime::Ruby.with_selector("3.3"), "ruby@3.3");
}

#[test]
fn runtime_display_and_parse_are_stable() {
    assert_eq!(Runtime::Node.to_string(), "node");
    assert_eq!(Runtime::Other("vfox".to_string()).to_string(), "vfox");
    assert_eq!("node".parse::<Runtime>().unwrap(), Runtime::Node);
    assert_eq!(
        "VFOX".parse::<Runtime>().unwrap(),
        Runtime::Other("VFOX".to_string())
    );
}

#[test]
fn runtime_spec_display_is_stable() {
    let spec: RuntimeSpec = "python@3.12".parse().unwrap();
    assert_eq!(spec.to_string(), "python@3.12");
    assert_eq!(spec.runtime_pin(), "python@3.12");
}

#[test]
fn runtime_pins_try_from_accepts_distinct_runtimes() {
    let pins = RuntimePins::try_from(vec![
        RuntimeSpec::new(Runtime::Node, "22"),
        RuntimeSpec::new(Runtime::Python, "3.12"),
    ])
    .unwrap();

    assert_eq!(
        pins.get(&Runtime::Node).unwrap(),
        &RuntimeSpec::new(Runtime::Node, "22")
    );
    assert_eq!(
        pins.get(&Runtime::Python).unwrap(),
        &RuntimeSpec::new(Runtime::Python, "3.12")
    );
}

#[test]
fn runtime_pins_try_from_rejects_duplicate_runtime() {
    let err = RuntimePins::try_from(vec![
        RuntimeSpec::new(Runtime::Node, "22"),
        RuntimeSpec::new(Runtime::Node, "lts"),
    ])
    .unwrap_err();

    assert!(matches!(err, Error::DuplicateRuntimeUse { runtime } if runtime == "node"));
}

#[test]
fn runtime_spec_splits_at_first_at_sign() {
    let spec: RuntimeSpec = "node@lts@x".parse().unwrap();
    assert_eq!(spec.runtime(), &Runtime::Node);
    assert_eq!(spec.selector(), "lts@x");
    let spec: RuntimeSpec = "vfox@1".parse().unwrap();
    assert_eq!(spec.runtime(), &Runtime::Other("vfox".to_string()));
}

#[test]
fn runtime_spec_error_names_the_input() {
    let err = "Node@22".parse::<RuntimeSpec>().unwrap_err();
    assert!(matches!(&err, Error::InvalidRuntimeSelector { input } if input == "Node@22"));
    assert_eq!(
        err.to_string(),
        "invalid --use value 'Node@22': expected <runtime@selector>"
    );
}

#[test]
fn runtime_pins_list_values_in_runtime_order() {
    let mut pins = RuntimePins::new();
    assert!(pins.is_empty());
    assert!(pins
        .insert(Runtime::Other("zig".to_string()), RuntimeSpec::new(Runtime::Other("zig".to_string()), "1"))
        .is_none());
    assert!(pins
        .insert(Runtime::Python, RuntimeSpec::new(Runtime::Python, "3.12"))
        .is_none());
    assert!(pins
        .insert(Runtime::Other("bun".to_string()), RuntimeSpec::new(Runtime::Other("bun".to_string()), "1"))
        .is_none());
    assert!(pins
        .insert(Runtime::Node, RuntimeSpec::new(Runtime::Node, "22"))
        .is_none());
    let pins_text: Vec<String> = pins.values().iter().map(|s| s.runtime_pin()).collect();
    assert_eq!(pins_text, vec!["node@22", "python@3.12", "bun@1", "zig@1"]);
    assert_eq!(pins.len(), 4);
}

#[test]
fn runtime_pins_insert_replaces_and_returns_previous() {
    let mut pins = RuntimePins::new();
    assert!(pins.insert(Runtime::Node, RuntimeSpec::new(Runtime::Node, "22")).is_none());
    let previous = pins.insert(Runtime::Node, RuntimeSpec::new(Runtime::Node, "lts"));
    assert_eq!(previous, Some(RuntimeSpec::new(Runtime::Node, "22")));
    assert_eq!(pins.get(&Runtime::Node), Some(&RuntimeSpec::new(Runtime::Node, "lts")));
    assert_eq!(pins.len(), 1);
    assert_eq!(pins.get(&Runtime::Ruby), None);
}

#[test]
fn runtime_order_matches_derived_ord() {
    let all = [
        Runtime::Node,
        Runtime::Ruby,
        Runtime::Python,
        Runtime::Rust,
        Runtime::Go,
        Runtime::Other("a".to_string()),
        Runtime::Other("ab".to_string()),
        Runtime::Other("b".to_string()),
        Runtime::Other("é".to_string()),
    ];
    for a in &all {
        for b in &all {
            assert_eq!(a.precedes(b), a < b);
            assert_eq!(a.same_as(b), a == b);
        }
    }
}
