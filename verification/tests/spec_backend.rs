use miseo::spec::{Backend, Runtime};

#[test]
fn default_runtime_mapping() {
    assert_eq!(Backend::Npm.default_runtimes().unwrap(), &[Runtime::Node]);
    assert_eq!(Backend::Gem.default_runtimes().unwrap(), &[Runtime::Ruby]);
    assert_eq!(
        Backend::Pipx.default_runtimes().unwrap(),
        &[Runtime::Python]
    );
    assert_eq!(Backend::Cargo.default_runtimes().unwrap(), &[Runtime::Rust]);
    assert_eq!(Backend::Go.default_runtimes().unwrap(), &[Runtime::Go]);
    assert!(
        Backend::Other("aqua".to_string())
            .default_runtimes()
            .is_none()
    );
}

#[test]
fn backend_parse_is_case_sensitive_and_preserves_other_input() {
    assert_eq!("npm".parse::<Backend>().unwrap(), Backend::Npm);
    assert_eq!(
        "NPM".parse::<Backend>().unwrap(),
        Backend::Other("NPM".to_string())
    );

    let other: Backend = "VFOX".parse().unwrap();
    assert_eq!(other, Backend::Other("VFOX".to_string()));
    assert_eq!(other.to_string(), "VFOX");
}

#[test]
fn backend_names_round_trip_through_parse() {
    for name in ["npm", "gem", "pipx", "cargo", "go", "aqua", "", "Npm"] {
        assert_eq!(Backend::parse(name).as_str(), name);
    }
    for b in [Backend::Npm, Backend::Gem, Backend::Pipx, Backend::Cargo, Backend::Go] {
        assert_eq!(Backend::parse(b.as_str()), b);
    }
}
