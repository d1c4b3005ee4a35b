use miseo::cli::output::{Line, Stream, Ui};
use miseo::error::Error;
use miseo::spec::{ToolId, ToolSpec};
use miseo::tasks::install;
use miseo::tasks::uninstall;
use miseo::tasks::upgrade;

fn line_matches(line: &str, pattern: &str) -> bool {
    if !pattern.contains("...") {
        return line == pattern;
    }

    let starts_wild = pattern.starts_with("...");
    let ends_wild = pattern.ends_with("...");
    let parts: Vec<&str> = pattern
        .split("...")
        .filter(|part| !part.is_empty())
        .collect();

    if parts.is_empty() {
        return true;
    }

    let mut rest = line;
    for (index, part) in parts.iter().enumerate() {
        if index == 0 && !starts_wild {
            let Some(next) = rest.strip_prefix(part) else {
                return false;
            };
            rest = next;
            continue;
        }

        let Some(found) = rest.find(part) else {
            return false;
        };
        rest = &rest[found + part.len()..];
    }

    ends_wild || rest.is_empty()
}

fn assert_stream(lines: &[Line], stream: Stream, expected: &[&str]) {
    let lines: Vec<&str> = lines
        .iter()
        .filter(|l| l.stream == stream)
        .map(|l| l.text.as_str())
        .collect();
    assert_eq!(lines.len(), expected.len());
    for (index, (line, pattern)) in lines.iter().zip(expected).enumerate() {
        assert!(
            line_matches(line, pattern),
            "line {index} did not match\n  pattern: {pattern:?}\n   actual: {line:?}"
        );
    }
}

fn assert_out(lines: &[Line], expected: &[&str]) {
    assert_stream(lines, Stream::Stdout, expected);
}

fn assert_err(lines: &[Line], expected: &[&str]) {
    assert_stream(lines, Stream::Stderr, expected);
}

fn prettier() -> ToolId {
    "npm:prettier".parse().unwrap()
}

#[test]
fn installed_verbose_renders_expected_lines() {
    let ui = Ui::new(false, false, false);
    let out = ui.install_success(&install::Success {
        action: install::Action::Installed,
        tool_id: "npm:prettier".parse().unwrap(),
        package_version: "3.8.1".to_string(),
        runtimes: vec!["node@24.13.1".to_string()],
        commands: vec!["prettier".to_string()],
        elapsed_ms: 150,
    });

    assert_out(&out, &[
        "miseo installed npm:prettier@3.8.1 [node@24.13.1] in 150ms",
        "  miseo installed command: prettier",
    ]);
}

#[test]
fn installed_concise_renders_expected_lines_without_color_when_not_tty() {
    let ui = Ui::new(false, false, true);
    let out = ui.install_success(&install::Success {
        action: install::Action::Installed,
        tool_id: "npm:prettier".parse().unwrap(),
        package_version: "3.8.1".to_string(),
        runtimes: vec![],
        commands: vec!["prettier".to_string(), "prettierd".to_string()],
        elapsed_ms: 42,
    });

    assert_out(&out, &[
        "miseo installed npm:prettier@3.8.1 in 42ms",
        "miseo installed commands: prettier, prettierd",
    ]);
}

#[test]
fn error_orphan_is_human_readable() {
    let ui = Ui::new(false, false, false);
    let out = ui.error(&Error::ToolNotInstalledOrphanFound {
        tool_id: "gem:webrick".to_string(),
        path: "/tmp/miseo/gem-webrick".to_string(),
    });

    assert_err(&out, &[
        "error: tool gem:webrick is not installed",
        "hint: found unmanaged install at /tmp/miseo/gem-webrick; \
         run miseo uninstall gem:webrick --force to clean it up",
    ]);
}

#[test]
fn color_needs_a_terminal_without_no_color() {
    assert!(Ui::new(false, false, true).is_concise());
    let success = install::Success {
        action: install::Action::Reinstalled,
        tool_id: prettier(),
        package_version: "1".to_string(),
        runtimes: vec![],
        commands: vec!["p".to_string()],
        elapsed_ms: 7,
    };
    let plain = Ui::new(true, true, true).install_success(&success);
    assert_out(&plain, &["miseo reinstalled npm:prettier@1 in 7ms", "miseo installed command: p"]);
    let colored = Ui::new(true, false, true).install_success(&success);
    assert_out(&colored, &[
        "\u{1b}[32mmiseo\u{1b}[39m reinstalled \u{1b}[34mnpm:prettier@1\u{1b}[39m in 7ms",
        "\u{1b}[32mmiseo\u{1b}[39m installed command: \u{1b}[34mp\u{1b}[39m",
    ]);
}

#[test]
fn colored_labels_and_hints() {
    let ui = Ui::new(true, false, false);
    let out = ui.error(&Error::ToolNotInstalled { tool_id: "npm:x".to_string() });
    assert_err(&out, &["\u{1b}[31merror:\u{1b}[39m tool 'npm:x' is not installed"]);
    let spec: ToolSpec = "npm:prettier".parse().unwrap();
    let hints = ui.install_hints(&spec, &prettier());
    assert_out(&hints, &[
        "  \u{1b}[33mhint:\u{1b}[39m miseo install npm:prettier --force    \u{1b}[2m# reinstall current variant\u{1b}[0m",
        "  \u{1b}[33mhint:\u{1b}[39m miseo upgrade npm:prettier            \u{1b}[2m# upgrade to newer version\u{1b}[0m",
    ]);
    assert!(Ui::new(true, false, true).install_hints(&spec, &prettier()).is_empty());
}

#[test]
fn already_current_lines() {
    let current = install::AlreadyCurrent {
        tool_id: prettier(),
        package_version: "3.8.2".to_string(),
        runtimes: vec!["node@24.13.1".to_string(), "python@3.12".to_string()],
    };
    assert_out(&Ui::new(false, false, false).install_already_current(&current), &[
        "miseo npm:prettier@3.8.2 [node@24.13.1, python@3.12] already current",
    ]);
    let current = upgrade::AlreadyCurrent {
        tool_id: prettier(),
        package_version: "3.8.2".to_string(),
        runtimes: vec!["node@24.13.1".to_string()],
    };
    assert_out(&Ui::new(false, false, true).upgrade_already_current(&current), &[
        "miseo npm:prettier@3.8.2 [node@24.13.1] already current",
    ]);
}

#[test]
fn upgrade_lines_list_removed_variants_when_there_are_some() {
    let success = upgrade::Success {
        tool_id: prettier(),
        package_version: "3.8.2".to_string(),
        runtimes: vec!["node@24.13.1".to_string()],
        commands: vec!["prettier".to_string()],
        elapsed_ms: 12,
        removed_variants: vec!["3.8.1+node-24.13.1".to_string()],
    };
    assert_out(&Ui::new(false, false, false).upgrade_success(&success), &[
        "miseo upgraded npm:prettier@3.8.2 [node@24.13.1] in ...ms",
        "  miseo installed command: prettier",
        "  miseo removed old variants: 3.8.1+node-24.13.1",
    ]);
    assert_out(&Ui::new(false, false, true).upgrade_success(&success), &[
        "miseo upgraded npm:prettier@3.8.2 [node@24.13.1] in 12ms",
        "miseo installed command: prettier",
        "miseo removed old variants: 3.8.1+node-24.13.1",
    ]);
    let none_removed = upgrade::Success { removed_variants: vec![], ..success };
    assert_eq!(Ui::new(false, false, false).upgrade_success(&none_removed).len(), 2);
}

#[test]
fn uninstall_lines() {
    let outcome = uninstall::Outcome {
        tool_id: prettier(),
        removed_commands: vec!["prettier".to_string(), "prettierd".to_string()],
    };
    assert_out(&Ui::new(false, false, false).uninstalled(&outcome), &[
        "miseo uninstalled npm:prettier",
        "  miseo removed commands: prettier, prettierd",
    ]);
    let outcome = uninstall::Outcome { tool_id: prettier(), removed_commands: vec![] };
    assert_out(&Ui::new(false, false, true).uninstalled(&outcome), &["miseo uninstalled npm:prettier"]);
    let outcome = uninstall::Outcome { tool_id: prettier(), removed_commands: vec!["p".to_string()] };
    assert_out(&Ui::new(false, false, true).uninstalled(&outcome), &[
        "miseo uninstalled npm:prettier",
        "miseo removed command: p",
    ]);
}

#[test]
fn large_durations_print_in_full() {
    let success = install::Success {
        action: install::Action::Installed,
        tool_id: prettier(),
        package_version: "1".to_string(),
        runtimes: vec![],
        commands: vec![],
        elapsed_ms: 340282366920938463463374607431768211455,
    };
    assert_out(&Ui::new(false, false, false).install_success(&success), &[
        "miseo installed npm:prettier@1 in 340282366920938463463374607431768211455ms",
        "  miseo installed commands: ",
    ]);
}
