//! High-level CLI UI renderer: phrasing, color, and line-shape decisions.

use owo_colors::OwoColorize;
use vstd::prelude::*;
use vstd::string::StringExecFns;

use crate::cli::output::{err, lines_model, out, Line, LineModel, Stream};
use crate::error::{describe, has_foreign_detail, starts_with, Error, ErrorModel};
use crate::spec::tool::{tool_id_text, tool_spec_text, ToolId, ToolSpec};
use crate::tasks::install::{action_text, AlreadyCurrent as InstallAlreadyCurrent, Success as InstallSuccess};
use crate::tasks::uninstall::Outcome as UninstallOutcome;
use crate::tasks::upgrade::{AlreadyCurrent as UpgradeAlreadyCurrent, Success as UpgradeSuccess};
use crate::text::{
    concat3, decimal, decimal_string, ends_with, join, join_seqs, lemma_ends_with_concat,
    lemma_join_holds_parts, lemma_occurs_in_left, lemma_occurs_in_right, lemma_occurs_in_self,
    lemma_occurs_in_trans, occurs_in, owned, views,
};

verus! {

// ---------------------------------------------------------------------------
// Colors
// ---------------------------------------------------------------------------

/// `text` between the ANSI escape that sets the foreground color `code` and the
/// one that resets the foreground color.
pub open spec fn ansi_foreground(code: Seq<char>, text: Seq<char>) -> Seq<char> {
    seq!['\u{1b}', '['] + code + "m"@ + text + seq!['\u{1b}', '['] + "39m"@
}

/// `text` between the ANSI escapes for dim and for reset.
pub open spec fn ansi_dim(text: Seq<char>) -> Seq<char> {
    seq!['\u{1b}', '['] + "2m"@ + text + seq!['\u{1b}', '['] + "0m"@
}

#[derive(Clone, Copy, PartialEq, Eq, Structural)]
pub enum Paint {
    Green,
    Blue,
    Yellow,
    Red,
    Dim,
}

pub open spec fn painted(p: Paint, text: Seq<char>) -> Seq<char> {
    match p {
        Paint::Green => ansi_foreground("32"@, text),
        Paint::Blue => ansi_foreground("34"@, text),
        Paint::Yellow => ansi_foreground("33"@, text),
        Paint::Red => ansi_foreground("31"@, text),
        Paint::Dim => ansi_dim(text),
    }
}

/// `text` painted when color is enabled, else as is.
pub open spec fn colored(p: Paint, text: Seq<char>, enabled: bool) -> Seq<char> {
    if enabled {
        painted(p, text)
    } else {
        text
    }
}

/// `OwoColorize::green` on a string slice, displayed: the text between the
/// escapes `ESC[32m` and `ESC[39m`.
#[verifier::external_body]
fn paint_green(text: &str) -> (r: String)
    ensures
        r@ == painted(Paint::Green, text@),
{
    text.green().to_string()
}

/// `OwoColorize::blue` on a string slice, displayed: the text between the
/// escapes `ESC[34m` and `ESC[39m`.
#[verifier::external_body]
fn paint_blue(text: &str) -> (r: String)
    ensures
        r@ == painted(Paint::Blue, text@),
{
    text.blue().to_string()
}

/// `OwoColorize::yellow` on a string slice, displayed: the text between the
/// escapes `ESC[33m` and `ESC[39m`.
#[verifier::external_body]
fn paint_yellow(text: &str) -> (r: String)
    ensures
        r@ == painted(Paint::Yellow, text@),
{
    text.yellow().to_string()
}

/// `OwoColorize::red` on a string slice, displayed: the text between the
/// escapes `ESC[31m` and `ESC[39m`.
#[verifier::external_body]
fn paint_red(text: &str) -> (r: String)
    ensures
        r@ == painted(Paint::Red, text@),
{
    text.red().to_string()
}

/// `OwoColorize::dimmed` on a string slice, displayed: the text between the
/// escapes `ESC[2m` and `ESC[0m`.
#[verifier::external_body]
fn paint_dim(text: &str) -> (r: String)
    ensures
        r@ == painted(Paint::Dim, text@),
{
    text.dimmed().to_string()
}

pub fn green(text: &str, enabled: bool) -> (r: String)
    ensures
        r@ == colored(Paint::Green, text@, enabled),
{
    if enabled {
        paint_green(text)
    } else {
        owned(text)
    }
}

pub fn blue(text: &str, enabled: bool) -> (r: String)
    ensures
        r@ == colored(Paint::Blue, text@, enabled),
{
    if enabled {
        paint_blue(text)
    } else {
        owned(text)
    }
}

pub fn yellow(text: &str, enabled: bool) -> (r: String)
    ensures
        r@ == colored(Paint::Yellow, text@, enabled),
{
    if enabled {
        paint_yellow(text)
    } else {
        owned(text)
    }
}

pub fn red(text: &str, enabled: bool) -> (r: String)
    ensures
        r@ == colored(Paint::Red, text@, enabled),
{
    if enabled {
        paint_red(text)
    } else {
        owned(text)
    }
}

pub fn dim(text: &str, enabled: bool) -> (r: String)
    ensures
        r@ == colored(Paint::Dim, text@, enabled),
{
    if enabled {
        paint_dim(text)
    } else {
        owned(text)
    }
}

// ---------------------------------------------------------------------------
// Phrasing
// ---------------------------------------------------------------------------

pub open spec fn brand(color: bool) -> Seq<char> {
    colored(Paint::Green, "miseo"@, color)
}

pub open spec fn highlight(text: Seq<char>, color: bool) -> Seq<char> {
    colored(Paint::Blue, text, color)
}

pub open spec fn hint_label(color: bool) -> Seq<char> {
    colored(Paint::Yellow, "hint:"@, color)
}

pub open spec fn error_label(color: bool) -> Seq<char> {
    colored(Paint::Red, "error:"@, color)
}

/// ` [<runtime>, ...]`, or nothing without runtimes.
pub open spec fn runtime_suffix_of(runtimes: Seq<Seq<char>>) -> Seq<char> {
    if runtimes.len() == 0 {
        Seq::empty()
    } else {
        " ["@ + join_seqs(runtimes, ", "@) + "]"@
    }
}

pub open spec fn install_label_of(count: nat) -> Seq<char> {
    if count == 1 {
        "installed command"@
    } else {
        "installed commands"@
    }
}

pub open spec fn remove_label_of(count: nat) -> Seq<char> {
    if count == 1 {
        "removed command"@
    } else {
        "removed commands"@
    }
}

/// The commands, each highlighted, separated by `, `.
pub open spec fn command_list(commands: Seq<Seq<char>>, color: bool) -> Seq<char> {
    join_seqs(commands.map_values(|c: Seq<char>| highlight(c, color)), ", "@)
}

/// `<tool id>@<package version>`
pub open spec fn versioned_text(tool_id: ToolId, version: String) -> Seq<char> {
    tool_id_text(tool_id@) + "@"@ + version@
}

pub open spec fn installed_lines(
    color: bool,
    concise: bool,
    spec: Seq<char>,
    suffix: Seq<char>,
    action: Seq<char>,
    commands: Seq<Seq<char>>,
    elapsed_ms: nat,
) -> Seq<LineModel> {
    if concise {
        seq![
            out(brand(color) + " "@ + action + " "@ + highlight(spec, color) + suffix + " in "@
                + decimal(elapsed_ms) + "ms"@),
            out(brand(color) + " "@ + install_label_of(commands.len()) + ": "@ + command_list(
                commands,
                color,
            )),
        ]
    } else {
        seq![
            out("miseo "@ + action + " "@ + spec + suffix + " in "@ + decimal(elapsed_ms) + "ms"@),
            out("  miseo "@ + install_label_of(commands.len()) + ": "@ + join_seqs(
                commands,
                ", "@,
            )),
        ]
    }
}

pub open spec fn already_current_lines(
    color: bool,
    concise: bool,
    spec: Seq<char>,
    suffix: Seq<char>,
) -> Seq<LineModel> {
    if concise {
        seq![out(brand(color) + " "@ + highlight(spec, color) + suffix + " already current"@)]
    } else {
        seq![out("miseo "@ + spec + suffix + " already current"@)]
    }
}

pub open spec fn upgraded_lines(
    color: bool,
    concise: bool,
    spec: Seq<char>,
    suffix: Seq<char>,
    commands: Seq<Seq<char>>,
    elapsed_ms: nat,
    removed_variants: Seq<Seq<char>>,
) -> Seq<LineModel> {
    if concise {
        seq![
            out(brand(color) + " upgraded "@ + highlight(spec, color) + suffix + " in "@ + decimal(
                elapsed_ms,
            ) + "ms"@),
            out(brand(color) + " "@ + install_label_of(commands.len()) + ": "@ + command_list(
                commands,
                color,
            )),
        ] + if removed_variants.len() > 0 {
            seq![
                out(brand(color) + " removed old variants: "@ + join_seqs(
                    removed_variants,
                    ", "@,
                )),
            ]
        } else {
            Seq::empty()
        }
    } else {
        seq![
            out("miseo upgraded "@ + spec + suffix + " in "@ + decimal(elapsed_ms) + "ms"@),
            out("  miseo "@ + install_label_of(commands.len()) + ": "@ + join_seqs(
                commands,
                ", "@,
            )),
        ] + if removed_variants.len() > 0 {
            seq![out("  miseo removed old variants: "@ + join_seqs(removed_variants, ", "@))]
        } else {
            Seq::empty()
        }
    }
}

pub open spec fn uninstalled_lines(
    color: bool,
    concise: bool,
    tool_id: Seq<char>,
    removed: Seq<Seq<char>>,
) -> Seq<LineModel> {
    if concise {
        seq![out(brand(color) + " uninstalled "@ + highlight(tool_id, color))] + if removed.len()
            > 0 {
            seq![
                out(brand(color) + " "@ + remove_label_of(removed.len()) + ": "@ + command_list(
                    removed,
                    color,
                )),
            ]
        } else {
            Seq::empty()
        }
    } else {
        seq![out("miseo uninstalled "@ + tool_id)] + if removed.len() > 0 {
            seq![
                out("  miseo "@ + remove_label_of(removed.len()) + ": "@ + join_seqs(
                    removed,
                    ", "@,
                )),
            ]
        } else {
            Seq::empty()
        }
    }
}

pub open spec fn hint_line(color: bool, body: Seq<char>) -> LineModel {
    out("  "@ + hint_label(color) + " "@ + body)
}

pub open spec fn install_hint_lines(
    color: bool,
    concise: bool,
    tool_spec: Seq<char>,
    tool_id: Seq<char>,
) -> Seq<LineModel> {
    if concise {
        Seq::empty()
    } else {
        seq![
            hint_line(
                color,
                "miseo install "@ + tool_spec + " --force    "@ + colored(
                    Paint::Dim,
                    "# reinstall current variant"@,
                    color,
                ),
            ),
            hint_line(
                color,
                "miseo upgrade "@ + tool_id + "            "@ + colored(
                    Paint::Dim,
                    "# upgrade to newer version"@,
                    color,
                ),
            ),
        ]
    }
}

/// The lines for an error whose message is `message`: an unmanaged install
/// gets its own wording and a hint to clean it up.
pub open spec fn error_lines(color: bool, e: ErrorModel, message: Seq<char>) -> Seq<LineModel> {
    match e {
        ErrorModel::ToolNotInstalledOrphanFound { tool_id, path } => seq![
            err(error_label(color) + " "@ + ("tool "@ + highlight(tool_id, color)
                + " is not installed"@)),
            err(hint_label(color) + " "@ + ("found unmanaged install at "@ + highlight(path, color)
                + "; run miseo uninstall "@ + highlight(tool_id, color)
                + " --force to clean it up"@)),
        ],
        _ => seq![err(error_label(color) + " "@ + message)],
    }
}

// ---------------------------------------------------------------------------
// What the reports say
// ---------------------------------------------------------------------------

proof fn lemma_highlight_holds(c: Seq<char>, color: bool)
    ensures
        occurs_in(c, highlight(c, color)),
{
    lemma_occurs_in_self(c);
    if color {
        let open = seq!['\u{1b}', '['] + "34"@ + "m"@;
        lemma_occurs_in_right(c, open, c);
        lemma_occurs_in_left(c, open + c, seq!['\u{1b}', '[']);
        lemma_occurs_in_left(c, open + c + seq!['\u{1b}', '['], "39m"@);
    }
}

/// Every command occurs, in order of listing, in a line that ends with its list.
proof fn lemma_listed_line(head: Seq<char>, commands: Seq<Seq<char>>, color: bool)
    ensures
        forall|i: int|
            0 <= i < commands.len() ==> occurs_in(
                #[trigger] commands[i],
                head + command_list(commands, color),
            ),
        forall|i: int|
            0 <= i < commands.len() ==> occurs_in(#[trigger] commands[i], head + join_seqs(commands, ", "@)),
{
    let parts = commands.map_values(|c: Seq<char>| highlight(c, color));
    assert forall|i: int| 0 <= i < commands.len() implies occurs_in(
        #[trigger] commands[i],
        head + command_list(commands, color),
    ) by {
        lemma_join_holds_parts(parts, ", "@, i);
        lemma_highlight_holds(commands[i], color);
        lemma_occurs_in_trans(commands[i], parts[i], join_seqs(parts, ", "@));
        lemma_occurs_in_right(commands[i], head, join_seqs(parts, ", "@));
    }
    assert forall|i: int| 0 <= i < commands.len() implies occurs_in(
        #[trigger] commands[i],
        head + join_seqs(commands, ", "@),
    ) by {
        lemma_join_holds_parts(commands, ", "@, i);
        lemma_occurs_in_right(commands[i], head, join_seqs(commands, ", "@));
    }
}

proof fn lemma_plain_command_list(commands: Seq<Seq<char>>)
    ensures
        command_list(commands, false) == join_seqs(commands, ", "@),
{
    assert(commands.map_values(|c: Seq<char>| highlight(c, false)) =~= commands);
}

/// A timed line `head [runtime, ...] in <ms>ms` ends with the runtimes and
/// the elapsed milliseconds, and names every runtime.
proof fn lemma_timed_line(head: Seq<char>, runtimes: Seq<Seq<char>>, elapsed_ms: nat)
    ensures
        ends_with(
            head + runtime_suffix_of(runtimes) + " in "@ + decimal(elapsed_ms) + "ms"@,
            runtime_suffix_of(runtimes) + " in "@ + decimal(elapsed_ms) + "ms"@,
        ),
        forall|i: int|
            0 <= i < runtimes.len() ==> occurs_in(
                #[trigger] runtimes[i],
                head + runtime_suffix_of(runtimes) + " in "@ + decimal(elapsed_ms) + "ms"@,
            ),
{
    let suffix = runtime_suffix_of(runtimes);
    let tail = suffix + " in "@ + decimal(elapsed_ms) + "ms"@;
    assert(head + suffix + " in "@ + decimal(elapsed_ms) + "ms"@ =~= head + tail);
    lemma_ends_with_concat(head, tail);
    assert forall|i: int| 0 <= i < runtimes.len() implies occurs_in(
        #[trigger] runtimes[i],
        head + runtime_suffix_of(runtimes) + " in "@ + decimal(elapsed_ms) + "ms"@,
    ) by {
        let joined = join_seqs(runtimes, ", "@);
        lemma_join_holds_parts(runtimes, ", "@, i);
        lemma_occurs_in_right(runtimes[i], " ["@, joined);
        lemma_occurs_in_left(runtimes[i], " ["@ + joined, "]"@);
        lemma_occurs_in_right(runtimes[i], head, suffix);
        lemma_occurs_in_left(runtimes[i], head + suffix, " in "@);
        lemma_occurs_in_left(runtimes[i], head + suffix + " in "@, decimal(elapsed_ms));
        lemma_occurs_in_left(runtimes[i], head + suffix + " in "@ + decimal(elapsed_ms), "ms"@);
    }
}

/// Without colour, `miseo <rest>` in the concise shape is the verbose line,
/// and the verbose indented line is the concise one behind two spaces.
proof fn lemma_plain_lines_match(first: Seq<char>, second: Seq<char>)
    ensures
        brand(false) + " "@ + first == "miseo "@ + first,
        "  miseo "@ + second == "  "@ + (brand(false) + " "@ + second),
{
    reveal_strlit("miseo");
    reveal_strlit("miseo ");
    reveal_strlit("  miseo ");
    reveal_strlit("  ");
    reveal_strlit(" ");
    assert(brand(false) + " "@ + first =~= "miseo "@ + first);
    assert("  miseo "@ + second =~= "  "@ + (brand(false) + " "@ + second));
}

/// An install report, concise or verbose, is two lines. The first names the
/// installed spec and every runtime pin, and ends with the runtime pins and the
/// elapsed milliseconds; the second names every exported command. Without
/// colour, the concise report is the verbose one without its indentation.
pub proof fn law_install_report(
    color: bool,
    concise: bool,
    spec: Seq<char>,
    runtimes: Seq<Seq<char>>,
    action: Seq<char>,
    commands: Seq<Seq<char>>,
    elapsed_ms: nat,
)
    ensures
        installed_lines(color, concise, spec, runtime_suffix_of(runtimes), action, commands, elapsed_ms).len()
            == 2,
        ends_with(
            installed_lines(
                color,
                concise,
                spec,
                runtime_suffix_of(runtimes),
                action,
                commands,
                elapsed_ms,
            )[0].text,
            runtime_suffix_of(runtimes) + " in "@ + decimal(elapsed_ms) + "ms"@,
        ),
        occurs_in(
            spec,
            installed_lines(
                color,
                concise,
                spec,
                runtime_suffix_of(runtimes),
                action,
                commands,
                elapsed_ms,
            )[0].text,
        ),
        forall|i: int|
            0 <= i < runtimes.len() ==> occurs_in(
                #[trigger] runtimes[i],
                installed_lines(
                    color,
                    concise,
                    spec,
                    runtime_suffix_of(runtimes),
                    action,
                    commands,
                    elapsed_ms,
                )[0].text,
            ),
        forall|i: int|
            0 <= i < commands.len() ==> occurs_in(
                #[trigger] commands[i],
                installed_lines(
                    color,
                    concise,
                    spec,
                    runtime_suffix_of(runtimes),
                    action,
                    commands,
                    elapsed_ms,
                )[1].text,
            ),
        installed_lines(false, true, spec, runtime_suffix_of(runtimes), action, commands, elapsed_ms)[0]
            == installed_lines(false, false, spec, runtime_suffix_of(runtimes), action, commands, elapsed_ms)[0],
        installed_lines(false, false, spec, runtime_suffix_of(runtimes), action, commands, elapsed_ms)[1].text
            == "  "@ + installed_lines(
            false,
            true,
            spec,
            runtime_suffix_of(runtimes),
            action,
            commands,
            elapsed_ms,
        )[1].text,
{
    let suffix = runtime_suffix_of(runtimes);
    let head = if concise {
        brand(color) + " "@ + action + " "@ + highlight(spec, color)
    } else {
        "miseo "@ + action + " "@ + spec
    };
    lemma_timed_line(head, runtimes, elapsed_ms);
    let line = head + suffix + " in "@ + decimal(elapsed_ms) + "ms"@;
    if concise {
        lemma_highlight_holds(spec, color);
        lemma_occurs_in_right(spec, brand(color) + " "@ + action + " "@, highlight(spec, color));
    } else {
        lemma_occurs_in_self(spec);
        lemma_occurs_in_right(spec, "miseo "@ + action + " "@, spec);
    }
    lemma_occurs_in_left(spec, head, suffix);
    lemma_occurs_in_left(spec, head + suffix, " in "@);
    lemma_occurs_in_left(spec, head + suffix + " in "@, decimal(elapsed_ms));
    lemma_occurs_in_left(spec, head + suffix + " in "@ + decimal(elapsed_ms), "ms"@);
    lemma_listed_line(brand(color) + " "@ + install_label_of(commands.len()) + ": "@, commands, color);
    lemma_listed_line("  miseo "@ + install_label_of(commands.len()) + ": "@, commands, color);
    lemma_plain_command_list(commands);
    let first = action + " "@ + spec + suffix + " in "@ + decimal(elapsed_ms) + "ms"@;
    let second = install_label_of(commands.len()) + ": "@ + join_seqs(commands, ", "@);
    lemma_plain_lines_match(first, second);
    let plain_concise = installed_lines(false, true, spec, suffix, action, commands, elapsed_ms);
    let plain_verbose = installed_lines(false, false, spec, suffix, action, commands, elapsed_ms);
    assert(plain_concise[0].text =~= brand(false) + " "@ + first);
    assert(plain_verbose[0].text =~= "miseo "@ + first);
    assert(plain_concise[1].text =~= brand(false) + " "@ + second);
    assert(plain_verbose[1].text =~= "  miseo "@ + second);
}


/// An upgrade report, concise or verbose, is two lines, and a third when old
/// variants were removed. The first names the upgraded spec and every runtime
/// pin, and ends with the runtime pins and the elapsed milliseconds, in both
/// shapes; the second names every exported command and the third every removed
/// variant. Without colour, the concise report is the verbose one without its
/// indentation.
pub proof fn law_upgrade_report(
    color: bool,
    concise: bool,
    spec: Seq<char>,
    runtimes: Seq<Seq<char>>,
    commands: Seq<Seq<char>>,
    elapsed_ms: nat,
    removed_variants: Seq<Seq<char>>,
)
    ensures
        upgraded_lines(color, concise, spec, runtime_suffix_of(runtimes), commands, elapsed_ms, removed_variants).len()
            == if removed_variants.len() > 0 { 3int } else { 2int },
        ends_with(
            upgraded_lines(color, concise, spec, runtime_suffix_of(runtimes), commands, elapsed_ms, removed_variants)[0].text,
            runtime_suffix_of(runtimes) + " in "@ + decimal(elapsed_ms) + "ms"@,
        ),
        occurs_in(
            spec,
            upgraded_lines(color, concise, spec, runtime_suffix_of(runtimes), commands, elapsed_ms, removed_variants)[0].text,
        ),
        forall|i: int|
            0 <= i < runtimes.len() ==> occurs_in(
                #[trigger] runtimes[i],
                upgraded_lines(color, concise, spec, runtime_suffix_of(runtimes), commands, elapsed_ms, removed_variants)[0].text,
            ),
        forall|i: int|
            0 <= i < commands.len() ==> occurs_in(
                #[trigger] commands[i],
                upgraded_lines(color, concise, spec, runtime_suffix_of(runtimes), commands, elapsed_ms, removed_variants)[1].text,
            ),
        forall|i: int|
            0 <= i < removed_variants.len() ==> occurs_in(
                #[trigger] removed_variants[i],
                upgraded_lines(color, concise, spec, runtime_suffix_of(runtimes), commands, elapsed_ms, removed_variants)[2].text,
            ),
        upgraded_lines(false, true, spec, runtime_suffix_of(runtimes), commands, elapsed_ms, removed_variants)[0]
            == upgraded_lines(false, false, spec, runtime_suffix_of(runtimes), commands, elapsed_ms, removed_variants)[0],
        forall|j: int|
            1 <= j < upgraded_lines(false, true, spec, runtime_suffix_of(runtimes), commands, elapsed_ms, removed_variants).len()
                ==> #[trigger] upgraded_lines(false, false, spec, runtime_suffix_of(runtimes), commands, elapsed_ms, removed_variants)[j].text
                == "  "@ + upgraded_lines(false, true, spec, runtime_suffix_of(runtimes), commands, elapsed_ms, removed_variants)[j].text,
{
    let suffix = runtime_suffix_of(runtimes);
    let lines = upgraded_lines(color, concise, spec, suffix, commands, elapsed_ms, removed_variants);
    let head = if concise {
        brand(color) + " upgraded "@ + highlight(spec, color)
    } else {
        "miseo upgraded "@ + spec
    };
    let first = head + suffix + " in "@ + decimal(elapsed_ms) + "ms"@;
    let cmd_head = if concise {
        brand(color) + " "@ + install_label_of(commands.len()) + ": "@
    } else {
        "  miseo "@ + install_label_of(commands.len()) + ": "@
    };
    let variants_line = if concise {
        brand(color) + " removed old variants: "@ + join_seqs(removed_variants, ", "@)
    } else {
        "  miseo removed old variants: "@ + join_seqs(removed_variants, ", "@)
    };
    assert(lines[0].text == first);
    lemma_timed_line(head, runtimes, elapsed_ms);
    if concise {
        lemma_highlight_holds(spec, color);
        lemma_occurs_in_right(spec, brand(color) + " upgraded "@, highlight(spec, color));
    } else {
        lemma_occurs_in_self(spec);
        lemma_occurs_in_right(spec, "miseo upgraded "@, spec);
    }
    lemma_occurs_in_left(spec, head, suffix);
    lemma_occurs_in_left(spec, head + suffix, " in "@);
    lemma_occurs_in_left(spec, head + suffix + " in "@, decimal(elapsed_ms));
    lemma_occurs_in_left(spec, head + suffix + " in "@ + decimal(elapsed_ms), "ms"@);
    lemma_listed_line(cmd_head, commands, color);
    if removed_variants.len() > 0 {
        assert(lines[2].text == variants_line);
        let vhead = if concise {
            brand(color) + " removed old variants: "@
        } else {
            "  miseo removed old variants: "@
        };
        assert forall|i: int| 0 <= i < removed_variants.len() implies occurs_in(
            #[trigger] removed_variants[i],
            lines[2].text,
        ) by {
            lemma_join_holds_parts(removed_variants, ", "@, i);
            lemma_occurs_in_right(removed_variants[i], vhead, join_seqs(removed_variants, ", "@));
        }
    }
    let pc = upgraded_lines(false, true, spec, suffix, commands, elapsed_ms, removed_variants);
    let pv = upgraded_lines(false, false, spec, suffix, commands, elapsed_ms, removed_variants);
    lemma_plain_command_list(commands);
    reveal_strlit("miseo");
    reveal_strlit("miseo upgraded ");
    reveal_strlit(" upgraded ");
    reveal_strlit("  miseo ");
    reveal_strlit("  ");
    reveal_strlit(" ");
    reveal_strlit(" removed old variants: ");
    reveal_strlit("  miseo removed old variants: ");
    assert(pc[0].text =~= pv[0].text);
    assert(pv[1].text =~= "  "@ + pc[1].text);
    if removed_variants.len() > 0 {
        assert(pv[2].text =~= "  "@ + pc[2].text);
    }
}

/// An uninstall report names the uninstalled tool on its first line and, when
/// command links were removed, every removed command on a second line; it has
/// no other lines. Without colour, the concise report is the verbose one
/// without its indentation.
pub proof fn law_uninstall_report(
    color: bool,
    concise: bool,
    tool_id: Seq<char>,
    removed: Seq<Seq<char>>,
)
    ensures
        uninstalled_lines(color, concise, tool_id, removed).len() == if removed.len() > 0 {
            2int
        } else {
            1int
        },
        occurs_in(tool_id, uninstalled_lines(color, concise, tool_id, removed)[0].text),
        forall|i: int|
            0 <= i < removed.len() ==> occurs_in(
                #[trigger] removed[i],
                uninstalled_lines(color, concise, tool_id, removed)[1].text,
            ),
        uninstalled_lines(false, true, tool_id, removed)[0] == uninstalled_lines(
            false,
            false,
            tool_id,
            removed,
        )[0],
        removed.len() > 0 ==> uninstalled_lines(false, false, tool_id, removed)[1].text == "  "@
            + uninstalled_lines(false, true, tool_id, removed)[1].text,
{
    let lines = uninstalled_lines(color, concise, tool_id, removed);
    if concise {
        assert(lines[0].text == brand(color) + " uninstalled "@ + highlight(tool_id, color));
        lemma_highlight_holds(tool_id, color);
        lemma_occurs_in_right(tool_id, brand(color) + " uninstalled "@, highlight(tool_id, color));
        lemma_listed_line(brand(color) + " "@ + remove_label_of(removed.len()) + ": "@, removed, color);
    } else {
        assert(lines[0].text == "miseo uninstalled "@ + tool_id);
        lemma_occurs_in_self(tool_id);
        lemma_occurs_in_right(tool_id, "miseo uninstalled "@, tool_id);
        lemma_listed_line("  miseo "@ + remove_label_of(removed.len()) + ": "@, removed, color);
    }
    if removed.len() > 0 {
        assert(lines[1].text == if concise {
            brand(color) + " "@ + remove_label_of(removed.len()) + ": "@ + command_list(removed, color)
        } else {
            "  miseo "@ + remove_label_of(removed.len()) + ": "@ + join_seqs(removed, ", "@)
        });
    }
    let pc = uninstalled_lines(false, true, tool_id, removed);
    let pv = uninstalled_lines(false, false, tool_id, removed);
    lemma_plain_command_list(removed);
    reveal_strlit("miseo");
    reveal_strlit("miseo uninstalled ");
    reveal_strlit(" uninstalled ");
    reveal_strlit("  miseo ");
    reveal_strlit("  ");
    reveal_strlit(" ");
    assert(pc[0].text =~= pv[0].text);
    if removed.len() > 0 {
        assert(pv[1].text =~= "  "@ + pc[1].text);
    }
}

pub fn runtime_suffix(runtimes: &Vec<String>) -> (r: String)
    ensures
        r@ == runtime_suffix_of(views(runtimes@)),
{
    if runtimes.len() == 0 {
        String::new()
    } else {
        let joined = join(runtimes, ", ");
        concat3(" [", joined.as_str(), "]")
    }
}

pub fn install_label(count: usize) -> (r: &'static str)
    ensures
        r@ == install_label_of(count as nat),
{
    if count == 1 {
        "installed command"
    } else {
        "installed commands"
    }
}

pub fn remove_label(count: usize) -> (r: &'static str)
    ensures
        r@ == remove_label_of(count as nat),
{
    if count == 1 {
        "removed command"
    } else {
        "removed commands"
    }
}

fn out_line(text: String) -> (l: Line)
    ensures
        l@ == out(text@),
{
    Line { stream: Stream::Stdout, text }
}

fn err_line(text: String) -> (l: Line)
    ensures
        l@ == err(text@),
{
    Line { stream: Stream::Stderr, text }
}

fn versioned(tool_id: &ToolId, version: &String) -> (r: String)
    ensures
        r@ == versioned_text(*tool_id, *version),
{
    let mut r = tool_id.to_string();
    r.append("@");
    r.append(version.as_str());
    r
}

/// The UI renderer: whether output is concise and whether it is colored.
pub struct Ui {
    concise: bool,
    color: bool,
}

impl Ui {
    pub closed spec fn concise_mode(&self) -> bool {
        self.concise
    }

    pub closed spec fn color_enabled(&self) -> bool {
        self.color
    }

    /// A renderer for a sink that is a terminal or not; color is used on a
    /// terminal unless `NO_COLOR` is set.
    pub fn new(is_tty: bool, no_color_set: bool, concise: bool) -> (ui: Ui)
        ensures
            ui.concise_mode() == concise,
            ui.color_enabled() == (is_tty && !no_color_set),
    {
        Ui { concise, color: is_tty && !no_color_set }
    }

    pub fn is_concise(&self) -> (r: bool)
        ensures
            r == self.concise_mode(),
    {
        self.concise
    }

    fn brand(&self) -> (r: String)
        ensures
            r@ == brand(self.color_enabled()),
    {
        green("miseo", self.color)
    }

    fn highlight(&self, text: &str) -> (r: String)
        ensures
            r@ == highlight(text@, self.color_enabled()),
    {
        blue(text, self.color)
    }

    fn comment(&self, text: &str) -> (r: String)
        ensures
            r@ == colored(Paint::Dim, text@, self.color_enabled()),
    {
        dim(text, self.color)
    }

    fn hint_label(&self) -> (r: String)
        ensures
            r@ == hint_label(self.color_enabled()),
    {
        yellow("hint:", self.color)
    }

    fn error_label(&self) -> (r: String)
        ensures
            r@ == error_label(self.color_enabled()),
    {
        red("error:", self.color)
    }

    fn hint(&self, body: &str) -> (l: Line)
        ensures
            l@ == hint_line(self.color_enabled(), body@),
    {
        let mut t = owned("  ");
        let label = self.hint_label();
        t.append(label.as_str());
        t.append(" ");
        t.append(body);
        out_line(t)
    }

    fn error_message(&self, body: &str) -> (l: Line)
        ensures
            l@ == err(error_label(self.color_enabled()) + " "@ + body@),
    {
        let mut t = self.error_label();
        t.append(" ");
        t.append(body);
        err_line(t)
    }

    fn error_hint(&self, body: &str) -> (l: Line)
        ensures
            l@ == err(hint_label(self.color_enabled()) + " "@ + body@),
    {
        let mut t = self.hint_label();
        t.append(" ");
        t.append(body);
        err_line(t)
    }

    fn join_commands(&self, commands: &Vec<String>) -> (r: String)
        ensures
            r@ == command_list(views(commands@), self.color_enabled()),
    {
        let mut lit: Vec<String> = Vec::new();
        let mut i: usize = 0;
        while i < commands.len()
            invariant
                i <= commands.len(),
                lit@.len() == i,
                forall|k: int|
                    0 <= k < i ==> (#[trigger] lit@[k])@ == highlight(
                        commands@[k]@,
                        self.color_enabled(),
                    ),
            decreases commands.len() - i,
        {
            lit.push(self.highlight(commands[i].as_str()));
            i = i + 1;
        }
        assert(views(lit@) =~= views(commands@).map_values(
            |c: Seq<char>| highlight(c, self.color_enabled()),
        ));
        join(&lit, ", ")
    }

    /// `<elapsed>ms` after ` in `.
    fn timing(&self, line: &mut String, elapsed_ms: u128)
        ensures
            final(line)@ == old(line)@ + " in "@ + decimal(elapsed_ms as nat) + "ms"@,
    {
        line.append(" in ");
        let ms = decimal_string(elapsed_ms);
        line.append(ms.as_str());
        line.append("ms");
    }

    fn installed_concise(
        &self,
        spec: &str,
        runtime_suffix: &str,
        action: &str,
        commands: &Vec<String>,
        elapsed_ms: u128,
    ) -> (r: Vec<Line>)
        requires
            self.concise_mode(),
        ensures
            lines_model(r@) == installed_lines(
                self.color_enabled(),
                true,
                spec@,
                runtime_suffix@,
                action@,
                views(commands@),
                elapsed_ms as nat,
            ),
    {
        let mut first = self.brand();
        first.append(" ");
        first.append(action);
        first.append(" ");
        let lit = self.highlight(spec);
        first.append(lit.as_str());
        first.append(runtime_suffix);
        self.timing(&mut first, elapsed_ms);
        let mut second = self.brand();
        second.append(" ");
        second.append(install_label(commands.len()));
        second.append(": ");
        let list = self.join_commands(commands);
        second.append(list.as_str());
        let r = vec![out_line(first), out_line(second)];
        assert(lines_model(r@) =~= installed_lines(
            self.color_enabled(),
            true,
            spec@,
            runtime_suffix@,
            action@,
            views(commands@),
            elapsed_ms as nat,
        ));
        r
    }

    fn installed_verbose(
        &self,
        spec: &str,
        runtime_suffix: &str,
        action: &str,
        commands: &Vec<String>,
        elapsed_ms: u128,
    ) -> (r: Vec<Line>)
        requires
            !self.concise_mode(),
        ensures
            lines_model(r@) == installed_lines(
                self.color_enabled(),
                false,
                spec@,
                runtime_suffix@,
                action@,
                views(commands@),
                elapsed_ms as nat,
            ),
    {
        let mut first = owned("miseo ");
        first.append(action);
        first.append(" ");
        first.append(spec);
        first.append(runtime_suffix);
        self.timing(&mut first, elapsed_ms);
        let mut second = owned("  miseo ");
        second.append(install_label(commands.len()));
        second.append(": ");
        let list = join(commands, ", ");
        second.append(list.as_str());
        let r = vec![out_line(first), out_line(second)];
        assert(lines_model(r@) =~= installed_lines(
            self.color_enabled(),
            false,
            spec@,
            runtime_suffix@,
            action@,
            views(commands@),
            elapsed_ms as nat,
        ));
        r
    }

    fn already_current_concise(&self, spec: &str, runtime_suffix: &str) -> (r: Vec<Line>)
        requires
            self.concise_mode(),
        ensures
            lines_model(r@) == already_current_lines(
                self.color_enabled(),
                true,
                spec@,
                runtime_suffix@,
            ),
    {
        let mut t = self.brand();
        t.append(" ");
        let lit = self.highlight(spec);
        t.append(lit.as_str());
        t.append(runtime_suffix);
        t.append(" already current");
        let r = vec![out_line(t)];
        assert(lines_model(r@) =~= already_current_lines(
            self.color_enabled(),
            true,
            spec@,
            runtime_suffix@,
        ));
        r
    }

    fn already_current_verbose(&self, spec: &str, runtime_suffix: &str) -> (r: Vec<Line>)
        requires
            !self.concise_mode(),
        ensures
            lines_model(r@) == already_current_lines(
                self.color_enabled(),
                false,
                spec@,
                runtime_suffix@,
            ),
    {
        let mut t = owned("miseo ");
        t.append(spec);
        t.append(runtime_suffix);
        t.append(" already current");
        let r = vec![out_line(t)];
        assert(lines_model(r@) =~= already_current_lines(
            self.color_enabled(),
            false,
            spec@,
            runtime_suffix@,
        ));
        r
    }

    fn upgraded_concise(
        &self,
        spec: &str,
        runtime_suffix: &str,
        commands: &Vec<String>,
        elapsed_ms: u128,
        removed_variants: &Vec<String>,
    ) -> (r: Vec<Line>)
        requires
            self.concise_mode(),
        ensures
            lines_model(r@) == upgraded_lines(
                self.color_enabled(),
                true,
                spec@,
                runtime_suffix@,
                views(commands@),
                elapsed_ms as nat,
                views(removed_variants@),
            ),
    {
        let mut first = self.brand();
        first.append(" upgraded ");
        let lit = self.highlight(spec);
        first.append(lit.as_str());
        first.append(runtime_suffix);
        self.timing(&mut first, elapsed_ms);
        let mut second = self.brand();
        second.append(" ");
        second.append(install_label(commands.len()));
        second.append(": ");
        let list = self.join_commands(commands);
        second.append(list.as_str());
        let mut r = vec![out_line(first), out_line(second)];
        let ghost head = lines_model(r@);
        if removed_variants.len() > 0 {
            let mut third = self.brand();
            third.append(" removed old variants: ");
            let removed = join(removed_variants, ", ");
            third.append(removed.as_str());
            r.push(out_line(third));
            assert(lines_model(r@) =~= head.push(lines_model(r@).last()));
        }
        assert(lines_model(r@) =~= upgraded_lines(
            self.color_enabled(),
            true,
            spec@,
            runtime_suffix@,
            views(commands@),
            elapsed_ms as nat,
            views(removed_variants@),
        ));
        r
    }

    fn upgraded_verbose(
        &self,
        spec: &str,
        runtime_suffix: &str,
        commands: &Vec<String>,
        elapsed_ms: u128,
        removed_variants: &Vec<String>,
    ) -> (r: Vec<Line>)
        requires
            !self.concise_mode(),
        ensures
            lines_model(r@) == upgraded_lines(
                self.color_enabled(),
                false,
                spec@,
                runtime_suffix@,
                views(commands@),
                elapsed_ms as nat,
                views(removed_variants@),
            ),
    {
        let mut first = owned("miseo upgraded ");
        first.append(spec);
        first.append(runtime_suffix);
        self.timing(&mut first, elapsed_ms);
        let mut second = owned("  miseo ");
        second.append(install_label(commands.len()));
        second.append(": ");
        let list = join(commands, ", ");
        second.append(list.as_str());
        let mut r = vec![out_line(first), out_line(second)];
        let ghost head = lines_model(r@);
        if removed_variants.len() > 0 {
            let mut third = owned("  miseo removed old variants: ");
            let removed = join(removed_variants, ", ");
            third.append(removed.as_str());
            r.push(out_line(third));
            assert(lines_model(r@) =~= head.push(lines_model(r@).last()));
        }
        assert(lines_model(r@) =~= upgraded_lines(
            self.color_enabled(),
            false,
            spec@,
            runtime_suffix@,
            views(commands@),
            elapsed_ms as nat,
            views(removed_variants@),
        ));
        r
    }

    fn uninstalled_concise(&self, tool_id: &ToolId, removed_commands: &Vec<String>) -> (r: Vec<
        Line,
    >)
        requires
            self.concise_mode(),
        ensures
            lines_model(r@) == uninstalled_lines(
                self.color_enabled(),
                true,
                tool_id_text(tool_id@),
                views(removed_commands@),
            ),
    {
        let mut first = self.brand();
        first.append(" uninstalled ");
        let id = tool_id.to_string();
        let lit = self.highlight(id.as_str());
        first.append(lit.as_str());
        let mut r = vec![out_line(first)];
        let ghost head = lines_model(r@);
        if removed_commands.len() > 0 {
            let mut second = self.brand();
            second.append(" ");
            second.append(remove_label(removed_commands.len()));
            second.append(": ");
            let list = self.join_commands(removed_commands);
            second.append(list.as_str());
            r.push(out_line(second));
            assert(lines_model(r@) =~= head.push(lines_model(r@).last()));
        }
        assert(lines_model(r@) =~= uninstalled_lines(
            self.color_enabled(),
            true,
            tool_id_text(tool_id@),
            views(removed_commands@),
        ));
        r
    }

    fn uninstalled_verbose(&self, tool_id: &ToolId, removed_commands: &Vec<String>) -> (r: Vec<
        Line,
    >)
        requires
            !self.concise_mode(),
        ensures
            lines_model(r@) == uninstalled_lines(
                self.color_enabled(),
                false,
                tool_id_text(tool_id@),
                views(removed_commands@),
            ),
    {
        let mut first = owned("miseo uninstalled ");
        let id = tool_id.to_string();
        first.append(id.as_str());
        let mut r = vec![out_line(first)];
        let ghost head = lines_model(r@);
        if removed_commands.len() > 0 {
            let mut second = owned("  miseo ");
            second.append(remove_label(removed_commands.len()));
            second.append(": ");
            let list = join(removed_commands, ", ");
            second.append(list.as_str());
            r.push(out_line(second));
            assert(lines_model(r@) =~= head.push(lines_model(r@).last()));
        }
        assert(lines_model(r@) =~= uninstalled_lines(
            self.color_enabled(),
            false,
            tool_id_text(tool_id@),
            views(removed_commands@),
        ));
        r
    }

    /// Render a successful install.
    pub fn install_success(&self, success: &InstallSuccess) -> (r: Vec<Line>)
        ensures
            lines_model(r@) == installed_lines(
                self.color_enabled(),
                self.concise_mode(),
                versioned_text(success.tool_id, success.package_version),
                runtime_suffix_of(views(success.runtimes@)),
                action_text(success.action),
                views(success.commands@),
                success.elapsed_ms as nat,
            ),
    {
        let runtime_suffix = runtime_suffix(&success.runtimes);
        let spec = versioned(&success.tool_id, &success.package_version);
        if self.concise {
            self.installed_concise(
                spec.as_str(),
                runtime_suffix.as_str(),
                success.action.as_str(),
                &success.commands,
                success.elapsed_ms,
            )
        } else {
            self.installed_verbose(
                spec.as_str(),
                runtime_suffix.as_str(),
                success.action.as_str(),
                &success.commands,
                success.elapsed_ms,
            )
        }
    }

    /// Render an already-current install result.
    pub fn install_already_current(&self, current: &InstallAlreadyCurrent) -> (r: Vec<Line>)
        ensures
            lines_model(r@) == already_current_lines(
                self.color_enabled(),
                self.concise_mode(),
                versioned_text(current.tool_id, current.package_version),
                runtime_suffix_of(views(current.runtimes@)),
            ),
    {
        let runtime_suffix = runtime_suffix(&current.runtimes);
        let spec = versioned(&current.tool_id, &current.package_version);
        if self.concise {
            self.already_current_concise(spec.as_str(), runtime_suffix.as_str())
        } else {
            self.already_current_verbose(spec.as_str(), runtime_suffix.as_str())
        }
    }

    /// Render follow-up install hints when no action was taken.
    pub fn install_hints(&self, tool_spec: &ToolSpec, tool_id: &ToolId) -> (r: Vec<Line>)
        ensures
            lines_model(r@) == install_hint_lines(
                self.color_enabled(),
                self.concise_mode(),
                tool_spec_text(tool_spec@),
                tool_id_text(tool_id@),
            ),
    {
        if self.concise {
            let r: Vec<Line> = Vec::new();
            assert(lines_model(r@) =~= Seq::<LineModel>::empty());
            return r;
        }
        let mut reinstall = owned("miseo install ");
        let spec_text = tool_spec.to_string();
        reinstall.append(spec_text.as_str());
        reinstall.append(" --force    ");
        let c1 = self.comment("# reinstall current variant");
        reinstall.append(c1.as_str());
        let mut upgrade = owned("miseo upgrade ");
        let id_text = tool_id.to_string();
        upgrade.append(id_text.as_str());
        upgrade.append("            ");
        let c2 = self.comment("# upgrade to newer version");
        upgrade.append(c2.as_str());
        let r = vec![self.hint(reinstall.as_str()), self.hint(upgrade.as_str())];
        assert(lines_model(r@) =~= install_hint_lines(
            self.color_enabled(),
            self.concise_mode(),
            tool_spec_text(tool_spec@),
            tool_id_text(tool_id@),
        ));
        r
    }

    /// Render a successful upgrade.
    pub fn upgrade_success(&self, success: &UpgradeSuccess) -> (r: Vec<Line>)
        ensures
            lines_model(r@) == upgraded_lines(
                self.color_enabled(),
                self.concise_mode(),
                versioned_text(success.tool_id, success.package_version),
                runtime_suffix_of(views(success.runtimes@)),
                views(success.commands@),
                success.elapsed_ms as nat,
                views(success.removed_variants@),
            ),
    {
        let runtime_suffix = runtime_suffix(&success.runtimes);
        let spec = versioned(&success.tool_id, &success.package_version);
        if self.concise {
            self.upgraded_concise(
                spec.as_str(),
                runtime_suffix.as_str(),
                &success.commands,
                success.elapsed_ms,
                &success.removed_variants,
            )
        } else {
            self.upgraded_verbose(
                spec.as_str(),
                runtime_suffix.as_str(),
                &success.commands,
                success.elapsed_ms,
                &success.removed_variants,
            )
        }
    }

    /// Render an already-current upgrade result.
    pub fn upgrade_already_current(&self, current: &UpgradeAlreadyCurrent) -> (r: Vec<Line>)
        ensures
            lines_model(r@) == already_current_lines(
                self.color_enabled(),
                self.concise_mode(),
                versioned_text(current.tool_id, current.package_version),
                runtime_suffix_of(views(current.runtimes@)),
            ),
    {
        let runtime_suffix = runtime_suffix(&current.runtimes);
        let spec = versioned(&current.tool_id, &current.package_version);
        if self.concise {
            self.already_current_concise(spec.as_str(), runtime_suffix.as_str())
        } else {
            self.already_current_verbose(spec.as_str(), runtime_suffix.as_str())
        }
    }

    /// Render a successful uninstall.
    pub fn uninstalled(&self, view: &UninstallOutcome) -> (r: Vec<Line>)
        ensures
            lines_model(r@) == uninstalled_lines(
                self.color_enabled(),
                self.concise_mode(),
                tool_id_text(view.tool_id@),
                views(view.removed_commands@),
            ),
    {
        if self.concise {
            self.uninstalled_concise(&view.tool_id, &view.removed_commands)
        } else {
            self.uninstalled_verbose(&view.tool_id, &view.removed_commands)
        }
    }

    /// Render one error with optional tailored hints.
    pub fn error(&self, err: &Error) -> (r: Vec<Line>)
        ensures
            !has_foreign_detail(err@) ==> lines_model(r@) == error_lines(
                self.color_enabled(),
                err@,
                describe(err@),
            ),
            has_foreign_detail(err@) ==> exists|message: Seq<char>|
                #![trigger error_lines(self.color_enabled(), err@, message)]
                starts_with(message, describe(err@)) && lines_model(r@) == error_lines(
                    self.color_enabled(),
                    err@,
                    message,
                ),
    {
        match err {
            Error::ToolNotInstalledOrphanFound { tool_id, path } => {
                let mut first = owned("tool ");
                let id = self.highlight(tool_id.as_str());
                first.append(id.as_str());
                first.append(" is not installed");
                let mut second = owned("found unmanaged install at ");
                let p = self.highlight(path.as_str());
                second.append(p.as_str());
                second.append("; run miseo uninstall ");
                second.append(id.as_str());
                second.append(" --force to clean it up");
                let r = vec![self.error_message(first.as_str()), self.error_hint(second.as_str())];
                let ghost message = describe(err@);
                assert(lines_model(r@) =~= error_lines(self.color_enabled(), err@, message));
                r
            },
            _ => {
                let message = err.to_string();
                let r = vec![self.error_message(message.as_str())];
                assert(lines_model(r@) =~= error_lines(self.color_enabled(), err@, message@));
                r
            },
        }
    }
}

} // verus!
