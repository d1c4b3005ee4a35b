//! Host `mise` integration backed by subprocess calls: everything but the
//! subprocess itself.

use vstd::prelude::*;
use vstd::string::StringExecFns;
use vstd::utf8::{decode_utf8, valid_utf8};

use crate::error::{Error, ErrorModel};
use crate::path::file_name;
use crate::path::file_name_of;
use crate::spec::pins::RuntimePins;
use crate::spec::runtime::{runtime_name, runtime_pin_of, Runtime, RuntimeSpec, RuntimeSpecModel};
use crate::spec::tool::{
    tool_id_text, tool_spec_text, ToolId, ToolIdModel, ToolSpec, ToolSpecModel, version_model,
};
use crate::text::{
    concat, join, join_seqs, keep_nonempty, nonempty_parts, owned, replace, replace_char, split,
    split_on, trim, trim_chars, views, Separator,
};

verus! {

/// What `String::from_utf8_lossy` decodes `bytes` to: the chars of valid UTF-8,
/// with each invalid sequence replaced by U+FFFD.
pub uninterp spec fn utf8_lossy(bytes: Seq<u8>) -> Seq<char>;

/// Decodes subprocess output with `String::from_utf8_lossy`; on valid UTF-8
/// that is plain decoding.
#[verifier::external_body]
fn decode_lossy(bytes: &[u8]) -> (r: String)
    ensures
        r@ == utf8_lossy(bytes@),
        valid_utf8(bytes@) ==> r@ == decode_utf8(bytes@),
{
    String::from_utf8_lossy(bytes).into_owned()
}

/// How the host `mise` is run: interactively (streaming its output) or not,
/// and at which verbosity.
#[derive(Debug, Clone, Copy)]
pub struct Cli {
    interactive: bool,
    verbose: u8,
}

impl Default for Cli {
    /// The client that captures output and runs `mise` without `-v`.
    fn default() -> (r: Cli)
        ensures
            !r.is_interactive(),
            r.verbosity() == 0,
    {
        Cli::new(false, 0)
    }
}

impl Cli {
    pub fn new(interactive: bool, verbose: u8) -> (r: Cli)
        ensures
            r.is_interactive() == interactive,
            r.verbosity() == verbose,
    {
        Cli { interactive, verbose }
    }

    pub closed spec fn is_interactive(&self) -> bool {
        self.interactive
    }

    pub closed spec fn verbosity(&self) -> u8 {
        self.verbose
    }

    pub fn interactive(&self) -> (r: bool)
        ensures
            r == self.is_interactive(),
    {
        self.interactive
    }

    pub fn verbose(&self) -> (r: u8)
        ensures
            r == self.verbosity(),
    {
        self.verbose
    }

    /// The leading arguments of every `mise` call: one `-v` per level of verbosity.
    pub fn verbosity_args(&self) -> (r: Vec<String>)
        ensures
            views(r@) == Seq::new(self.verbosity() as nat, |i: int| "-v"@),
    {
        let mut r: Vec<String> = Vec::new();
        let mut i: u8 = 0;
        while i < self.verbose
            invariant
                i <= self.verbose,
                r@.len() == i,
                forall|k: int| 0 <= k < i ==> (#[trigger] r@[k])@ == "-v"@,
            decreases self.verbose - i,
        {
            r.push(owned("-v"));
            i = i + 1;
        }
        assert(views(r@) =~= Seq::new(self.verbosity() as nat, |i: int| "-v"@));
        r
    }
}

// Keep internal mise lookups out of the caller's project directory so an
// untrusted local mise.toml cannot block them with a trust error.
pub fn neutral_cd() -> (r: &'static str)
    ensures
        r@ == "/"@,
{
    "/"
}

pub fn mise_command_failed(args: String, stderr: String) -> (e: Error)
    ensures
        e@ == (ErrorModel::MiseCommandFailed { command: "mise "@ + args@, stderr: stderr@ }),
{
    Error::MiseCommandFailed { command: concat("mise ", args.as_str()), stderr }
}

pub fn ensure_success(args: String, ok: bool, stderr: String) -> (r: Result<(), Error>)
    ensures
        ok <==> r is Ok,
        r matches Err(e) ==> e@ == (ErrorModel::MiseCommandFailed {
            command: "mise "@ + args@,
            stderr: stderr@,
        }),
{
    if ok {
        return Ok(());
    }
    Err(mise_command_failed(args, stderr))
}

/// The outcome of a captured `mise` run with `args`: its trimmed standard
/// output on success, else the failure with its trimmed standard error.
pub fn capture_result(args: &Vec<String>, success: bool, stdout: &str, stderr: &str) -> (r: Result<
    String,
    Error,
>)
    ensures
        success ==> (r matches Ok(out) && out@ == trim_chars(stdout@)),
        !success ==> (r matches Err(e) && e@ == (ErrorModel::MiseCommandFailed {
            command: "mise "@ + join_seqs(views(args@), " "@),
            stderr: trim_chars(stderr@),
        })),
{
    ensure_success(join(args, " "), success, trim(stderr))?;
    Ok(trim(stdout))
}

/// `capture_result` over the raw bytes a subprocess wrote.
pub fn capture_output(args: &Vec<String>, success: bool, stdout: &[u8], stderr: &[u8]) -> (r:
    Result<String, Error>)
    ensures
        success ==> (r matches Ok(out) && out@ == trim_chars(utf8_lossy(stdout@))),
        !success ==> (r matches Err(e) && e@ == (ErrorModel::MiseCommandFailed {
            command: "mise "@ + join_seqs(views(args@), " "@),
            stderr: trim_chars(utf8_lossy(stderr@)),
        })),
{
    let out = decode_lossy(stdout);
    let err = decode_lossy(stderr);
    capture_result(args, success, out.as_str(), err.as_str())
}

/// The outcome of a `mise` run whose output went straight to the terminal.
pub fn streamed_status_result(args: &Vec<String>, success: bool) -> (r: Result<(), Error>)
    ensures
        success <==> r is Ok,
        r matches Err(e) ==> e@ == (ErrorModel::MiseCommandFailed {
            command: "mise "@ + join_seqs(views(args@), " "@),
            stderr: Seq::empty(),
        }),
{
    ensure_success(join(args, " "), success, String::new())
}

/// The outcome of a `mise` run whose output was captured and only matters on failure.
pub fn captured_status_result(args: &Vec<String>, success: bool, stderr: &[u8]) -> (r: Result<
    (),
    Error,
>)
    ensures
        success <==> r is Ok,
        r matches Err(e) ==> e@ == (ErrorModel::MiseCommandFailed {
            command: "mise "@ + join_seqs(views(args@), " "@),
            stderr: trim_chars(utf8_lossy(stderr@)),
        }),
{
    let err = decode_lossy(stderr);
    ensure_success(join(args, " "), success, trim(err.as_str()))
}

pub open spec fn pins_args(pins: Seq<RuntimeSpecModel>) -> Seq<Seq<char>> {
    pins.map_values(|p: RuntimeSpecModel| runtime_pin_of(p))
}

/// `mise exec --cd / <pins...> -- mise install-into <spec> <target>`
pub open spec fn install_into_args_of(
    pins: Seq<RuntimeSpecModel>,
    spec: ToolSpecModel,
    target_dir: Seq<char>,
) -> Seq<Seq<char>> {
    seq!["exec"@, "--cd"@, "/"@] + pins_args(pins) + seq![
        "--"@,
        "mise"@,
        "install-into"@,
        tool_spec_text(spec),
        target_dir,
    ]
}

/// `mise exec --cd / <pins...> -- mise latest <spec> --cd /`
pub open spec fn latest_args_of(pins: Seq<RuntimeSpecModel>, spec: ToolSpecModel) -> Seq<Seq<char>> {
    seq!["exec"@, "--cd"@, "/"@] + pins_args(pins) + seq![
        "--"@,
        "mise"@,
        "latest"@,
        tool_spec_text(spec),
        "--cd"@,
        "/"@,
    ]
}

/// `exec --cd /` followed by the pins, in the order of their runtimes.
fn exec_with_pins(runtime_versions: &RuntimePins) -> (r: Vec<String>)
    ensures
        views(r@) == seq!["exec"@, "--cd"@, "/"@] + pins_args(runtime_versions.values_model()),
{
    let mut args: Vec<String> = Vec::new();
    args.push(owned("exec"));
    args.push(owned("--cd"));
    args.push(owned(neutral_cd()));
    let ghost head = seq!["exec"@, "--cd"@, "/"@];
    assert(views(args@) =~= head);
    let values = runtime_versions.values();
    let ghost pins = runtime_versions.values_model();
    let mut i: usize = 0;
    while i < values.len()
        invariant
            i <= values.len(),
            values@.len() == pins.len(),
            forall|k: int| 0 <= k < values@.len() ==> (#[trigger] values@[k])@ == pins[k],
            args@.len() == 3 + i,
            forall|k: int| 0 <= k < 3 ==> (#[trigger] args@[k])@ == head[k],
            forall|k: int| 0 <= k < i ==> (#[trigger] args@[k + 3])@ == runtime_pin_of(pins[k]),
        decreases values.len() - i,
    {
        args.push(values[i].runtime_pin());
        i = i + 1;
    }
    assert forall|k: int| 0 <= k < args@.len() implies #[trigger] views(args@)[k] == (head
        + pins_args(pins))[k] by {
        if k >= 3 {
            assert(args@[(k - 3) + 3]@ == runtime_pin_of(pins[k - 3]));
        }
    }
    assert(views(args@) =~= head + pins_args(pins));
    args
}

pub fn install_into_args(runtime_versions: &RuntimePins, tool_spec: &ToolSpec, target_dir: &str) -> (r:
    Vec<String>)
    ensures
        views(r@) == install_into_args_of(
            runtime_versions.values_model(),
            tool_spec@,
            target_dir@,
        ),
{
    let mut args = exec_with_pins(runtime_versions);
    let ghost before = views(args@);
    args.push(owned("--"));
    args.push(owned("mise"));
    args.push(owned("install-into"));
    args.push(tool_spec.to_string());
    args.push(owned(target_dir));
    assert(views(args@) =~= before + seq![
        "--"@,
        "mise"@,
        "install-into"@,
        tool_spec_text(tool_spec@),
        target_dir@,
    ]);
    args
}

pub fn latest_args(runtime_versions: &RuntimePins, tool_spec: &ToolSpec) -> (r: Vec<String>)
    ensures
        views(r@) == latest_args_of(runtime_versions.values_model(), tool_spec@),
{
    let mut args = exec_with_pins(runtime_versions);
    let ghost before = views(args@);
    args.push(owned("--"));
    args.push(owned("mise"));
    args.push(owned("latest"));
    args.push(tool_spec.to_string());
    args.push(owned("--cd"));
    args.push(owned(neutral_cd()));
    assert(views(args@) =~= before + seq![
        "--"@,
        "mise"@,
        "latest"@,
        tool_spec_text(tool_spec@),
        "--cd"@,
        "/"@,
    ]);
    args
}

pub fn require_non_empty(value: String, context: &str) -> (r: Result<String, Error>)
    ensures
        value@.len() > 0 ==> (r matches Ok(v) && v@ == value@),
        value@.len() == 0 ==> (r matches Err(e) && e@ == ErrorModel::ManifestInvariant(
            context@ + " returned empty output"@,
        )),
{
    if value.as_str().is_empty() {
        return Err(Error::manifest_invariant(concat(context, " returned empty output")));
    }
    Ok(value)
}

/// The exact spec that `mise latest` answered for `requested`.
pub fn latest_tool_spec(requested: &ToolSpec, version: String) -> (r: Result<ToolSpec, Error>)
    ensures
        version@.len() > 0 ==> (r matches Ok(spec) && spec@ == (ToolSpecModel {
            tool_id: requested@.tool_id,
            version: Some(version@),
        })),
        version@.len() == 0 ==> (r matches Err(e) && e@ == ErrorModel::ManifestInvariant(
            "mise latest for '"@ + tool_spec_text(requested@) + "'"@ + " returned empty output"@,
        )),
{
    let mut context = owned("mise latest for '");
    let text = requested.to_string();
    context.append(text.as_str());
    context.append("'");
    let version = require_non_empty(version, context.as_str())?;
    Ok(requested.with_version(version.as_str()))
}

pub fn runtime_spec_from_output(runtime: &Runtime, selector: String, context: &str) -> (r: Result<
    RuntimeSpec,
    Error,
>)
    ensures
        selector@.len() > 0 ==> (r matches Ok(spec) && spec@ == (RuntimeSpecModel {
            runtime: runtime@,
            selector: selector@,
        })),
        selector@.len() == 0 ==> (r matches Err(e) && e@ == ErrorModel::ManifestInvariant(
            context@ + " returned empty output"@,
        )),
{
    let selector = require_non_empty(selector, context)?;
    Ok(RuntimeSpec::new(runtime.clone(), selector.as_str()))
}

/// The runtime version that an install directory is named after.
pub fn runtime_spec_from_install_path(runtime: &Runtime, path: String, context: &str) -> (r: Result<
    RuntimeSpec,
    Error,
>)
    ensures
        path@.len() == 0 ==> (r matches Err(e) && e@ == ErrorModel::ManifestInvariant(
            context@ + " returned empty output"@,
        )),
        path@.len() > 0 ==> match file_name_of(path@) {
            Some(name) => r matches Ok(spec) && spec@ == (RuntimeSpecModel {
                runtime: runtime@,
                selector: name,
            }),
            None => r matches Err(e) && e@ == ErrorModel::ManifestInvariant(
                context@ + " returned path without a final component"@,
            ),
        },
{
    let path = require_non_empty(path, context)?;
    match file_name(path.as_str()) {
        None => Err(
            Error::manifest_invariant(concat(context, " returned path without a final component")),
        ),
        Some(version) => {
            proof {
                crate::path::lemma_file_name_non_empty(path@);
            }
            Ok(RuntimeSpec::new(runtime.clone(), version.as_str()))
        },
    }
}

/// `<tool id>@path:<install dir>`, the install directory with `/` for every `\`.
pub open spec fn path_tool_spec_of(tool_id: ToolIdModel, install_dir: Seq<char>) -> Seq<char> {
    tool_id_text(tool_id) + "@path:"@ + replace_char(install_dir, '\\', '/')
}

/// The install directory inside a path tool spec holds no backslash.
pub proof fn law_path_tool_spec_dir_has_no_backslash(install_dir: Seq<char>)
    ensures
        forall|i: int|
            0 <= i < replace_char(install_dir, '\\', '/').len() ==> #[trigger] replace_char(
                install_dir,
                '\\',
                '/',
            )[i] != '\\',
{
}

// mise parses `@path:` tool specs as slash-separated tool paths. This
// normalization is for Windows install directories; generated Unix install
// paths should not contain backslashes.
pub fn path_tool_spec(tool_id: &ToolId, install_dir: &str) -> (r: String)
    ensures
        r@ == path_tool_spec_of(tool_id@, install_dir@),
{
    let mut r = tool_id.to_string();
    r.append("@path:");
    let dir = replace(install_dir, '\\', '/');
    r.append(dir.as_str());
    r
}

/// One entry of `mise ls --json`.
pub struct LsEntry {
    pub requested_version: Option<String>,
}

pub open spec fn requested_versions(entries: Seq<LsEntry>) -> Seq<Option<Seq<char>>> {
    entries.map_values(|e: LsEntry| version_model(e.requested_version))
}

/// The first requested version listed, if any.
pub open spec fn first_requested(versions: Seq<Option<Seq<char>>>) -> Option<Seq<char>>
    decreases versions.len(),
{
    if versions.len() == 0 {
        None
    } else if versions[0] is Some {
        versions[0]
    } else {
        first_requested(versions.drop_first())
    }
}

/// `mise ls --global --current [--installed] --json <runtime> --cd /`
pub open spec fn ls_args_of(runtime: Seq<char>, installed_only: bool) -> Seq<Seq<char>> {
    seq!["ls"@, "--global"@, "--current"@] + (if installed_only {
        seq!["--installed"@]
    } else {
        Seq::empty()
    }) + seq!["--json"@, runtime, "--cd"@, "/"@]
}

pub fn ls_args(runtime: &Runtime, installed_only: bool) -> (r: Vec<String>)
    ensures
        views(r@) == ls_args_of(runtime_name(runtime@), installed_only),
{
    let mut args: Vec<String> = Vec::new();
    args.push(owned("ls"));
    args.push(owned("--global"));
    args.push(owned("--current"));
    if installed_only {
        args.push(owned("--installed"));
    }
    args.push(owned("--json"));
    args.push(runtime.to_string());
    args.push(owned("--cd"));
    args.push(owned(neutral_cd()));
    assert(views(args@) =~= ls_args_of(runtime_name(runtime@), installed_only));
    args
}

/// The global selector of `runtime` from the entries `mise ls --global` listed:
/// the first requested version, if there is one.
pub fn global_runtime_selector(runtime: &Runtime, entries: &Vec<LsEntry>) -> (r: Result<
    Option<RuntimeSpec>,
    Error,
>)
    ensures
        match first_requested(requested_versions(entries@)) {
            None => r matches Ok(None),
            Some(selector) => if selector.len() > 0 {
                r matches Ok(Some(spec)) && spec@ == (RuntimeSpecModel {
                    runtime: runtime@,
                    selector,
                })
            } else {
                r matches Err(e) && e@ == ErrorModel::ManifestInvariant(
                    "mise ls --global"@ + " returned empty output"@,
                )
            },
        },
{
    let ghost versions = requested_versions(entries@);
    let mut i: usize = 0;
    assert(versions.skip(0) =~= versions);
    while i < entries.len()
        invariant
            i <= entries.len(),
            versions == requested_versions(entries@),
            first_requested(versions) == first_requested(versions.skip(i as int)),
        decreases entries.len() - i,
    {
        match &entries[i].requested_version {
            Some(selector) => {
                let spec = runtime_spec_from_output(
                    runtime,
                    owned(selector.as_str()),
                    "mise ls --global",
                )?;
                return Ok(Some(spec));
            },
            None => {
                assert(versions.skip(i as int).drop_first() =~= versions.skip(i + 1));
            },
        }
        i = i + 1;
    }
    Ok(None)
}

/// Whether `mise ls --global --current --installed` listed any entry: the
/// runtime is installed exactly when the list is not empty.
pub fn global_runtime_installed(entries: &Vec<LsEntry>) -> (r: bool)
    ensures
        r <==> entries@.len() > 0,
{
    entries.len() > 0
}

/// `mise where <runtime>@<selector> --cd /`
pub fn where_args(spec: &RuntimeSpec) -> (r: Vec<String>)
    ensures
        views(r@) == seq!["where"@, runtime_pin_of(spec@), "--cd"@, "/"@],
{
    let mut args: Vec<String> = Vec::new();
    args.push(owned("where"));
    args.push(spec.runtime_pin());
    args.push(owned("--cd"));
    args.push(owned(neutral_cd()));
    assert(views(args@) =~= seq!["where"@, runtime_pin_of(spec@), "--cd"@, "/"@]);
    args
}

/// `mise --no-config bin-paths <tool id>@path:<install dir>`
pub fn bin_paths_args(tool_id: &ToolId, install_dir: &str) -> (r: Vec<String>)
    ensures
        views(r@) == seq!["--no-config"@, "bin-paths"@, path_tool_spec_of(tool_id@, install_dir@)],
{
    let mut args: Vec<String> = Vec::new();
    args.push(owned("--no-config"));
    args.push(owned("bin-paths"));
    args.push(path_tool_spec(tool_id, install_dir));
    assert(views(args@) =~= seq![
        "--no-config"@,
        "bin-paths"@,
        path_tool_spec_of(tool_id@, install_dir@),
    ]);
    args
}

/// The non-blank lines of `mise bin-paths` output, trimmed.
pub open spec fn bin_paths_of(stdout: Seq<char>) -> Seq<Seq<char>> {
    nonempty_parts(
        split_on(stdout, Separator::Newline).map_values(|line: Seq<char>| trim_chars(line)),
    )
}

pub fn bin_paths_from_output(stdout: &str) -> (r: Vec<String>)
    ensures
        views(r@) == bin_paths_of(stdout@),
{
    let lines = split(stdout, Separator::Newline);
    let ghost all = views(lines@);
    let mut trimmed: Vec<String> = Vec::new();
    let mut i: usize = 0;
    while i < lines.len()
        invariant
            i <= lines.len(),
            all == views(lines@),
            trimmed@.len() == i,
            forall|k: int| 0 <= k < i ==> (#[trigger] trimmed@[k])@ == trim_chars(all[k]),
        decreases lines.len() - i,
    {
        trimmed.push(trim(lines[i].as_str()));
        i = i + 1;
    }
    assert(views(trimmed@) =~= all.map_values(|line: Seq<char>| trim_chars(line)));
    keep_nonempty(trimmed)
}

/// `mise trust <config path>`
pub fn trust_args(config_path: &str) -> (r: Vec<String>)
    ensures
        views(r@) == seq!["trust"@, config_path@],
{
    let mut args: Vec<String> = Vec::new();
    args.push(owned("trust"));
    args.push(owned(config_path));
    assert(views(args@) =~= seq!["trust"@, config_path@]);
    args
}

} // verus!
