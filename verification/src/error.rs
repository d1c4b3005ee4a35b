//! Error values, their exit codes and their messages.

use vstd::prelude::*;
use vstd::string::StringExecFns;

use crate::text::owned;
use serde_json::Error as JsonError;
use std::io::Error as IoError;
use toml::de::Error as TomlDeError;
use toml::ser::Error as TomlSerError;

verus! {

#[verifier::external_type_specification]
#[verifier::external_body]
pub struct ExIoError(IoError);

#[verifier::external_type_specification]
#[verifier::external_body]
pub struct ExTomlDeError(TomlDeError);

#[verifier::external_type_specification]
#[verifier::external_body]
pub struct ExTomlSerError(TomlSerError);

#[verifier::external_type_specification]
#[verifier::external_body]
pub struct ExJsonError(JsonError);

/// Every failure the tool reports.
#[derive(Debug)]
pub enum Error {
    InvalidToolSpec { spec: String, reason: String },
    InvalidRuntimeSelector { input: String },
    DuplicateRuntimeUse { runtime: String },
    UnmappedBackendWithoutUse { backend: String },
    MissingGlobalRuntime { runtime: String },
    RuntimeNotInstalled { runtime: String },
    CommandOwnershipConflict { command: String, owner: String, requested: String },
    ToolNotInstalled { tool_id: String },
    ToolNotInstalledOrphanFound { tool_id: String, path: String },
    ManifestInvariant(String),
    MiseCommandFailed { command: String, stderr: String },
    Io(IoError),
    TomlDe(TomlDeError),
    TomlSer(TomlSerError),
    Json(JsonError),
}

/// An error with its text fields seen as char sequences; the errors of other
/// libraries are seen only by their kind.
pub enum ErrorModel {
    InvalidToolSpec { spec: Seq<char>, reason: Seq<char> },
    InvalidRuntimeSelector { input: Seq<char> },
    DuplicateRuntimeUse { runtime: Seq<char> },
    UnmappedBackendWithoutUse { backend: Seq<char> },
    MissingGlobalRuntime { runtime: Seq<char> },
    RuntimeNotInstalled { runtime: Seq<char> },
    CommandOwnershipConflict { command: Seq<char>, owner: Seq<char>, requested: Seq<char> },
    ToolNotInstalled { tool_id: Seq<char> },
    ToolNotInstalledOrphanFound { tool_id: Seq<char>, path: Seq<char> },
    ManifestInvariant(Seq<char>),
    MiseCommandFailed { command: Seq<char>, stderr: Seq<char> },
    Io,
    TomlDe,
    TomlSer,
    Json,
}

impl View for Error {
    type V = ErrorModel;

    open spec fn view(&self) -> ErrorModel {
        match self {
            Error::InvalidToolSpec { spec, reason } => ErrorModel::InvalidToolSpec {
                spec: spec@,
                reason: reason@,
            },
            Error::InvalidRuntimeSelector { input } => ErrorModel::InvalidRuntimeSelector {
                input: input@,
            },
            Error::DuplicateRuntimeUse { runtime } => ErrorModel::DuplicateRuntimeUse {
                runtime: runtime@,
            },
            Error::UnmappedBackendWithoutUse { backend } => ErrorModel::UnmappedBackendWithoutUse {
                backend: backend@,
            },
            Error::MissingGlobalRuntime { runtime } => ErrorModel::MissingGlobalRuntime {
                runtime: runtime@,
            },
            Error::RuntimeNotInstalled { runtime } => ErrorModel::RuntimeNotInstalled {
                runtime: runtime@,
            },
            Error::CommandOwnershipConflict {
                command,
                owner,
                requested,
            } => ErrorModel::CommandOwnershipConflict {
                command: command@,
                owner: owner@,
                requested: requested@,
            },
            Error::ToolNotInstalled { tool_id } => ErrorModel::ToolNotInstalled {
                tool_id: tool_id@,
            },
            Error::ToolNotInstalledOrphanFound {
                tool_id,
                path,
            } => ErrorModel::ToolNotInstalledOrphanFound { tool_id: tool_id@, path: path@ },
            Error::ManifestInvariant(message) => ErrorModel::ManifestInvariant(message@),
            Error::MiseCommandFailed { command, stderr } => ErrorModel::MiseCommandFailed {
                command: command@,
                stderr: stderr@,
            },
            Error::Io(_) => ErrorModel::Io,
            Error::TomlDe(_) => ErrorModel::TomlDe,
            Error::TomlSer(_) => ErrorModel::TomlSer,
            Error::Json(_) => ErrorModel::Json,
        }
    }
}

/// Process exit code per error class: 2 for bad command-line input, 3 for a
/// state the user can act on, 1 for internal failures.
pub open spec fn exit_code_of(e: ErrorModel) -> i32 {
    match e {
        ErrorModel::InvalidToolSpec { .. }
        | ErrorModel::InvalidRuntimeSelector { .. }
        | ErrorModel::DuplicateRuntimeUse { .. } => 2,
        ErrorModel::UnmappedBackendWithoutUse { .. }
        | ErrorModel::MissingGlobalRuntime { .. }
        | ErrorModel::RuntimeNotInstalled { .. }
        | ErrorModel::CommandOwnershipConflict { .. }
        | ErrorModel::ToolNotInstalled { .. }
        | ErrorModel::ToolNotInstalledOrphanFound { .. } => 3,
        _ => 1,
    }
}

/// Whether the message ends in text written by another library's error.
pub open spec fn has_foreign_detail(e: ErrorModel) -> bool {
    match e {
        ErrorModel::Io | ErrorModel::TomlDe | ErrorModel::TomlSer | ErrorModel::Json => true,
        _ => false,
    }
}

pub open spec fn starts_with(s: Seq<char>, prefix: Seq<char>) -> bool {
    prefix.len() <= s.len() && s.subrange(0, prefix.len() as int) == prefix
}

/// The message of an error; for an error of another library, the part of the
/// message that precedes that library's own text.
pub open spec fn describe(e: ErrorModel) -> Seq<char> {
    match e {
        ErrorModel::InvalidToolSpec { spec, reason } => "invalid tool spec '"@ + spec + "': "@
            + reason,
        ErrorModel::InvalidRuntimeSelector { input } => "invalid --use value '"@ + input
            + "': expected <runtime@selector>"@,
        ErrorModel::DuplicateRuntimeUse { runtime } => "runtime '"@ + runtime
            + "' was provided more than once in --use; specify each runtime only once"@,
        ErrorModel::UnmappedBackendWithoutUse { backend } =>
            "can't infer a runtime to use for backend '"@ + backend
            + "'; select the runtime(s) explicitly with --use (for example `--use node@lts`)"@,
        ErrorModel::MissingGlobalRuntime { runtime } =>
            "no global version is configured for runtime '"@ + runtime
            + "'; configure one in mise with `mise use -g "@ + runtime
            + "`, or pass --use to select the runtime(s) explicitly for this install (for example `--use node@lts`)"@,
        ErrorModel::RuntimeNotInstalled { runtime } => "global '"@ + runtime
            + "' runtime is configured but not installed; install it with `mise use -g "@ + runtime
            + "`, or pass --use to select the runtime(s) explicitly for this install (for example `--use node@lts`)"@,
        ErrorModel::CommandOwnershipConflict { command, owner, requested } =>
            "cannot install '"@ + requested + "': command '"@ + command
            + "' is already linked to '"@ + owner + "'; run `miseo uninstall "@ + owner
            + "` first"@,
        ErrorModel::ToolNotInstalled { tool_id } => "tool '"@ + tool_id + "' is not installed"@,
        ErrorModel::ToolNotInstalledOrphanFound { tool_id, path } => "tool '"@ + tool_id
            + "' is not installed (found unmanaged install at '"@ + path + "')"@,
        ErrorModel::ManifestInvariant(message) => "internal state error: "@ + message,
        ErrorModel::MiseCommandFailed { command, stderr } => "failed to run `"@ + command
            + "`: "@ + if stderr.len() == 0 {
            "<no stderr output>"@
        } else {
            stderr
        },
        ErrorModel::Io => "internal I/O error: "@,
        ErrorModel::TomlDe => "internal TOML parse error: "@,
        ErrorModel::TomlSer => "internal TOML serialization error: "@,
        ErrorModel::Json => "internal JSON parse error: "@,
    }
}

/// The text that `IoError`'s `Display` writes; nothing is claimed of it.
#[verifier::external_body]
fn io_error_text(e: &IoError) -> String {
    format!("{}", e)
}

/// The text that `TomlDeError`'s `Display` writes; nothing is claimed of it.
#[verifier::external_body]
fn toml_de_error_text(e: &TomlDeError) -> String {
    format!("{}", e)
}

/// The text that `TomlSerError`'s `Display` writes; nothing is claimed of it.
#[verifier::external_body]
fn toml_ser_error_text(e: &TomlSerError) -> String {
    format!("{}", e)
}

/// The text that `JsonError`'s `Display` writes; nothing is claimed of it.
#[verifier::external_body]
fn json_error_text(e: &JsonError) -> String {
    format!("{}", e)
}

impl Error {
    /// An internal-state error carrying `message`.
    pub fn manifest_invariant(message: String) -> (e: Error)
        ensures
            e@ == ErrorModel::ManifestInvariant(message@),
    {
        Error::ManifestInvariant(message)
    }

    pub fn exit_code(&self) -> (code: i32)
        ensures
            code == exit_code_of(self@),
    {
        match self {
            Error::InvalidToolSpec { .. }
            | Error::InvalidRuntimeSelector { .. }
            | Error::DuplicateRuntimeUse { .. } => 2,
            Error::UnmappedBackendWithoutUse { .. }
            | Error::MissingGlobalRuntime { .. }
            | Error::RuntimeNotInstalled { .. }
            | Error::CommandOwnershipConflict { .. }
            | Error::ToolNotInstalled { .. }
            | Error::ToolNotInstalledOrphanFound { .. } => 3,
            Error::ManifestInvariant(_)
            | Error::MiseCommandFailed { .. }
            | Error::Io(_)
            | Error::TomlDe(_)
            | Error::TomlSer(_)
            | Error::Json(_) => 1,
        }
    }

    /// The human-readable message.
    pub fn to_string(&self) -> (r: String)
        ensures
            !has_foreign_detail(self@) ==> r@ == describe(self@),
            has_foreign_detail(self@) ==> starts_with(r@, describe(self@)),
    {
        let mut r;
        match self {
            Error::InvalidToolSpec { spec, reason } => {
                r = owned("invalid tool spec '");
                r.append(spec.as_str());
                r.append("': ");
                r.append(reason.as_str());
            },
            Error::InvalidRuntimeSelector { input } => {
                r = owned("invalid --use value '");
                r.append(input.as_str());
                r.append("': expected <runtime@selector>");
            },
            Error::DuplicateRuntimeUse { runtime } => {
                r = owned("runtime '");
                r.append(runtime.as_str());
                r.append("' was provided more than once in --use; specify each runtime only once");
            },
            Error::UnmappedBackendWithoutUse { backend } => {
                r = owned("can't infer a runtime to use for backend '");
                r.append(backend.as_str());
                r.append(
                    "'; select the runtime(s) explicitly with --use (for example `--use node@lts`)",
                );
            },
            Error::MissingGlobalRuntime { runtime } => {
                r = owned("no global version is configured for runtime '");
                r.append(runtime.as_str());
                r.append("'; configure one in mise with `mise use -g ");
                r.append(runtime.as_str());
                r.append(
                    "`, or pass --use to select the runtime(s) explicitly for this install (for example `--use node@lts`)",
                );
            },
            Error::RuntimeNotInstalled { runtime } => {
                r = owned("global '");
                r.append(runtime.as_str());
                r.append("' runtime is configured but not installed; install it with `mise use -g ");
                r.append(runtime.as_str());
                r.append(
                    "`, or pass --use to select the runtime(s) explicitly for this install (for example `--use node@lts`)",
                );
            },
            Error::CommandOwnershipConflict { command, owner, requested } => {
                r = owned("cannot install '");
                r.append(requested.as_str());
                r.append("': command '");
                r.append(command.as_str());
                r.append("' is already linked to '");
                r.append(owner.as_str());
                r.append("'; run `miseo uninstall ");
                r.append(owner.as_str());
                r.append("` first");
            },
            Error::ToolNotInstalled { tool_id } => {
                r = owned("tool '");
                r.append(tool_id.as_str());
                r.append("' is not installed");
            },
            Error::ToolNotInstalledOrphanFound { tool_id, path } => {
                r = owned("tool '");
                r.append(tool_id.as_str());
                r.append("' is not installed (found unmanaged install at '");
                r.append(path.as_str());
                r.append("')");
            },
            Error::ManifestInvariant(message) => {
                r = owned("internal state error: ");
                r.append(message.as_str());
            },
            Error::MiseCommandFailed { command, stderr } => {
                r = owned("failed to run `");
                r.append(command.as_str());
                r.append("`: ");
                if stderr.as_str().is_empty() {
                    r.append("<no stderr output>");
                } else {
                    r.append(stderr.as_str());
                }
            },
            Error::Io(e) => {
                r = owned("internal I/O error: ");
                let detail = io_error_text(e);
                r.append(detail.as_str());
            },
            Error::TomlDe(e) => {
                r = owned("internal TOML parse error: ");
                let detail = toml_de_error_text(e);
                r.append(detail.as_str());
            },
            Error::TomlSer(e) => {
                r = owned("internal TOML serialization error: ");
                let detail = toml_ser_error_text(e);
                r.append(detail.as_str());
            },
            Error::Json(e) => {
                r = owned("internal JSON parse error: ");
                let detail = json_error_text(e);
                r.append(detail.as_str());
            },
        }
        proof {
            if has_foreign_detail(self@) {
                let p = describe(self@);
                assert(r@.subrange(0, p.len() as int) =~= p);
            }
        }
        r
    }
}

impl From<IoError> for Error {
    fn from(e: IoError) -> (r: Error) {
        Error::Io(e)
    }
}

impl vstd::std_specs::convert::FromSpecImpl<IoError> for Error {
    open spec fn obeys_from_spec() -> bool {
        true
    }

    open spec fn from_spec(e: IoError) -> Error {
        Error::Io(e)
    }
}

impl From<TomlDeError> for Error {
    fn from(e: TomlDeError) -> (r: Error) {
        Error::TomlDe(e)
    }
}

impl vstd::std_specs::convert::FromSpecImpl<TomlDeError> for Error {
    open spec fn obeys_from_spec() -> bool {
        true
    }

    open spec fn from_spec(e: TomlDeError) -> Error {
        Error::TomlDe(e)
    }
}

impl From<TomlSerError> for Error {
    fn from(e: TomlSerError) -> (r: Error) {
        Error::TomlSer(e)
    }
}

impl vstd::std_specs::convert::FromSpecImpl<TomlSerError> for Error {
    open spec fn obeys_from_spec() -> bool {
        true
    }

    open spec fn from_spec(e: TomlSerError) -> Error {
        Error::TomlSer(e)
    }
}

impl From<JsonError> for Error {
    fn from(e: JsonError) -> (r: Error) {
        Error::Json(e)
    }
}

impl vstd::std_specs::convert::FromSpecImpl<JsonError> for Error {
    open spec fn obeys_from_spec() -> bool {
        true
    }

    open spec fn from_spec(e: JsonError) -> Error {
        Error::Json(e)
    }
}

} // verus!
