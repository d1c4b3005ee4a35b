//! Package backends (`npm`, `gem`, ...).

use vstd::prelude::*;

use crate::spec::runtime::{Runtime, RuntimeModel};
use crate::text::{owned, str_eq};

verus! {

/// Package backend identifier (`npm`, `gem`, ...).
#[derive(Debug, PartialEq, Eq)]
pub enum Backend {
    Npm,
    Gem,
    Pipx,
    Cargo,
    Go,
    Other(String),
}

pub enum BackendModel {
    Npm,
    Gem,
    Pipx,
    Cargo,
    Go,
    Other(Seq<char>),
}

impl View for Backend {
    type V = BackendModel;

    open spec fn view(&self) -> BackendModel {
        match self {
            Backend::Npm => BackendModel::Npm,
            Backend::Gem => BackendModel::Gem,
            Backend::Pipx => BackendModel::Pipx,
            Backend::Cargo => BackendModel::Cargo,
            Backend::Go => BackendModel::Go,
            Backend::Other(name) => BackendModel::Other(name@),
        }
    }
}

/// The name a backend is written with.
pub open spec fn backend_name(b: BackendModel) -> Seq<char> {
    match b {
        BackendModel::Npm => "npm"@,
        BackendModel::Gem => "gem"@,
        BackendModel::Pipx => "pipx"@,
        BackendModel::Cargo => "cargo"@,
        BackendModel::Go => "go"@,
        BackendModel::Other(name) => name,
    }
}

/// Backend names are matched exactly (case-sensitively); any other name is kept as is.
pub open spec fn parse_backend(s: Seq<char>) -> BackendModel {
    if s == "npm"@ {
        BackendModel::Npm
    } else if s == "gem"@ {
        BackendModel::Gem
    } else if s == "pipx"@ {
        BackendModel::Pipx
    } else if s == "cargo"@ {
        BackendModel::Cargo
    } else if s == "go"@ {
        BackendModel::Go
    } else {
        BackendModel::Other(s)
    }
}

/// The runtime family a backend runs on when `--use` is omitted.
pub open spec fn default_runtime_of(b: BackendModel) -> Option<RuntimeModel> {
    match b {
        BackendModel::Npm => Some(RuntimeModel::Node),
        BackendModel::Gem => Some(RuntimeModel::Ruby),
        BackendModel::Pipx => Some(RuntimeModel::Python),
        BackendModel::Cargo => Some(RuntimeModel::Rust),
        BackendModel::Go => Some(RuntimeModel::Go),
        BackendModel::Other(_) => None,
    }
}

/// Any text parses to a backend that is written as that very text.
pub proof fn law_backend_parse_keeps_name(s: Seq<char>)
    ensures
        backend_name(parse_backend(s)) == s,
{
}

/// Each known backend parses back from its name.
pub proof fn law_known_backend_round_trip(b: BackendModel)
    requires
        !(b is Other),
    ensures
        parse_backend(backend_name(b)) == b,
{
    reveal_strlit("npm");
    reveal_strlit("gem");
    reveal_strlit("pipx");
    reveal_strlit("cargo");
    reveal_strlit("go");
    assert("npm"@[0] != "gem"@[0]);
    assert("npm"@.len() != "pipx"@.len());
    assert("gem"@.len() != "pipx"@.len());
    assert("npm"@.len() != "cargo"@.len());
    assert("gem"@.len() != "cargo"@.len());
    assert("pipx"@.len() != "cargo"@.len());
    assert("npm"@.len() != "go"@.len());
    assert("gem"@.len() != "go"@.len());
    assert("pipx"@.len() != "go"@.len());
    assert("cargo"@.len() != "go"@.len());
}

impl Clone for Backend {
    fn clone(&self) -> (r: Self)
        ensures
            r == *self,
    {
        match self {
            Backend::Npm => Backend::Npm,
            Backend::Gem => Backend::Gem,
            Backend::Pipx => Backend::Pipx,
            Backend::Cargo => Backend::Cargo,
            Backend::Go => Backend::Go,
            Backend::Other(name) => Backend::Other(name.clone()),
        }
    }
}

impl Backend {
    /// Default runtime families used when `--use` is omitted.
    pub fn default_runtimes(&self) -> (r: Option<Vec<Runtime>>)
        ensures
            match r {
                Some(v) => v.len() == 1 && default_runtime_of(self@) == Some(v@[0]@),
                None => default_runtime_of(self@) is None,
            },
    {
        match self {
            Backend::Npm => Some(vec![Runtime::Node]),
            Backend::Gem => Some(vec![Runtime::Ruby]),
            Backend::Pipx => Some(vec![Runtime::Python]),
            Backend::Cargo => Some(vec![Runtime::Rust]),
            Backend::Go => Some(vec![Runtime::Go]),
            Backend::Other(_) => None,
        }
    }

    pub fn parse(input: &str) -> (r: Backend)
        ensures
            r@ == parse_backend(input@),
    {
        if str_eq(input, "npm") {
            Backend::Npm
        } else if str_eq(input, "gem") {
            Backend::Gem
        } else if str_eq(input, "pipx") {
            Backend::Pipx
        } else if str_eq(input, "cargo") {
            Backend::Cargo
        } else if str_eq(input, "go") {
            Backend::Go
        } else {
            Backend::Other(owned(input))
        }
    }

    pub fn as_str(&self) -> (r: &str)
        ensures
            r@ == backend_name(self@),
    {
        match self {
            Backend::Npm => "npm",
            Backend::Gem => "gem",
            Backend::Pipx => "pipx",
            Backend::Cargo => "cargo",
            Backend::Go => "go",
            Backend::Other(value) => value.as_str(),
        }
    }

    pub fn to_string(&self) -> (r: String)
        ensures
            r@ == backend_name(self@),
    {
        owned(self.as_str())
    }
}

impl std::str::FromStr for Backend {
    type Err = std::convert::Infallible;

    fn from_str(input: &str) -> (r: Result<Backend, std::convert::Infallible>)
        ensures
            r matches Ok(b) && b@ == parse_backend(input@),
    {
        Ok(Backend::parse(input))
    }
}

} // verus!
