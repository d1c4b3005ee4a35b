//! Runtimes (`node`, `ruby`, ...) and runtime selectors (`node@lts`).

use vstd::prelude::*;
use vstd::string::StringExecFns;

use crate::error::{Error, ErrorModel};
use crate::text::{
    lemma_first_index_at, lemma_split_around,
    chars_of, concat3, find_first, has_ascii_upper, has_upper, owned, str_eq, string_of_range,
};

verus! {

/// Runtime identifier (`node`, `ruby`, ...).
///
/// Runtimes are ordered by variant (`Node` < `Ruby` < `Python` < `Rust` < `Go`
/// < `Other`), and two `Other` runtimes by their names.
#[derive(Debug, PartialEq, Eq, PartialOrd, Ord, Hash)]
pub enum Runtime {
    Node,
    Ruby,
    Python,
    Rust,
    Go,
    Other(String),
}

pub enum RuntimeModel {
    Node,
    Ruby,
    Python,
    Rust,
    Go,
    Other(Seq<char>),
}

impl View for Runtime {
    type V = RuntimeModel;

    open spec fn view(&self) -> RuntimeModel {
        match self {
            Runtime::Node => RuntimeModel::Node,
            Runtime::Ruby => RuntimeModel::Ruby,
            Runtime::Python => RuntimeModel::Python,
            Runtime::Rust => RuntimeModel::Rust,
            Runtime::Go => RuntimeModel::Go,
            Runtime::Other(name) => RuntimeModel::Other(name@),
        }
    }
}

/// The name a runtime is written with.
pub open spec fn runtime_name(r: RuntimeModel) -> Seq<char> {
    match r {
        RuntimeModel::Node => "node"@,
        RuntimeModel::Ruby => "ruby"@,
        RuntimeModel::Python => "python"@,
        RuntimeModel::Rust => "rust"@,
        RuntimeModel::Go => "go"@,
        RuntimeModel::Other(name) => name,
    }
}

/// Runtime names are matched exactly (case-sensitively); any other name is kept as is.
pub open spec fn parse_runtime(s: Seq<char>) -> RuntimeModel {
    if s == "node"@ {
        RuntimeModel::Node
    } else if s == "ruby"@ {
        RuntimeModel::Ruby
    } else if s == "python"@ {
        RuntimeModel::Python
    } else if s == "rust"@ {
        RuntimeModel::Rust
    } else if s == "go"@ {
        RuntimeModel::Go
    } else {
        RuntimeModel::Other(s)
    }
}

/// Any text parses to a runtime that is written as that very text.
pub proof fn law_runtime_parse_keeps_name(s: Seq<char>)
    ensures
        runtime_name(parse_runtime(s)) == s,
{
}

/// Each known runtime parses back from its name.
pub proof fn law_known_runtime_round_trip(r: RuntimeModel)
    requires
        !(r is Other),
    ensures
        parse_runtime(runtime_name(r)) == r,
{
    reveal_strlit("node");
    reveal_strlit("ruby");
    reveal_strlit("python");
    reveal_strlit("rust");
    reveal_strlit("go");
    assert("node"@[0] != "ruby"@[0]);
    assert("node"@.len() != "python"@.len());
    assert("ruby"@.len() != "python"@.len());
    assert("node"@[0] != "rust"@[0]);
    assert("ruby"@[2] != "rust"@[2]);
    assert("python"@.len() != "rust"@.len());
    assert("node"@.len() != "go"@.len());
    assert("ruby"@.len() != "go"@.len());
    assert("python"@.len() != "go"@.len());
    assert("rust"@.len() != "go"@.len());
}

pub open spec fn runtime_rank(r: RuntimeModel) -> int {
    match r {
        RuntimeModel::Node => 0,
        RuntimeModel::Ruby => 1,
        RuntimeModel::Python => 2,
        RuntimeModel::Rust => 3,
        RuntimeModel::Go => 4,
        RuntimeModel::Other(_) => 5,
    }
}

/// Lexicographic order of char sequences by code point, which is the order of
/// their UTF-8 bytes and so the order `String` compares by.
pub open spec fn chars_lt(a: Seq<char>, b: Seq<char>) -> bool
    decreases a.len(),
{
    if a.len() == 0 {
        b.len() > 0
    } else if b.len() == 0 {
        false
    } else if a[0] != b[0] {
        a[0] < b[0]
    } else {
        chars_lt(a.drop_first(), b.drop_first())
    }
}

/// The order of runtimes (that of `Ord for Runtime`).
pub open spec fn runtime_lt(a: RuntimeModel, b: RuntimeModel) -> bool {
    match (a, b) {
        (RuntimeModel::Other(x), RuntimeModel::Other(y)) => chars_lt(x, y),
        _ => runtime_rank(a) < runtime_rank(b),
    }
}

pub proof fn lemma_chars_lt_irreflexive(a: Seq<char>)
    ensures
        !chars_lt(a, a),
    decreases a.len(),
{
    if a.len() > 0 {
        lemma_chars_lt_irreflexive(a.drop_first());
    }
}

pub proof fn lemma_chars_lt_transitive(a: Seq<char>, b: Seq<char>, c: Seq<char>)
    requires
        chars_lt(a, b),
        chars_lt(b, c),
    ensures
        chars_lt(a, c),
    decreases a.len(),
{
    if a.len() > 0 && b.len() > 0 && c.len() > 0 {
        if a[0] == b[0] && b[0] == c[0] {
            lemma_chars_lt_transitive(a.drop_first(), b.drop_first(), c.drop_first());
        }
    }
}

pub proof fn lemma_chars_lt_total(a: Seq<char>, b: Seq<char>)
    requires
        a != b,
    ensures
        chars_lt(a, b) || chars_lt(b, a),
    decreases a.len(),
{
    if a.len() > 0 && b.len() > 0 && a[0] == b[0] {
        if a.drop_first() == b.drop_first() {
            assert(a =~= seq![a[0]] + a.drop_first());
            assert(b =~= seq![b[0]] + b.drop_first());
        }
        lemma_chars_lt_total(a.drop_first(), b.drop_first());
    } else if a.len() == 0 && b.len() == 0 {
        assert(a =~= b);
    }
}

pub proof fn lemma_runtime_lt_irreflexive(a: RuntimeModel)
    ensures
        !runtime_lt(a, a),
{
    if let RuntimeModel::Other(x) = a {
        lemma_chars_lt_irreflexive(x);
    }
}

pub proof fn lemma_runtime_lt_transitive(a: RuntimeModel, b: RuntimeModel, c: RuntimeModel)
    requires
        runtime_lt(a, b),
        runtime_lt(b, c),
    ensures
        runtime_lt(a, c),
{
    if let (RuntimeModel::Other(x), RuntimeModel::Other(y), RuntimeModel::Other(z)) = (a, b, c) {
        lemma_chars_lt_transitive(x, y, z);
    }
}

pub proof fn lemma_runtime_lt_total(a: RuntimeModel, b: RuntimeModel)
    requires
        a != b,
    ensures
        runtime_lt(a, b) || runtime_lt(b, a),
{
    if let (RuntimeModel::Other(x), RuntimeModel::Other(y)) = (a, b) {
        lemma_chars_lt_total(x, y);
    }
}

fn chars_less(a: &Vec<char>, b: &Vec<char>) -> (r: bool)
    ensures
        r == chars_lt(a@, b@),
{
    let mut i: usize = 0;
    assert(a@.skip(0) =~= a@);
    assert(b@.skip(0) =~= b@);
    while i < a.len() && i < b.len() && a[i] == b[i]
        invariant
            i <= a.len(),
            i <= b.len(),
            chars_lt(a@, b@) == chars_lt(a@.skip(i as int), b@.skip(i as int)),
        decreases a.len() - i,
    {
        assert(a@.skip(i as int).drop_first() =~= a@.skip(i + 1));
        assert(b@.skip(i as int).drop_first() =~= b@.skip(i + 1));
        i = i + 1;
    }
    if i == a.len() {
        i < b.len()
    } else if i == b.len() {
        false
    } else {
        a[i] < b[i]
    }
}

impl Clone for Runtime {
    fn clone(&self) -> (r: Self)
        ensures
            r == *self,
    {
        match self {
            Runtime::Node => Runtime::Node,
            Runtime::Ruby => Runtime::Ruby,
            Runtime::Python => Runtime::Python,
            Runtime::Rust => Runtime::Rust,
            Runtime::Go => Runtime::Go,
            Runtime::Other(name) => Runtime::Other(name.clone()),
        }
    }
}

impl Runtime {
    pub fn parse(input: &str) -> (r: Runtime)
        ensures
            r@ == parse_runtime(input@),
    {
        if str_eq(input, "node") {
            Runtime::Node
        } else if str_eq(input, "ruby") {
            Runtime::Ruby
        } else if str_eq(input, "python") {
            Runtime::Python
        } else if str_eq(input, "rust") {
            Runtime::Rust
        } else if str_eq(input, "go") {
            Runtime::Go
        } else {
            Runtime::Other(owned(input))
        }
    }

    pub fn as_str(&self) -> (r: &str)
        ensures
            r@ == runtime_name(self@),
    {
        match self {
            Runtime::Node => "node",
            Runtime::Ruby => "ruby",
            Runtime::Python => "python",
            Runtime::Rust => "rust",
            Runtime::Go => "go",
            Runtime::Other(value) => value.as_str(),
        }
    }

    pub fn to_string(&self) -> (r: String)
        ensures
            r@ == runtime_name(self@),
    {
        owned(self.as_str())
    }

    /// `<runtime>@<selector>` (for example `node@lts`)
    pub fn with_selector(&self, selector: &str) -> (r: String)
        ensures
            r@ == runtime_name(self@) + "@"@ + selector@,
    {
        concat3(self.as_str(), "@", selector)
    }

    /// `<runtime>-<version>` for variant keys
    pub fn with_version(&self, version: &str) -> (r: String)
        ensures
            r@ == runtime_name(self@) + "-"@ + version@,
    {
        concat3(self.as_str(), "-", version)
    }

    /// Whether `self` and `other` are the same runtime.
    pub fn same_as(&self, other: &Runtime) -> (r: bool)
        ensures
            r == (self@ == other@),
    {
        match (self, other) {
            (Runtime::Node, Runtime::Node) => true,
            (Runtime::Ruby, Runtime::Ruby) => true,
            (Runtime::Python, Runtime::Python) => true,
            (Runtime::Rust, Runtime::Rust) => true,
            (Runtime::Go, Runtime::Go) => true,
            (Runtime::Other(x), Runtime::Other(y)) => str_eq(x.as_str(), y.as_str()),
            _ => false,
        }
    }

    fn rank(&self) -> (r: u8)
        ensures
            r as int == runtime_rank(self@),
    {
        match self {
            Runtime::Node => 0,
            Runtime::Ruby => 1,
            Runtime::Python => 2,
            Runtime::Rust => 3,
            Runtime::Go => 4,
            Runtime::Other(_) => 5,
        }
    }

    /// Whether `self` comes strictly before `other` in the order of runtimes.
    pub fn precedes(&self, other: &Runtime) -> (r: bool)
        ensures
            r == runtime_lt(self@, other@),
    {
        match (self, other) {
            (Runtime::Other(x), Runtime::Other(y)) => {
                let a = chars_of(x.as_str());
                let b = chars_of(y.as_str());
                chars_less(&a, &b)
            },
            _ => self.rank() < other.rank(),
        }
    }
}

impl std::str::FromStr for Runtime {
    type Err = std::convert::Infallible;

    fn from_str(input: &str) -> (r: Result<Runtime, std::convert::Infallible>)
        ensures
            r matches Ok(runtime) && runtime@ == parse_runtime(input@),
    {
        Ok(Runtime::parse(input))
    }
}

/// Runtime selector input (`<runtime>@<selector>`) from `--use`.
#[derive(Debug, PartialEq, Eq)]
pub struct RuntimeSpec {
    runtime: Runtime,
    selector: String,
}

pub struct RuntimeSpecModel {
    pub runtime: RuntimeModel,
    pub selector: Seq<char>,
}

impl View for RuntimeSpec {
    type V = RuntimeSpecModel;

    closed spec fn view(&self) -> RuntimeSpecModel {
        RuntimeSpecModel { runtime: self.runtime@, selector: self.selector@ }
    }
}

/// `<runtime>@<selector>`
pub open spec fn runtime_pin_of(spec: RuntimeSpecModel) -> Seq<char> {
    runtime_name(spec.runtime) + "@"@ + spec.selector
}

/// What `--use` accepts: `<runtime>@<selector>`, split at the first `@`, with a
/// non-empty runtime holding no ASCII uppercase letter and a non-empty selector.
pub open spec fn parse_runtime_spec(s: Seq<char>) -> Option<RuntimeSpecModel> {
    match s.index_of_first('@') {
        None => None,
        Some(i) => {
            let runtime = s.subrange(0, i);
            let selector = s.subrange(i + 1, s.len() as int);
            if runtime.len() == 0 || selector.len() == 0 || has_ascii_upper(runtime) {
                None
            } else {
                Some(RuntimeSpecModel { runtime: parse_runtime(runtime), selector })
            }
        },
    }
}

/// A selector that parses is written back as the text it was parsed from.
pub proof fn law_runtime_spec_display_of_parse(s: Seq<char>)
    ensures
        parse_runtime_spec(s) matches Some(m) ==> runtime_pin_of(m) == s,
{
    if let Some(m) = parse_runtime_spec(s) {
        s.index_of_first_ensures('@');
        let i = s.index_of_first('@')->0;
        lemma_split_around(s, i);
        reveal_strlit("@");
        law_runtime_parse_keeps_name(s.subrange(0, i));
    }
}

/// What a selector can be written from and read back: a runtime whose name is
/// non-empty, holds no `@` and no ASCII uppercase letter and reads back as that
/// runtime, and a non-empty selector.
pub open spec fn well_shaped_runtime_spec(m: RuntimeSpecModel) -> bool {
    let name = runtime_name(m.runtime);
    &&& name.len() > 0
    &&& !name.contains('@')
    &&& !has_ascii_upper(name)
    &&& parse_runtime(name) == m.runtime
    &&& m.selector.len() > 0
}

/// A well-shaped selector, written out, parses back to itself.
pub proof fn law_runtime_spec_parse_of_display(m: RuntimeSpecModel)
    requires
        well_shaped_runtime_spec(m),
    ensures
        parse_runtime_spec(runtime_pin_of(m)) == Some(m),
{
    reveal_strlit("@");
    let name = runtime_name(m.runtime);
    let s = runtime_pin_of(m);
    let i = name.len() as int;
    assert(s[i] == '@');
    assert forall|k: int| 0 <= k < i implies s[k] != '@' by {
        assert(s[k] == name[k]);
    }
    lemma_first_index_at(s, '@', i);
    assert(s.subrange(0, i) =~= name);
    assert(s.subrange(i + 1, s.len() as int) =~= m.selector);
}

impl RuntimeSpec {
    #[verifier::type_invariant]
    spec fn selector_non_empty(self) -> bool {
        self.selector@.len() > 0
    }

    pub fn new(runtime: Runtime, selector: &str) -> (r: RuntimeSpec)
        requires
            selector@.len() > 0,
        ensures
            r@ == (RuntimeSpecModel { runtime: runtime@, selector: selector@ }),
    {
        RuntimeSpec { runtime, selector: owned(selector) }
    }

    pub fn runtime(&self) -> (r: &Runtime)
        ensures
            r@ == self@.runtime,
    {
        &self.runtime
    }

    pub fn selector(&self) -> (r: &str)
        ensures
            r@ == self@.selector,
            r@.len() > 0,
    {
        proof {
            use_type_invariant(self);
        }
        self.selector.as_str()
    }

    /// `<runtime>@<selector>`
    pub fn runtime_pin(&self) -> (r: String)
        ensures
            r@ == runtime_pin_of(self@),
    {
        self.runtime.with_selector(self.selector.as_str())
    }

    pub fn to_string(&self) -> (r: String)
        ensures
            r@ == runtime_pin_of(self@),
    {
        self.runtime_pin()
    }

    pub fn parse(input: &str) -> (r: Result<RuntimeSpec, Error>)
        ensures
            match r {
                Ok(spec) => parse_runtime_spec(input@) == Some(spec@),
                Err(e) => parse_runtime_spec(input@) is None && e@
                    == (ErrorModel::InvalidRuntimeSelector { input: input@ }),
            },
    {
        let cs = chars_of(input);
        let invalid = Error::InvalidRuntimeSelector { input: owned(input) };
        match find_first(&cs, '@') {
            None => Err(invalid),
            Some(i) => {
                let runtime = string_of_range(&cs, 0, i);
                let selector = string_of_range(&cs, i + 1, cs.len());
                if runtime.as_str().is_empty() || selector.as_str().is_empty() || has_upper(
                    runtime.as_str(),
                ) {
                    Err(invalid)
                } else {
                    Ok(RuntimeSpec::new(Runtime::parse(runtime.as_str()), selector.as_str()))
                }
            },
        }
    }
}

impl Clone for RuntimeSpec {
    fn clone(&self) -> (r: Self)
        ensures
            r == *self,
    {
        proof {
            use_type_invariant(self);
        }
        RuntimeSpec { runtime: self.runtime.clone(), selector: self.selector.clone() }
    }
}

impl std::str::FromStr for RuntimeSpec {
    type Err = Error;

    fn from_str(input: &str) -> (r: Result<RuntimeSpec, Error>)
        ensures
            match r {
                Ok(spec) => parse_runtime_spec(input@) == Some(spec@),
                Err(e) => parse_runtime_spec(input@) is None && e@
                    == (ErrorModel::InvalidRuntimeSelector { input: input@ }),
            },
    {
        RuntimeSpec::parse(input)
    }
}

} // verus!
