//! Tool identities (`<backend>:<name>`), tool requests (`<backend>:<name>[@version]`)
//! and the filesystem layout of installed tools.

use vstd::prelude::*;
use vstd::string::StringExecFns;

use crate::error::{Error, ErrorModel};
use crate::path::{join_path, path_join};
use crate::spec::backend::{
    backend_name, law_backend_parse_keeps_name, parse_backend, Backend, BackendModel,
};
use crate::text::{
    ascii_lower, is_ascii_alphanumeric, is_ascii_digit, is_ascii_lower, is_ascii_upper,
    lemma_first_index_at, lemma_last_index_at, lemma_split_around, separates,
    chars_of, concat3, find_first, find_last, has_ascii_upper, has_upper, join, join_seqs,
    keep_nonempty, lower_chars, nonempty_parts, owned, split, split_on, string_of_range,
    to_lower, views, Separator,
};

verus! {

/// A name in lowercase kebab case: the ASCII-alphanumeric runs of `s`,
/// lowercased and joined with `-`.
pub open spec fn kebab_case(s: Seq<char>) -> Seq<char> {
    join_seqs(
        nonempty_parts(split_on(s, Separator::NonAlphanumeric)).map_values(
            |p: Seq<char>| lower_chars(p),
        ),
        "-"@,
    )
}

pub fn to_kebab_case(input: &str) -> (r: String)
    ensures
        r@ == kebab_case(input@),
{
    let parts = keep_nonempty(split(input, Separator::NonAlphanumeric));
    let ghost kept = views(parts@);
    let mut lowered: Vec<String> = Vec::new();
    let mut i: usize = 0;
    while i < parts.len()
        invariant
            i <= parts.len(),
            kept == views(parts@),
            lowered@.len() == i,
            forall|k: int| 0 <= k < i ==> (#[trigger] lowered@[k])@ == lower_chars(kept[k]),
        decreases parts.len() - i,
    {
        lowered.push(to_lower(parts[i].as_str()));
        i = i + 1;
    }
    assert(views(lowered@) =~= kept.map_values(|p: Seq<char>| lower_chars(p)));
    join(&lowered, "-")
}

pub struct ToolIdModel {
    pub backend: BackendModel,
    pub name: Seq<char>,
}

pub struct ToolSpecModel {
    pub tool_id: ToolIdModel,
    pub version: Option<Seq<char>>,
}

/// `<backend>:<name>`
pub open spec fn tool_id_text(id: ToolIdModel) -> Seq<char> {
    backend_name(id.backend) + ":"@ + id.name
}

/// `<backend>:<name>[@version]`
pub open spec fn tool_spec_text(spec: ToolSpecModel) -> Seq<char> {
    tool_id_text(spec.tool_id) + match spec.version {
        Some(v) => "@"@ + v,
        None => Seq::empty(),
    }
}

/// The filesystem-safe key of a tool: `<kebab backend>-<kebab name>`.
pub open spec fn tool_key_of(id: ToolIdModel) -> Seq<char> {
    kebab_case(backend_name(id.backend)) + "-"@ + kebab_case(id.name)
}

/// Splits `<name>[@version]` at its last `@`; an `@` at the very start belongs
/// to a scoped name (`@scope/name`), and an `@` at the very end is refused.
pub open spec fn split_name_version(s: Seq<char>) -> Result<(Seq<char>, Option<Seq<char>>), Seq<char>> {
    match s.index_of_last('@') {
        None => Ok((s, None)),
        Some(j) => if j == 0 {
            Ok((s, None))
        } else if j == s.len() - 1 {
            Err("version cannot be empty after '@'"@)
        } else {
            Ok((s.subrange(0, j), Some(s.subrange(j + 1, s.len() as int))))
        },
    }
}

/// What a tool request accepts: `<backend>:<name>[@version]`, split at the first
/// `:`, with a non-empty backend holding no ASCII uppercase letter and a
/// non-empty remainder; on refusal, the reason.
pub open spec fn parse_tool_spec(s: Seq<char>) -> Result<ToolSpecModel, Seq<char>> {
    match s.index_of_first(':') {
        None => Err("missing backend separator ':'"@),
        Some(i) => {
            let backend = s.subrange(0, i);
            let rest = s.subrange(i + 1, s.len() as int);
            if backend.len() == 0 {
                Err("backend cannot be empty"@)
            } else if has_ascii_upper(backend) {
                Err("backend must be lowercase"@)
            } else if rest.len() == 0 {
                Err("package name cannot be empty"@)
            } else {
                match split_name_version(rest) {
                    Err(reason) => Err(reason),
                    Ok((name, version)) => Ok(
                        ToolSpecModel {
                            tool_id: ToolIdModel { backend: parse_backend(backend), name },
                            version,
                        },
                    ),
                }
            }
        },
    }
}

/// A tool identity accepts what a tool request does, without a version.
pub open spec fn parse_tool_id(s: Seq<char>) -> Result<ToolIdModel, Seq<char>> {
    match parse_tool_spec(s) {
        Err(reason) => Err(reason),
        Ok(spec) => if spec.version is None {
            Ok(spec.tool_id)
        } else {
            Err("version is not accepted here; expected <backend>:<name>"@)
        },
    }
}

// ---------------------------------------------------------------------------
// Laws
// ---------------------------------------------------------------------------

pub open spec fn is_key_char(c: char) -> bool {
    is_ascii_lower(c) || is_ascii_digit(c) || c == '-'
}

pub open spec fn all_key_chars(s: Seq<char>) -> bool {
    forall|i: int| 0 <= i < s.len() ==> is_key_char(#[trigger] s[i])
}

pub open spec fn all_alphanumeric(s: Seq<char>) -> bool {
    forall|i: int| 0 <= i < s.len() ==> is_ascii_alphanumeric(#[trigger] s[i])
}

proof fn lemma_split_parts_alphanumeric(s: Seq<char>)
    ensures
        split_on(s, Separator::NonAlphanumeric).len() >= 1,
        forall|i: int|
            0 <= i < split_on(s, Separator::NonAlphanumeric).len() ==> all_alphanumeric(
                #[trigger] split_on(s, Separator::NonAlphanumeric)[i],
            ),
    decreases s.len(),
{
    if s.len() > 0 {
        lemma_split_parts_alphanumeric(s.drop_last());
        let parts = split_on(s.drop_last(), Separator::NonAlphanumeric);
        let c = s.last();
        if !separates(Separator::NonAlphanumeric, c) {
            let last = parts.last().push(c);
            assert(all_alphanumeric(parts[parts.len() - 1]));
            assert(all_alphanumeric(last));
        }
    }
}

proof fn lemma_concat_key_chars(a: Seq<char>, b: Seq<char>)
    requires
        all_key_chars(a),
        all_key_chars(b),
    ensures
        all_key_chars(a + b),
{
    assert forall|i: int| 0 <= i < (a + b).len() implies is_key_char(#[trigger] (a + b)[i]) by {
        if i < a.len() {
            assert((a + b)[i] == a[i]);
        } else {
            assert((a + b)[i] == b[i - a.len()]);
        }
    }
}

proof fn lemma_join_key_chars(parts: Seq<Seq<char>>, sep: Seq<char>)
    requires
        forall|i: int| 0 <= i < parts.len() ==> all_key_chars(#[trigger] parts[i]),
        all_key_chars(sep),
    ensures
        all_key_chars(join_seqs(parts, sep)),
    decreases parts.len(),
{
    if parts.len() > 1 {
        let rest = parts.drop_last();
        assert forall|i: int| 0 <= i < rest.len() implies all_key_chars(#[trigger] rest[i]) by {
            assert(rest[i] == parts[i]);
        }
        lemma_join_key_chars(rest, sep);
        assert(all_key_chars(parts[parts.len() - 1]));
        lemma_concat_key_chars(join_seqs(rest, sep), sep);
        lemma_concat_key_chars(join_seqs(rest, sep) + sep, parts.last());
    } else if parts.len() == 1 {
        assert(all_key_chars(parts[0]));
    }
}

proof fn lemma_lower_key_chars(p: Seq<char>)
    requires
        all_alphanumeric(p),
    ensures
        all_key_chars(lower_chars(p)),
{
    assert forall|i: int| 0 <= i < lower_chars(p).len() implies is_key_char(
        #[trigger] lower_chars(p)[i],
    ) by {
        let c = p[i];
        assert(is_ascii_alphanumeric(c));
        if is_ascii_upper(c) {
            assert(65 <= c as u32 <= 90);
            assert(ascii_lower(c) as u32 == c as u32 + 32);
        }
    }
}

proof fn lemma_kebab_key_chars(s: Seq<char>)
    ensures
        all_key_chars(kebab_case(s)),
{
    let parts = split_on(s, Separator::NonAlphanumeric);
    lemma_split_parts_alphanumeric(s);
    let kept = nonempty_parts(parts);
    let lowered = kept.map_values(|p: Seq<char>| lower_chars(p));
    assert forall|i: int| 0 <= i < lowered.len() implies all_key_chars(#[trigger] lowered[i]) by {
        assert(kept.contains(kept[i]));
        parts.lemma_filter_contains_rev(|p: Seq<char>| p.len() > 0, kept[i]);
        let j = choose|j: int| 0 <= j < parts.len() && parts[j] == kept[i];
        assert(all_alphanumeric(parts[j]));
        lemma_lower_key_chars(kept[i]);
    }
    reveal_strlit("-");
    lemma_join_key_chars(lowered, "-"@);
}

proof fn lemma_split_alphanumeric_whole(s: Seq<char>)
    requires
        all_alphanumeric(s),
    ensures
        split_on(s, Separator::NonAlphanumeric) == seq![s],
    decreases s.len(),
{
    if s.len() > 0 {
        assert(all_alphanumeric(s.drop_last()));
        lemma_split_alphanumeric_whole(s.drop_last());
        assert(is_ascii_alphanumeric(s[s.len() - 1]));
        assert(s.drop_last().push(s.last()) =~= s);
    } else {
        assert(s =~= Seq::<char>::empty());
    }
}

/// A name made only of ASCII letters and digits keeps every one of its chars
/// in its kebab case, digits included, with letters lowered; so a name of
/// lowercase letters and digits is its own kebab case.
pub proof fn law_kebab_case_keeps_alphanumeric_names(s: Seq<char>)
    requires
        s.len() > 0,
        all_alphanumeric(s),
    ensures
        kebab_case(s) == lower_chars(s),
        (forall|i: int| 0 <= i < s.len() ==> !is_ascii_upper(#[trigger] s[i])) ==> kebab_case(s)
            == s,
{
    lemma_split_alphanumeric_whole(s);
    let pred = |p: Seq<char>| p.len() > 0;
    let one: Seq<Seq<char>> = seq![s];
    assert(one.drop_last() =~= Seq::<Seq<char>>::empty());
    reveal_with_fuel(Seq::filter, 2);
    assert(one.filter(pred) =~= one);
    assert(nonempty_parts(one) =~= one);
    let lowered = one.map_values(|p: Seq<char>| lower_chars(p));
    assert(lowered =~= seq![lower_chars(s)]);
    assert(kebab_case(s) == lower_chars(s));
    if forall|i: int| 0 <= i < s.len() ==> !is_ascii_upper(#[trigger] s[i]) {
        assert(lower_chars(s) =~= s);
    }
}

/// Tool keys are safe as file names: they hold only ASCII lowercase letters,
/// digits and `-`.
pub proof fn law_tool_key_is_fs_safe(id: ToolIdModel)
    ensures
        all_key_chars(tool_key_of(id)),
{
    lemma_kebab_key_chars(backend_name(id.backend));
    lemma_kebab_key_chars(id.name);
    reveal_strlit("-");
    lemma_concat_key_chars(kebab_case(backend_name(id.backend)), "-"@);
    lemma_concat_key_chars(kebab_case(backend_name(id.backend)) + "-"@, kebab_case(id.name));
}

/// A request that parses is written back as the text it was parsed from.
pub proof fn law_tool_spec_display_of_parse(s: Seq<char>)
    ensures
        parse_tool_spec(s) matches Ok(m) ==> tool_spec_text(m) == s,
{
    if let Ok(m) = parse_tool_spec(s) {
        reveal_strlit(":");
        reveal_strlit("@");
        s.index_of_first_ensures(':');
        let i = s.index_of_first(':')->0;
        lemma_split_around(s, i);
        let backend = s.subrange(0, i);
        let rest = s.subrange(i + 1, s.len() as int);
        law_backend_parse_keeps_name(backend);
        rest.index_of_last_ensures('@');
        match rest.index_of_last('@') {
            Some(j) => {
                if j > 0 {
                    lemma_split_around(rest, j);
                } else {
                    assert(tool_spec_text(m) =~= s);
                }
            },
            None => {
                assert(tool_spec_text(m) =~= s);
            },
        }
    }
}

/// What a request can be written from and read back: a backend whose name is
/// non-empty, holds no `:` and no ASCII uppercase letter and reads back as that
/// backend; a non-empty name; and either a non-empty version without `@`, or no
/// version and no `@` in the name but at its start.
pub open spec fn well_shaped_tool_spec(m: ToolSpecModel) -> bool {
    let b = backend_name(m.tool_id.backend);
    let n = m.tool_id.name;
    &&& b.len() > 0
    &&& !b.contains(':')
    &&& !has_ascii_upper(b)
    &&& parse_backend(b) == m.tool_id.backend
    &&& n.len() > 0
    &&& match m.version {
        Some(v) => v.len() > 0 && !v.contains('@'),
        None => forall|k: int| 0 < k < n.len() ==> n[k] != '@',
    }
}

/// A well-shaped request, written out, parses back to itself.
pub proof fn law_tool_spec_parse_of_display(m: ToolSpecModel)
    requires
        well_shaped_tool_spec(m),
    ensures
        parse_tool_spec(tool_spec_text(m)) == Ok::<ToolSpecModel, Seq<char>>(m),
{
    reveal_strlit(":");
    reveal_strlit("@");
    let b = backend_name(m.tool_id.backend);
    let n = m.tool_id.name;
    let s = tool_spec_text(m);
    let i = b.len() as int;
    let tail: Seq<char> = match m.version {
        Some(v) => "@"@ + v,
        None => Seq::empty(),
    };
    assert(s =~= b + seq![':'] + (n + tail));
    assert(s[i] == ':');
    assert forall|k: int| 0 <= k < i implies s[k] != ':' by {
        assert(s[k] == b[k]);
    }
    lemma_first_index_at(s, ':', i);
    assert(s.subrange(0, i) =~= b);
    let rest = s.subrange(i + 1, s.len() as int);
    assert(rest =~= n + tail);
    match m.version {
        Some(v) => {
            let j = n.len() as int;
            assert(rest[j] == '@');
            assert forall|k: int| j < k < rest.len() implies rest[k] != '@' by {
                assert(rest[k] == v[k - j - 1]);
            }
            lemma_last_index_at(rest, '@', j);
            assert(rest.subrange(0, j) =~= n);
            assert(rest.subrange(j + 1, rest.len() as int) =~= v);
        },
        None => {
            assert(rest =~= n);
            n.index_of_last_ensures('@');
        },
    }
}

/// An identity that parses is written back as the text it was parsed from.
pub proof fn law_tool_id_display_of_parse(s: Seq<char>)
    ensures
        parse_tool_id(s) matches Ok(id) ==> tool_id_text(id) == s,
{
    law_tool_spec_display_of_parse(s);
    if let Ok(id) = parse_tool_id(s) {
        let m = parse_tool_spec(s)->Ok_0;
        assert(tool_spec_text(m) =~= tool_id_text(id));
    }
}

/// A well-shaped identity, written out, parses back to itself.
pub proof fn law_tool_id_parse_of_display(id: ToolIdModel)
    requires
        well_shaped_tool_spec(ToolSpecModel { tool_id: id, version: None }),
    ensures
        parse_tool_id(tool_id_text(id)) == Ok::<ToolIdModel, Seq<char>>(id),
{
    let m = ToolSpecModel { tool_id: id, version: None };
    law_tool_spec_parse_of_display(m);
    assert(tool_spec_text(m) =~= tool_id_text(id));
}

fn invalid_spec(input: &str, reason: &str) -> (e: Error)
    ensures
        e@ == (ErrorModel::InvalidToolSpec { spec: input@, reason: reason@ }),
{
    Error::InvalidToolSpec { spec: owned(input), reason: owned(reason) }
}

pub fn parse_name_and_version(input: &str) -> (r: Result<(String, Option<String>), String>)
    ensures
        match split_name_version(input@) {
            Ok((name, version)) => r matches Ok((n, v)) && n@ == name && match v {
                Some(x) => version == Some(x@) && x@.len() > 0,
                None => version is None,
            } && (input@.len() > 0 ==> n@.len() > 0),
            Err(reason) => r matches Err(e) && e@ == reason,
        },
{
    let cs = chars_of(input);
    proof {
        input@.index_of_last_ensures('@');
    }
    match find_last(&cs, '@') {
        None => Ok((owned(input), None)),
        Some(idx) => {
            if idx == 0 {
                return Ok((owned(input), None));
            }
            if idx == cs.len() - 1 {
                return Err(owned("version cannot be empty after '@'"));
            }
            let name = string_of_range(&cs, 0, idx);
            let version = string_of_range(&cs, idx + 1, cs.len());
            Ok((name, Some(version)))
        },
    }
}

/// Canonical tool identity (`<backend>:<name>`), always unversioned.
#[derive(Debug, PartialEq, Eq)]
pub struct ToolId {
    backend: Backend,
    name: String,
}

impl View for ToolId {
    type V = ToolIdModel;

    closed spec fn view(&self) -> ToolIdModel {
        ToolIdModel { backend: self.backend@, name: self.name@ }
    }
}

impl Clone for ToolId {
    fn clone(&self) -> (r: Self)
        ensures
            r == *self,
    {
        proof {
            use_type_invariant(self);
        }
        ToolId { backend: self.backend.clone(), name: self.name.clone() }
    }
}

impl ToolId {
    #[verifier::type_invariant]
    spec fn name_non_empty(self) -> bool {
        self.name@.len() > 0
    }

    fn new(backend: Backend, name: String) -> (r: ToolId)
        requires
            name@.len() > 0,
        ensures
            r@ == (ToolIdModel { backend: backend@, name: name@ }),
    {
        ToolId { backend, name }
    }

    pub fn backend(&self) -> (r: &Backend)
        ensures
            r@ == self@.backend,
    {
        &self.backend
    }

    pub fn name(&self) -> (r: &str)
        ensures
            r@ == self@.name,
            r@.len() > 0,
    {
        proof {
            use_type_invariant(self);
        }
        self.name.as_str()
    }

    /// fs-safe tool key used under `~/.miseo`.
    pub fn key(&self) -> (r: String)
        ensures
            r@ == tool_key_of(self@),
    {
        let b = to_kebab_case(self.backend.as_str());
        let n = to_kebab_case(self.name.as_str());
        concat3(b.as_str(), "-", n.as_str())
    }

    pub fn layout(&self, root: &str) -> (r: ToolLayout)
        ensures
            r@ == (ToolLayoutModel { root: root@, tool_key: tool_key_of(self@) }),
    {
        ToolLayout::new(root, self.key())
    }

    /// `<backend>:<name>`
    pub fn to_string(&self) -> (r: String)
        ensures
            r@ == tool_id_text(self@),
    {
        concat3(self.backend.as_str(), ":", self.name.as_str())
    }

    pub fn parse(input: &str) -> (r: Result<ToolId, Error>)
        ensures
            match parse_tool_id(input@) {
                Ok(m) => r matches Ok(id) && id@ == m,
                Err(reason) => r matches Err(e) && e@ == (ErrorModel::InvalidToolSpec {
                    spec: input@,
                    reason,
                }),
            },
    {
        let spec = ToolSpec::parse(input)?;
        if spec.version.is_none() {
            Ok(spec.into_tool_id())
        } else {
            Err(invalid_spec(input, "version is not accepted here; expected <backend>:<name>"))
        }
    }
}

impl std::str::FromStr for ToolId {
    type Err = Error;

    fn from_str(input: &str) -> (r: Result<ToolId, Error>)
        ensures
            match parse_tool_id(input@) {
                Ok(m) => r matches Ok(id) && id@ == m,
                Err(reason) => r matches Err(e) && e@ == (ErrorModel::InvalidToolSpec {
                    spec: input@,
                    reason,
                }),
            },
    {
        ToolId::parse(input)
    }
}

/// Tool request spec (`<backend>:<name>[@version]`) as accepted by CLI input.
#[derive(Debug, PartialEq, Eq)]
pub struct ToolSpec {
    tool_id: ToolId,
    version: Option<String>,
}

pub open spec fn version_model(v: Option<String>) -> Option<Seq<char>> {
    match v {
        Some(s) => Some(s@),
        None => None,
    }
}

impl View for ToolSpec {
    type V = ToolSpecModel;

    closed spec fn view(&self) -> ToolSpecModel {
        ToolSpecModel { tool_id: self.tool_id@, version: version_model(self.version) }
    }
}

impl Clone for ToolSpec {
    fn clone(&self) -> (r: Self)
        ensures
            r == *self,
    {
        proof {
            use_type_invariant(self);
        }
        let version = match &self.version {
            Some(v) => Some(v.clone()),
            None => None,
        };
        ToolSpec { tool_id: self.tool_id.clone(), version }
    }
}

impl ToolSpec {
    #[verifier::type_invariant]
    spec fn version_non_empty(self) -> bool {
        self.version matches Some(v) ==> v@.len() > 0
    }

    fn new(tool_id: ToolId, version: Option<String>) -> (r: ToolSpec)
        requires
            version matches Some(v) ==> v@.len() > 0,
        ensures
            r@ == (ToolSpecModel { tool_id: tool_id@, version: version_model(version) }),
    {
        ToolSpec { tool_id, version }
    }

    /// The request for `tool_id` with no version.
    pub fn from_tool_id(tool_id: ToolId) -> (r: ToolSpec)
        ensures
            r@ == (ToolSpecModel { tool_id: tool_id@, version: None }),
    {
        ToolSpec::new(tool_id, None)
    }

    pub fn tool_id(&self) -> (r: &ToolId)
        ensures
            r@ == self@.tool_id,
    {
        &self.tool_id
    }

    fn into_tool_id(self) -> (r: ToolId)
        ensures
            r@ == self@.tool_id,
    {
        self.tool_id
    }

    /// fs-safe tool key used under `~/.miseo`.
    pub fn key(&self) -> (r: String)
        ensures
            r@ == tool_key_of(self@.tool_id),
    {
        self.tool_id.key()
    }

    pub fn backend(&self) -> (r: &Backend)
        ensures
            r@ == self@.tool_id.backend,
    {
        self.tool_id.backend()
    }

    pub fn version(&self) -> (r: Option<&str>)
        ensures
            match r {
                Some(v) => self@.version == Some(v@) && v@.len() > 0,
                None => self@.version is None,
            },
    {
        proof {
            use_type_invariant(self);
        }
        match &self.version {
            Some(v) => Some(v.as_str()),
            None => None,
        }
    }

    /// Ensure a version is present, defaulting to `latest`.
    pub fn or_latest(&self) -> (r: ToolSpec)
        ensures
            r@ == (ToolSpecModel {
                tool_id: self@.tool_id,
                version: Some(
                    match self@.version {
                        Some(v) => v,
                        None => "latest"@,
                    },
                ),
            }),
    {
        proof {
            use_type_invariant(self);
            reveal_strlit("latest");
        }
        let version = match &self.version {
            Some(v) => v.clone(),
            None => owned("latest"),
        };
        ToolSpec::new(self.tool_id.clone(), Some(version))
    }

    /// Replace the version component with an explicit version.
    pub fn with_version(&self, version: &str) -> (r: ToolSpec)
        requires
            version@.len() > 0,
        ensures
            r@ == (ToolSpecModel { tool_id: self@.tool_id, version: Some(version@) }),
    {
        ToolSpec::new(self.tool_id.clone(), Some(owned(version)))
    }

    pub fn layout(&self, root: &str) -> (r: ToolLayout)
        ensures
            r@ == (ToolLayoutModel { root: root@, tool_key: tool_key_of(self@.tool_id) }),
    {
        ToolLayout::new(root, self.key())
    }

    /// `<backend>:<name>[@version]`
    pub fn to_string(&self) -> (r: String)
        ensures
            r@ == tool_spec_text(self@),
    {
        let mut r = self.tool_id.to_string();
        match &self.version {
            Some(v) => {
                r.append("@");
                r.append(v.as_str());
            },
            None => {},
        }
        proof {
            if self@.version is None {
                assert(r@ =~= tool_spec_text(self@));
            }
        }
        r
    }

    pub fn parse(input: &str) -> (r: Result<ToolSpec, Error>)
        ensures
            match parse_tool_spec(input@) {
                Ok(m) => r matches Ok(spec) && spec@ == m,
                Err(reason) => r matches Err(e) && e@ == (ErrorModel::InvalidToolSpec {
                    spec: input@,
                    reason,
                }),
            },
    {
        let cs = chars_of(input);
        let colon = find_first(&cs, ':');
        let i = match colon {
            None => {
                return Err(invalid_spec(input, "missing backend separator ':'"));
            },
            Some(i) => i,
        };
        let backend = string_of_range(&cs, 0, i);
        let rest = string_of_range(&cs, i + 1, cs.len());
        if backend.as_str().is_empty() {
            return Err(invalid_spec(input, "backend cannot be empty"));
        }
        if has_upper(backend.as_str()) {
            return Err(invalid_spec(input, "backend must be lowercase"));
        }
        if rest.as_str().is_empty() {
            return Err(invalid_spec(input, "package name cannot be empty"));
        }
        match parse_name_and_version(rest.as_str()) {
            Err(reason) => Err(Error::InvalidToolSpec { spec: owned(input), reason }),
            Ok((name, version)) => {
                let tool_id = ToolId::new(Backend::parse(backend.as_str()), name);
                Ok(ToolSpec::new(tool_id, version))
            },
        }
    }
}

impl From<ToolId> for ToolSpec {
    fn from(tool_id: ToolId) -> (r: ToolSpec) {
        ToolSpec { tool_id, version: None }
    }
}

impl vstd::std_specs::convert::FromSpecImpl<ToolId> for ToolSpec {
    open spec fn obeys_from_spec() -> bool {
        true
    }

    closed spec fn from_spec(tool_id: ToolId) -> ToolSpec {
        ToolSpec { tool_id, version: None }
    }
}

impl std::str::FromStr for ToolSpec {
    type Err = Error;

    fn from_str(input: &str) -> (r: Result<ToolSpec, Error>)
        ensures
            match parse_tool_spec(input@) {
                Ok(m) => r matches Ok(spec) && spec@ == m,
                Err(reason) => r matches Err(e) && e@ == (ErrorModel::InvalidToolSpec {
                    spec: input@,
                    reason,
                }),
            },
    {
        ToolSpec::parse(input)
    }
}

pub struct ToolLayoutModel {
    pub root: Seq<char>,
    pub tool_key: Seq<char>,
}

/// Tool-level filesystem layout rooted at `~/.miseo/<tool-key>`.
#[derive(Debug)]
pub struct ToolLayout {
    root: String,
    tool_key: String,
}

impl View for ToolLayout {
    type V = ToolLayoutModel;

    closed spec fn view(&self) -> ToolLayoutModel {
        ToolLayoutModel { root: self.root@, tool_key: self.tool_key@ }
    }
}

pub struct VariantLayoutModel {
    pub root_bin_dir: Seq<char>,
    pub tool_dir: Seq<char>,
    pub variant_dir: Seq<char>,
    pub current_link: Seq<char>,
    pub local_bin_dir: Seq<char>,
}

/// The paths of one install variant of the tool laid out by `layout`.
pub open spec fn variant_layout_of(layout: ToolLayoutModel, variant_key: Seq<char>) -> VariantLayoutModel {
    let tool_dir = join_path(layout.root, layout.tool_key);
    let variant_dir = join_path(tool_dir, variant_key);
    VariantLayoutModel {
        root_bin_dir: join_path(layout.root, ".bin"@),
        tool_dir,
        variant_dir,
        current_link: join_path(tool_dir, "current"@),
        local_bin_dir: join_path(variant_dir, ".miseo"@),
    }
}

impl Clone for ToolLayout {
    fn clone(&self) -> (r: Self)
        ensures
            r == *self,
    {
        ToolLayout { root: self.root.clone(), tool_key: self.tool_key.clone() }
    }
}

impl ToolLayout {
    fn new(root: &str, tool_key: String) -> (r: ToolLayout)
        ensures
            r@ == (ToolLayoutModel { root: root@, tool_key: tool_key@ }),
    {
        ToolLayout { root: owned(root), tool_key }
    }

    pub fn tool_key(&self) -> (r: &str)
        ensures
            r@ == self@.tool_key,
    {
        self.tool_key.as_str()
    }

    pub fn tool_dir(&self) -> (r: String)
        ensures
            r@ == join_path(self@.root, self@.tool_key),
    {
        path_join(self.root.as_str(), self.tool_key.as_str())
    }

    pub fn root_bin_dir(&self) -> (r: String)
        ensures
            r@ == join_path(self@.root, ".bin"@),
    {
        path_join(self.root.as_str(), ".bin")
    }

    /// Build paths for one concrete install variant.
    pub fn variant(&self, variant_key: &str) -> (r: VariantLayout)
        ensures
            r@ == variant_layout_of(self@, variant_key@),
    {
        let tool_dir = self.tool_dir();
        let variant_dir = path_join(tool_dir.as_str(), variant_key);
        let current_link = path_join(tool_dir.as_str(), "current");
        let local_bin_dir = path_join(variant_dir.as_str(), ".miseo");
        VariantLayout {
            root_bin_dir: self.root_bin_dir(),
            tool_dir,
            variant_dir,
            current_link,
            local_bin_dir,
        }
    }
}

/// Variant-level filesystem layout for one concrete install.
#[derive(Debug)]
pub struct VariantLayout {
    root_bin_dir: String,
    tool_dir: String,
    variant_dir: String,
    current_link: String,
    local_bin_dir: String,
}

impl View for VariantLayout {
    type V = VariantLayoutModel;

    closed spec fn view(&self) -> VariantLayoutModel {
        VariantLayoutModel {
            root_bin_dir: self.root_bin_dir@,
            tool_dir: self.tool_dir@,
            variant_dir: self.variant_dir@,
            current_link: self.current_link@,
            local_bin_dir: self.local_bin_dir@,
        }
    }
}

impl Clone for VariantLayout {
    fn clone(&self) -> (r: Self)
        ensures
            r == *self,
    {
        VariantLayout {
            root_bin_dir: self.root_bin_dir.clone(),
            tool_dir: self.tool_dir.clone(),
            variant_dir: self.variant_dir.clone(),
            current_link: self.current_link.clone(),
            local_bin_dir: self.local_bin_dir.clone(),
        }
    }
}

impl VariantLayout {
    pub fn root_bin_dir(&self) -> (r: &str)
        ensures
            r@ == self@.root_bin_dir,
    {
        self.root_bin_dir.as_str()
    }

    pub fn tool_dir(&self) -> (r: &str)
        ensures
            r@ == self@.tool_dir,
    {
        self.tool_dir.as_str()
    }

    pub fn variant_dir(&self) -> (r: &str)
        ensures
            r@ == self@.variant_dir,
    {
        self.variant_dir.as_str()
    }

    pub fn current_link(&self) -> (r: &str)
        ensures
            r@ == self@.current_link,
    {
        self.current_link.as_str()
    }

    pub fn local_bin_dir(&self) -> (r: &str)
        ensures
            r@ == self@.local_bin_dir,
    {
        self.local_bin_dir.as_str()
    }

    pub fn local_command(&self, command: &str) -> (r: String)
        ensures
            r@ == join_path(self@.local_bin_dir, command@),
    {
        path_join(self.local_bin_dir.as_str(), command)
    }

    pub fn public_command(&self, command: &str) -> (r: String)
        ensures
            r@ == join_path(self@.root_bin_dir, command@),
    {
        path_join(self.root_bin_dir.as_str(), command)
    }

    pub fn public_target(&self, command: &str) -> (r: String)
        ensures
            r@ == join_path(join_path(self@.tool_dir, "current/.miseo"@), command@),
    {
        let target_dir = path_join(self.tool_dir.as_str(), "current/.miseo");
        path_join(target_dir.as_str(), command)
    }
}

} // verus!
