//! Character classes and string building blocks shared by the parsers and renderers.

use vstd::prelude::*;
use vstd::string::StringExecFns;

verus! {

// ---------------------------------------------------------------------------
// Character classes
// ---------------------------------------------------------------------------

pub open spec fn is_ascii_upper(c: char) -> bool {
    'A' <= c && c <= 'Z'
}

pub open spec fn is_ascii_lower(c: char) -> bool {
    'a' <= c && c <= 'z'
}

pub open spec fn is_ascii_digit(c: char) -> bool {
    '0' <= c && c <= '9'
}

pub open spec fn is_ascii_alphanumeric(c: char) -> bool {
    is_ascii_upper(c) || is_ascii_lower(c) || is_ascii_digit(c)
}

/// ASCII lowercasing: `A`..`Z` map to `a`..`z`, every other char is kept.
pub open spec fn ascii_lower(c: char) -> char {
    if is_ascii_upper(c) {
        ((c as u32) + 32) as char
    } else {
        c
    }
}

pub open spec fn lower_chars(s: Seq<char>) -> Seq<char> {
    s.map_values(|c: char| ascii_lower(c))
}

pub open spec fn has_ascii_upper(s: Seq<char>) -> bool {
    exists|i: int| 0 <= i < s.len() && is_ascii_upper(#[trigger] s[i])
}

pub fn is_upper_char(c: char) -> (r: bool)
    ensures
        r == is_ascii_upper(c),
{
    'A' <= c && c <= 'Z'
}

pub fn is_alphanumeric_char(c: char) -> (r: bool)
    ensures
        r == is_ascii_alphanumeric(c),
{
    ('A' <= c && c <= 'Z') || ('a' <= c && c <= 'z') || ('0' <= c && c <= '9')
}

pub fn lower_char(c: char) -> (r: char)
    ensures
        r == ascii_lower(c),
{
    if 'A' <= c && c <= 'Z' {
        let b: u8 = c as u8;
        (b + 32) as char
    } else {
        c
    }
}


/// Unicode `White_Space`, the property that `char::is_whitespace` tests.
pub open spec fn is_white_space(c: char) -> bool {
    ||| ('\u{9}' <= c && c <= '\u{d}')
    ||| c == ' '
    ||| c == '\u{85}'
    ||| c == '\u{a0}'
    ||| c == '\u{1680}'
    ||| ('\u{2000}' <= c && c <= '\u{200a}')
    ||| c == '\u{2028}'
    ||| c == '\u{2029}'
    ||| c == '\u{202f}'
    ||| c == '\u{205f}'
    ||| c == '\u{3000}'
}

pub fn is_white_space_char(c: char) -> (r: bool)
    ensures
        r == is_white_space(c),
{
    ('\u{9}' <= c && c <= '\u{d}') || c == ' ' || c == '\u{85}' || c == '\u{a0}' || c
        == '\u{1680}' || ('\u{2000}' <= c && c <= '\u{200a}') || c == '\u{2028}' || c
        == '\u{2029}' || c == '\u{202f}' || c == '\u{205f}' || c == '\u{3000}'
}

// ---------------------------------------------------------------------------
// Strings as sequences of chars
// ---------------------------------------------------------------------------

pub open spec fn views(s: Seq<String>) -> Seq<Seq<char>> {
    s.map_values(|x: String| x@)
}

/// Appends one char: `String::push`.
#[verifier::external_body]
fn push_char(s: &mut String, c: char)
    ensures
        final(s)@ == old(s)@.push(c),
{
    s.push(c)
}

/// The chars of a string slice, in order.
pub fn chars_of(s: &str) -> (v: Vec<char>)
    ensures
        v@ == s@,
{
    let mut v: Vec<char> = Vec::new();
    for c in it: s.chars()
        invariant
            v@ == it.seq().take(it.index() as int),
            it.seq() == s@,
    {
        v.push(c);
    }
    v
}

/// The string made of `cs[from..to]`.
pub fn string_of_range(cs: &Vec<char>, from: usize, to: usize) -> (r: String)
    requires
        from <= to <= cs.len(),
    ensures
        r@ == cs@.subrange(from as int, to as int),
{
    let mut r = String::new();
    let mut i = from;
    while i < to
        invariant
            from <= i <= to <= cs.len(),
            r@ == cs@.subrange(from as int, i as int),
        decreases to - i,
    {
        push_char(&mut r, cs[i]);
        i = i + 1;
        assert(r@ =~= cs@.subrange(from as int, i as int));
    }
    r
}

pub fn string_of(cs: &Vec<char>) -> (r: String)
    ensures
        r@ == cs@,
{
    let r = string_of_range(cs, 0, cs.len());
    assert(cs@.subrange(0, cs@.len() as int) =~= cs@);
    r
}

/// A fresh `String` holding a copy of `s`.
pub fn owned(s: &str) -> (r: String)
    ensures
        r@ == s@,
{
    String::from_str(s)
}

pub fn str_eq(a: &str, b: &str) -> (r: bool)
    ensures
        r == (a@ == b@),
{
    let x = owned(a);
    let y = owned(b);
    x == y
}

pub fn concat(a: &str, b: &str) -> (r: String)
    ensures
        r@ == a@ + b@,
{
    let mut r = owned(a);
    r.append(b);
    r
}

pub fn concat3(a: &str, b: &str, c: &str) -> (r: String)
    ensures
        r@ == a@ + b@ + c@,
{
    let mut r = owned(a);
    r.append(b);
    r.append(c);
    r
}

pub fn has_upper(s: &str) -> (r: bool)
    ensures
        r == has_ascii_upper(s@),
{
    let cs = chars_of(s);
    let mut i: usize = 0;
    while i < cs.len()
        invariant
            i <= cs.len(),
            cs@ == s@,
            forall|j: int| 0 <= j < i ==> !is_ascii_upper(#[trigger] cs@[j]),
        decreases cs.len() - i,
    {
        if is_upper_char(cs[i]) {
            return true;
        }
        i = i + 1;
    }
    false
}

pub fn to_lower(s: &str) -> (r: String)
    ensures
        r@ == lower_chars(s@),
{
    let cs = chars_of(s);
    let mut r = String::new();
    let mut i: usize = 0;
    while i < cs.len()
        invariant
            i <= cs.len(),
            cs@ == s@,
            r@ == lower_chars(s@.take(i as int)),
        decreases cs.len() - i,
    {
        push_char(&mut r, lower_char(cs[i]));
        i = i + 1;
        assert(lower_chars(s@.take(i as int)) =~= lower_chars(s@.take(i - 1)).push(
            ascii_lower(cs@[i - 1]),
        ));
    }
    assert(s@.take(cs.len() as int) =~= s@);
    r
}

pub open spec fn replace_char(s: Seq<char>, from: char, to: char) -> Seq<char> {
    s.map_values(|c: char| if c == from { to } else { c })
}

pub fn replace(s: &str, from: char, to: char) -> (r: String)
    ensures
        r@ == replace_char(s@, from, to),
{
    let cs = chars_of(s);
    let mut r = String::new();
    let mut i: usize = 0;
    while i < cs.len()
        invariant
            i <= cs.len(),
            cs@ == s@,
            r@ == replace_char(s@.take(i as int), from, to),
        decreases cs.len() - i,
    {
        let c = cs[i];
        if c == from {
            push_char(&mut r, to);
        } else {
            push_char(&mut r, c);
        }
        i = i + 1;
        assert(replace_char(s@.take(i as int), from, to) =~= replace_char(
            s@.take(i - 1),
            from,
            to,
        ).push(if c == from { to } else { c }));
    }
    assert(s@.take(cs.len() as int) =~= s@);
    r
}

// ---------------------------------------------------------------------------
// Searching
// ---------------------------------------------------------------------------

pub fn find_first(cs: &Vec<char>, c: char) -> (r: Option<usize>)
    ensures
        match r {
            Some(i) => cs@.index_of_first(c) == Some(i as int) && i < cs.len() && cs@[i as int]
                == c && forall|j: int| 0 <= j < i ==> cs@[j] != c,
            None => cs@.index_of_first(c) is None && forall|j: int|
                0 <= j < cs.len() ==> cs@[j] != c,
        },
{
    proof {
        cs@.index_of_first_ensures(c);
    }
    let mut i: usize = 0;
    while i < cs.len()
        invariant
            i <= cs.len(),
            forall|j: int| 0 <= j < i ==> cs@[j] != c,
        decreases cs.len() - i,
    {
        if cs[i] == c {
            proof {
                cs@.index_of_first_ensures(c);
            }
            return Some(i);
        }
        i = i + 1;
    }
    None
}

pub fn find_last(cs: &Vec<char>, c: char) -> (r: Option<usize>)
    ensures
        match r {
            Some(i) => cs@.index_of_last(c) == Some(i as int) && i < cs.len() && cs@[i as int]
                == c && forall|j: int| i < j < cs.len() ==> cs@[j] != c,
            None => cs@.index_of_last(c) is None && forall|j: int|
                0 <= j < cs.len() ==> cs@[j] != c,
        },
{
    proof {
        cs@.index_of_last_ensures(c);
    }
    let mut i: usize = cs.len();
    while i > 0
        invariant
            i <= cs.len(),
            forall|j: int| i <= j < cs.len() ==> cs@[j] != c,
        decreases i,
    {
        if cs[i - 1] == c {
            proof {
                cs@.index_of_last_ensures(c);
            }
            return Some(i - 1);
        }
        i = i - 1;
    }
    None
}


/// The first occurrence of `c` is at `i` when `c` is at `i` and nowhere before.
pub proof fn lemma_first_index_at(s: Seq<char>, c: char, i: int)
    requires
        0 <= i < s.len(),
        s[i] == c,
        forall|k: int| 0 <= k < i ==> s[k] != c,
    ensures
        s.index_of_first(c) == Some(i),
{
    s.index_of_first_ensures(c);
}

/// The last occurrence of `c` is at `i` when `c` is at `i` and nowhere after.
pub proof fn lemma_last_index_at(s: Seq<char>, c: char, i: int)
    requires
        0 <= i < s.len(),
        s[i] == c,
        forall|k: int| i < k < s.len() ==> s[k] != c,
    ensures
        s.index_of_last(c) == Some(i),
{
    s.index_of_last_ensures(c);
}

/// `s` cut around the char at `i`.
pub proof fn lemma_split_around(s: Seq<char>, i: int)
    requires
        0 <= i < s.len(),
    ensures
        s == s.subrange(0, i) + seq![s[i]] + s.subrange(i + 1, s.len() as int),
{
    assert(s =~= s.subrange(0, i) + seq![s[i]] + s.subrange(i + 1, s.len() as int));
}

// ---------------------------------------------------------------------------
// Joining, splitting, trimming
// ---------------------------------------------------------------------------

/// `parts` joined with `sep` between neighbours, as `[&str]::join` does.
pub open spec fn join_seqs(parts: Seq<Seq<char>>, sep: Seq<char>) -> Seq<char>
    decreases parts.len(),
{
    if parts.len() == 0 {
        Seq::empty()
    } else if parts.len() == 1 {
        parts[0]
    } else {
        join_seqs(parts.drop_last(), sep) + sep + parts.last()
    }
}

/// The run of `n` chars of `hay` that starts at `k`.
pub open spec fn run_at(hay: Seq<char>, k: int, n: nat) -> Seq<char> {
    hay.subrange(k, k + n)
}

/// `needle` occurs in `hay` as a contiguous run.
pub open spec fn occurs_in(needle: Seq<char>, hay: Seq<char>) -> bool {
    exists|k: int|
        0 <= k && k + needle.len() <= hay.len() && #[trigger] run_at(hay, k, needle.len()) == needle
}

/// `hay` ends with `tail`.
pub open spec fn ends_with(hay: Seq<char>, tail: Seq<char>) -> bool {
    tail.len() <= hay.len() && hay.subrange(hay.len() - tail.len(), hay.len() as int) == tail
}

pub proof fn lemma_occurs_in_self(s: Seq<char>)
    ensures
        occurs_in(s, s),
{
    assert(run_at(s, 0, s.len()) =~= s);
}

pub proof fn lemma_occurs_in_left(needle: Seq<char>, a: Seq<char>, b: Seq<char>)
    requires
        occurs_in(needle, a),
    ensures
        occurs_in(needle, a + b),
{
    let k = choose|k: int|
        0 <= k && k + needle.len() <= a.len() && #[trigger] run_at(a, k, needle.len()) == needle;
    assert(run_at(a + b, k, needle.len()) =~= run_at(a, k, needle.len()));
}

pub proof fn lemma_occurs_in_right(needle: Seq<char>, a: Seq<char>, b: Seq<char>)
    requires
        occurs_in(needle, b),
    ensures
        occurs_in(needle, a + b),
{
    let k = choose|k: int|
        0 <= k && k + needle.len() <= b.len() && #[trigger] run_at(b, k, needle.len()) == needle;
    assert(run_at(a + b, a.len() + k, needle.len()) =~= run_at(b, k, needle.len()));
}

pub proof fn lemma_occurs_in_trans(x: Seq<char>, y: Seq<char>, z: Seq<char>)
    requires
        occurs_in(x, y),
        occurs_in(y, z),
    ensures
        occurs_in(x, z),
{
    let i = choose|k: int| 0 <= k && k + x.len() <= y.len() && #[trigger] run_at(y, k, x.len()) == x;
    let j = choose|k: int| 0 <= k && k + y.len() <= z.len() && #[trigger] run_at(z, k, y.len()) == y;
    assert(run_at(z, j + i, x.len()) =~= run_at(y, i, x.len()));
}

pub proof fn lemma_ends_with_concat(a: Seq<char>, t: Seq<char>)
    ensures
        ends_with(a + t, t),
{
    assert((a + t).subrange(a.len() as int, (a + t).len() as int) =~= t);
}

/// Every part occurs in the parts joined.
pub proof fn lemma_join_holds_parts(parts: Seq<Seq<char>>, sep: Seq<char>, i: int)
    requires
        0 <= i < parts.len(),
    ensures
        occurs_in(parts[i], join_seqs(parts, sep)),
    decreases parts.len(),
{
    if parts.len() == 1 {
        lemma_occurs_in_self(parts[0]);
    } else {
        let rest = parts.drop_last();
        if i == parts.len() - 1 {
            lemma_occurs_in_self(parts.last());
            lemma_occurs_in_right(parts.last(), join_seqs(rest, sep) + sep, parts.last());
        } else {
            lemma_join_holds_parts(rest, sep, i);
            assert(rest[i] == parts[i]);
            lemma_occurs_in_left(parts[i], join_seqs(rest, sep), sep);
            lemma_occurs_in_left(parts[i], join_seqs(rest, sep) + sep, parts.last());
        }
    }
}

pub fn join(list: &Vec<String>, sep: &str) -> (r: String)
    ensures
        r@ == join_seqs(views(list@), sep@),
{
    let mut r = String::new();
    let mut i: usize = 0;
    while i < list.len()
        invariant
            i <= list.len(),
            r@ == join_seqs(views(list@.take(i as int)), sep@),
        decreases list.len() - i,
    {
        if i != 0 {
            r.append(sep);
        }
        r.append(list[i].as_str());
        i = i + 1;
        assert(views(list@.take(i as int)).drop_last() =~= views(list@.take(i - 1)));
    }
    assert(list@.take(list.len() as int) =~= list@);
    r
}

/// Which chars split a string into parts.
#[derive(Clone, Copy, PartialEq, Eq, Debug)]
pub enum Separator {
    NonAlphanumeric,
    Newline,
    Slash,
}

pub open spec fn separates(sep: Separator, c: char) -> bool {
    match sep {
        Separator::NonAlphanumeric => !is_ascii_alphanumeric(c),
        Separator::Newline => c == '\n',
        Separator::Slash => c == '/',
    }
}

pub fn separates_char(sep: Separator, c: char) -> (r: bool)
    ensures
        r == separates(sep, c),
{
    match sep {
        Separator::NonAlphanumeric => !is_alphanumeric_char(c),
        Separator::Newline => c == '\n',
        Separator::Slash => c == '/',
    }
}

/// The parts between separators, empty parts included, as `str::split` gives them.
pub open spec fn split_on(s: Seq<char>, sep: Separator) -> Seq<Seq<char>>
    decreases s.len(),
{
    if s.len() == 0 {
        seq![Seq::empty()]
    } else {
        let parts = split_on(s.drop_last(), sep);
        if separates(sep, s.last()) {
            parts.push(Seq::empty())
        } else {
            parts.update(parts.len() - 1, parts.last().push(s.last()))
        }
    }
}

pub fn split(s: &str, sep: Separator) -> (r: Vec<String>)
    ensures
        views(r@) == split_on(s@, sep),
{
    let cs = chars_of(s);
    let mut parts: Vec<String> = Vec::new();
    let mut cur = String::new();
    let mut i: usize = 0;
    assert(s@.take(0) =~= Seq::<char>::empty());
    assert(views(parts@).push(cur@) =~= split_on(s@.take(0), sep));
    while i < cs.len()
        invariant
            i <= cs.len(),
            cs@ == s@,
            views(parts@).push(cur@) == split_on(s@.take(i as int), sep),
        decreases cs.len() - i,
    {
        let c = cs[i];
        let ghost before = views(parts@).push(cur@);
        assert(s@.take(i + 1).drop_last() =~= s@.take(i as int));
        if separates_char(sep, c) {
            parts.push(cur);
            cur = String::new();
            assert(views(parts@).push(cur@) =~= before.push(Seq::empty()));
        } else {
            push_char(&mut cur, c);
            assert(views(parts@).push(cur@) =~= before.update(
                before.len() - 1,
                before.last().push(c),
            ));
        }
        i = i + 1;
    }
    parts.push(cur);
    assert(s@.take(cs.len() as int) =~= s@);
    parts
}

pub open spec fn nonempty_parts(parts: Seq<Seq<char>>) -> Seq<Seq<char>> {
    parts.filter(|p: Seq<char>| p.len() > 0)
}

pub fn keep_nonempty(parts: Vec<String>) -> (r: Vec<String>)
    ensures
        views(r@) == nonempty_parts(views(parts@)),
{
    let mut r: Vec<String> = Vec::new();
    let mut i: usize = 0;
    assert(views(parts@.take(0)) =~= Seq::<Seq<char>>::empty());
    proof {
        reveal_with_fuel(Seq::filter, 1);
    }
    while i < parts.len()
        invariant
            i <= parts.len(),
            views(r@) == nonempty_parts(views(parts@.take(i as int))),
        decreases parts.len() - i,
    {
        let p = &parts[i];
        assert(views(parts@.take(i + 1)) =~= views(parts@.take(i as int)).push(p@));
        proof {
            views(parts@.take(i as int)).lemma_filter_push(p@, |p: Seq<char>| p.len() > 0);
        }
        if !p.as_str().is_empty() {
            let q = owned(p.as_str());
            r.push(q);
            assert(views(r@) =~= nonempty_parts(views(parts@.take(i as int))).push(p@));
        }
        i = i + 1;
    }
    assert(parts@.take(parts.len() as int) =~= parts@);
    r
}

pub open spec fn trim_start(s: Seq<char>) -> Seq<char>
    decreases s.len(),
{
    if s.len() > 0 && is_white_space(s[0]) {
        trim_start(s.drop_first())
    } else {
        s
    }
}

pub open spec fn trim_end(s: Seq<char>) -> Seq<char>
    decreases s.len(),
{
    if s.len() > 0 && is_white_space(s.last()) {
        trim_end(s.drop_last())
    } else {
        s
    }
}

/// `s` without leading and trailing white space, as `str::trim` gives it.
pub open spec fn trim_chars(s: Seq<char>) -> Seq<char> {
    trim_end(trim_start(s))
}

pub fn trim(s: &str) -> (r: String)
    ensures
        r@ == trim_chars(s@),
{
    let cs = chars_of(s);
    let n = cs.len();
    let mut start: usize = 0;
    assert(cs@.subrange(0, n as int) =~= cs@);
    while start < n && is_white_space_char(cs[start])
        invariant
            start <= n == cs.len(),
            cs@ == s@,
            trim_start(s@) == trim_start(cs@.subrange(start as int, n as int)),
        decreases n - start,
    {
        assert(cs@.subrange(start as int, n as int).drop_first() =~= cs@.subrange(
            start + 1,
            n as int,
        ));
        start = start + 1;
    }
    let mut end: usize = n;
    while end > start && is_white_space_char(cs[end - 1])
        invariant
            start <= end <= n == cs.len(),
            cs@ == s@,
            trim_start(s@) == cs@.subrange(start as int, n as int),
            trim_chars(s@) == trim_end(cs@.subrange(start as int, end as int)),
        decreases end - start,
    {
        assert(cs@.subrange(start as int, end as int).drop_last() =~= cs@.subrange(
            start as int,
            end - 1,
        ));
        end = end - 1;
    }
    string_of_range(&cs, start, end)
}

// ---------------------------------------------------------------------------
// Numbers
// ---------------------------------------------------------------------------

pub open spec fn digit_char(d: nat) -> char {
    (48 + d) as char
}

/// The decimal digits of `n`, as `Display` writes an unsigned integer.
pub open spec fn decimal(n: nat) -> Seq<char>
    decreases n,
{
    if n < 10 {
        seq![digit_char(n)]
    } else {
        decimal(n / 10).push(digit_char(n % 10))
    }
}

fn push_decimal(r: &mut String, n: u128)
    ensures
        final(r)@ == old(r)@ + decimal(n as nat),
    decreases n,
{
    if n >= 10 {
        push_decimal(r, n / 10);
    }
    let d: u8 = (n % 10) as u8;
    push_char(r, (48u8 + d) as char);
    assert(old(r)@ + decimal(n as nat) =~= if n >= 10 {
        old(r)@ + decimal((n / 10) as nat) + seq![digit_char((n % 10) as nat)]
    } else {
        old(r)@ + seq![digit_char(n as nat)]
    });
}

pub fn decimal_string(n: u128) -> (r: String)
    ensures
        r@ == decimal(n as nat),
{
    let mut r = String::new();
    push_decimal(&mut r, n);
    assert(Seq::<char>::empty() + decimal(n as nat) =~= decimal(n as nat));
    r
}

} // verus!
