//! Filesystem paths, held as `/`-separated strings.

use vstd::prelude::*;
use vstd::string::StringExecFns;

use crate::text::{owned, split, split_on, str_eq, views, Separator};

verus! {

/// `base` joined with `part` as `Path::join` joins them on Unix: an absolute
/// `part` replaces `base`; otherwise one `/` goes between the two unless `base`
/// is empty or already ends in `/`.
pub open spec fn join_path(base: Seq<char>, part: Seq<char>) -> Seq<char> {
    if part.len() > 0 && part[0] == '/' {
        part
    } else if base.len() == 0 || base.last() == '/' {
        base + part
    } else {
        base + "/"@ + part
    }
}

pub open spec fn is_named_component(c: Seq<char>) -> bool {
    c.len() > 0 && c != "."@
}

/// The components of a path that carry a name: neither empty (from repeated or
/// trailing `/`) nor `.`.
pub open spec fn named_components(p: Seq<char>) -> Seq<Seq<char>> {
    split_on(p, Separator::Slash).filter(|c: Seq<char>| is_named_component(c))
}

/// The final component of a path, as `Path::file_name` gives it: none for an
/// empty path, for `/`, or when the path ends in `..`.
pub open spec fn file_name_of(p: Seq<char>) -> Option<Seq<char>> {
    let cs = named_components(p);
    if cs.len() == 0 || cs.last() == ".."@ {
        None
    } else {
        Some(cs.last())
    }
}

pub fn path_join(base: &str, part: &str) -> (r: String)
    ensures
        r@ == join_path(base@, part@),
{
    let absolute = !part.is_empty() && part.get_char(0) == '/';
    if absolute {
        return owned(part);
    }
    let mut r = owned(base);
    if !base.is_empty() {
        let n = base.unicode_len();
        if base.get_char(n - 1) != '/' {
            r.append("/");
        }
    }
    r.append(part);
    r
}

pub fn file_name(path: &str) -> (r: Option<String>)
    ensures
        match r {
            Some(name) => file_name_of(path@) == Some(name@),
            None => file_name_of(path@) is None,
        },
{
    let parts = split(path, Separator::Slash);
    let ghost all = views(parts@);
    let mut named: Vec<String> = Vec::new();
    let mut i: usize = 0;
    proof {
        reveal_with_fuel(Seq::filter, 1);
    }
    assert(all.take(0) =~= Seq::<Seq<char>>::empty());
    while i < parts.len()
        invariant
            i <= parts.len(),
            all == views(parts@),
            views(named@) == all.take(i as int).filter(|c: Seq<char>| is_named_component(c)),
        decreases parts.len() - i,
    {
        let part = &parts[i];
        assert(all.take(i + 1) =~= all.take(i as int).push(part@));
        proof {
            all.take(i as int).lemma_filter_push(part@, |c: Seq<char>| is_named_component(c));
        }
        if !part.as_str().is_empty() && !str_eq(part.as_str(), ".") {
            named.push(owned(part.as_str()));
            assert(views(named@) =~= all.take(i as int).filter(
                |c: Seq<char>| is_named_component(c),
            ).push(part@));
        }
        i = i + 1;
    }
    assert(all.take(parts.len() as int) =~= all);
    if named.len() == 0 {
        return None;
    }
    let last = &named[named.len() - 1];
    if str_eq(last.as_str(), "..") {
        None
    } else {
        Some(owned(last.as_str()))
    }
}

/// A file name is never empty.
pub proof fn lemma_file_name_non_empty(p: Seq<char>)
    ensures
        file_name_of(p) matches Some(name) ==> name.len() > 0,
{
    let cs = named_components(p);
    if cs.len() > 0 {
        split_on(p, Separator::Slash).lemma_filter_pred(|c: Seq<char>| is_named_component(c), cs.len() - 1);
    }
}

} // verus!
