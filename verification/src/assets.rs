//! Finding `assets/`.
//!
//! The root is resolved once, explicitly, from a list of candidate base
//! directories in order of authority (an explicit override, the source tree,
//! the directory of the binary, the working directory): the first whose
//! `assets` directory exists wins, and if none does, the last candidate's is
//! returned so the asset server reports a sensible path when it complains.
//! Gathering the candidates and asking the disk which directories exist is
//! the caller's part; choosing among them is [`pick_root`].

use vstd::prelude::*;


verus! {

/// `rel` resolved against `base` the way `Path::join` does on Unix: an
/// absolute `rel` replaces `base`, an empty `base` adds nothing, and
/// otherwise a single `/` separates the two.
pub open spec fn joined(base: Seq<char>, rel: Seq<char>) -> Seq<char> {
    if rel.len() > 0 && rel[0] == '/' {
        rel
    } else if base.len() == 0 {
        rel
    } else if base.last() == '/' {
        base + rel
    } else {
        base + seq!['/'] + rel
    }
}

/// The root picked from the `assets` directories of the candidates, given
/// which of them exist: the first that exists; failing that the last; and
/// plain `assets` when there were no candidates at all.
pub open spec fn picked_root(dirs: Seq<Seq<char>>, exists: Seq<bool>) -> Seq<char>
    decreases dirs.len(),
{
    if dirs.len() == 0 {
        "assets"@
    } else if exists.len() > 0 && exists[0] {
        dirs[0]
    } else if dirs.len() == 1 {
        dirs[0]
    } else {
        picked_root(dirs.drop_first(), exists.drop_first())
    }
}

/// `std::path::Path::is_file`: whether a regular file exists at `path`
/// right now (following symbolic links; any error reading its metadata
/// answers `false`). What it answers depends on the disk, so nothing is stated of it.
#[verifier::external_body]
fn is_existing_file(path: &str) -> bool {
    std::path::Path::new(path).is_file()
}

/// `rel` resolved against `base`.
pub fn join(base: &str, rel: &str) -> (path: String)
    ensures
        path@ == joined(base@, rel@),
{
    let rel_len = rel.unicode_len();
    let base_len = base.unicode_len();
    if rel_len > 0 && rel.get_char(0) == '/' {
        return String::from_str(rel);
    }
    if base_len == 0 {
        return String::from_str(rel);
    }
    let mut path = String::from_str(base);
    if base.get_char(base_len - 1) != '/' {
        let sep = "/";
        proof {
            reveal_strlit("/");
        }
        path.append(sep);
    }
    path.append(rel);
    path
}

/// The root among `dirs` given which of them `exists`.
pub fn pick_root(dirs: &Vec<String>, exists: &Vec<bool>) -> (root: String)
    requires
        exists@.len() == dirs@.len(),
    ensures
        root@ == picked_root(dirs@.map_values(|d: String| d@), exists@),
{
    let ghost all = dirs@.map_values(|d: String| d@);
    let n = dirs.len();
    if n == 0 {
        return String::from_str("assets");
    }
    let mut i: usize = 0;
    assert(all.subrange(0, n as int) =~= all);
    assert(exists@.subrange(0, n as int) =~= exists@);
    while i + 1 < n && !exists[i]
        invariant
            n == dirs@.len(),
            exists@.len() == n,
            all == dirs@.map_values(|d: String| d@),
            i < n,
            picked_root(all, exists@) == picked_root(all.subrange(i as int, n as int), exists@.subrange(i as int, n as int)),
        decreases n - i,
    {
        proof {
            let d = all.subrange(i as int, n as int);
            let e = exists@.subrange(i as int, n as int);
            assert(d.drop_first() =~= all.subrange(i + 1, n as int));
            assert(e.drop_first() =~= exists@.subrange(i + 1, n as int));
        }
        i = i + 1;
    }
    proof {
        let d = all.subrange(i as int, n as int);
        assert(d[0] == dirs@[i as int]@);
    }
    dirs[i].clone()
}

/// Whether `path`, relative to `root`, names an existing regular file. The answer
/// comes from the disk; what is asked is `root` joined with `path`.
pub fn has(root: &str, path: &str) -> bool {
    let full = join(root, path);
    is_existing_file(full.as_str())
}

} // verus!
