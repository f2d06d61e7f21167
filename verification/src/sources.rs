//! Source-set assembly: filtering directory entries into the list of C
//! source files handed to the compiler.
//!
//! Two policies exist.  The bundled-tree policy trusts the tree and keeps
//! every regular file.  The arbitrary-tree policy keeps only `.c` files and
//! drops the interpreter's two executable entry points (`lua.c`, `luac.c`),
//! which hold a competing program entry point and must never be linked into
//! an embeddable library.  Neither policy descends into subdirectories.

use vstd::prelude::*;
use crate::strutil::{ends_with_seq, str_ends_with, str_eq};

verus! {

/// Classification of one directory entry.
#[derive(Debug, Clone, Copy, PartialEq, Eq, Structural)]
pub enum EntryKind {
    /// A regular file.
    File,
    /// A directory.
    Directory,
    /// Anything else (symlink, device, ...).
    Other,
}

/// One directory entry, as plain values: its classification, its file name
/// where it could be read as text, and its full path.
#[derive(Debug)]
pub struct SrcEntry {
    pub kind: EntryKind,
    pub name: Option<String>,
    pub path: String,
}

/// The arbitrary-tree policy keeps an entry exactly when it is a regular
/// file, its name is readable text, the name ends in `.c`, and the name is
/// neither of the two executable entry points.
pub open spec fn keeps_lua_source(e: SrcEntry) -> bool {
    &&& e.kind is File
    &&& e.name is Some
    &&& ends_with_seq(e.name->0@, ".c"@)
    &&& e.name->0@ != "lua.c"@
    &&& e.name->0@ != "luac.c"@
}

/// The bundled-tree policy keeps an entry exactly when it is a regular file.
pub open spec fn keeps_bundled_source(e: SrcEntry) -> bool {
    e.kind is File
}

/// The paths the arbitrary-tree policy keeps, in directory order.
pub open spec fn lua_kept_paths(s: Seq<SrcEntry>) -> Seq<Seq<char>>
    decreases s.len(),
{
    if s.len() == 0 {
        Seq::<Seq<char>>::empty()
    } else if keeps_lua_source(s.last()) {
        lua_kept_paths(s.drop_last()).push(s.last().path@)
    } else {
        lua_kept_paths(s.drop_last())
    }
}

/// The paths the bundled-tree policy keeps, in directory order.
pub open spec fn bundled_kept_paths(s: Seq<SrcEntry>) -> Seq<Seq<char>>
    decreases s.len(),
{
    if s.len() == 0 {
        Seq::<Seq<char>>::empty()
    } else if keeps_bundled_source(s.last()) {
        bundled_kept_paths(s.drop_last()).push(s.last().path@)
    } else {
        bundled_kept_paths(s.drop_last())
    }
}

/// Decide the arbitrary-tree policy for one entry.
pub fn keep_lua_source(e: &SrcEntry) -> (r: bool)
    ensures
        r == keeps_lua_source(*e),
{
    match e.kind {
        EntryKind::File => match &e.name {
            Some(n) => str_ends_with(n.as_str(), ".c") && !str_eq(n.as_str(), "lua.c") && !str_eq(
                n.as_str(),
                "luac.c",
            ),
            None => false,
        },
        _ => false,
    }
}

/// Decide the bundled-tree policy for one entry.
pub fn keep_bundled_source(e: &SrcEntry) -> (r: bool)
    ensures
        r == keeps_bundled_source(*e),
{
    match e.kind {
        EntryKind::File => true,
        _ => false,
    }
}

/// A pushed element extends a path list's model by the element's model.
proof fn lemma_paths_push(pre: Vec<String>, post: Vec<String>, x: String)
    requires
        post@ == pre@.push(x),
    ensures
        post.deep_view() == pre.deep_view().push(x@),
{
    assert forall|k: int| 0 <= k < post@.len() implies post.deep_view()[k] == pre.deep_view().push(
        x@,
    )[k] by {
        if k < pre@.len() {
            assert(post@[k] == pre@[k]);
        } else {
            assert(post@[k] == x);
        }
    }
    assert(post.deep_view() =~= pre.deep_view().push(x@));
}

/// The file paths the arbitrary-tree policy keeps out of `entries`, in
/// order: exactly the regular `.c` files that are not an executable entry
/// point.
pub fn lua_source_paths(entries: &Vec<SrcEntry>) -> (r: Vec<String>)
    ensures
        r.deep_view() == lua_kept_paths(entries@),
{
    let mut r: Vec<String> = Vec::new();
    proof {
        assert(r.deep_view() =~= lua_kept_paths(entries@.take(0)));
    }
    let mut i: usize = 0;
    while i < entries.len()
        invariant
            i <= entries@.len(),
            r.deep_view() == lua_kept_paths(entries@.take(i as int)),
        decreases entries@.len() - i,
    {
        proof {
            assert(entries@.take(i + 1).drop_last() =~= entries@.take(i as int));
            assert(entries@.take(i + 1).last() == entries@[i as int]);
        }
        if keep_lua_source(&entries[i]) {
            let ghost pre = r;
            let p = entries[i].path.clone();
            proof {
                assert(p == entries@[i as int].path);
            }
            r.push(p);
            proof {
                lemma_paths_push(pre, r, p);
            }
        }
        i = i + 1;
    }
    proof {
        assert(entries@.take(entries@.len() as int) =~= entries@);
    }
    r
}

/// The file paths the bundled-tree policy keeps out of `entries`, in order:
/// exactly the regular files, whatever their extension.
pub fn bundled_source_paths(entries: &Vec<SrcEntry>) -> (r: Vec<String>)
    ensures
        r.deep_view() == bundled_kept_paths(entries@),
{
    let mut r: Vec<String> = Vec::new();
    proof {
        assert(r.deep_view() =~= bundled_kept_paths(entries@.take(0)));
    }
    let mut i: usize = 0;
    while i < entries.len()
        invariant
            i <= entries@.len(),
            r.deep_view() == bundled_kept_paths(entries@.take(i as int)),
        decreases entries@.len() - i,
    {
        proof {
            assert(entries@.take(i + 1).drop_last() =~= entries@.take(i as int));
            assert(entries@.take(i + 1).last() == entries@[i as int]);
        }
        if keep_bundled_source(&entries[i]) {
            let ghost pre = r;
            let p = entries[i].path.clone();
            proof {
                assert(p == entries@[i as int].path);
            }
            r.push(p);
            proof {
                lemma_paths_push(pre, r, p);
            }
        }
        i = i + 1;
    }
    proof {
        assert(entries@.take(entries@.len() as int) =~= entries@);
    }
    r
}

} // verus!
