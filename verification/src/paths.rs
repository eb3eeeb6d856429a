//! The path authority: containment of destination paths in the authorized
//! save directory.
//!
//! All paths handled here are expected in canonical form — absolute, with
//! symlinks resolved — as produced by the caller's canonicalization step.
//! The containment check is the subsystem's sole protection against
//! directory-traversal and symlink escape, and it must succeed before any
//! write side effect is performed.

use vstd::prelude::*;

use crate::errors::ScreenshotError;
use crate::strutil::str_starts_with;

verus! {

/// Whether the canonical path `target` is a strict descendant of the
/// canonical directory `dir`: it extends `dir` at a component boundary.
/// The directory itself does not count — it is no file destination.
pub open spec fn path_within(dir: Seq<char>, target: Seq<char>) -> bool {
    dir.len() < target.len() && target.subrange(0, dir.len() as int) == dir && (target[dir.len() as int]
        == '/' || (dir.len() > 0 && dir[dir.len() - 1] == '/'))
}

/// Decides `path_within` on canonical path strings.
pub fn path_contains(dir: &str, target: &str) -> (r: bool)
    ensures
        r == path_within(dir@, target@),
{
    if !str_starts_with(target, dir) {
        return false;
    }
    let dlen = dir.unicode_len();
    let tlen = target.unicode_len();
    if dlen >= tlen {
        return false;
    }
    if target.get_char(dlen) == '/' {
        return true;
    }
    dlen > 0 && dir.get_char(dlen - 1) == '/'
}

/// A destination that has passed the containment check against its save
/// directory. Holding one is the evidence that writing to `path` stays
/// inside `save_dir`.
pub struct ResolvedPath {
    /// The canonical destination path.
    pub path: String,
    /// The canonical save directory that contains it.
    pub save_dir: String,
}

impl ResolvedPath {
    /// The core security invariant: the destination lies within the
    /// save directory.
    pub open spec fn wf(self) -> bool {
        path_within(self.save_dir@, self.path@)
    }
}

/// Validates a canonical destination path against the canonical save
/// directory. Returns the resolved destination exactly when the path is
/// a strict descendant of the directory, and a `PathEscape` error naming
/// both paths otherwise. No filesystem effect takes place here.
pub fn validate_destination(save_dir_canonical: &str, target_canonical: &str) -> (r: Result<
    ResolvedPath,
    ScreenshotError,
>)
    ensures
        r is Ok <==> path_within(save_dir_canonical@, target_canonical@),
        r matches Ok(rp) ==> rp.wf() && rp.path@ == target_canonical@ && rp.save_dir@
            == save_dir_canonical@,
        r matches Err(e) ==> (e matches ScreenshotError::PathEscape { target, save_dir }
            && target@ == target_canonical@ && save_dir@ == save_dir_canonical@),
{
    if path_contains(save_dir_canonical, target_canonical) {
        Ok(
            ResolvedPath {
                path: String::from_str(target_canonical),
                save_dir: String::from_str(save_dir_canonical),
            },
        )
    } else {
        Err(
            ScreenshotError::PathEscape {
                target: String::from_str(target_canonical),
                save_dir: String::from_str(save_dir_canonical),
            },
        )
    }
}

/// `dir` and `name` joined with a single separator: `name` is appended
/// directly when `dir` already ends in `/`, and after a `/` otherwise.
pub open spec fn join_seq(dir: Seq<char>, name: Seq<char>) -> Seq<char> {
    if dir.len() > 0 && dir[dir.len() - 1] == '/' {
        dir + name
    } else {
        dir + seq!['/'] + name
    }
}

/// Joins a directory and a file name with a single separator.
pub fn join_path(dir: &str, name: &str) -> (r: String)
    ensures
        r@ == join_seq(dir@, name@),
{
    let dlen = dir.unicode_len();
    let mut s = String::from_str(dir);
    if dlen == 0 || dir.get_char(dlen - 1) != '/' {
        s.append("/");
        proof {
            reveal_strlit("/");
            assert(s@ =~= dir@ + seq!['/']);
        }
    }
    s.append(name);
    proof {
        if dir@.len() > 0 && dir@[dir@.len() - 1] == '/' {
            assert(s@ =~= dir@ + name@);
        } else {
            assert(s@ =~= dir@ + seq!['/'] + name@);
        }
    }
    s
}

/// Splits a path into the directory part (kept up to and including the
/// final separator) and the non-empty file name after it.
///
/// Returns `None` when the path is empty, ends in a separator, or holds
/// no separator at all — the cases in which no file name can be split
/// off. Used to validate a destination that does not exist yet: the
/// caller canonicalizes the directory part instead and re-appends the
/// file name.
pub fn split_parent_file(path: &str) -> (r: Option<(String, String)>)
    ensures
        r is Some <==> (path@.len() > 0 && path@.last() != '/' && (exists|j: int|
            0 <= j < path@.len() && path@[j] == '/')),
        r matches Some(p) ==> {
            &&& p.0@.len() > 0
            &&& p.0@.last() == '/'
            &&& p.1@.len() > 0
            &&& forall|j: int| 0 <= j < p.1@.len() ==> p.1@[j] != '/'
            &&& path@ == p.0@ + p.1@
            &&& path@ == join_seq(p.0@, p.1@)
        },
{
    let len = path.unicode_len();
    if len == 0 {
        return None;
    }
    if path.get_char(len - 1) == '/' {
        return None;
    }
    let mut i: usize = len;
    while i > 0 && path.get_char(i - 1) != '/'
        invariant
            0 <= i <= len,
            len == path@.len(),
            forall|j: int| i <= j < len ==> path@[j] != '/',
        decreases i,
    {
        i -= 1;
    }
    if i == 0 {
        proof {
            assert(forall|j: int| 0 <= j < path@.len() ==> path@[j] != '/');
        }
        return None;
    }
    proof {
        assert(path@[i - 1] == '/');
        assert(i < len) by {
            assert(path@[len - 1] != '/');
        }
    }
    let parent = path.substring_char(0, i);
    let name = path.substring_char(i, len);
    proof {
        assert(path@ =~= path@.subrange(0, i as int) + path@.subrange(i as int, len as int));
        assert(path@.subrange(0, i as int).last() == '/');
    }
    Some((String::from_str(parent), String::from_str(name)))
}

} // verus!
