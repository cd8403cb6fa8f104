//! Path resolution against the build's output root.
//!
//! Every path embedded in generated runtime code is expressed relative to
//! the output root, never as an absolute build path. A path is expressible
//! relative to the root exactly when it equals the root or lies under it at a
//! `/` boundary (or the root is empty); anything else lies outside the
//! output tree.

use vstd::prelude::*;
use vstd::string::StrSliceExecFns;

verus! {

/// The path of `path` relative to `root`: the whole path under an empty root,
/// the empty path when the two are equal, the remainder after `root` and one
/// `/` when `path` lies under `root` at a component boundary, and nothing
/// otherwise.
pub open spec fn rel_path(root: Seq<char>, path: Seq<char>) -> Option<Seq<char>> {
    if root.len() == 0 {
        Some(path)
    } else if path == root {
        Some(Seq::<char>::empty())
    } else if root.len() < path.len() && path.take(root.len() as int) == root && path[root.len() as int]
        == '/' {
        Some(path.skip(root.len() as int + 1))
    } else {
        None
    }
}

/// Resolves `path` relative to `root`, returning nothing when `path` cannot
/// be expressed relative to `root`.
pub fn relative_path(root: &str, path: &str) -> (r: Option<String>)
    ensures
        r.deep_view() == rel_path(root@, path@),
{
    let root_len = root.unicode_len();
    let path_len = path.unicode_len();
    if root_len == 0 {
        return Some(path.to_owned());
    }
    if root_len > path_len {
        return None;
    }
    let mut i: usize = 0;
    while i < root_len
        invariant
            i <= root_len,
            root_len == root@.len(),
            path_len == path@.len(),
            root_len <= path_len,
            0 < root_len,
            forall|j: int| 0 <= j < i ==> path@[j] == root@[j],
        decreases root_len - i,
    {
        if path.get_char(i) != root.get_char(i) {
            proof {
                assert(path@.take(root_len as int)[i as int] != root@[i as int]);
                assert(path@.take(root_len as int) != root@);
                assert(path@ != root@) by {
                    if path@ == root@ {
                        assert(path@[i as int] == root@[i as int]);
                    }
                }
            }
            return None;
        }
        i += 1;
    }
    proof {
        assert(path@.take(root_len as int) =~= root@);
    }
    if root_len == path_len {
        proof {
            assert(path@ =~= root@);
        }
        return Some(String::new());
    }
    if path.get_char(root_len) == '/' {
        let tail = path.substring_char(root_len + 1, path_len);
        proof {
            assert(tail@ =~= path@.skip(root_len as int + 1));
            assert(path@ != root@);
        }
        Some(tail.to_owned())
    } else {
        proof {
            assert(path@ != root@);
        }
        None
    }
}

} // verus!
