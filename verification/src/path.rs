//! Paths as text: separators, final components, parents, and the placement
//! of an absolute path below another root.
//!
//! A path is modelled by its characters. Nothing here touches a file system:
//! `.` and `..` are not resolved and repeated separators are kept as written.

use vstd::prelude::*;
use crate::text::chars_of;

verus! {

/// The character that separates the components of a path.
pub const SEPARATOR: char = '/';

/// An absolute path begins with a separator.
pub open spec fn is_absolute(path: Seq<char>) -> bool {
    path.len() > 0 && path[0] == SEPARATOR
}

/// Where the final component of `path` begins: just past its last separator,
/// or at 0 if it holds none.
pub open spec fn name_start(path: Seq<char>) -> int
    decreases path.len(),
{
    if path.len() == 0 || path.last() == SEPARATOR {
        path.len() as int
    } else {
        name_start(path.drop_last())
    }
}

/// What follows the last separator of `path`. Empty if the path ends in one.
pub open spec fn final_component(path: Seq<char>) -> Seq<char> {
    path.skip(name_start(path))
}

/// A final component that can name a directory entry: not empty, not `.`
/// and not `..`.
pub open spec fn names_an_entry(component: Seq<char>) -> bool {
    component.len() > 0 && component != seq!['.'] && component != seq!['.', '.']
}

/// The file name of `path`, if its final component is one.
pub open spec fn file_name(path: Seq<char>) -> Option<Seq<char>> {
    if names_an_entry(final_component(path)) {
        Some(final_component(path))
    } else {
        None
    }
}

/// What precedes the last separator of `path`. Empty if the path holds no
/// separator, or only a leading one.
pub open spec fn parent(path: Seq<char>) -> Seq<char> {
    if name_start(path) == 0 {
        Seq::empty()
    } else {
        path.take(name_start(path) - 1)
    }
}

/// `base`, a separator, then `rest`.
pub open spec fn join(base: Seq<char>, rest: Seq<char>) -> Seq<char> {
    base + seq![SEPARATOR] + rest
}

/// The place of the absolute path `path` when `root` stands for the root of
/// the file system: the leading separator is stripped and what is left is
/// joined to `root`.
pub open spec fn rebase(root: Seq<char>, path: Seq<char>) -> Seq<char> {
    join(root, path.skip(1))
}

/// `path` as read from the directory `base`. An absolute path stands for
/// itself, and so does any path where no base is given. A relative path is
/// appended to the base, after a separator unless the base ends in one.
pub open spec fn resolve(base: Seq<char>, path: Seq<char>) -> Seq<char> {
    if is_absolute(path) || base.len() == 0 {
        path
    } else if base.last() == SEPARATOR {
        base + path
    } else {
        join(base, path)
    }
}

/// `name_start` is the one index that has no separator at or after it and a
/// separator just before it (or is 0).
pub proof fn lemma_name_start(path: Seq<char>)
    ensures
        0 <= name_start(path) <= path.len(),
        forall|i: int| name_start(path) <= i < path.len() ==> path[i] != SEPARATOR,
        name_start(path) > 0 ==> path[name_start(path) - 1] == SEPARATOR,
    decreases path.len(),
{
    if path.len() == 0 || path.last() == SEPARATOR {
    } else {
        let init = path.drop_last();
        lemma_name_start(init);
        assert forall|i: int| name_start(path) <= i < path.len() implies path[i] != SEPARATOR by {
            if i < init.len() {
                assert(path[i] == init[i]);
            }
        }
    }
}

/// The final component holds no separator, and the path is its parent, a
/// separator and the final component whenever it holds a separator at all.
pub proof fn lemma_parent_and_name(path: Seq<char>)
    ensures
        !final_component(path).contains(SEPARATOR),
        name_start(path) > 0 ==> path == join(parent(path), final_component(path)),
        name_start(path) == 0 ==> path == final_component(path),
{
    lemma_name_start(path);
    let k = name_start(path);
    let name = final_component(path);
    assert forall|i: int| 0 <= i < name.len() implies name[i] != SEPARATOR by {
        assert(name[i] == path[k + i]);
    }
    if k > 0 {
        assert(path =~= join(parent(path), name));
    } else {
        assert(path =~= name);
    }
}

/// For an absolute path, rebasing is plain concatenation: the path keeps
/// its whole text below the new root.
pub proof fn lemma_rebase_absolute(root: Seq<char>, path: Seq<char>)
    requires
        is_absolute(path),
    ensures
        rebase(root, path) == root + path,
{
    assert(rebase(root, path) =~= root + path);
}

/// Whether `path` begins with a separator.
pub fn is_absolute_path(path: &str) -> (absolute: bool)
    ensures
        absolute == is_absolute(path@),
{
    let chars = chars_of(path);
    chars.len() > 0 && chars[0] == SEPARATOR
}

/// The index at which the final component of `chars` begins.
pub fn name_start_of(chars: &Vec<char>) -> (start: usize)
    ensures
        start == name_start(chars@),
{
    let mut start: usize = chars.len();
    assert(chars@.take(start as int) == chars@);
    while start > 0 && chars[start - 1] != SEPARATOR
        invariant
            start <= chars.len(),
            name_start(chars@) == name_start(chars@.take(start as int)),
        decreases start,
    {
        assert(chars@.take(start as int).drop_last() == chars@.take(start - 1));
        start -= 1;
    }
    start
}

/// The file name of `path`: its final component, unless that is empty, `.`
/// or `..`.
pub fn file_name_of(path: &str) -> (name: Option<String>)
    ensures
        name.deep_view() == file_name(path@),
{
    let chars = chars_of(path);
    let start = name_start_of(&chars);
    proof {
        lemma_name_start(path@);
    }
    let len = chars.len();
    let ghost component = final_component(path@);
    assert(component.len() == len - start);
    assert(forall|i: int| 0 <= i < component.len() ==> component[i] == chars@[start + i]);
    let dots = (len - start == 1 && chars[start] == '.') || (len - start == 2 && chars[start]
        == '.' && chars[start + 1] == '.');
    proof {
        let one = seq!['.'];
        let two = seq!['.', '.'];
        assert(one.len() == 1 && one[0] == '.');
        assert(two.len() == 2 && two[0] == '.' && two[1] == '.');
        if len - start == 1 {
            assert(component[0] == chars@[start as int]);
            if dots {
                assert(component =~= one);
            }
        }
        if len - start == 2 {
            assert(component[0] == chars@[start as int]);
            assert(component[1] == chars@[start + 1]);
            if dots {
                assert(component =~= two);
            }
        }
        assert(dots == (component == one || component == two));
    }
    if len == start || dots {
        None
    } else {
        let name = path.substring_char(start, len);
        assert(name@ == component);
        Some(name.to_owned())
    }
}

/// The parent of `path`: what precedes its last separator.
pub fn parent_of(path: &str) -> (dir: String)
    ensures
        dir@ == parent(path@),
{
    let chars = chars_of(path);
    let start = name_start_of(&chars);
    proof {
        lemma_name_start(path@);
    }
    if start == 0 {
        String::new()
    } else {
        path.substring_char(0, start - 1).to_owned()
    }
}

/// The place of `path` below `root`, for an absolute `path`.
pub fn rebase_under(root: &str, path: &str) -> (placed: String)
    requires
        is_absolute(path@),
    ensures
        placed@ == rebase(root@, path@),
        placed@ == root@ + path@,
{
    proof {
        lemma_rebase_absolute(root@, path@);
    }
    let mut placed = root.to_owned();
    placed.append(path);
    placed
}

/// `base`, a separator, then `rest`.
pub fn join_paths(base: &str, rest: &str) -> (joined: String)
    ensures
        joined@ == join(base@, rest@),
{
    proof {
        reveal_strlit("/");
    }
    let mut joined = base.to_owned();
    joined.append("/");
    assert("/"@ == seq![SEPARATOR]);
    joined.append(rest);
    joined
}

/// `path` as read from the directory `base`.
pub fn resolve_from(base: &str, path: &str) -> (resolved: String)
    ensures
        resolved@ == resolve(base@, path@),
{
    let start = chars_of(base);
    if is_absolute_path(path) || start.len() == 0 {
        path.to_owned()
    } else if start[start.len() - 1] == SEPARATOR {
        let mut resolved = base.to_owned();
        resolved.append(path);
        resolved
    } else {
        join_paths(base, path)
    }
}

} // verus!
