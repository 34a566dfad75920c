//! File paths as sequences of characters, with `/` between their components.

use vstd::prelude::*;

verus! {

/// How many characters stand before the components of a path: the slash of an
/// absolute path, or the dot of one that starts in the current directory.
pub open spec fn body_start(path: Seq<char>) -> int {
    if path.len() > 0 && (path[0] == '/' || (path[0] == '.' && (path.len() == 1 || path[1]
        == '/'))) {
        1
    } else {
        0
    }
}

/// Where the component that ends at `n` starts.
pub open spec fn component_start(path: Seq<char>, n: int) -> int
    decreases n,
{
    if n <= body_start(path) || path[n - 1] == '/' {
        n
    } else {
        component_start(path, n - 1)
    }
}

/// Where what stands before a component ends, without the slash between them.
pub open spec fn before_component(path: Seq<char>, start: int) -> int {
    if start > body_start(path) {
        start - 1
    } else {
        start
    }
}

/// The end of the first `n` characters without the empty components and the
/// single dots at their end, which name nothing.
pub open spec fn named_end(path: Seq<char>, n: int) -> int
    decreases n,
{
    if n <= body_start(path) {
        n
    } else if path[n - 1] == '/' {
        named_end(path, n - 1)
    } else if path[n - 1] == '.' && component_start(path, n) == n - 1 {
        if n - 1 > body_start(path) {
            named_end(path, n - 2)
        } else {
            n - 1
        }
    } else {
        n
    }
}

/// How many characters of a path make up the directory that holds what it
/// names. The empty path and the root are held by none.
pub open spec fn parent_end(path: Seq<char>) -> Option<int> {
    let n = named_end(path, path.len() as int);
    if n > body_start(path) {
        Some(named_end(path, before_component(path, component_start(path, n))))
    } else if n > 0 && path[0] == '.' {
        Some(0)
    } else {
        None
    }
}

/// A path below a directory; the empty directory is the current one.
pub open spec fn joined(dir: Seq<char>, below: Seq<char>) -> Seq<char> {
    if dir.len() == 0 || dir.last() == '/' {
        dir + below
    } else {
        dir.push('/') + below
    }
}

fn body_start_of(path: &str) -> (r: usize)
    ensures
        r == body_start(path@),
        r <= path@.len(),
{
    let len: usize = path.unicode_len();
    if len > 0 && (path.get_char(0) == '/' || (path.get_char(0) == '.' && (len == 1
        || path.get_char(1) == '/'))) {
        1
    } else {
        0
    }
}

fn component_start_of(path: &str, n: usize) -> (r: usize)
    requires
        n <= path@.len(),
    ensures
        r == component_start(path@, n as int),
        r <= n,
        body_start(path@) <= n ==> body_start(path@) <= r,
{
    let start: usize = body_start_of(path);
    let len: usize = path.unicode_len();
    let mut i: usize = n;
    while i > start && path.get_char(i - 1) != '/'
        invariant
            len == path@.len(),
            start == body_start(path@),
            i <= n <= len,
            start <= n ==> start <= i,
            component_start(path@, n as int) == component_start(path@, i as int),
        decreases i,
    {
        i = i - 1;
    }
    i
}

fn named_end_of(path: &str, n: usize) -> (r: usize)
    requires
        n <= path@.len(),
    ensures
        r == named_end(path@, n as int),
        r <= n,
{
    let start: usize = body_start_of(path);
    let len: usize = path.unicode_len();
    let mut i: usize = n;
    while i > start
        invariant
            len == path@.len(),
            start == body_start(path@),
            i <= n <= len,
            named_end(path@, n as int) == named_end(path@, i as int),
        decreases i,
    {
        let c = path.get_char(i - 1);
        if c == '/' {
            i = i - 1;
        } else if c == '.' && component_start_of(path, i) == i - 1 {
            if i - 1 > start {
                i = i - 2;
            } else {
                i = i - 1;
            }
        } else {
            return i;
        }
    }
    i
}

/// The directory that holds what a path names, if there is one.
pub fn parent_of(path: &str) -> (r: Option<&str>)
    ensures
        match parent_end(path@) {
            Some(n) => 0 <= n <= path@.len() && r is Some && r->0@ == path@.take(n),
            None => r is None,
        },
{
    let start: usize = body_start_of(path);
    let n: usize = named_end_of(path, path.unicode_len());
    if n > start {
        let at: usize = component_start_of(path, n);
        let before: usize = if at > start {
            at - 1
        } else {
            at
        };
        let end: usize = named_end_of(path, before);
        let dir = path.substring_char(0, end);
        assert(dir@ =~= path@.take(end as int));
        return Some(dir);
    }
    if n > 0 && path.get_char(0) == '.' {
        let dir = path.substring_char(0, 0);
        assert(dir@ =~= path@.take(0));
        return Some(dir);
    }
    None
}

/// The path `below` a directory.
pub fn join(dir: &str, below: &str) -> (r: String)
    ensures
        r@ == joined(dir@, below@),
{
    let len: usize = dir.unicode_len();
    let mut path = dir.to_owned();
    if len > 0 && dir.get_char(len - 1) != '/' {
        proof {
            reveal_strlit("/");
        }
        path.append("/");
        assert(path@ =~= dir@.push('/'));
    }
    path.append(below);
    path
}

/// A file in a directory is held by it.
pub proof fn parent_undoes_join(dir: Seq<char>, name: Seq<char>)
    requires
        dir.len() > 0,
        dir.last() != '/',
        dir.last() != '.',
        name.len() > 0,
        !name.contains('/'),
        name != seq!['.'],
    ensures
        parent_end(joined(dir, name)) matches Some(n) && joined(dir, name).take(n) == dir,
{
    let path = joined(dir, name);
    let d = dir.len() as int;
    assert(path[d] == '/' && path.len() == d + 1 + name.len());
    assert forall|k: int| d < k < path.len() implies #[trigger] path[k] != '/' by {
        assert(path[k] == name[k - d - 1]);
    }
    assert(path[d - 1] == dir.last());
    assert(path[0] == dir[0]);
    if d > 1 {
        assert(path[1] == dir[1]);
    }
    component_reaches_back(path, d + 1, path.len() as int);
    if name.len() == 1 {
        assert(name =~= seq![name[0]]);
        assert(path[d + 1] == name[0]);
    }
    assert(path.take(d) =~= dir);
}

proof fn component_reaches_back(path: Seq<char>, start: int, n: int)
    requires
        body_start(path) < start <= n <= path.len(),
        path[start - 1] == '/',
        forall|k: int| start <= k < n ==> #[trigger] path[k] != '/',
    ensures
        component_start(path, n) == start,
    decreases n,
{
    if n > start {
        assert(path[n - 1] != '/');
        component_reaches_back(path, start, n - 1);
    }
}

/// The directory that holds a file is the one that the file's name was joined to,
/// and a joined path is the directory, one slash and the name.
pub proof fn joined_files_are_held_by_their_directory(
    dir: &str,
    name: &str,
    path: &str,
    whole: String,
    parent: Option<&str>,
)
    requires
        call_ensures(join, (dir, name), whole),
        path@ == whole@,
        call_ensures(parent_of, (path,), parent),
        dir@.len() > 0,
        dir@.last() != '/',
        dir@.last() != '.',
        name@.len() > 0,
        !name@.contains('/'),
        name@ != seq!['.'],
    ensures
        whole@ == dir@ + seq!['/'] + name@,
        parent matches Some(p) && p@ == dir@,
{
    parent_undoes_join(dir@, name@);
    assert(dir@.push('/') + name@ =~= dir@ + seq!['/'] + name@);
}

} // verus!
