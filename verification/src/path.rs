//! Unix paths as text.

use vstd::prelude::*;

use crate::text::chars_of;
use crate::text::string_from;

verus! {

/// `suffix` reached from `base`: an absolute `suffix` stands for itself, and a separator goes in
/// between unless `base` is empty or already ends in one.
pub open spec fn path_joined(base: Seq<char>, suffix: Seq<char>) -> Seq<char> {
    if suffix.len() > 0 && suffix[0] == '/' {
        suffix
    } else if base.len() == 0 || base.last() == '/' {
        base + suffix
    } else {
        base.push('/') + suffix
    }
}

/// Joins `suffix` to `base`.
pub fn join_path(base: &str, suffix: &str) -> (out: String)
    ensures
        out@ == path_joined(base@, suffix@),
{
    if suffix.unicode_len() > 0 && suffix.get_char(0) == '/' {
        return suffix.to_owned();
    }
    let mut out = base.to_owned();
    let n = base.unicode_len();
    if n > 0 && base.get_char(n - 1) != '/' {
        out.push('/');
    }
    out.append(suffix);
    out
}

/// Where the last component of the first `end` characters starts.
pub open spec fn component_start(path: Seq<char>, end: int) -> int
    decreases end,
{
    if 0 < end <= path.len() && path[end - 1] != '/' {
        component_start(path, end - 1)
    } else {
        end
    }
}

/// Where the last component that names something ends: separators and single dots behind it are
/// passed over, except for a single dot that the path begins with.
pub open spec fn last_end(path: Seq<char>, end: int) -> int
    decreases end,
{
    if 0 < end <= path.len() && path[end - 1] == '/' {
        last_end(path, end - 1)
    } else if 1 < end <= path.len() && path[end - 1] == '.' && path[end - 2] == '/' {
        last_end(path, end - 1)
    } else {
        end
    }
}

/// The final component of a path: none where the path ends in a parent reference, or names only
/// the root or the current directory.
pub open spec fn path_file_name(path: Seq<char>) -> Option<Seq<char>> {
    let end = last_end(path, path.len() as int);
    let name = path.subrange(component_start(path, end), end);
    if name.len() == 0 || name == seq!['.'] || name == seq!['.', '.'] {
        None
    } else {
        Some(name)
    }
}

fn find_last_end(path: &Vec<char>) -> (end: usize)
    ensures
        end == last_end(path@, path@.len() as int),
        end <= path@.len(),
{
    let mut end: usize = path.len();
    while end > 0 && (path[end - 1] == '/' || (end > 1 && path[end - 1] == '.' && path[end - 2]
        == '/'))
        invariant
            end <= path@.len(),
            last_end(path@, end as int) == last_end(path@, path@.len() as int),
        decreases end,
    {
        end = end - 1;
    }
    end
}

fn find_component_start(path: &Vec<char>, end: usize) -> (start: usize)
    requires
        end <= path@.len(),
    ensures
        start == component_start(path@, end as int),
        start <= end,
{
    let mut start: usize = end;
    while start > 0 && path[start - 1] != '/'
        invariant
            start <= end <= path@.len(),
            component_start(path@, start as int) == component_start(path@, end as int),
        decreases start,
    {
        start = start - 1;
    }
    start
}

/// The final component of a path.
pub fn file_name(path: &str) -> (name: Option<String>)
    ensures
        match name {
            Some(n) => path_file_name(path@) == Some(n@),
            None => path_file_name(path@) is None,
        },
{
    let chars = chars_of(path);
    let end = find_last_end(&chars);
    let start = find_component_start(&chars, end);
    let ghost name = path@.subrange(start as int, end as int);
    let size: usize = end - start;
    if size == 0 {
        return None;
    }
    if size == 1 && chars[start] == '.' {
        assert(name =~= seq!['.']);
        return None;
    }
    if size == 2 && chars[start] == '.' && chars[start + 1] == '.' {
        assert(name =~= seq!['.', '.']);
        return None;
    }
    assert(name != seq!['.'] && name != seq!['.', '.']) by {
        if name == seq!['.'] {
            assert(name[0] == '.');
        }
        if name == seq!['.', '.'] {
            assert(name[0] == '.' && name[1] == '.');
        }
    }
    Some(string_from(&chars, start, end))
}

/// A path without its final component.
pub open spec fn path_parent(path: Seq<char>) -> Seq<char> {
    let end = last_end(path, component_start(path, last_end(path, path.len() as int)));
    if end == 0 && path.len() > 0 && path[0] == '/' {
        seq!['/']
    } else {
        path.take(end)
    }
}

/// A path with its final component, if it has one, replaced by `name`.
pub open spec fn path_with_file_name(path: Seq<char>, name: Seq<char>) -> Seq<char> {
    if path_file_name(path) is Some {
        path_joined(path_parent(path), name)
    } else {
        path_joined(path, name)
    }
}

fn find_last_end_before(path: &Vec<char>, from: usize) -> (end: usize)
    requires
        from <= path@.len(),
    ensures
        end == last_end(path@, from as int),
        end <= from,
{
    let mut end: usize = from;
    while end > 0 && (path[end - 1] == '/' || (end > 1 && path[end - 1] == '.' && path[end - 2]
        == '/'))
        invariant
            end <= from <= path@.len(),
            last_end(path@, end as int) == last_end(path@, from as int),
        decreases end,
    {
        end = end - 1;
    }
    end
}

/// Replaces the final component of a path.
pub fn with_file_name(path: &str, name: &str) -> (out: String)
    ensures
        out@ == path_with_file_name(path@, name@),
{
    if file_name(path).is_none() {
        return join_path(path, name);
    }
    let chars = chars_of(path);
    let last = find_last_end(&chars);
    let start = find_component_start(&chars, last);
    let end = find_last_end_before(&chars, start);
    if end == 0 && chars.len() > 0 && chars[0] == '/' {
        let mut root = String::new();
        root.push('/');
        assert(root@ =~= seq!['/']);
        return join_path(root.as_str(), name);
    }
    let parent = string_from(&chars, 0, end);
    assert(parent@ =~= path@.take(end as int));
    join_path(parent.as_str(), name)
}

} // verus!
