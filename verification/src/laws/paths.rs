//! Paths and the digests that names are made from.

use vstd::prelude::*;

use crate::digest;
use crate::path;

verus! {

/// A relative path is set below the base with one slash between; an absolute one replaces it.
pub proof fn joined_paths_have_one_slash_between(base: Seq<char>, suffix: Seq<char>)
    ensures
        suffix.len() > 0 && suffix[0] == '/' ==> path::path_joined(base, suffix) == suffix,
        (suffix.len() == 0 || suffix[0] != '/') && base.len() > 0 && base.last() != '/'
            ==> path::path_joined(base, suffix) == base + seq!['/'] + suffix,
        (suffix.len() == 0 || suffix[0] != '/') && base.len() > 0 && base.last() == '/'
            ==> path::path_joined(base, suffix) == base + suffix,
        (suffix.len() == 0 || suffix[0] != '/') && base.len() == 0 ==> path::path_joined(
            base,
            suffix,
        ) == suffix,
{
    if base.len() == 0 {
        assert(base + suffix =~= suffix);
    }
    assert(base.push('/') =~= base + seq!['/']);
}

/// The name of a file has no slash, and is no `.` or `..`.
pub open spec fn is_file_name(name: Seq<char>) -> bool {
    &&& name.len() > 0
    &&& forall|i: int| 0 <= i < name.len() ==> #[trigger] name[i] != '/'
    &&& name != seq!['.']
    &&& name != seq!['.', '.']
}

proof fn lemma_component(all: Seq<char>, start: int, end: int)
    requires
        0 <= start <= end <= all.len(),
        start == 0 || all[start - 1] == '/',
        forall|i: int| start <= i < end ==> #[trigger] all[i] != '/',
    ensures
        path::component_start(all, end) == start,
    decreases end - start,
{
    if start < end {
        assert(all[end - 1] != '/');
        lemma_component(all, start, end - 1);
    }
}

/// The file name is what follows the last slash, and slashes at the end do not matter.
pub proof fn the_file_name_follows_the_last_slash(dir: Seq<char>, name: Seq<char>, path: Seq<char>)
    requires
        is_file_name(name),
    ensures
        path::path_file_name(name) == Some(name),
        path::path_file_name(dir.push('/') + name) == Some(name),
        path::path_file_name(path.push('/')) == path::path_file_name(path),
{
    lemma_last_name(Seq::empty(), name);
    assert(Seq::<char>::empty() + name =~= name);
    lemma_last_name(dir.push('/'), name);
    let longer = path.push('/');
    let n = path.len() as int;
    assert(path::last_end(longer, n + 1) == path::last_end(longer, n));
    assert(longer.take(n) =~= path);
    lemma_same_end_below(path, longer, n);
    let end = path::last_end(path, n);
    lemma_end_bound(path, n);
    lemma_same_start_below(path, longer, end);
    lemma_start_bound(path, end);
    assert(longer.subrange(path::component_start(path, end), end) =~= path.subrange(
        path::component_start(path, end),
        end,
    ));
}

proof fn lemma_last_name(before: Seq<char>, name: Seq<char>)
    requires
        is_file_name(name),
        before.len() == 0 || before.last() == '/',
    ensures
        path::path_file_name(before + name) == Some(name),
        path::last_end(before + name, (before + name).len() as int) == (before + name).len(),
        path::component_start(before + name, (before + name).len() as int) == before.len(),
{
    let all = before + name;
    let end = all.len() as int;
    assert(all[end - 1] == name.last());
    assert(name.last() == name[name.len() - 1]);
    if name.last() == '.' && end > 1 && all[end - 2] == '/' {
        if name.len() > 1 {
            assert(all[end - 2] == name[name.len() - 2]);
        } else {
            assert(name =~= seq!['.']);
        }
    }
    assert(path::last_end(all, end) == end);
    let start = before.len() as int;
    assert forall|i: int| start <= i < end implies #[trigger] all[i] != '/' by {
        assert(all[i] == name[i - start]);
    }
    lemma_component(all, start, end);
    assert(all.subrange(start, end) =~= name);
}

proof fn lemma_end_bound(path: Seq<char>, end: int)
    requires
        0 <= end <= path.len(),
    ensures
        0 <= path::last_end(path, end) <= end,
    decreases end,
{
    if end > 0 {
        lemma_end_bound(path, end - 1);
    }
}

proof fn lemma_start_bound(path: Seq<char>, end: int)
    requires
        0 <= end <= path.len(),
    ensures
        0 <= path::component_start(path, end) <= end,
    decreases end,
{
    if end > 0 {
        lemma_start_bound(path, end - 1);
    }
}

/// Giving a path another file name keeps its directory.
pub proof fn another_file_name_keeps_the_directory(
    dir: Seq<char>,
    name: Seq<char>,
    other: Seq<char>,
)
    requires
        is_file_name(name),
        is_file_name(other),
        dir.len() > 0,
        dir.last() != '/',
        dir.last() != '.',
    ensures
        path::path_with_file_name(dir.push('/') + name, other) == dir.push('/') + other,
        path::path_with_file_name(name, other) == other,
        path::path_with_file_name(seq!['/'] + name, other) == seq!['/'] + other,
{
    let all = dir.push('/') + name;
    lemma_last_name(dir.push('/'), name);
    let start = dir.len() + 1;
    assert(all[start - 1] == '/');
    assert(path::last_end(all, start as int) == path::last_end(all, start - 1));
    assert(all[dir.len() - 1] == dir.last());
    assert(path::last_end(all, dir.len() as int) == dir.len());
    assert(all.take(dir.len() as int) =~= dir);
    assert(path::path_parent(all) == dir);
    assert(other[0] != '/');
    lemma_last_name(Seq::empty(), name);
    let bare = Seq::<char>::empty() + name;
    assert(bare =~= name);
    assert(path::last_end(name, 0) == 0);
    assert(name[0] != '/');
    assert(name.take(0) =~= Seq::<char>::empty());
    assert(path::path_parent(name) == Seq::<char>::empty());
    assert(Seq::<char>::empty() + other =~= other);
    let root = seq!['/'] + name;
    lemma_last_name(seq!['/'], name);
    assert(root[0] == '/');
    assert(path::last_end(root, 1) == path::last_end(root, 0));
    assert(path::last_end(root, 0) == 0);
    assert(path::path_parent(root) == seq!['/']);
}

/// Different bytes have different digits, two for each byte.
pub proof fn digits_tell_the_bytes(a: Seq<u8>, b: Seq<u8>)
    ensures
        digest::hex(a).len() == 2 * a.len(),
        digest::hex(a) == digest::hex(b) ==> a == b,
        forall|i: int|
            0 <= i < digest::hex(a).len() ==> '0' <= #[trigger] digest::hex(a)[i] <= '9' || 'a'
                <= digest::hex(a)[i] <= 'f',
{
    if digest::hex(a) == digest::hex(b) {
        assert(digest::hex(a).len() == 2 * a.len());
        assert(digest::hex(b).len() == 2 * b.len());
        assert forall|i: int| 0 <= i < a.len() implies a[i] == b[i] by {
            let x = digest::hex(a);
            let y = digest::hex(b);
            assert(x[2 * i] == digest::hex_digit(a[i] as int / 16));
            assert(y[2 * i] == digest::hex_digit(b[i] as int / 16));
            assert(x[2 * i + 1] == digest::hex_digit(a[i] as int % 16));
            assert(y[2 * i + 1] == digest::hex_digit(b[i] as int % 16));
            lemma_digits_differ(a[i] as int / 16, b[i] as int / 16);
            lemma_digits_differ(a[i] as int % 16, b[i] as int % 16);
        }
        assert(a =~= b);
    }
    assert forall|i: int| 0 <= i < digest::hex(a).len() implies '0' <= #[trigger] digest::hex(a)[i]
        <= '9' || 'a' <= digest::hex(a)[i] <= 'f' by {
        let byte = a[i / 2] as int;
        lemma_digits_differ(byte / 16, byte % 16);
        lemma_digits_differ(byte % 16, byte / 16);
    }
}

proof fn lemma_digits_differ(m: int, n: int)
    requires
        0 <= m < 16,
        0 <= n < 16,
    ensures
        digest::hex_digit(m) == digest::hex_digit(n) ==> m == n,
        '0' <= digest::hex_digit(m) <= '9' || 'a' <= digest::hex_digit(m) <= 'f',
        m < 10 ==> digest::hex_digit(m) as u32 == '0' as u32 + m,
        m >= 10 ==> digest::hex_digit(m) as u32 == 'a' as u32 + m - 10,
{
    lemma_digit(m);
    lemma_digit(n);
}

proof fn lemma_digit(m: int)
    requires
        0 <= m < 16,
    ensures
        m < 10 ==> digest::hex_digit(m) as u32 == '0' as u32 + m,
        m >= 10 ==> digest::hex_digit(m) as u32 == 'a' as u32 + m - 10,
{
}

/// Every byte is written with its high digit first.
pub proof fn bytes_are_written_high_digit_first(bytes: Seq<u8>, i: int)
    requires
        0 <= i < bytes.len(),
    ensures
        ({
            let high = bytes[i] as int / 16;
            let low = bytes[i] as int % 16;
            let written = digest::hex(bytes);
            &&& high < 10 ==> written[2 * i] as u32 == '0' as u32 + high
            &&& high >= 10 ==> written[2 * i] as u32 == 'a' as u32 + high - 10
            &&& low < 10 ==> written[2 * i + 1] as u32 == '0' as u32 + low
            &&& low >= 10 ==> written[2 * i + 1] as u32 == 'a' as u32 + low - 10
        }),
{
    lemma_digit(bytes[i] as int / 16);
    lemma_digit(bytes[i] as int % 16);
    assert((2 * i) / 2 == i && (2 * i) % 2 == 0);
    assert((2 * i + 1) / 2 == i && (2 * i + 1) % 2 == 1);
}

/// A dot at the end does not matter either, and two dots name no file.
pub proof fn dots_name_no_file(path: Seq<char>)
    requires
        path.len() > 0,
    ensures
        path::path_file_name(path + seq!['/', '.']) == path::path_file_name(path),
        path::path_file_name(path + seq!['/', '.', '.']) is None,
        path::path_file_name(seq!['.', '.']) is None,
        path::path_file_name(seq!['.']) is None,
        path::path_file_name(Seq::empty()) is None,
{
    let dotted = path + seq!['/', '.'];
    let n = path.len() as int;
    assert(dotted[n + 1] == '.' && dotted[n] == '/');
    assert(path::last_end(dotted, n + 2) == path::last_end(dotted, n + 1));
    assert(path::last_end(dotted, n + 1) == path::last_end(dotted, n));
    assert(dotted.take(n) =~= path);
    lemma_same_end_below(path, dotted, n);
    let end = path::last_end(path, n);
    lemma_end_bound(path, n);
    lemma_same_start_below(path, dotted, end);
    lemma_start_bound(path, end);
    assert(dotted.subrange(path::component_start(path, end), end) =~= path.subrange(
        path::component_start(path, end),
        end,
    ));
    let up = path + seq!['/', '.', '.'];
    assert(up[n + 2] == '.' && up[n + 1] == '.' && up[n] == '/');
    assert(path::last_end(up, n + 3) == n + 3);
    lemma_component(up, n + 1, n + 3);
    assert(up.subrange(n + 1, n + 3) =~= seq!['.', '.']);
    let two = seq!['.', '.'];
    assert(path::last_end(two, 2) == 2);
    lemma_component(two, 0, 2);
    assert(two.subrange(0, 2) =~= two);
    let one = seq!['.'];
    assert(path::last_end(one, 1) == 1);
    lemma_component(one, 0, 1);
    assert(one.subrange(0, 1) =~= one);
}

proof fn lemma_same_end_below(path: Seq<char>, longer: Seq<char>, end: int)
    requires
        0 <= end <= path.len() <= longer.len(),
        longer.take(path.len() as int) == path,
    ensures
        path::last_end(longer, end) == path::last_end(path, end),
    decreases end,
{
    if end > 0 {
        assert(longer.take(path.len() as int)[end - 1] == path[end - 1]);
        if end > 1 {
            assert(longer.take(path.len() as int)[end - 2] == path[end - 2]);
        }
        lemma_same_end_below(path, longer, end - 1);
    }
}

proof fn lemma_same_start_below(path: Seq<char>, longer: Seq<char>, end: int)
    requires
        0 <= end <= path.len() <= longer.len(),
        longer.take(path.len() as int) == path,
    ensures
        path::component_start(longer, end) == path::component_start(path, end),
    decreases end,
{
    if end > 0 {
        assert(longer.take(path.len() as int)[end - 1] == path[end - 1]);
        lemma_same_start_below(path, longer, end - 1);
    }
}

} // verus!
