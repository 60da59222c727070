//! JSON values: finding the members of an object.

use vstd::prelude::*;

use crate::json;
use crate::json::JsonView;

verus! {

/// The first member with a key is found, and none where there is none.
pub proof fn the_first_member_is_found(
    members: Seq<(Seq<char>, JsonView)>,
    key: Seq<char>,
    i: int,
)
    requires
        0 <= i <= members.len(),
        i < members.len() ==> members[i].0 == key,
        forall|k: int| 0 <= k < i ==> (#[trigger] members[k]).0 != key,
    ensures
        JsonView::Object(members).get(key) == if i < members.len() {
            Some(members[i].1)
        } else {
            None
        },
    decreases i,
{
    if i > 0 {
        let rest = members.skip(1);
        assert(members[0].0 != key);
        assert forall|k: int| 0 <= k < i - 1 implies (#[trigger] rest[k]).0 != key by {
            assert(rest[k] == members[k + 1]);
        }
        the_first_member_is_found(rest, key, i - 1);
    }
}

/// A member that is added is found under its key, unless there was one already.
pub broadcast proof fn added_members_are_found(
    members: json::Members,
    key: Seq<char>,
    value: JsonView,
    wanted: Seq<char>,
)
    ensures
        (#[trigger] members.with(key, value).object().get(wanted)) == match members.object().get(
            wanted,
        ) {
            Some(found) => Some(found),
            None => if key == wanted {
                Some(value)
            } else {
                None
            },
        },
    decreases members.list.len(),
{
    let list = members.list;
    let all = list.push((key, value));
    if list.len() == 0 {
        assert(all[0] == (key, value));
        assert(json::member_named(all.skip(1), wanted) is None);
    } else {
        assert(all[0] == list[0]);
        let rest = json::Members { list: list.skip(1) };
        added_members_are_found(rest, key, value, wanted);
        assert(all.skip(1) =~= list.skip(1).push((key, value)));
    }
}

/// An object without members has none.
pub broadcast proof fn no_members_are_found(wanted: Seq<char>)
    ensures
        (#[trigger] json::members().object().get(wanted)) is None,
{
}

/// A value is read as what it is, and as nothing else; numbers only within their limits.
pub proof fn values_are_read_as_what_they_are(
    s: Seq<char>,
    b: bool,
    n: int,
    items: Seq<JsonView>,
    key: Seq<char>,
)
    ensures
        JsonView::Str(s).text() == Some(s),
        JsonView::Bool(b).truth() == Some(b),
        JsonView::Array(items).items() == Some(items),
        0 <= n <= 0xffff_ffff_ffff_ffff ==> JsonView::Int(n).unsigned() == Some(n),
        n < 0 || n > 0xffff_ffff_ffff_ffff ==> JsonView::Int(n).unsigned() is None,
        -0x8000_0000_0000_0000 <= n <= 0x7fff_ffff_ffff_ffff ==> JsonView::Int(n).signed() == Some(
            n,
        ),
        n < -0x8000_0000_0000_0000 || n > 0x7fff_ffff_ffff_ffff ==> JsonView::Int(n).signed() is None,
        JsonView::Int(n).text() is None && JsonView::Int(n).truth() is None,
        JsonView::Str(s).signed() is None && JsonView::Str(s).unsigned() is None,
        JsonView::Str(s).truth() is None && JsonView::Str(s).get(key) is None,
        JsonView::Bool(b).text() is None && JsonView::Bool(b).signed() is None,
        JsonView::Null.text() is None && JsonView::Null.get(key) is None,
        JsonView::Null.truth() is None && JsonView::Null.items() is None,
        JsonView::Array(items).get(key) is None,
{
}

} // verus!
