//! JSON values: what events, Telegram updates and reports are made of.
//!
//! A value is stated over [`JsonView`], in which a text is its characters, an array is the
//! sequence of its values and an object is the sequence of its members in the order in which they
//! were written.

use vstd::prelude::*;

use crate::text;
use crate::text::same_text;

verus! {

/// A JSON value.
#[derive(Debug, PartialEq, Eq)]
pub enum Json {
    Null,
    Bool(bool),
    /// A whole number.
    Int(i128),
    /// Any other number, as it is written.
    Float(String),
    Str(String),
    Array(Vec<Json>),
    Object(Vec<Member>),
}

/// A member of an object.
#[derive(Debug, PartialEq, Eq)]
pub struct Member {
    pub key: String,
    pub value: Json,
}

/// What a JSON value holds.
#[verifier::ext_equal]
pub enum JsonView {
    Null,
    Bool(bool),
    Int(int),
    Float(Seq<char>),
    Str(Seq<char>),
    Array(Seq<JsonView>),
    Object(Seq<(Seq<char>, JsonView)>),
}

/// What `json` holds.
pub open spec fn view_json(json: Json) -> JsonView
    decreases json,
{
    match json {
        Json::Null => JsonView::Null,
        Json::Bool(b) => JsonView::Bool(b),
        Json::Int(n) => JsonView::Int(n as int),
        Json::Float(s) => JsonView::Float(s@),
        Json::Str(s) => JsonView::Str(s@),
        Json::Array(items) => JsonView::Array(
            Seq::new(
                items@.len(),
                |i: int|
                    if 0 <= i < items@.len() {
                        view_json(items@[i])
                    } else {
                        JsonView::Null
                    },
            ),
        ),
        Json::Object(members) => JsonView::Object(
            Seq::new(
                members@.len(),
                |i: int|
                    if 0 <= i < members@.len() {
                        (members@[i].key@, view_json(members@[i].value))
                    } else {
                        (Seq::empty(), JsonView::Null)
                    },
            ),
        ),
    }
}

impl View for Json {
    type V = JsonView;

    open spec fn view(&self) -> JsonView {
        view_json(*self)
    }
}

/// What the values of a list hold.
pub open spec fn views(list: Seq<Json>) -> Seq<JsonView> {
    Seq::new(list.len(), |i: int| list[i]@)
}

/// What an optional value holds.
pub open spec fn opt_view(value: Option<&Json>) -> Option<JsonView> {
    match value {
        Some(v) => Some(v@),
        None => None,
    }
}

/// What an optional text holds.
pub open spec fn opt_text(value: Option<&str>) -> Option<Seq<char>> {
    match value {
        Some(s) => Some(s@),
        None => None,
    }
}

/// What an optional string holds.
pub open spec fn opt_string(value: Option<String>) -> Option<Seq<char>> {
    match value {
        Some(s) => Some(s@),
        None => None,
    }
}

// ---------------------------------------------------------------------------------------------
// Reading
// ---------------------------------------------------------------------------------------------

/// The value of the first member named `key`.
pub open spec fn member_named(members: Seq<(Seq<char>, JsonView)>, key: Seq<char>) -> Option<
    JsonView,
>
    decreases members.len(),
{
    if members.len() == 0 {
        None
    } else if members[0].0 == key {
        Some(members[0].1)
    } else {
        member_named(members.skip(1), key)
    }
}

impl JsonView {
    /// The member `key` of an object.
    pub open spec fn get(self, key: Seq<char>) -> Option<JsonView> {
        match self {
            JsonView::Object(members) => member_named(members, key),
            _ => None,
        }
    }

    /// The text of a string.
    pub open spec fn text(self) -> Option<Seq<char>> {
        match self {
            JsonView::Str(s) => Some(s),
            _ => None,
        }
    }

    /// The truth value of a boolean.
    pub open spec fn truth(self) -> Option<bool> {
        match self {
            JsonView::Bool(b) => Some(b),
            _ => None,
        }
    }

    /// A whole number from 0 to 2^64 - 1.
    pub open spec fn unsigned(self) -> Option<int> {
        match self {
            JsonView::Int(n) => if 0 <= n <= u64::MAX {
                Some(n)
            } else {
                None
            },
            _ => None,
        }
    }

    /// A whole number from -2^63 to 2^63 - 1.
    pub open spec fn signed(self) -> Option<int> {
        match self {
            JsonView::Int(n) => if i64::MIN <= n <= i64::MAX {
                Some(n)
            } else {
                None
            },
            _ => None,
        }
    }

    /// The values of an array.
    pub open spec fn items(self) -> Option<Seq<JsonView>> {
        match self {
            JsonView::Array(items) => Some(items),
            _ => None,
        }
    }
}

/// The member `key` of a value that may be missing.
pub open spec fn at(value: Option<JsonView>, key: Seq<char>) -> Option<JsonView> {
    match value {
        Some(v) => v.get(key),
        None => None,
    }
}

/// The text of a value that may be missing.
pub open spec fn text_at(value: Option<JsonView>) -> Option<Seq<char>> {
    match value {
        Some(v) => v.text(),
        None => None,
    }
}

/// The truth value of a value that may be missing.
pub open spec fn truth_at(value: Option<JsonView>) -> Option<bool> {
    match value {
        Some(v) => v.truth(),
        None => None,
    }
}

/// The unsigned number of a value that may be missing.
pub open spec fn unsigned_at(value: Option<JsonView>) -> Option<int> {
    match value {
        Some(v) => v.unsigned(),
        None => None,
    }
}

/// The signed number of a value that may be missing.
pub open spec fn signed_at(value: Option<JsonView>) -> Option<int> {
    match value {
        Some(v) => v.signed(),
        None => None,
    }
}

/// The array of a value that may be missing.
pub open spec fn items_at(value: Option<JsonView>) -> Option<Seq<JsonView>> {
    match value {
        Some(v) => v.items(),
        None => None,
    }
}

/// A number as a mathematical integer.
pub open spec fn opt_unsigned(value: Option<u64>) -> Option<int> {
    match value {
        Some(n) => Some(n as int),
        None => None,
    }
}

/// A number as a mathematical integer.
pub open spec fn opt_signed(value: Option<i64>) -> Option<int> {
    match value {
        Some(n) => Some(n as int),
        None => None,
    }
}

/// The first of two optional things.
pub open spec fn first_of<T>(a: Option<T>, b: Option<T>) -> Option<T> {
    match a {
        Some(_) => a,
        None => b,
    }
}

impl Json {
    /// The member `key` of an object.
    pub fn get(&self, key: &str) -> (out: Option<&Json>)
        ensures
            opt_view(out) == self@.get(key@),
    {
        match self {
            Json::Object(members) => {
                let mut i: usize = 0;
                let ghost all = self@->Object_0;
                assert(all.skip(0) =~= all);
                while i < members.len()
                    invariant
                        *self == Json::Object(*members),
                        all == self@->Object_0,
                        all.len() == members@.len(),
                        i <= members@.len(),
                        member_named(all.skip(i as int), key@) == member_named(all, key@),
                    decreases members@.len() - i,
                {
                    let ghost rest = all.skip(i as int);
                    assert(rest[0] == all[i as int]);
                    assert(rest.skip(1) =~= all.skip(i + 1));
                    if same_text(members[i].key.as_str(), key) {
                        return Some(&members[i].value);
                    }
                    i = i + 1;
                }
                None
            },
            _ => None,
        }
    }

    /// The text of a string.
    pub fn as_str(&self) -> (out: Option<&str>)
        ensures
            opt_text(out) == self@.text(),
    {
        match self {
            Json::Str(s) => Some(s.as_str()),
            _ => None,
        }
    }

    /// The truth value of a boolean.
    pub fn as_bool(&self) -> (out: Option<bool>)
        ensures
            out == self@.truth(),
    {
        match self {
            Json::Bool(b) => Some(*b),
            _ => None,
        }
    }

    /// A whole number that fits 64 bits without a sign.
    pub fn as_u64(&self) -> (out: Option<u64>)
        ensures
            opt_unsigned(out) == self@.unsigned(),
    {
        match self {
            Json::Int(n) => if 0 <= *n && *n <= u64::MAX as i128 {
                Some(*n as u64)
            } else {
                None
            },
            _ => None,
        }
    }

    /// A whole number that fits 64 bits with a sign.
    pub fn as_i64(&self) -> (out: Option<i64>)
        ensures
            opt_signed(out) == self@.signed(),
    {
        match self {
            Json::Int(n) => if i64::MIN as i128 <= *n && *n <= i64::MAX as i128 {
                Some(*n as i64)
            } else {
                None
            },
            _ => None,
        }
    }

    /// The values of an array.
    pub fn as_array(&self) -> (out: Option<&Vec<Json>>)
        ensures
            match out {
                Some(items) => self@.items() == Some(views(items@)),
                None => self@.items() is None,
            },
    {
        match self {
            Json::Array(items) => {
                assert(views(items@) =~= self@->Array_0);
                Some(items)
            },
            _ => None,
        }
    }

    /// The text of the member `key`.
    pub fn str_at(&self, key: &str) -> (out: Option<&str>)
        ensures
            opt_text(out) == text_at(self@.get(key@)),
    {
        match self.get(key) {
            Some(v) => v.as_str(),
            None => None,
        }
    }

    /// The truth value of the member `key`.
    pub fn bool_at(&self, key: &str) -> (out: Option<bool>)
        ensures
            out == truth_at(self@.get(key@)),
    {
        match self.get(key) {
            Some(v) => v.as_bool(),
            None => None,
        }
    }

    /// The unsigned number of the member `key`.
    pub fn u64_at(&self, key: &str) -> (out: Option<u64>)
        ensures
            opt_unsigned(out) == unsigned_at(self@.get(key@)),
    {
        match self.get(key) {
            Some(v) => v.as_u64(),
            None => None,
        }
    }

    /// The signed number of the member `key`.
    pub fn i64_at(&self, key: &str) -> (out: Option<i64>)
        ensures
            opt_signed(out) == signed_at(self@.get(key@)),
    {
        match self.get(key) {
            Some(v) => v.as_i64(),
            None => None,
        }
    }

    /// The member `inner` of the member `outer`.
    pub fn get2(&self, outer: &str, inner: &str) -> (out: Option<&Json>)
        ensures
            opt_view(out) == at(self@.get(outer@), inner@),
    {
        match self.get(outer) {
            Some(v) => v.get(inner),
            None => None,
        }
    }

    /// The text of the member `inner` of the member `outer`.
    pub fn str_at2(&self, outer: &str, inner: &str) -> (out: Option<&str>)
        ensures
            opt_text(out) == text_at(at(self@.get(outer@), inner@)),
    {
        match self.get2(outer, inner) {
            Some(v) => v.as_str(),
            None => None,
        }
    }

    /// The text of the member `inner` of the member `middle` of the member `outer`.
    pub fn str_at3(&self, outer: &str, middle: &str, inner: &str) -> (out: Option<&str>)
        ensures
            opt_text(out) == text_at(at(at(self@.get(outer@), middle@), inner@)),
    {
        match self.get2(outer, middle) {
            Some(v) => v.str_at(inner),
            None => None,
        }
    }

    /// A value that holds the same.
    pub fn copy(&self) -> (out: Json)
        ensures
            out@ == self@,
        decreases self,
    {
        match self {
            Json::Null => Json::Null,
            Json::Bool(b) => Json::Bool(*b),
            Json::Int(n) => Json::Int(*n),
            Json::Float(s) => Json::Float(s.clone()),
            Json::Str(s) => Json::Str(s.clone()),
            Json::Array(items) => {
                let mut out: Vec<Json> = Vec::new();
                let mut i: usize = 0;
                while i < items.len()
                    invariant
                        *self == Json::Array(*items),
                        i <= items@.len(),
                        out@.len() == i,
                        forall|k: int| 0 <= k < i ==> (#[trigger] out@[k])@ == items@[k]@,
                    decreases items@.len() - i,
                {
                    assert(decreases_to!(self->Array_0@ => self->Array_0@[i as int]));
                    assert(decreases_to!(self->Array_0 => self->Array_0@));
                    assert(decreases_to!(*self => self->Array_0));
                    out.push(items[i].copy());
                    i = i + 1;
                }
                let result = Json::Array(out);
                assert(result@->Array_0 =~= self@->Array_0);
                result
            },
            Json::Object(members) => {
                let mut out: Vec<Member> = Vec::new();
                let mut i: usize = 0;
                while i < members.len()
                    invariant
                        *self == Json::Object(*members),
                        i <= members@.len(),
                        out@.len() == i,
                        forall|k: int|
                            0 <= k < i ==> (#[trigger] out@[k]).key@ == members@[k].key@
                                && out@[k].value@ == members@[k].value@,
                    decreases members@.len() - i,
                {
                    assert(decreases_to!(self->Object_0@[i as int] => self->Object_0@[i as int].value));
                    assert(decreases_to!(self->Object_0@ => self->Object_0@[i as int]));
                    assert(decreases_to!(self->Object_0 => self->Object_0@));
                    assert(decreases_to!(*self => self->Object_0));
                    let value = members[i].value.copy();
                    out.push(Member { key: members[i].key.clone(), value });
                    i = i + 1;
                }
                let result = Json::Object(out);
                assert(result@->Object_0 =~= self@->Object_0);
                result
            },
        }
    }
}

// ---------------------------------------------------------------------------------------------
// Writing
// ---------------------------------------------------------------------------------------------

/// The members of an object, in the order in which they are written.
#[verifier::ext_equal]
pub struct Members {
    pub list: Seq<(Seq<char>, JsonView)>,
}

/// No members.
pub open spec fn members() -> Members {
    Members { list: Seq::empty() }
}

impl Members {
    /// One member more.
    pub open spec fn with(self, key: Seq<char>, value: JsonView) -> Members {
        Members { list: self.list.push((key, value)) }
    }

    /// One member more, a text.
    pub open spec fn text(self, key: Seq<char>, value: Seq<char>) -> Members {
        self.with(key, JsonView::Str(value))
    }

    /// One member more, a boolean.
    pub open spec fn flag(self, key: Seq<char>, value: bool) -> Members {
        self.with(key, JsonView::Bool(value))
    }

    /// One member more, a number.
    pub open spec fn number(self, key: Seq<char>, value: int) -> Members {
        self.with(key, JsonView::Int(value))
    }

    /// The object with these members.
    pub open spec fn object(self) -> JsonView {
        JsonView::Object(self.list)
    }
}

/// A text, or null where there is none.
pub open spec fn text_or_null(value: Option<Seq<char>>) -> JsonView {
    match value {
        Some(s) => JsonView::Str(s),
        None => JsonView::Null,
    }
}

/// A number, or null where there is none.
pub open spec fn int_or_null(value: Option<int>) -> JsonView {
    match value {
        Some(n) => JsonView::Int(n),
        None => JsonView::Null,
    }
}

/// A value, or null where there is none.
pub open spec fn or_null(value: Option<JsonView>) -> JsonView {
    match value {
        Some(v) => v,
        None => JsonView::Null,
    }
}

/// Texts as values.
pub open spec fn str_views(list: Seq<Seq<char>>) -> Seq<JsonView> {
    Seq::new(list.len(), |i: int| JsonView::Str(list[i]))
}

/// An object under construction.
pub struct Fields {
    pub members: Vec<Member>,
}

impl View for Fields {
    type V = Members;

    open spec fn view(&self) -> Members {
        Members {
            list: Seq::new(
                self.members@.len(),
                |i: int| (self.members@[i].key@, self.members@[i].value@),
            ),
        }
    }
}

impl Fields {
    /// No members yet.
    pub fn new() -> (out: Fields)
        ensures
            out@ == members(),
    {
        let out = Fields { members: Vec::new() };
        assert(out@.list =~= members().list);
        out
    }

    /// One member more.
    pub fn with(self, key: &str, value: Json) -> (out: Fields)
        ensures
            out@ == self@.with(key@, value@),
    {
        let mut members = self.members;
        members.push(Member { key: key.to_owned(), value });
        let out = Fields { members };
        assert(out@.list =~= self@.list.push((key@, value@)));
        out
    }

    /// One member more, a text.
    pub fn text(self, key: &str, value: &str) -> (out: Fields)
        ensures
            out@ == self@.text(key@, value@),
    {
        self.with(key, Json::text(value))
    }

    /// One member more, a boolean.
    pub fn flag(self, key: &str, value: bool) -> (out: Fields)
        ensures
            out@ == self@.flag(key@, value),
    {
        self.with(key, Json::Bool(value))
    }

    /// One member more, a number.
    pub fn number(self, key: &str, value: i128) -> (out: Fields)
        ensures
            out@ == self@.number(key@, value as int),
    {
        self.with(key, Json::Int(value))
    }

    /// The object.
    pub fn object(self) -> (out: Json)
        ensures
            out@ == self@.object(),
    {
        let out = Json::Object(self.members);
        assert(out@->Object_0 =~= self@.list);
        out
    }
}

impl Json {
    /// A string.
    pub fn text(value: &str) -> (out: Json)
        ensures
            out@ == JsonView::Str(value@),
    {
        Json::Str(value.to_owned())
    }

    /// A string, or null.
    pub fn opt_text(value: Option<&str>) -> (out: Json)
        ensures
            out@ == text_or_null(opt_text(value)),
    {
        match value {
            Some(s) => Json::text(s),
            None => Json::Null,
        }
    }

    /// A string, or null.
    pub fn opt_string(value: &Option<String>) -> (out: Json)
        ensures
            out@ == text_or_null(opt_string(*value)),
    {
        match value {
            Some(s) => Json::text(s.as_str()),
            None => Json::Null,
        }
    }

    /// A number, or null.
    pub fn opt_u64(value: Option<u64>) -> (out: Json)
        ensures
            out@ == int_or_null(opt_unsigned(value)),
    {
        match value {
            Some(n) => Json::Int(n as i128),
            None => Json::Null,
        }
    }

    /// A number, or null.
    pub fn opt_i64(value: Option<i64>) -> (out: Json)
        ensures
            out@ == int_or_null(opt_signed(value)),
    {
        match value {
            Some(n) => Json::Int(n as i128),
            None => Json::Null,
        }
    }

    /// An array.
    pub fn array(items: Vec<Json>) -> (out: Json)
        ensures
            out@ == JsonView::Array(views(items@)),
    {
        let out = Json::Array(items);
        assert(out@->Array_0 =~= views(items@));
        out
    }

    /// An array of one value.
    pub fn array1(item: Json) -> (out: Json)
        ensures
            out@ == JsonView::Array(seq![item@]),
    {
        let mut items: Vec<Json> = Vec::new();
        items.push(item);
        assert(views(items@) =~= seq![item@]);
        Json::array(items)
    }

    /// An array of two values.
    pub fn array2(first: Json, second: Json) -> (out: Json)
        ensures
            out@ == JsonView::Array(seq![first@, second@]),
    {
        let mut items: Vec<Json> = Vec::new();
        items.push(first);
        items.push(second);
        assert(views(items@) =~= seq![first@, second@]);
        Json::array(items)
    }

    /// An array of texts.
    pub fn texts(list: &Vec<String>) -> (out: Json)
        ensures
            out@ == JsonView::Array(str_views(text::texts(list@))),
    {
        let mut items: Vec<Json> = Vec::new();
        let mut i: usize = 0;
        while i < list.len()
            invariant
                i <= list@.len(),
                items@.len() == i,
                forall|k: int| 0 <= k < i ==> (#[trigger] items@[k])@ == JsonView::Str(list@[k]@),
            decreases list@.len() - i,
        {
            items.push(Json::text(list[i].as_str()));
            i = i + 1;
        }
        assert(views(items@) =~= str_views(text::texts(list@)));
        Json::array(items)
    }

    /// A value that may be missing, or null.
    pub fn or_null(value: Option<&Json>) -> (out: Json)
        ensures
            out@ == or_null(opt_view(value)),
    {
        match value {
            Some(v) => v.copy(),
            None => Json::Null,
        }
    }
}

/// Appends one value to a list.
pub fn push_json(list: &mut Vec<Json>, item: Json)
    ensures
        views(final(list)@) == views(old(list)@).push(item@),
{
    list.push(item);
    assert(views(list@) =~= views(old(list)@).push(item@));
}

/// The members with the value of `key` set: in place of the first member of that name, or as a
/// last member.
pub open spec fn with_member(
    members: Seq<(Seq<char>, JsonView)>,
    key: Seq<char>,
    value: JsonView,
) -> Seq<(Seq<char>, JsonView)>
    decreases members.len(),
{
    if members.len() == 0 {
        seq![(key, value)]
    } else if members[0].0 == key {
        members.update(0, (key, value))
    } else {
        seq![members[0]] + with_member(members.skip(1), key, value)
    }
}

/// An object with the value of `key` set; any other value as it is.
pub open spec fn with_field(json: JsonView, key: Seq<char>, value: JsonView) -> JsonView {
    match json {
        JsonView::Object(members) => JsonView::Object(with_member(members, key, value)),
        other => other,
    }
}

/// After setting a member, reading it gives the value, and every other member is as before.
pub proof fn members_that_are_set_read_back(
    members: Seq<(Seq<char>, JsonView)>,
    key: Seq<char>,
    value: JsonView,
    other: Seq<char>,
)
    ensures
        member_named(with_member(members, key, value), key) == Some(value),
        other != key ==> member_named(with_member(members, key, value), other) == member_named(
            members,
            other,
        ),
    decreases members.len(),
{
    let after = with_member(members, key, value);
    if members.len() == 0 {
        assert(after[0] == (key, value));
        assert(after.skip(1) =~= members);
    } else if members[0].0 == key {
        assert(after[0] == (key, value));
        assert(after.skip(1) =~= members.skip(1));
    } else {
        members_that_are_set_read_back(members.skip(1), key, value, other);
        assert(after[0] == members[0]);
        assert(after.skip(1) =~= with_member(members.skip(1), key, value));
    }
}

impl Json {
    /// Sets a member of an object; any other value stays as it is.
    pub fn insert(self, key: &str, value: Json) -> (out: Json)
        ensures
            out@ == with_field(self@, key@, value@),
    {
        match self {
            Json::Object(members) => {
                let ghost all = self@->Object_0;
                let mut rest = members;
                let mut i: usize = 0;
                assert(all.skip(0) =~= all);
                assert(all.take(0) + with_member(all, key@, value@) =~= with_member(all, key@, value@));
                while i < rest.len()
                    invariant
                        self@ == JsonView::Object(all),
                        i <= rest@.len(),
                        rest@.len() == all.len(),
                        forall|k: int|
                            0 <= k < all.len() ==> all[k] == ((#[trigger] rest@[k]).key@, rest@[k].value@),
                        all.take(i as int) + with_member(all.skip(i as int), key@, value@)
                            == with_member(all, key@, value@),
                    decreases rest@.len() - i,
                {
                    let ghost tail = all.skip(i as int);
                    assert(tail[0] == all[i as int]);
                    assert(tail.skip(1) =~= all.skip(i + 1));
                    if same_text(rest[i].key.as_str(), key) {
                        let named = Member { key: key.to_owned(), value };
                        rest.set(i, named);
                        let out = Json::Object(rest);
                        assert(out@->Object_0 =~= all.take(i as int) + tail.update(0, (key@, value@)));
                        return out;
                    }
                    assert(all.take(i + 1) + with_member(all.skip(i + 1), key@, value@) =~= all.take(
                        i as int,
                    ) + with_member(tail, key@, value@));
                    i = i + 1;
                }
                assert(all.skip(i as int) =~= Seq::<(Seq<char>, JsonView)>::empty());
                rest.push(Member { key: key.to_owned(), value });
                let out = Json::Object(rest);
                assert(out@->Object_0 =~= all.take(i as int) + seq![(key@, value@)]);
                out
            },
            other => other,
        }
    }
}

} // verus!
