//! Character-level text functions over `str`, each stated over the text's sequence of characters.

use vstd::prelude::*;

verus! {

/// `String::push` appends the character to the end of the string.
pub assume_specification[ String::push ](s: &mut String, c: char)
    ensures
        final(s)@ == old(s)@.push(c),
;

// ---------------------------------------------------------------------------------------------
// Characters, prefixes and slices
// ---------------------------------------------------------------------------------------------

/// The characters of `s` as a vector.
pub fn chars_of(s: &str) -> (out: Vec<char>)
    ensures
        out@ == s@,
{
    let mut out: Vec<char> = Vec::new();
    for c in it: s.chars()
        invariant
            it.seq() == s@,
            out@ == it.seq().take(it.index() as int),
    {
        out.push(c);
        assert(out@ =~= it.seq().take(it.index() + 1));
    }
    assert(out@ =~= s@);
    out
}

/// The string made of `chars[from..to]`.
pub fn string_from(chars: &Vec<char>, from: usize, to: usize) -> (out: String)
    requires
        from <= to <= chars@.len(),
    ensures
        out@ == chars@.subrange(from as int, to as int),
{
    let mut out = String::new();
    let mut i: usize = from;
    while i < to
        invariant
            from <= i <= to <= chars@.len(),
            out@ == chars@.subrange(from as int, i as int),
        decreases to - i,
    {
        out.push(chars[i]);
        i = i + 1;
        assert(out@ =~= chars@.subrange(from as int, i as int));
    }
    out
}

/// Whether two texts hold the same characters.
pub fn same_text(a: &str, b: &str) -> (same: bool)
    ensures
        same == (a@ == b@),
{
    let left = chars_of(a);
    let right = chars_of(b);
    if left.len() != right.len() {
        return false;
    }
    let mut i: usize = 0;
    while i < left.len()
        invariant
            left@ == a@,
            right@ == b@,
            i <= left@.len(),
            left@.len() == right@.len(),
            forall|k: int| 0 <= k < i ==> left@[k] == right@[k],
        decreases left@.len() - i,
    {
        if left[i] != right[i] {
            return false;
        }
        i = i + 1;
    }
    assert(left@ =~= right@);
    true
}

/// `s` begins with `prefix`.
pub open spec fn has_prefix(s: Seq<char>, prefix: Seq<char>) -> bool {
    prefix.len() <= s.len() && s.subrange(0, prefix.len() as int) == prefix
}

/// `s` ends with `suffix`.
pub open spec fn has_suffix(s: Seq<char>, suffix: Seq<char>) -> bool {
    suffix.len() <= s.len() && s.subrange(s.len() - suffix.len(), s.len() as int) == suffix
}

/// What follows `prefix` in `s`, where `s` begins with it.
pub fn strip_prefix<'a>(s: &'a str, prefix: &str) -> (rest: Option<&'a str>)
    ensures
        rest is Some <==> has_prefix(s@, prefix@),
        rest matches Some(r) ==> r@ == s@.skip(prefix@.len() as int) && s@ == prefix@ + r@,
{
    let n = prefix.unicode_len();
    let total = s.unicode_len();
    if n > total {
        return None;
    }
    let head = s.substring_char(0, n);
    if same_text(head, prefix) {
        let tail = s.substring_char(n, total);
        assert(tail@ =~= s@.skip(n as int));
        assert(s@ =~= prefix@ + tail@);
        Some(tail)
    } else {
        None
    }
}

/// Whether `s` begins with the character `c`.
pub fn starts_with_char(s: &str, c: char) -> (yes: bool)
    ensures
        yes == (s@.len() > 0 && s@[0] == c),
{
    s.unicode_len() > 0 && s.get_char(0) == c
}

/// Whether `s` ends with `suffix`.
pub fn ends_with(s: &str, suffix: &str) -> (yes: bool)
    ensures
        yes == has_suffix(s@, suffix@),
{
    let n = suffix.unicode_len();
    let total = s.unicode_len();
    n <= total && same_text(s.substring_char(total - n, total), suffix)
}

// ---------------------------------------------------------------------------------------------
// Whitespace
// ---------------------------------------------------------------------------------------------

/// The characters with the Unicode property White_Space.
pub open spec fn white(c: char) -> bool {
    let n = c as u32;
    ||| 0x9 <= n <= 0xd
    ||| n == 0x20
    ||| n == 0x85
    ||| n == 0xa0
    ||| n == 0x1680
    ||| 0x2000 <= n <= 0x200a
    ||| n == 0x2028
    ||| n == 0x2029
    ||| n == 0x202f
    ||| n == 0x205f
    ||| n == 0x3000
}

/// Whether `c` has the Unicode property White_Space.
pub fn is_white(c: char) -> (yes: bool)
    ensures
        yes == white(c),
{
    let n = c as u32;
    (0x9 <= n && n <= 0xd) || n == 0x20 || n == 0x85 || n == 0xa0 || n == 0x1680 || (0x2000 <= n
        && n <= 0x200a) || n == 0x2028 || n == 0x2029 || n == 0x202f || n == 0x205f || n == 0x3000
}

/// `s` without its leading whitespace.
pub open spec fn trimmed_start(s: Seq<char>) -> Seq<char>
    decreases s.len(),
{
    if s.len() > 0 && white(s[0]) {
        trimmed_start(s.skip(1))
    } else {
        s
    }
}

/// `s` without its trailing whitespace.
pub open spec fn trimmed_end(s: Seq<char>) -> Seq<char>
    decreases s.len(),
{
    if s.len() > 0 && white(s.last()) {
        trimmed_end(s.drop_last())
    } else {
        s
    }
}

/// `s` without leading and trailing whitespace.
pub open spec fn trimmed(s: Seq<char>) -> Seq<char> {
    trimmed_end(trimmed_start(s))
}

/// `s` holds nothing but whitespace.
pub open spec fn blank(s: Seq<char>) -> bool {
    trimmed(s).len() == 0
}

/// Removes trailing whitespace.
pub fn trim_end<'a>(s: &'a str) -> (out: &'a str)
    ensures
        out@ == trimmed_end(s@),
{
    let chars = chars_of(s);
    let mut end: usize = chars.len();
    assert(s@.subrange(0, end as int) =~= s@);
    while end > 0 && is_white(chars[end - 1])
        invariant
            chars@ == s@,
            end <= chars@.len(),
            trimmed_end(s@.subrange(0, end as int)) == trimmed_end(s@),
        decreases end,
    {
        assert(s@.subrange(0, end as int).drop_last() =~= s@.subrange(0, end - 1));
        end = end - 1;
    }
    s.substring_char(0, end)
}

/// Removes leading whitespace.
pub fn trim_start<'a>(s: &'a str) -> (out: &'a str)
    ensures
        out@ == trimmed_start(s@),
{
    let chars = chars_of(s);
    let mut start: usize = 0;
    assert(s@.skip(0) =~= s@);
    while start < chars.len() && is_white(chars[start])
        invariant
            chars@ == s@,
            start <= chars@.len(),
            trimmed_start(s@.skip(start as int)) == trimmed_start(s@),
        decreases chars@.len() - start,
    {
        assert(s@.skip(start as int).skip(1) =~= s@.skip(start + 1));
        start = start + 1;
    }
    let out = s.substring_char(start, chars.len());
    assert(out@ =~= s@.skip(start as int));
    out
}

/// Removes leading and trailing whitespace.
pub fn trim<'a>(s: &'a str) -> (out: &'a str)
    ensures
        out@ == trimmed(s@),
{
    trim_end(trim_start(s))
}

/// Whether `s` holds nothing but whitespace.
pub fn is_blank(s: &str) -> (yes: bool)
    ensures
        yes == blank(s@),
{
    trim(s).unicode_len() == 0
}

// ---------------------------------------------------------------------------------------------
// Searching
// ---------------------------------------------------------------------------------------------

/// The position of the first `c` in `s`, or the length of `s` where there is none.
pub open spec fn first_index(s: Seq<char>, c: char) -> int
    decreases s.len(),
{
    if s.len() == 0 || s[0] == c {
        0
    } else {
        1 + first_index(s.skip(1), c)
    }
}

/// `first_index` is the one position before which `c` does not occur and at which it does, if at
/// all.
pub proof fn lemma_first_index(s: Seq<char>, c: char)
    ensures
        0 <= first_index(s, c) <= s.len(),
        forall|i: int| 0 <= i < first_index(s, c) ==> s[i] != c,
        first_index(s, c) < s.len() ==> s[first_index(s, c)] == c,
        first_index(s, c) < s.len() <==> s.contains(c),
    decreases s.len(),
{
    if s.len() == 0 || s[0] == c {
    } else {
        let rest = s.skip(1);
        lemma_first_index(rest, c);
        assert forall|i: int| 0 <= i < first_index(s, c) implies s[i] != c by {
            if i > 0 {
                assert(rest[i - 1] == s[i]);
            }
        }
        if s.contains(c) {
            let k = choose|k: int| 0 <= k < s.len() && s[k] == c;
            assert(rest[k - 1] == c);
        }
    }
}

/// A position before which `c` does not occur and at which it does is `first_index`.
pub proof fn lemma_first_index_is(s: Seq<char>, c: char, k: int)
    requires
        0 <= k <= s.len(),
        forall|i: int| 0 <= i < k ==> s[i] != c,
        k < s.len() ==> s[k] == c,
    ensures
        first_index(s, c) == k,
{
    lemma_first_index(s, c);
    let f = first_index(s, c);
    if f < k {
        assert(s[f] != c);
    }
    if k < f {
        assert(s[k] != c);
    }
}

/// The position of the first `c` in `s`.
pub fn find_char(s: &str, c: char) -> (found: Option<usize>)
    ensures
        found is Some <==> s@.contains(c),
        found matches Some(k) ==> k == first_index(s@, c) && k < s@.len() && s@[k as int] == c,
        found is None ==> first_index(s@, c) == s@.len(),
{
    let chars = chars_of(s);
    let mut i: usize = 0;
    while i < chars.len()
        invariant
            chars@ == s@,
            i <= chars@.len(),
            forall|k: int| 0 <= k < i ==> s@[k] != c,
        decreases chars@.len() - i,
    {
        if chars[i] == c {
            proof {
                lemma_first_index_is(s@, c, i as int);
            }
            return Some(i);
        }
        i = i + 1;
    }
    proof {
        lemma_first_index_is(s@, c, s@.len() as int);
    }
    None
}

/// `needle` stands in `s` at position `i`.
pub open spec fn stands_at(s: Seq<char>, needle: Seq<char>, i: int) -> bool {
    0 <= i && i + needle.len() <= s.len() && s.subrange(i, i + needle.len()) == needle
}

/// `needle` occurs in `s`.
pub open spec fn occurs_in(needle: Seq<char>, s: Seq<char>) -> bool {
    exists|i: int| stands_at(s, needle, i)
}

/// Whether `needle` occurs in `s`.
pub fn contains_text(s: &str, needle: &str) -> (yes: bool)
    ensures
        yes == occurs_in(needle@, s@),
{
    let n = needle.unicode_len();
    let total = s.unicode_len();
    if n > total {
        assert forall|i: int| !stands_at(s@, needle@, i) by {}
        return false;
    }
    let hay = chars_of(s);
    let pin = chars_of(needle);
    let mut i: usize = 0;
    while i <= total - n
        invariant
            hay@ == s@,
            pin@ == needle@,
            total == hay@.len(),
            n == pin@.len(),
            n <= total,
            i <= total - n + 1,
            forall|k: int| 0 <= k < i ==> !stands_at(s@, needle@, k),
        decreases total - n + 1 - i,
    {
        let mut j: usize = 0;
        while j < n && hay[i + j] == pin[j]
            invariant
                n == pin@.len(),
                total == hay@.len(),
                i + n <= total,
                j <= n,
                forall|k: int| 0 <= k < j ==> hay@[i + k] == pin@[k],
            decreases n - j,
        {
            j = j + 1;
        }
        if j == n {
            assert(s@.subrange(i as int, i + n) =~= needle@);
            assert(stands_at(s@, needle@, i as int));
            return true;
        }
        assert(!stands_at(s@, needle@, i as int)) by {
            if stands_at(s@, needle@, i as int) {
                assert(s@.subrange(i as int, i + n)[j as int] == needle@[j as int]);
            }
        }
        if i == total - n {
            assert forall|k: int| !stands_at(s@, needle@, k) by {}
            return false;
        }
        i = i + 1;
    }
    assert forall|k: int| !stands_at(s@, needle@, k) by {}
    false
}

// ---------------------------------------------------------------------------------------------
// Lists of texts
// ---------------------------------------------------------------------------------------------

/// The texts of a list of strings.
pub open spec fn texts(list: Seq<String>) -> Seq<Seq<char>> {
    Seq::new(list.len(), |i: int| list[i]@)
}

/// Appends one text to a list.
pub fn push_text(list: &mut Vec<String>, item: String)
    ensures
        texts(final(list)@) == texts(old(list)@).push(item@),
        final(list)@ == old(list)@.push(item),
{
    list.push(item);
    assert(texts(list@) =~= texts(old(list)@).push(item@));
}

/// The texts of `parts` with `separator` between neighbours.
pub open spec fn joined(parts: Seq<Seq<char>>, separator: Seq<char>) -> Seq<char>
    decreases parts.len(),
{
    if parts.len() == 0 {
        Seq::empty()
    } else if parts.len() == 1 {
        parts[0]
    } else {
        joined(parts.drop_last(), separator) + separator + parts.last()
    }
}

/// Joins `parts` with `separator` between neighbours.
pub fn join(parts: &Vec<String>, separator: &str) -> (out: String)
    ensures
        out@ == joined(texts(parts@), separator@),
{
    let mut out = String::new();
    let mut i: usize = 0;
    assert(texts(parts@).take(0) =~= Seq::<Seq<char>>::empty());
    while i < parts.len()
        invariant
            i <= parts@.len(),
            out@ == joined(texts(parts@).take(i as int), separator@),
        decreases parts@.len() - i,
    {
        let ghost next = texts(parts@).take(i + 1);
        assert(next.drop_last() =~= texts(parts@).take(i as int));
        if i > 0 {
            out.append(separator);
        }
        out.append(parts[i].as_str());
        assert(next.last() == parts@[i as int]@);
        if i == 0 {
            assert(out@ =~= next[0]);
        }
        i = i + 1;
    }
    assert(texts(parts@).take(parts@.len() as int) =~= texts(parts@));
    out
}

/// The parts of `s` between the occurrences of `c`.
pub open spec fn parts_of(s: Seq<char>, c: char) -> Seq<Seq<char>>
    decreases s.len(),
{
    let k = first_index(s, c);
    if 0 <= k < s.len() {
        seq![s.take(k)] + parts_of(s.skip(k + 1), c)
    } else {
        seq![s]
    }
}

/// The first part comes first.
proof fn lemma_joined_front(parts: Seq<Seq<char>>, separator: Seq<char>)
    requires
        parts.len() >= 2,
    ensures
        joined(parts, separator) == parts[0] + separator + joined(parts.skip(1), separator),
    decreases parts.len(),
{
    let rest = parts.skip(1);
    if parts.len() == 2 {
        assert(joined(parts.drop_last(), separator) == parts[0]);
        assert(joined(rest, separator) == parts.last());
    } else {
        let front = parts.drop_last();
        lemma_joined_front(front, separator);
        assert(front.skip(1) =~= rest.drop_last());
        assert(rest.last() == parts.last());
        assert(joined(parts, separator) =~= parts[0] + separator + joined(rest, separator));
    }
}

/// Splitting undoes joining, where no part holds the separator.
pub proof fn splitting_undoes_joining(parts: Seq<Seq<char>>, c: char)
    requires
        parts.len() > 0,
        forall|k: int| 0 <= k < parts.len() ==> !(#[trigger] parts[k]).contains(c),
    ensures
        parts_of(joined(parts, seq![c]), c) == parts,
    decreases parts.len(),
{
    let s = joined(parts, seq![c]);
    let first = parts[0];
    let n = first.len() as int;
    assert(!first.contains(c));
    if parts.len() == 1 {
        lemma_first_index(first, c);
        assert(parts_of(first, c) =~= seq![first]);
        assert(seq![first] =~= parts);
    } else {
        let rest = parts.skip(1);
        let tail = joined(rest, seq![c]);
        lemma_joined_front(parts, seq![c]);
        assert forall|i: int| 0 <= i < n implies s[i] != c by {
            assert(s[i] == first[i]);
            assert(first.contains(first[i]));
        }
        assert(s[n] == c);
        lemma_first_index_is(s, c, n);
        assert(s.take(n) =~= first);
        assert(s.skip(n + 1) =~= tail);
        assert forall|k: int| 0 <= k < rest.len() implies !(#[trigger] rest[k]).contains(c) by {
            assert(rest[k] == parts[k + 1]);
        }
        splitting_undoes_joining(rest, c);
        assert(parts_of(s, c) == seq![first] + parts_of(tail, c));
        assert(seq![first] + rest =~= parts);
    }
}

/// A text without the separator that occurs in joined parts occurs in one of them.
pub proof fn lemma_occurs_in_a_part(needle: Seq<char>, parts: Seq<Seq<char>>, c: char)
    requires
        parts.len() > 0,
        !needle.contains(c),
        occurs_in(needle, joined(parts, seq![c])),
    ensures
        exists|k: int| 0 <= k < parts.len() && occurs_in(needle, #[trigger] parts[k]),
    decreases parts.len(),
{
    let s = joined(parts, seq![c]);
    if parts.len() == 1 {
        assert(occurs_in(needle, parts[0]));
    } else {
        let front = parts.drop_last();
        let head = joined(front, seq![c]);
        let last = parts.last();
        let i = choose|i: int| stands_at(s, needle, i);
        let n = needle.len() as int;
        let l = head.len() as int;
        assert(s == head + seq![c] + last);
        if i + n <= l {
            assert(head.subrange(i, i + n) =~= s.subrange(i, i + n));
            assert(stands_at(head, needle, i));
            lemma_occurs_in_a_part(needle, front, c);
            let k = choose|k: int| 0 <= k < front.len() && occurs_in(needle, #[trigger] front[k]);
            assert(parts[k] == front[k]);
        } else if i > l {
            assert(last.subrange(i - l - 1, i - l - 1 + n) =~= s.subrange(i, i + n));
            assert(stands_at(last, needle, i - l - 1));
            assert(occurs_in(needle, parts[parts.len() - 1]));
        } else {
            assert(s[l] == c);
            assert(s.subrange(i, i + n)[l - i] == c);
            assert(needle.contains(needle[l - i]));
        }
    }
}

/// Splits `s` at every `c`.
pub fn split_char(s: &str, c: char) -> (parts: Vec<String>)
    ensures
        texts(parts@) == parts_of(s@, c),
{
    let chars = chars_of(s);
    let mut parts: Vec<String> = Vec::new();
    let mut start: usize = 0;
    let mut i: usize = 0;
    assert(s@.skip(0) =~= s@);
    assert(texts(parts@) =~= Seq::<Seq<char>>::empty());
    assert(texts(parts@) + parts_of(s@, c) =~= parts_of(s@, c));
    while i < chars.len()
        invariant
            chars@ == s@,
            start <= i <= chars@.len(),
            forall|k: int| start <= k < i ==> s@[k] != c,
            texts(parts@) + parts_of(s@.skip(start as int), c) == parts_of(s@, c),
        decreases chars@.len() - i,
    {
        if chars[i] == c {
            let ghost rest = s@.skip(start as int);
            let ghost k = i - start;
            proof {
                lemma_first_index_is(rest, c, k);
                assert(rest.skip(k + 1) =~= s@.skip(i + 1));
                assert(rest.take(k) =~= s@.subrange(start as int, i as int));
            }
            let ghost before = texts(parts@);
            push_text(&mut parts, string_from(&chars, start, i));
            start = i + 1;
            assert(texts(parts@) + parts_of(s@.skip(start as int), c) =~= before + (seq![rest.take(
                k,
            )] + parts_of(rest.skip(k + 1), c)));
        }
        i = i + 1;
    }
    let ghost rest = s@.skip(start as int);
    proof {
        lemma_first_index_is(rest, c, rest.len() as int);
        assert(rest =~= s@.subrange(start as int, s@.len() as int));
    }
    let ghost before = texts(parts@);
    push_text(&mut parts, string_from(&chars, start, chars.len()));
    assert(texts(parts@) =~= before + seq![rest]);
    parts
}

/// The position of the first whitespace character of `s`, or its length where there is none.
pub open spec fn first_white(s: Seq<char>) -> int
    decreases s.len(),
{
    if s.len() == 0 || white(s[0]) {
        0
    } else {
        1 + first_white(s.skip(1))
    }
}

/// A position before which nothing is whitespace and at which something is, if at all, is
/// `first_white`.
pub proof fn lemma_first_white_is(s: Seq<char>, k: int)
    requires
        0 <= k <= s.len(),
        forall|i: int| 0 <= i < k ==> !white(s[i]),
        k < s.len() ==> white(s[k]),
    ensures
        first_white(s) == k,
    decreases k,
{
    if k > 0 {
        assert forall|i: int| 0 <= i < k - 1 implies !white(s.skip(1)[i]) by {
            assert(s.skip(1)[i] == s[i + 1]);
        }
        lemma_first_white_is(s.skip(1), k - 1);
    }
}

/// The position of the first whitespace character, or the length of `s`.
pub fn find_white(s: &str) -> (k: usize)
    ensures
        k == first_white(s@),
        k <= s@.len(),
        k < s@.len() ==> white(s@[k as int]),
{
    let chars = chars_of(s);
    let mut i: usize = 0;
    while i < chars.len() && !is_white(chars[i])
        invariant
            chars@ == s@,
            i <= chars@.len(),
            forall|k: int| 0 <= k < i ==> !white(s@[k]),
        decreases chars@.len() - i,
    {
        i = i + 1;
    }
    proof {
        lemma_first_white_is(s@, i as int);
    }
    i
}

/// The maximal runs of non-whitespace characters of `s`, in order.
pub open spec fn words(s: Seq<char>) -> Seq<Seq<char>>
    decreases s.len(),
{
    if s.len() == 0 {
        Seq::empty()
    } else if white(s[0]) {
        words(s.skip(1))
    } else {
        let k = first_white(s);
        if 0 < k <= s.len() {
            seq![s.take(k)] + words(s.skip(k))
        } else {
            Seq::empty()
        }
    }
}

/// The words of `s`.
pub fn split_words(s: &str) -> (out: Vec<String>)
    ensures
        texts(out@) == words(s@),
{
    let chars = chars_of(s);
    let mut out: Vec<String> = Vec::new();
    let mut i: usize = 0;
    assert(s@.skip(0) =~= s@);
    assert(texts(out@) + words(s@) =~= words(s@));
    while i < chars.len()
        invariant
            chars@ == s@,
            i <= chars@.len(),
            texts(out@) + words(s@.skip(i as int)) == words(s@),
        decreases chars@.len() - i,
    {
        let ghost rest = s@.skip(i as int);
        if is_white(chars[i]) {
            assert(rest.skip(1) =~= s@.skip(i + 1));
            i = i + 1;
        } else {
            let start = i;
            while i < chars.len() && !is_white(chars[i])
                invariant
                    chars@ == s@,
                    start <= i <= chars@.len(),
                    start < chars@.len(),
                    !white(chars@[start as int]),
                    forall|k: int| start <= k < i ==> !white(s@[k]),
                decreases chars@.len() - i,
            {
                i = i + 1;
            }
            let ghost k = i - start;
            proof {
                lemma_first_white_is(rest, k);
                assert(rest.skip(k) =~= s@.skip(i as int));
                assert(rest.take(k) =~= s@.subrange(start as int, i as int));
            }
            let ghost before = texts(out@);
            push_text(&mut out, string_from(&chars, start, i));
            assert(texts(out@) + words(s@.skip(i as int)) =~= before + (seq![rest.take(k)] + words(
                rest.skip(k),
            )));
        }
    }
    assert(s@.skip(i as int) =~= Seq::<char>::empty());
    assert(texts(out@) =~= words(s@));
    out
}

/// A line without a carriage return at its end.
pub open spec fn without_return(line: Seq<char>) -> Seq<char> {
    if line.len() > 0 && line.last() == '\r' {
        line.drop_last()
    } else {
        line
    }
}

/// The lines of `s`: its parts between line feeds, without the empty part behind a final line
/// feed, each without one carriage return in front of its line feed.
pub open spec fn lines_of(s: Seq<char>) -> Seq<Seq<char>>
    decreases s.len(),
{
    let k = first_index(s, '\n');
    if s.len() == 0 {
        Seq::empty()
    } else if 0 <= k < s.len() {
        seq![without_return(s.take(k))] + lines_of(s.skip(k + 1))
    } else {
        seq![s]
    }
}

/// The lines of `s`.
pub fn split_lines(s: &str) -> (out: Vec<String>)
    ensures
        texts(out@) == lines_of(s@),
{
    let chars = chars_of(s);
    let mut out: Vec<String> = Vec::new();
    let mut start: usize = 0;
    let mut i: usize = 0;
    assert(s@.skip(0) =~= s@);
    assert(texts(out@) + lines_of(s@) =~= lines_of(s@));
    while i < chars.len()
        invariant
            chars@ == s@,
            start <= i <= chars@.len(),
            forall|k: int| start <= k < i ==> s@[k] != '\n',
            texts(out@) + lines_of(s@.skip(start as int)) == lines_of(s@),
        decreases chars@.len() - i,
    {
        if chars[i] == '\n' {
            let ghost rest = s@.skip(start as int);
            let ghost k = i - start;
            proof {
                lemma_first_index_is(rest, '\n', k);
                assert(rest.skip(k + 1) =~= s@.skip(i + 1));
                assert(rest.take(k) =~= s@.subrange(start as int, i as int));
            }
            let end: usize = if i > start && chars[i - 1] == '\r' {
                i - 1
            } else {
                i
            };
            let ghost before = texts(out@);
            push_text(&mut out, string_from(&chars, start, end));
            assert(s@.subrange(start as int, end as int) =~= without_return(rest.take(k)));
            start = i + 1;
            assert(texts(out@) + lines_of(s@.skip(start as int)) =~= before + (seq![
                without_return(rest.take(k)),
            ] + lines_of(rest.skip(k + 1))));
        }
        i = i + 1;
    }
    let ghost rest = s@.skip(start as int);
    if start < chars.len() {
        proof {
            lemma_first_index_is(rest, '\n', rest.len() as int);
            assert(rest =~= s@.subrange(start as int, s@.len() as int));
        }
        let ghost before = texts(out@);
        push_text(&mut out, string_from(&chars, start, chars.len()));
        assert(texts(out@) =~= before + seq![rest]);
    } else {
        assert(rest =~= Seq::<char>::empty());
        assert(texts(out@) =~= lines_of(s@));
    }
    out
}

// ---------------------------------------------------------------------------------------------
// Character-by-character rewriting
// ---------------------------------------------------------------------------------------------

/// `s` with every character replaced by the text that `rewrite` gives for it.
pub open spec fn rewritten(s: Seq<char>, rewrite: spec_fn(char) -> Seq<char>) -> Seq<char>
    decreases s.len(),
{
    if s.len() == 0 {
        Seq::empty()
    } else {
        rewritten(s.drop_last(), rewrite) + rewrite(s.last())
    }
}

/// The first character is rewritten first.
pub proof fn lemma_rewritten_front(s: Seq<char>, rewrite: spec_fn(char) -> Seq<char>)
    requires
        s.len() > 0,
    ensures
        rewritten(s, rewrite) == rewrite(s[0]) + rewritten(s.skip(1), rewrite),
    decreases s.len(),
{
    let rest = s.skip(1);
    if s.len() == 1 {
        assert(rewritten(s.drop_last(), rewrite) =~= Seq::empty());
        assert(rewritten(rest, rewrite) =~= Seq::empty());
        assert(rewritten(s, rewrite) =~= rewrite(s[0]) + rewritten(rest, rewrite));
    } else {
        lemma_rewritten_front(s.drop_last(), rewrite);
        assert(s.drop_last().skip(1) =~= rest.drop_last());
        assert(rest.last() == s.last());
        assert(rewritten(s, rewrite) =~= rewrite(s[0]) + rewritten(rest, rewrite));
    }
}

/// The text that stands for one character when `from` is replaced by `to`.
pub open spec fn swapped(from: char, to: char) -> spec_fn(char) -> Seq<char> {
    |c: char|
        if c == from {
            seq![to]
        } else {
            seq![c]
        }
}

/// `s` with every `from` replaced by `to`.
pub fn replace_char(s: &str, from: char, to: char) -> (out: String)
    ensures
        out@ == rewritten(s@, swapped(from, to)),
        out@.len() == s@.len(),
{
    let chars = chars_of(s);
    let mut out = String::new();
    let mut i: usize = 0;
    assert(s@.take(0) =~= Seq::<char>::empty());
    while i < chars.len()
        invariant
            chars@ == s@,
            i <= chars@.len(),
            out@ == rewritten(s@.take(i as int), swapped(from, to)),
            out@.len() == i,
        decreases chars@.len() - i,
    {
        assert(s@.take(i + 1).drop_last() =~= s@.take(i as int));
        let ghost before = out@;
        if chars[i] == from {
            out.push(to);
            assert(out@ =~= before + seq![to]);
        } else {
            out.push(chars[i]);
            assert(out@ =~= before + seq![chars@[i as int]]);
        }
        i = i + 1;
    }
    assert(s@.take(i as int) =~= s@);
    out
}

/// `c` in ASCII lower case.
pub open spec fn ascii_lower(c: char) -> char {
    if 'A' <= c && c <= 'Z' {
        ((c as u8) + 32) as u8 as char
    } else {
        c
    }
}

/// `s` with its ASCII capitals in lower case.
pub open spec fn ascii_lowered(s: Seq<char>) -> Seq<char> {
    Seq::new(s.len(), |i: int| ascii_lower(s[i]))
}

/// Puts the ASCII capitals of `s` in lower case.
pub fn to_ascii_lower(s: &str) -> (out: String)
    ensures
        out@ == ascii_lowered(s@),
{
    let chars = chars_of(s);
    let mut out = String::new();
    let mut i: usize = 0;
    while i < chars.len()
        invariant
            chars@ == s@,
            i <= chars@.len(),
            out@ == ascii_lowered(s@).take(i as int),
        decreases chars@.len() - i,
    {
        let c = chars[i];
        if 'A' <= c && c <= 'Z' {
            out.push(((c as u8) + 32) as char);
        } else {
            out.push(c);
        }
        i = i + 1;
        assert(out@ =~= ascii_lowered(s@).take(i as int));
    }
    assert(out@ =~= ascii_lowered(s@));
    out
}

// ---------------------------------------------------------------------------------------------
// Lengths
// ---------------------------------------------------------------------------------------------

/// The number of UTF-16 code units of one character.
pub open spec fn utf16_units(c: char) -> nat {
    if c as u32 >= 0x10000 {
        2
    } else {
        1
    }
}

/// The number of UTF-16 code units of `s`.
pub open spec fn utf16_len(s: Seq<char>) -> nat
    decreases s.len(),
{
    if s.len() == 0 {
        0
    } else {
        utf16_len(s.drop_last()) + utf16_units(s.last())
    }
}

/// A prefix has no more code units than the whole.
pub proof fn lemma_utf16_len_prefix(s: Seq<char>, k: int)
    requires
        0 <= k <= s.len(),
    ensures
        utf16_len(s.take(k)) <= utf16_len(s),
        k < s.len() ==> utf16_len(s.take(k)) < utf16_len(s),
    decreases s.len(),
{
    if k == s.len() {
        assert(s.take(k) =~= s);
    } else {
        assert(s.drop_last().take(k) =~= s.take(k));
        lemma_utf16_len_prefix(s.drop_last(), k);
    }
}

/// The first `n` characters of `s`, or all of them.
pub open spec fn at_most(s: Seq<char>, n: int) -> Seq<char> {
    if s.len() <= n {
        s
    } else {
        s.take(n)
    }
}

/// Cuts `s` to its first `n` characters.
pub fn take_chars<'a>(s: &'a str, n: usize) -> (out: &'a str)
    ensures
        out@ == at_most(s@, n as int),
{
    let total = s.unicode_len();
    let out = if total <= n {
        s.substring_char(0, total)
    } else {
        s.substring_char(0, n)
    };
    assert(out@ =~= at_most(s@, n as int));
    out
}

// ---------------------------------------------------------------------------------------------
// Concatenation
// ---------------------------------------------------------------------------------------------

/// `a` followed by `b`.
pub fn cat2(a: &str, b: &str) -> (out: String)
    ensures
        out@ == a@ + b@,
{
    let mut out = a.to_owned();
    out.append(b);
    out
}

/// `a`, `b` and `c` in a row.
pub fn cat3(a: &str, b: &str, c: &str) -> (out: String)
    ensures
        out@ == a@ + b@ + c@,
{
    let mut out = cat2(a, b);
    out.append(c);
    out
}

/// Four texts in a row.
pub fn cat4(a: &str, b: &str, c: &str, d: &str) -> (out: String)
    ensures
        out@ == a@ + b@ + c@ + d@,
{
    let mut out = cat3(a, b, c);
    out.append(d);
    out
}

/// Five texts in a row.
pub fn cat5(a: &str, b: &str, c: &str, d: &str, e: &str) -> (out: String)
    ensures
        out@ == a@ + b@ + c@ + d@ + e@,
{
    let mut out = cat4(a, b, c, d);
    out.append(e);
    out
}

/// Six texts in a row.
pub fn cat6(a: &str, b: &str, c: &str, d: &str, e: &str, f: &str) -> (out: String)
    ensures
        out@ == a@ + b@ + c@ + d@ + e@ + f@,
{
    let mut out = cat5(a, b, c, d, e);
    out.append(f);
    out
}

/// An empty list of texts.
pub fn no_texts() -> (out: Vec<String>)
    ensures
        texts(out@) == Seq::<Seq<char>>::empty(),
        out@.len() == 0,
{
    let out: Vec<String> = Vec::new();
    assert(texts(out@) =~= Seq::<Seq<char>>::empty());
    out
}

/// Appends copies of all texts of `more`.
pub fn append_texts(list: &mut Vec<String>, more: &Vec<String>)
    ensures
        texts(final(list)@) == texts(old(list)@) + texts(more@),
{
    let ghost before = texts(list@);
    let mut i: usize = 0;
    assert(texts(more@).take(0) =~= Seq::<Seq<char>>::empty());
    assert(before + texts(more@).take(0) =~= before);
    while i < more.len()
        invariant
            i <= more@.len(),
            texts(list@) == before + texts(more@).take(i as int),
        decreases more@.len() - i,
    {
        push_text(list, more[i].clone());
        i = i + 1;
        assert(texts(list@) =~= before + texts(more@).take(i as int));
    }
    assert(texts(more@).take(i as int) =~= texts(more@));
}

/// Whether an optional text is there and equals `expected`.
pub fn is_text(value: Option<&str>, expected: &str) -> (yes: bool)
    ensures
        yes == (value is Some && value->0@ == expected@),
{
    match value {
        Some(s) => same_text(s, expected),
        None => false,
    }
}

// ---------------------------------------------------------------------------------------------
// Order
// ---------------------------------------------------------------------------------------------

/// `a` comes before `b` when compared character by character; this is the order of their UTF-8
/// bytes too.
pub open spec fn precedes(a: Seq<char>, b: Seq<char>) -> bool
    decreases a.len(),
{
    if b.len() == 0 {
        false
    } else if a.len() == 0 {
        true
    } else if a[0] != b[0] {
        a[0] < b[0]
    } else {
        precedes(a.skip(1), b.skip(1))
    }
}

/// Whether `a` comes before `b`.
pub fn comes_before(a: &str, b: &str) -> (yes: bool)
    ensures
        yes == precedes(a@, b@),
{
    let left = chars_of(a);
    let right = chars_of(b);
    let mut i: usize = 0;
    assert(a@.skip(0) =~= a@);
    assert(b@.skip(0) =~= b@);
    while i < left.len() && i < right.len()
        invariant
            left@ == a@,
            right@ == b@,
            i <= left@.len(),
            i <= right@.len(),
            precedes(a@.skip(i as int), b@.skip(i as int)) == precedes(a@, b@),
        decreases left@.len() - i,
    {
        assert(a@.skip(i as int).skip(1) =~= a@.skip(i + 1));
        assert(b@.skip(i as int).skip(1) =~= b@.skip(i + 1));
        if left[i] != right[i] {
            return left[i] < right[i];
        }
        i = i + 1;
    }
    i < right.len()
}

/// No text comes before itself, of two different texts one comes before the other, and what comes
/// before a text that comes before a third comes before the third.
pub proof fn texts_are_totally_ordered(a: Seq<char>, b: Seq<char>, c: Seq<char>)
    ensures
        !precedes(a, a),
        a != b ==> precedes(a, b) || precedes(b, a),
        !(precedes(a, b) && precedes(b, a)),
        precedes(a, b) && precedes(b, c) ==> precedes(a, c),
    decreases a.len() + b.len() + c.len(),
{
    if a.len() > 0 && b.len() > 0 && c.len() > 0 {
        texts_are_totally_ordered(a.skip(1), b.skip(1), c.skip(1));
        if a != b && a[0] == b[0] && a.skip(1) == b.skip(1) {
            assert(a =~= seq![a[0]] + a.skip(1));
            assert(b =~= seq![b[0]] + b.skip(1));
        }
    } else if a.len() > 0 && b.len() > 0 {
        texts_are_totally_ordered(a.skip(1), b.skip(1), c);
        if a != b && a[0] == b[0] && a.skip(1) == b.skip(1) {
            assert(a =~= seq![a[0]] + a.skip(1));
            assert(b =~= seq![b[0]] + b.skip(1));
        }
    } else if a.len() > 0 {
        texts_are_totally_ordered(a.skip(1), b, c);
    } else if a != b {
        assert(a =~= Seq::<char>::empty());
        if b.len() == 0 {
            assert(b =~= Seq::<char>::empty());
        }
    }
}

} // verus!
