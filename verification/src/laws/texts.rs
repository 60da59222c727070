//! Texts: trimming, splitting, joining, rewriting and comparing.

use vstd::prelude::*;

use crate::text;

verus! {

// ---------------------------------------------------------------------------------------------
// Trimming
// ---------------------------------------------------------------------------------------------

/// `part` is `s` from `i` to `j`: all around it is white, and neither of its ends is.
pub open spec fn spans(s: Seq<char>, part: Seq<char>, i: int, j: int) -> bool {
    &&& 0 <= i <= j <= s.len()
    &&& part == s.subrange(i, j)
    &&& forall|k: int| 0 <= k < i ==> text::white(#[trigger] s[k])
    &&& forall|k: int| j <= k < s.len() ==> text::white(#[trigger] s[k])
    &&& i < j ==> !text::white(s[i]) && !text::white(s[j - 1])
}

/// `part` is all of `s` but the blanks around it.
pub open spec fn trims_to(s: Seq<char>, part: Seq<char>) -> bool {
    exists|i: int, j: int| #[trigger] spans(s, part, i, j)
}

proof fn lemma_start(s: Seq<char>) -> (i: int)
    ensures
        0 <= i <= s.len(),
        text::trimmed_start(s) == s.skip(i),
        forall|k: int| 0 <= k < i ==> text::white(#[trigger] s[k]),
        i < s.len() ==> !text::white(s[i]),
    decreases s.len(),
{
    if s.len() > 0 && text::white(s[0]) {
        let rest = s.skip(1);
        let i = lemma_start(rest);
        assert(rest.skip(i) =~= s.skip(i + 1));
        assert forall|k: int| 0 <= k < i + 1 implies text::white(#[trigger] s[k]) by {
            if k > 0 {
                assert(rest[k - 1] == s[k]);
            }
        }
        if i < rest.len() {
            assert(rest[i] == s[i + 1]);
        }
        i + 1
    } else {
        assert(s.skip(0) =~= s);
        0
    }
}

proof fn lemma_end(s: Seq<char>) -> (j: int)
    ensures
        0 <= j <= s.len(),
        text::trimmed_end(s) == s.take(j),
        forall|k: int| j <= k < s.len() ==> text::white(#[trigger] s[k]),
        j > 0 ==> !text::white(s[j - 1]),
    decreases s.len(),
{
    if s.len() > 0 && text::white(s.last()) {
        let front = s.drop_last();
        let j = lemma_end(front);
        assert(front.take(j) =~= s.take(j));
        assert forall|k: int| j <= k < s.len() implies text::white(#[trigger] s[k]) by {
            if k < front.len() {
                assert(front[k] == s[k]);
            }
        }
        if j > 0 {
            assert(front[j - 1] == s[j - 1]);
        }
        j
    } else {
        assert(s.take(s.len() as int) =~= s);
        s.len() as int
    }
}

/// Trimming takes the blanks around a text and nothing else.
pub proof fn trimming_takes_only_the_blanks_around(s: Seq<char>)
    ensures
        trims_to(s, text::trimmed(s)),
{
    let i = lemma_start(s);
    let mid = s.skip(i);
    let j = lemma_end(mid);
    let part = mid.take(j);
    assert(part =~= s.subrange(i, i + j));
    assert forall|k: int| i + j <= k < s.len() implies text::white(#[trigger] s[k]) by {
        assert(mid[k - i] == s[k]);
    }
    if j > 0 {
        assert(mid[j - 1] == s[i + j - 1]);
    }
    assert(spans(s, part, i, i + j));
}

/// What remains of a text without the blanks around it is what trimming gives.
pub proof fn trimming_gives_what_is_between_the_blanks(s: Seq<char>, part: Seq<char>)
    requires
        trims_to(s, part),
    ensures
        text::trimmed(s) == part,
{
    trimming_takes_only_the_blanks_around(s);
    let (i, j) = choose|i: int, j: int| #[trigger] spans(s, part, i, j);
    let (a, b) = choose|a: int, b: int| #[trigger] spans(s, text::trimmed(s), a, b);
    if i < j {
        assert(!text::white(s[i]));
        assert(!text::white(s[j - 1]));
        if a < b {
            assert(!text::white(s[a]));
            assert(!text::white(s[b - 1]));
            assert(a == i && b == j);
        } else {
            assert(text::white(s[i]));
        }
    } else if a < b {
        assert(!text::white(s[a]));
        assert(text::white(s[a]));
    }
    assert(text::trimmed(s) =~= part);
}

/// Trimming the start or the end takes the blanks there and nothing else.
pub proof fn trimming_one_end_takes_only_its_blanks(s: Seq<char>)
    ensures
        exists|i: int|
            0 <= i <= s.len() && text::trimmed_start(s) == #[trigger] s.skip(i) && (forall|k: int|
                0 <= k < i ==> text::white(#[trigger] s[k])) && (i < s.len() ==> !text::white(
                s[i],
            )),
        exists|j: int|
            0 <= j <= s.len() && text::trimmed_end(s) == #[trigger] s.take(j) && (forall|k: int|
                j <= k < s.len() ==> text::white(#[trigger] s[k])) && (j > 0 ==> !text::white(
                s[j - 1],
            )),
{
    let i = lemma_start(s);
    let j = lemma_end(s);
    assert(text::trimmed_start(s) == s.skip(i));
    assert(text::trimmed_end(s) == s.take(j));
}

/// A text that neither begins nor ends with a blank is left as it is, whatever blanks are added
/// around it.
pub proof fn blanks_around_a_text_do_not_matter(
    before: Seq<char>,
    s: Seq<char>,
    after: Seq<char>,
)
    requires
        forall|k: int| 0 <= k < before.len() ==> text::white(#[trigger] before[k]),
        forall|k: int| 0 <= k < after.len() ==> text::white(#[trigger] after[k]),
        s.len() > 0 ==> !text::white(s[0]) && !text::white(s.last()),
    ensures
        text::trimmed(before + s + after) == s,
        text::trimmed(s) == s,
{
    let all = before + s + after;
    let i = before.len() as int;
    let j = i + s.len();
    assert(all.subrange(i, j) =~= s);
    assert forall|k: int| 0 <= k < i implies text::white(#[trigger] all[k]) by {
        assert(all[k] == before[k]);
    }
    assert forall|k: int| j <= k < all.len() implies text::white(#[trigger] all[k]) by {
        assert(all[k] == after[k - j]);
    }
    if s.len() > 0 {
        assert(all[i] == s[0]);
        assert(all[j - 1] == s.last());
    }
    assert(spans(all, s, i, j));
    trimming_gives_what_is_between_the_blanks(all, s);
    assert(s.subrange(0, s.len() as int) =~= s);
    assert(spans(s, s, 0, s.len() as int));
    trimming_gives_what_is_between_the_blanks(s, s);
}

/// A text is blank where it holds nothing but blanks.
pub proof fn blank_means_only_blanks(s: Seq<char>)
    ensures
        text::blank(s) <==> forall|k: int| 0 <= k < s.len() ==> text::white(#[trigger] s[k]),
{
    trimming_takes_only_the_blanks_around(s);
    let (i, j) = choose|i: int, j: int| #[trigger] spans(s, text::trimmed(s), i, j);
    if text::blank(s) {
        assert(i == j);
    } else {
        assert(i < j);
        assert(!text::white(s[i]));
    }
}

/// Blanks, tabs and line breaks are white; letters, digits and signs are not.
pub proof fn printed_characters_are_not_white(c: char)
    ensures
        '!' <= c <= '~' ==> !text::white(c),
        c == ' ' || c == '\t' || c == '\n' || c == '\r' ==> text::white(c),
{
}

// ---------------------------------------------------------------------------------------------
// Joining and splitting
// ---------------------------------------------------------------------------------------------

/// One part is joined to itself, and two lists are joined by joining each and setting the
/// separator between them.
pub proof fn joining_sets_separators_between(
    first: Seq<Seq<char>>,
    second: Seq<Seq<char>>,
    separator: Seq<char>,
    one: Seq<char>,
)
    ensures
        text::joined(seq![one], separator) == one,
        text::joined(Seq::empty(), separator) == Seq::<char>::empty(),
        first.len() > 0 && second.len() > 0 ==> text::joined(first + second, separator)
            == text::joined(first, separator) + separator + text::joined(second, separator),
        first.len() == 0 ==> text::joined(first + second, separator) == text::joined(
            second,
            separator,
        ),
    decreases second.len(),
{
    if first.len() == 0 {
        assert(first + second =~= second);
    } else if second.len() == 1 {
        assert((first + second).drop_last() =~= first);
        assert((first + second).last() == second[0]);
    } else if second.len() > 1 {
        let front = second.drop_last();
        joining_sets_separators_between(first, front, separator, one);
        assert((first + second).drop_last() =~= first + front);
        assert((first + second).last() == second.last());
        assert(text::joined(first + second, separator) =~= text::joined(first, separator)
            + separator + text::joined(second, separator));
    }
}

/// One more part stands behind a separator.
pub proof fn joining_one_more_part(separator: Seq<char>, parts: Seq<Seq<char>>, part: Seq<char>)
    requires
        parts.len() > 0,
    ensures
        text::joined(parts.push(part), separator) == text::joined(parts, separator) + separator
            + part,
{
    assert(parts.push(part).drop_last() =~= parts);
}

/// Every part occurs in what is joined.
pub proof fn joining_keeps_every_part(parts: Seq<Seq<char>>, separator: Seq<char>, k: int)
    requires
        0 <= k < parts.len(),
    ensures
        text::occurs_in(parts[k], text::joined(parts, separator)),
    decreases parts.len(),
{
    let all = text::joined(parts, separator);
    if parts.len() == 1 {
        assert(all.subrange(0, all.len() as int) =~= parts[k]);
        assert(text::stands_at(all, parts[k], 0));
    } else if k == parts.len() - 1 {
        let at = all.len() - parts[k].len();
        assert(all.subrange(at, all.len() as int) =~= parts[k]);
        assert(text::stands_at(all, parts[k], at));
    } else {
        let front = parts.drop_last();
        joining_keeps_every_part(front, separator, k);
        let head = text::joined(front, separator);
        let i = choose|i: int| text::stands_at(head, parts[k], i);
        assert(all.subrange(i, i + parts[k].len()) =~= head.subrange(i, i + parts[k].len()));
        assert(text::stands_at(all, parts[k], i));
    }
}

/// A text occurs in another where the other is the text with something before and behind it.
pub proof fn occurring_means_standing_between(
    before: Seq<char>,
    needle: Seq<char>,
    after: Seq<char>,
)
    ensures
        text::occurs_in(needle, before + needle + after),
        text::has_prefix(needle + after, needle),
        text::has_suffix(before + needle, needle),
{
    let all = before + needle + after;
    let i = before.len() as int;
    assert(all.subrange(i, i + needle.len()) =~= needle);
    assert(text::stands_at(all, needle, i));
    assert((needle + after).subrange(0, needle.len() as int) =~= needle);
    assert((before + needle).subrange(i, i + needle.len()) =~= needle);
}

/// Where a text occurs in another, the other is the text with something before and behind it.
pub proof fn occurring_texts_can_be_cut_out(needle: Seq<char>, s: Seq<char>)
    requires
        text::occurs_in(needle, s),
    ensures
        exists|before: Seq<char>, after: Seq<char>| s == #[trigger] ((before + needle)
            + after),
{
    let i = choose|i: int| text::stands_at(s, needle, i);
    let before = s.take(i);
    let after = s.skip(i + needle.len());
    assert(s =~= (before + needle) + after);
}

/// What occurs in a text that occurs in a third occurs in the third.
pub proof fn occurring_is_transitive(a: Seq<char>, b: Seq<char>, c: Seq<char>)
    requires
        text::occurs_in(a, b),
        text::occurs_in(b, c),
    ensures
        text::occurs_in(a, c),
{
    let i = choose|i: int| text::stands_at(b, a, i);
    let j = choose|j: int| text::stands_at(c, b, j);
    assert(c.subrange(i + j, i + j + a.len()) =~= a) by {
        assert(c.subrange(j, j + b.len()).subrange(i, i + a.len()) =~= c.subrange(
            i + j,
            i + j + a.len(),
        ));
    }
    assert(text::stands_at(c, a, i + j));
}

/// Splitting gives parts without the separator that joining puts together again.
pub proof fn joining_undoes_splitting(s: Seq<char>, c: char)
    ensures
        text::joined(text::parts_of(s, c), seq![c]) == s,
        text::parts_of(s, c).len() > 0,
        forall|k: int|
            0 <= k < text::parts_of(s, c).len() ==> !(#[trigger] text::parts_of(s, c)[k]).contains(
                c,
            ),
    decreases s.len(),
{
    let k = text::first_index(s, c);
    text::lemma_first_index(s, c);
    if k < s.len() {
        let head = s.take(k);
        let rest = s.skip(k + 1);
        let tail = text::parts_of(rest, c);
        joining_undoes_splitting(rest, c);
        joining_sets_separators_between(seq![head], tail, seq![c], head);
        assert(text::parts_of(s, c) == seq![head] + tail);
        assert(head + seq![c] + rest =~= s);
        assert(!head.contains(c)) by {
            if head.contains(c) {
                let i = choose|i: int| 0 <= i < head.len() && head[i] == c;
                assert(s[i] == c);
            }
        }
        assert forall|i: int| 0 <= i < text::parts_of(s, c).len() implies !(
        #[trigger] text::parts_of(s, c)[i]).contains(c) by {
            if i > 0 {
                assert(text::parts_of(s, c)[i] == tail[i - 1]);
            }
        }
    } else {
        assert(text::parts_of(s, c) =~= seq![s]);
        joining_sets_separators_between(seq![s], seq![s], seq![c], s);
    }
}

// ---------------------------------------------------------------------------------------------
// Words
// ---------------------------------------------------------------------------------------------

/// The text is a word: it is not empty and holds no blank.
pub open spec fn is_word(s: Seq<char>) -> bool {
    s.len() > 0 && forall|k: int| 0 <= k < s.len() ==> !text::white(#[trigger] s[k])
}

/// A word and a blank in front of a text put the word in front of its words.
pub proof fn a_word_is_read_first(word: Seq<char>, blank: char, rest: Seq<char>)
    requires
        is_word(word),
        text::white(blank),
    ensures
        text::words(word.push(blank) + rest) == seq![word] + text::words(rest),
        text::words(word) == seq![word],
        text::words(seq![blank] + rest) == text::words(rest),
        text::words(Seq::empty()) == Seq::<Seq<char>>::empty(),
{
    let all = word.push(blank) + rest;
    let n = word.len() as int;
    assert forall|i: int| 0 <= i < n implies !text::white(all[i]) by {
        assert(all[i] == word[i]);
    }
    assert(all[0] == word[0]);
    text::lemma_first_white_is(all, n);
    assert(all.take(n) =~= word);
    let behind = all.skip(n);
    assert(behind[0] == blank);
    assert(behind.skip(1) =~= rest);
    assert(text::words(behind) == text::words(rest));
    assert(text::words(all) == seq![word] + text::words(behind));
    text::lemma_first_white_is(word, n);
    assert(word.take(n) =~= word);
    assert(word.skip(n) =~= Seq::empty());
    assert(text::words(word.skip(n)) =~= Seq::empty());
    assert((seq![blank] + rest).skip(1) =~= rest);
    assert(text::words(word) =~= seq![word]);
}

/// The words of words that are joined by blanks are those words.
pub proof fn joined_words_are_read_back(words: Seq<Seq<char>>)
    requires
        forall|k: int| 0 <= k < words.len() ==> is_word(#[trigger] words[k]),
    ensures
        text::words(text::joined(words, " "@)) == words,
    decreases words.len(),
{
    reveal_strlit(" ");
    assert(" "@ =~= seq![' ']);
    if words.len() == 0 {
        assert(text::joined(words, " "@) =~= Seq::empty());
        assert(words =~= Seq::empty());
    } else if words.len() == 1 {
        a_word_is_read_first(words[0], ' ', Seq::empty());
        assert(words =~= seq![words[0]]);
    } else {
        let rest = words.skip(1);
        assert forall|k: int| 0 <= k < rest.len() implies is_word(#[trigger] rest[k]) by {
            assert(rest[k] == words[k + 1]);
        }
        joined_words_are_read_back(rest);
        joining_sets_separators_between(seq![words[0]], rest, " "@, words[0]);
        assert(seq![words[0]] + rest =~= words);
        assert(text::joined(words, " "@) =~= words[0].push(' ') + text::joined(rest, " "@));
        a_word_is_read_first(words[0], ' ', text::joined(rest, " "@));
    }
}

/// All that is read are words.
pub proof fn only_words_are_read(s: Seq<char>)
    ensures
        forall|k: int| 0 <= k < text::words(s).len() ==> is_word(#[trigger] text::words(s)[k]),
    decreases s.len(),
{
    if s.len() > 0 {
        if text::white(s[0]) {
            only_words_are_read(s.skip(1));
            assert(text::words(s) == text::words(s.skip(1)));
        } else {
            let k = lemma_first_white(s);
            let word = s.take(k);
            only_words_are_read(s.skip(k));
            assert forall|i: int| 0 <= i < word.len() implies !text::white(#[trigger] word[i]) by {
                assert(word[i] == s[i]);
            }
            assert(is_word(word));
            assert(text::words(s) == seq![word] + text::words(s.skip(k)));
            assert forall|i: int| 0 <= i < text::words(s).len() implies is_word(
                #[trigger] text::words(s)[i],
            ) by {
                if i > 0 {
                    assert(text::words(s)[i] == text::words(s.skip(k))[i - 1]);
                } else {
                    assert(text::words(s)[i] == word);
                }
            }
        }
    } else {
        assert(text::words(s).len() == 0);
    }
}

proof fn lemma_first_white(s: Seq<char>) -> (k: int)
    ensures
        k == text::first_white(s),
        0 <= k <= s.len(),
        forall|i: int| 0 <= i < k ==> !text::white(#[trigger] s[i]),
        k < s.len() ==> text::white(s[k]),
        s.len() > 0 && !text::white(s[0]) ==> k > 0,
    decreases s.len(),
{
    if s.len() == 0 || text::white(s[0]) {
        0
    } else {
        let rest = s.skip(1);
        let k = lemma_first_white(rest);
        assert forall|i: int| 0 <= i < k + 1 implies !text::white(#[trigger] s[i]) by {
            if i > 0 {
                assert(rest[i - 1] == s[i]);
            }
        }
        if k < rest.len() {
            assert(rest[k] == s[k + 1]);
        }
        k + 1
    }
}

// ---------------------------------------------------------------------------------------------
// Lines
// ---------------------------------------------------------------------------------------------

/// A line with its line break in front of a text is read as its first line; a carriage return at
/// its end is not part of it. A last line needs no line break.
pub proof fn a_line_is_read_first(line: Seq<char>, rest: Seq<char>)
    requires
        !line.contains('\n'),
    ensures
        text::lines_of(line.push('\n') + rest) == seq![text::without_return(line)]
            + text::lines_of(rest),
        line.len() > 0 ==> text::lines_of(line) == seq![line],
        text::lines_of(Seq::empty()) == Seq::<Seq<char>>::empty(),
        line.len() == 0 || line.last() != '\r' ==> text::without_return(line) == line,
        text::without_return(line.push('\r')) == line,
{
    let all = line.push('\n') + rest;
    let n = line.len() as int;
    assert forall|i: int| 0 <= i < n implies all[i] != '\n' by {
        assert(all[i] == line[i]);
        assert(line.contains(line[i]));
    }
    assert(all[n] == '\n');
    text::lemma_first_index_is(all, '\n', n);
    assert(all.take(n) =~= line);
    assert(all.skip(n + 1) =~= rest);
    text::lemma_first_index(line, '\n');
    assert(line.push('\r').drop_last() =~= line);
}

/// The lines of lines that are joined by line breaks are those lines.
pub proof fn joined_lines_are_read_back(lines: Seq<Seq<char>>)
    requires
        lines.len() > 0,
        lines.last().len() > 0,
        forall|k: int|
            0 <= k < lines.len() ==> !(#[trigger] lines[k]).contains('\n') && !lines[k].contains(
                '\r',
            ),
    ensures
        text::lines_of(text::joined(lines, "\n"@)) == lines,
    decreases lines.len(),
{
    reveal_strlit("\n");
    assert("\n"@ =~= seq!['\n']);
    let first = lines[0];
    assert(!first.contains('\n') && !first.contains('\r'));
    if first.len() > 0 {
        assert(first.contains(first.last()));
    }
    if lines.len() == 1 {
        a_line_is_read_first(first, Seq::empty());
        assert(lines =~= seq![first]);
    } else {
        let rest = lines.skip(1);
        assert forall|k: int| 0 <= k < rest.len() implies !(#[trigger] rest[k]).contains('\n')
            && !rest[k].contains('\r') by {
            assert(rest[k] == lines[k + 1]);
        }
        joined_lines_are_read_back(rest);
        joining_sets_separators_between(seq![first], rest, "\n"@, first);
        assert(seq![first] + rest =~= lines);
        assert(text::joined(lines, "\n"@) =~= first.push('\n') + text::joined(rest, "\n"@));
        a_line_is_read_first(first, text::joined(rest, "\n"@));
    }
}

// ---------------------------------------------------------------------------------------------
// Rewriting
// ---------------------------------------------------------------------------------------------

/// Rewriting goes character by character: two texts in a row are rewritten one after the other.
pub proof fn rewriting_goes_by_characters(
    a: Seq<char>,
    b: Seq<char>,
    c: char,
    rewrite: spec_fn(char) -> Seq<char>,
)
    ensures
        text::rewritten(a + b, rewrite) == text::rewritten(a, rewrite) + text::rewritten(
            b,
            rewrite,
        ),
        text::rewritten(seq![c], rewrite) == rewrite(c),
        text::rewritten(Seq::empty(), rewrite) == Seq::<char>::empty(),
    decreases b.len(),
{
    assert(seq![c].drop_last() =~= Seq::empty());
    assert(text::rewritten(seq![c].drop_last(), rewrite) =~= Seq::empty());
    assert(text::rewritten(seq![c], rewrite) =~= rewrite(c));
    if b.len() == 0 {
        assert(a + b =~= a);
        assert(text::rewritten(a + b, rewrite) =~= text::rewritten(a, rewrite) + text::rewritten(
            b,
            rewrite,
        ));
    } else {
        let front = b.drop_last();
        rewriting_goes_by_characters(a, front, c, rewrite);
        assert((a + b).drop_last() =~= a + front);
        assert((a + b).last() == b.last());
        assert(text::rewritten(a + b, rewrite) =~= text::rewritten(a, rewrite) + text::rewritten(
            b,
            rewrite,
        ));
    }
}

/// Replacing a character changes it wherever it stands, and nothing else.
pub proof fn replacing_changes_one_character(s: Seq<char>, from: char, to: char)
    ensures
        text::rewritten(s, text::swapped(from, to)).len() == s.len(),
        forall|k: int|
            0 <= k < s.len() ==> #[trigger] text::rewritten(s, text::swapped(from, to))[k] == (
            if s[k] == from {
                to
            } else {
                s[k]
            }),
    decreases s.len(),
{
    if s.len() > 0 {
        let front = s.drop_last();
        replacing_changes_one_character(front, from, to);
        let out = text::rewritten(s, text::swapped(from, to));
        let head = text::rewritten(front, text::swapped(from, to));
        assert forall|k: int| 0 <= k < s.len() implies #[trigger] out[k] == (if s[k] == from {
            to
        } else {
            s[k]
        }) by {
            if k < front.len() {
                assert(out[k] == head[k]);
                assert(front[k] == s[k]);
            }
        }
    }
}

/// Lowering turns the capitals A to Z into a to z and leaves every other character.
pub proof fn lowering_changes_only_capitals(s: Seq<char>, k: int)
    requires
        0 <= k < s.len(),
    ensures
        text::ascii_lowered(s).len() == s.len(),
        'A' <= s[k] <= 'Z' ==> text::ascii_lowered(s)[k] as u32 == s[k] as u32 + 32,
        !('A' <= s[k] <= 'Z') ==> text::ascii_lowered(s)[k] == s[k],
        text::ascii_lowered(text::ascii_lowered(s)) == text::ascii_lowered(s),
{
    let low = text::ascii_lowered(s);
    assert forall|i: int| 0 <= i < s.len() implies text::ascii_lower(#[trigger] low[i]) == low[i] by {
        assert(low[i] == text::ascii_lower(s[i]));
    }
    assert(text::ascii_lowered(low) =~= low);
}

/// A text is as long in UTF-16 as its parts together, and each character counts one or two units.
pub proof fn utf16_lengths_add_up(a: Seq<char>, b: Seq<char>, c: char)
    ensures
        text::utf16_len(a + b) == text::utf16_len(a) + text::utf16_len(b),
        text::utf16_len(seq![c]) == if c as u32 > 0xffff {
            2nat
        } else {
            1nat
        },
        text::utf16_len(Seq::empty()) == 0,
        a.len() <= text::utf16_len(a) <= 2 * a.len(),
    decreases a.len() + b.len(),
{
    assert(text::utf16_len(seq![c].drop_last()) == 0);
    if b.len() > 0 {
        utf16_lengths_add_up(a, b.drop_last(), c);
        assert((a + b).drop_last() =~= a + b.drop_last());
        assert((a + b).last() == b.last());
    } else {
        assert(a + b =~= a);
        if a.len() > 0 {
            utf16_lengths_add_up(a.drop_last(), b, c);
        }
    }
}

// ---------------------------------------------------------------------------------------------
// Order
// ---------------------------------------------------------------------------------------------

/// Texts are ordered by their first different character; a text comes before its continuations.
pub proof fn the_first_difference_orders(
    common: Seq<char>,
    a: char,
    b: char,
    rest: Seq<char>,
    other: Seq<char>,
)
    ensures
        a < b ==> text::precedes(common.push(a) + rest, common.push(b) + other),
        text::precedes(common, common.push(a) + rest),
    decreases common.len(),
{
    let x = common.push(a) + rest;
    let y = common.push(b) + other;
    if common.len() == 0 {
        assert(x[0] == a);
        assert(y[0] == b);
    } else {
        let short = common.skip(1);
        the_first_difference_orders(short, a, b, rest, other);
        assert(x[0] == common[0]);
        assert(y[0] == common[0]);
        assert(x.skip(1) =~= short.push(a) + rest);
        assert(y.skip(1) =~= short.push(b) + other);
    }
}

/// The blanks are the characters that Unicode calls white space.
pub proof fn blanks_are_those_of_unicode(c: char)
    ensures
        text::white(c) <==> c == '\t' || c == '\n' || c == '\u{b}' || c == '\u{c}' || c == '\r' || c
            == ' ' || c == '\u{85}' || c == '\u{a0}' || c == '\u{1680}' || '\u{2000}' <= c
            <= '\u{200a}' || c == '\u{2028}' || c == '\u{2029}' || c == '\u{202f}' || c
            == '\u{205f}' || c == '\u{3000}',
{
}

} // verus!
