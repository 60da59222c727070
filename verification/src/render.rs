//! The texts and buttons that Codex events become in Telegram.

use vstd::prelude::*;

use crate::digest;
use crate::digest::sha256_hex;
use crate::json;
use crate::json::Json;
use crate::json::JsonView;
use crate::number;
use crate::number::to_decimal;
use crate::path;
use crate::path::file_name;
use crate::text;
use crate::text::cat2;
use crate::text::cat3;
use crate::text::cat4;
use crate::text::cat5;
use crate::text::cat6;
use crate::text::chars_of;
use crate::text::find_char;
use crate::text::is_blank;
use crate::text::join;
use crate::text::no_texts;
use crate::text::push_text;
use crate::text::replace_char;
use crate::text::same_text;
use crate::text::split_words;
use crate::text::starts_with_char;
use crate::text::string_from;
use crate::text::strip_prefix;
use crate::text::take_chars;
use crate::text::trim;
use crate::text::trim_end;
use crate::types;
use crate::types::ObservedWorkspace;
use crate::types::RegisteredProject;
use crate::types::TelegramCallbackAction;

verus! {

/// The most characters that Telegram takes in one message.
pub const TELEGRAM_MESSAGE_CHAR_LIMIT: usize = 4096;

/// The most characters of a question or preview in a thread snapshot.
pub const TELEGRAM_THREAD_SNAPSHOT_DETAIL_LIMIT: usize = 3000;

/// Telegram caps button text at this many UTF-16 code units.
pub const TELEGRAM_BUTTON_TEXT_UTF16_LIMIT: usize = 64;

// ---------------------------------------------------------------------------------------------
// Cutting texts to size
// ---------------------------------------------------------------------------------------------

/// `value` cut to at most `max` characters, the last of which marks the cut.
pub open spec fn truncated(value: Seq<char>, max: int) -> Seq<char> {
    if value.len() <= max {
        value
    } else if max <= 0 {
        Seq::empty()
    } else {
        value.take(max - 1).push('…')
    }
}

/// Cuts `value` to at most `max_chars` characters, marking a cut with a trailing "…".
pub fn truncate_to_char_limit(value: &str, max_chars: usize) -> (out: String)
    ensures
        out@ == truncated(value@, max_chars as int),
{
    let total = value.unicode_len();
    if total <= max_chars {
        return value.to_owned();
    }
    if max_chars == 0 {
        return String::new();
    }
    let mut out = value.substring_char(0, max_chars - 1).to_owned();
    assert(out@ =~= value@.take(max_chars - 1));
    out.push('…');
    out
}

/// A text is never longer than its limit, is left as it is where it fits, and otherwise keeps its
/// beginning and ends in the mark of the cut.
pub proof fn truncation_respects_the_limit(value: Seq<char>, max: int)
    requires
        0 <= max,
    ensures
        truncated(value, max).len() <= max,
        value.len() <= max ==> truncated(value, max) == value,
        value.len() > max > 0 ==> {
            &&& truncated(value, max).len() == max
            &&& truncated(value, max).last() == '…'
            &&& truncated(value, max).drop_last() == value.take(max - 1)
        },
{
    if value.len() > max > 0 {
        assert(truncated(value, max).drop_last() =~= value.take(max - 1));
    }
}

/// `value` in pieces of `size` characters, the last of which may be shorter; one empty piece
/// where `value` is empty.
pub open spec fn chunks(value: Seq<char>, size: int) -> Seq<Seq<char>>
    decreases value.len(),
{
    if value.len() <= size || size <= 0 {
        seq![value]
    } else {
        seq![value.take(size)] + chunks(value.skip(size), size)
    }
}

/// Splits a text into chunks of at most `max_chars` characters.
pub fn split_telegram_text(text: &str, max_chars: usize) -> (out: Vec<String>)
    requires
        max_chars > 0,
    ensures
        text::texts(out@) == chunks(text@, max_chars as int),
{
    let chars = chars_of(text);
    let mut out: Vec<String> = Vec::new();
    let mut start: usize = 0;
    assert(text@.skip(0) =~= text@);
    assert(text::texts(out@) + chunks(text@, max_chars as int) =~= chunks(
        text@,
        max_chars as int,
    ));
    while chars.len() - start > max_chars
        invariant
            max_chars > 0,
            chars@ == text@,
            start <= chars@.len(),
            text::texts(out@) + chunks(text@.skip(start as int), max_chars as int) == chunks(
                text@,
                max_chars as int,
            ),
        decreases chars@.len() - start,
    {
        let ghost rest = text@.skip(start as int);
        let end: usize = start + max_chars;
        let ghost before = text::texts(out@);
        push_text(&mut out, string_from(&chars, start, end));
        assert(text@.subrange(start as int, end as int) =~= rest.take(max_chars as int));
        assert(rest.skip(max_chars as int) =~= text@.skip(end as int));
        assert(text::texts(out@) + chunks(text@.skip(end as int), max_chars as int) =~= before + (
        seq![rest.take(max_chars as int)] + chunks(rest.skip(max_chars as int), max_chars as int)));
        start = end;
    }
    let ghost rest = text@.skip(start as int);
    let ghost before = text::texts(out@);
    push_text(&mut out, string_from(&chars, start, chars.len()));
    assert(text@.subrange(start as int, text@.len() as int) =~= rest);
    assert(text::texts(out@) =~= before + seq![rest]);
    out
}

/// All texts of a list in a row.
pub open spec fn concatenation(parts: Seq<Seq<char>>) -> Seq<char>
    decreases parts.len(),
{
    if parts.len() == 0 {
        Seq::empty()
    } else {
        parts[0] + concatenation(parts.skip(1))
    }
}

/// The chunks of a text give the text back, and each of them holds at most `size` characters; a
/// text that is not empty has no empty chunk.
pub proof fn splitting_loses_nothing(value: Seq<char>, size: int)
    requires
        0 < size,
    ensures
        concatenation(chunks(value, size)) == value,
        chunks(value, size).len() >= 1,
        forall|i: int|
            0 <= i < chunks(value, size).len() ==> (#[trigger] chunks(value, size)[i]).len()
                <= size,
        forall|i: int|
            0 <= i < chunks(value, size).len() && value.len() > 0 ==> (#[trigger] chunks(
                value,
                size,
            )[i]).len() > 0,
        value.len() <= size ==> chunks(value, size) == seq![value],
    decreases value.len(),
{
    let all = chunks(value, size);
    if value.len() <= size {
        assert(all.skip(1) =~= Seq::<Seq<char>>::empty());
        assert(concatenation(all.skip(1)) =~= Seq::<char>::empty());
        assert(concatenation(all) =~= value);
    } else {
        let rest = chunks(value.skip(size), size);
        splitting_loses_nothing(value.skip(size), size);
        assert(all.skip(1) =~= rest);
        assert(value =~= value.take(size) + value.skip(size));
        assert forall|i: int| 0 <= i < all.len() implies (#[trigger] all[i]).len() <= size && all[i].len()
            > 0 by {
            if i > 0 {
                assert(all[i] == rest[i - 1]);
            }
        }
    }
}

// ---------------------------------------------------------------------------------------------
// File references
// ---------------------------------------------------------------------------------------------

/// A reference without its kind.
pub open spec fn reference_path(candidate: Seq<char>) -> Seq<char> {
    if text::has_prefix(candidate, "F:"@) {
        candidate.skip("F:"@.len() as int)
    } else if text::has_prefix(candidate, "f:"@) {
        candidate.skip("f:"@.len() as int)
    } else {
        candidate
    }
}

/// The file name, and the line reference where there is one, of a reference to an absolute path.
pub open spec fn compacted_reference(candidate: Seq<char>) -> Option<Seq<char>> {
    let normalized = reference_path(candidate);
    let k = text::first_index(normalized, '†');
    let file = path::path_file_name(normalized.take(k));
    let line = text::trimmed(normalized.skip(k + 1));
    if !(normalized.len() > 0 && normalized[0] == '/') {
        None
    } else if file is None {
        None
    } else if k == normalized.len() || line.len() == 0 {
        file
    } else {
        Some(file->0 + " "@ + line)
    }
}

/// Shortens a reference to an absolute path to its file name and line reference.
pub fn compact_telegram_file_reference(candidate: &str) -> (out: Option<String>)
    ensures
        match out {
            Some(s) => compacted_reference(candidate@) == Some(s@),
            None => compacted_reference(candidate@) is None,
        },
{
    let normalized = match strip_prefix(candidate, "F:") {
        Some(rest) => rest,
        None => match strip_prefix(candidate, "f:") {
            Some(rest) => rest,
            None => candidate,
        },
    };
    assert(normalized@ == reference_path(candidate@));
    if !starts_with_char(normalized, '/') {
        return None;
    }
    let total = normalized.unicode_len();
    match find_char(normalized, '†') {
        Some(k) => {
            let base = normalized.substring_char(0, k);
            assert(base@ =~= normalized@.take(k as int));
            match file_name(base) {
                Some(name) => {
                    let line = trim(normalized.substring_char(k + 1, total));
                    assert(normalized@.subrange(k + 1, total as int) =~= normalized@.skip(k + 1));
                    if line.unicode_len() == 0 {
                        Some(name)
                    } else {
                        Some(cat3(name.as_str(), " ", line))
                    }
                },
                None => None,
            }
        },
        None => {
            assert(normalized@.take(total as int) =~= normalized@);
            file_name(normalized)
        },
    }
}

/// `detail` with every bracketed reference to an absolute path shortened. A bracket that opens no
/// such reference stays, and what follows it is looked at in turn.
pub open spec fn sanitized(detail: Seq<char>) -> Seq<char>
    decreases detail.len(),
    via sanitized_decreases
{
    let start = text::first_index(detail, '[');
    let candidate = detail.skip(start);
    let end = text::first_index(candidate, ']');
    if start >= detail.len() || end >= candidate.len() {
        detail
    } else {
        match compacted_reference(candidate.subrange(1, end)) {
            Some(replacement) => detail.take(start) + replacement + sanitized(
                candidate.skip(end + 1),
            ),
            None => detail.take(start).push('[') + sanitized(candidate.skip(1)),
        }
    }
}

#[via_fn]
proof fn sanitized_decreases(detail: Seq<char>) {
    text::lemma_first_index(detail, '[');
    let start = text::first_index(detail, '[');
    text::lemma_first_index(detail.skip(start), ']');
}

/// Shortens the file references of a message.
pub fn sanitize_telegram_detail(detail: &str) -> (out: String)
    ensures
        out@ == sanitized(detail@),
{
    let total = detail.unicode_len();
    let mut out = String::new();
    let mut at: usize = 0;
    assert(detail@.skip(0) =~= detail@);
    assert(out@ + sanitized(detail@) =~= sanitized(detail@));
    loop
        invariant
            total == detail@.len(),
            at <= total,
            out@ + sanitized(detail@.skip(at as int)) == sanitized(detail@),
        decreases total - at,
    {
        let rest = detail.substring_char(at, total);
        assert(rest@ =~= detail@.skip(at as int));
        match find_char(rest, '[') {
            None => {
                out.append(rest);
                return out;
            },
            Some(start) => {
                let before = rest.substring_char(0, start);
                let candidate_start = rest.substring_char(start, total - at);
                assert(before@ =~= rest@.take(start as int));
                assert(candidate_start@ =~= rest@.skip(start as int));
                match find_char(candidate_start, ']') {
                    None => {
                        out.append(rest);
                        return out;
                    },
                    Some(end) => {
                        let ghost so_far = out@;
                        out.append(before);
                        let candidate = candidate_start.substring_char(1, end);
                        match compact_telegram_file_reference(candidate) {
                            Some(replacement) => {
                                out.append(replacement.as_str());
                                assert(candidate_start@.skip(end + 1) =~= detail@.skip(
                                    at + start + end + 1,
                                ));
                                at = at + start + end + 1;
                                assert(out@ + sanitized(detail@.skip(at as int)) =~= so_far + (
                                before@ + replacement@ + sanitized(detail@.skip(at as int))));
                            },
                            None => {
                                out.push('[');
                                assert(candidate_start@.skip(1) =~= detail@.skip(at + start + 1));
                                at = at + start + 1;
                                assert(out@ + sanitized(detail@.skip(at as int)) =~= so_far + (
                                before@.push('[') + sanitized(detail@.skip(at as int))));
                            },
                        }
                    },
                }
            },
        }
    }
}

/// A text without an opening bracket is left as it is.
pub proof fn sanitizing_leaves_plain_text(detail: Seq<char>)
    requires
        !detail.contains('['),
    ensures
        sanitized(detail) == detail,
{
    text::lemma_first_index(detail, '[');
}

// ---------------------------------------------------------------------------------------------
// Option markers and buttons
// ---------------------------------------------------------------------------------------------

/// The solid colour dots that tie each option button to its line in the message body.
pub open spec fn option_dot(index: int) -> Seq<char> {
    seq!["🔴"@, "🟠"@, "🟡"@, "🟢"@, "🔵"@, "🟣"@, "🟤"@, "⚫"@][index % 8]
}

/// The letter of an option, or its number where the letters are used up. The letter goes by the
/// low 32 bits of the position.
pub open spec fn option_letter_text(index: int) -> Seq<char> {
    let low = index % 0x1_0000_0000;
    if low < 26 {
        seq![((65 + low) as u8) as char]
    } else {
        number::decimal((index + 1) as nat)
    }
}

/// The letter of an option.
pub fn option_letter(index: usize) -> (out: String)
    requires
        index < usize::MAX,
    ensures
        out@ == option_letter_text(index as int),
{
    let low: u64 = index as u64 % 0x1_0000_0000;
    if low < 26 {
        let mut out = String::new();
        out.push((65 + low as u8) as char);
        assert(out@ =~= option_letter_text(index as int));
        out
    } else {
        to_decimal(index as u128 + 1)
    }
}

/// The dot and the letter of an option.
pub open spec fn option_marker_text(index: int) -> Seq<char> {
    option_dot(index) + option_letter_text(index)
}

/// Pairs the colour dot of an option with its letter; the colours repeat after eight options.
pub fn option_marker(index: usize) -> (out: String)
    requires
        index < usize::MAX,
    ensures
        out@ == option_marker_text(index as int),
{
    let dot = match index % 8 {
        0 => "🔴",
        1 => "🟠",
        2 => "🟡",
        3 => "🟢",
        4 => "🔵",
        5 => "🟣",
        6 => "🟤",
        _ => "⚫",
    };
    let letter = option_letter(index);
    cat2(dot, letter.as_str())
}

/// Options at different positions have different letters or numbers, as long as the positions fit
/// into 32 bits, and their colours start over after eight.
pub proof fn option_markers_are_distinct(i: int, j: int)
    requires
        0 <= i < j <= u32::MAX,
    ensures
        option_letter_text(i) != option_letter_text(j),
        option_dot(i) == option_dot(i + 8),
{
    assert(forall|n: int| 0 <= n < 10 ==> '0' <= #[trigger] number::digit(n as nat) <= '9');
    if j < 26 {
        assert(option_letter_text(i)[0] == ((65 + i) as u8) as char);
        assert(option_letter_text(j)[0] == ((65 + j) as u8) as char);
    } else if i < 26 {
        number::lemma_decimal_last((j + 1) as nat);
        assert(option_letter_text(i).last() == ((65 + i) as u8) as char);
    } else {
        number::decimals_are_distinct((i + 1) as nat, (j + 1) as nat);
    }
}

/// The length of the longest beginning of `s` with fewer than `limit` UTF-16 code units.
pub open spec fn units_below(s: Seq<char>, limit: int) -> int
    decreases s.len(),
{
    if s.len() == 0 || text::utf16_len(s) < limit {
        s.len() as int
    } else {
        units_below(s.drop_last(), limit)
    }
}

proof fn lemma_units_below(s: Seq<char>, limit: int, k: int)
    requires
        0 < limit,
        0 <= k <= s.len(),
        text::utf16_len(s.take(k)) < limit,
        k < s.len() ==> text::utf16_len(s.take(k + 1)) >= limit,
    ensures
        units_below(s, limit) == k,
    decreases s.len(),
{
    if k == s.len() {
        assert(s.take(k) =~= s);
    } else {
        text::lemma_utf16_len_prefix(s, k + 1);
        let shorter = s.drop_last();
        assert(shorter.take(k) =~= s.take(k));
        if k < shorter.len() {
            assert(shorter.take(k + 1) =~= s.take(k + 1));
        }
        lemma_units_below(shorter, limit, k);
    }
}

/// The marker of an option and its label on one line.
pub open spec fn option_line(position: int, label: Seq<char>) -> Seq<char> {
    option_marker_text(position) + " "@ + text::joined(text::words(label), " "@)
}

/// The text of an option button: its line where that fits, otherwise cut and marked as cut.
pub open spec fn option_button(position: int, label: Seq<char>) -> Seq<char> {
    let line = option_line(position, label);
    if text::utf16_len(line) <= 64 {
        line
    } else {
        line.take(units_below(line, 64)).push('…')
    }
}

/// The text of an option button, within Telegram's limit.
pub fn option_button_text(position: usize, label: &str) -> (out: String)
    requires
        position < usize::MAX,
    ensures
        out@ == option_button(position as int, label@),
{
    let marker = option_marker(position);
    let words = split_words(label);
    let line = join(&words, " ");
    let text = cat3(marker.as_str(), " ", line.as_str());
    let chars = chars_of(text.as_str());
    let mut units: usize = 0;
    let mut i: usize = 0;
    assert(text@.take(0) =~= Seq::<char>::empty());
    while i < chars.len()
        invariant
            chars@ == text@,
            text@ == option_line(position as int, label@),
            i <= chars@.len(),
            units == text::utf16_len(text@.take(i as int)),
            units < 64,
        decreases chars@.len() - i,
    {
        let width: usize = if chars[i] as u32 >= 0x10000 {
            2
        } else {
            1
        };
        assert(text@.take(i + 1).drop_last() =~= text@.take(i as int));
        assert(text::utf16_len(text@.take(i + 1)) == units + width);
        if units + width >= 64 {
            proof {
                lemma_units_below(text@, 64, i as int);
            }
            if units + width == 64 && i + 1 == chars.len() {
                assert(text@.take(i + 1) =~= text@);
                return text;
            }
            proof {
                if i + 1 < chars@.len() {
                    text::lemma_utf16_len_prefix(text@, i + 1);
                } else {
                    assert(text@.take(i + 1) =~= text@);
                }
            }
            let mut out = string_from(&chars, 0, i);
            assert(out@ =~= text@.take(i as int));
            out.push('…');
            return out;
        }
        units = units + width;
        i = i + 1;
    }
    assert(text@.take(i as int) =~= text@);
    text
}

/// A button text never has more than 64 UTF-16 code units, and a label that fits is shown whole.
pub proof fn option_buttons_fit(position: int, label: Seq<char>)
    ensures
        text::utf16_len(option_button(position, label)) <= 64,
        text::utf16_len(option_line(position, label)) <= 64 ==> option_button(position, label)
            == option_line(position, label),
{
    let line = option_line(position, label);
    if text::utf16_len(line) > 64 {
        lemma_units_below_bound(line, 64);
        let cut = line.take(units_below(line, 64));
        assert(cut.push('…').drop_last() =~= cut);
        assert('…' as u32 == 0x2026);
    }
}

proof fn lemma_units_below_bound(s: Seq<char>, limit: int)
    requires
        0 < limit,
    ensures
        0 <= units_below(s, limit) <= s.len(),
        text::utf16_len(s.take(units_below(s, limit))) < limit,
    decreases s.len(),
{
    if s.len() == 0 || text::utf16_len(s) < limit {
        assert(s.take(s.len() as int) =~= s);
    } else {
        lemma_units_below_bound(s.drop_last(), limit);
        let k = units_below(s, limit);
        assert(s.drop_last().take(k) =~= s.take(k));
    }
}

// ---------------------------------------------------------------------------------------------
// Callback identifiers
// ---------------------------------------------------------------------------------------------

/// The identifier of a button: a prefix and 24 digits of the digest of what it stands for.
pub open spec fn callback_id_of(name: Seq<char>) -> Seq<char> {
    "cb_"@ + digest::sha256_text(name).take(24)
}

/// The first 24 digits of a digest behind the prefix of button identifiers.
pub fn callback_id_from_digest(digest: &str) -> (out: String)
    ensures
        out@ == "cb_"@ + text::at_most(digest@, 24),
{
    cat2("cb_", take_chars(digest, 24))
}

fn callback_id(name: &str) -> (out: String)
    ensures
        out@ == callback_id_of(name@),
        vstd::utf8::encode_utf8(callback_data_of(name@)).len() <= 64,
{
    let digest = sha256_hex(name);
    proof {
        lemma_callback_data_fits(name@);
    }
    callback_id_from_digest(digest.as_str())
}

/// What an approval button stands for.
pub open spec fn approval_name(event_id: Seq<char>, action: TelegramCallbackAction) -> Seq<char> {
    event_id + ":"@ + types::action_name(action)
}

/// What a question button stands for.
pub open spec fn question_name(
    event_id: Seq<char>,
    action: TelegramCallbackAction,
    option_index: int,
) -> Seq<char> {
    event_id + ":"@ + types::action_name(action) + ":"@ + number::decimal(option_index as nat)
}

/// The identifier of an approval button. What the button sends back fits Telegram's 64 bytes.
pub fn telegram_callback_id(event_id: &str, action: TelegramCallbackAction) -> (out: String)
    ensures
        out@ == callback_id_of(approval_name(event_id@, action)),
        vstd::utf8::encode_utf8("codex:"@ + out@).len() <= 64,
{
    let name = cat3(event_id, ":", action.as_str());
    callback_id(name.as_str())
}

/// The identifier of a question button. What the button sends back fits Telegram's 64 bytes.
pub fn telegram_question_callback_id(
    event_id: &str,
    action: TelegramCallbackAction,
    option_index: usize,
) -> (out: String)
    ensures
        out@ == callback_id_of(question_name(event_id@, action, option_index as int)),
        vstd::utf8::encode_utf8("codex:"@ + out@).len() <= 64,
{
    let mut name = cat3(event_id, ":", action.as_str());
    name.append(":");
    let index = to_decimal(option_index as u128);
    name.append(index.as_str());
    callback_id(name.as_str())
}

/// What a button sends back.
pub open spec fn callback_data_of(name: Seq<char>) -> Seq<char> {
    "codex:"@ + callback_id_of(name)
}

proof fn lemma_callback_data_fits(name: Seq<char>)
    requires
        digest::sha256_digest(vstd::utf8::encode_utf8(name)).len() == 32,
    ensures
        vstd::utf8::encode_utf8(callback_data_of(name)).len() == 33,
{
    reveal_strlit("codex:");
    reveal_strlit("cb_");
    let data = callback_data_of(name);
    let bytes = digest::sha256_digest(vstd::utf8::encode_utf8(name));
    assert(data.len() == 33);
    assert forall|i: int| 0 <= i < data.len() implies '\0' <= #[trigger] data[i] <= '\u{7f}' by {
        if i >= 9 {
            let k = i - 9;
            assert(data[i] == digest::hex(bytes)[k]);
            assert(0 <= bytes[k / 2] as int / 16 < 16);
            assert(0 <= bytes[k / 2] as int % 16 < 16);
        }
    }
    vstd::utf8::is_ascii_chars_encode_utf8(data);
}

/// The question buttons of one event stand for different things: no two share a name.
pub proof fn buttons_stand_for_different_things(
    event_id: Seq<char>,
    first: TelegramCallbackAction,
    first_index: int,
    second: TelegramCallbackAction,
    second_index: int,
)
    requires
        0 <= first_index,
        0 <= second_index,
        types::answers_question(first),
        types::answers_question(second),
    ensures
        first != second || first_index != second_index ==> question_name(
            event_id,
            first,
            first_index,
        ) != question_name(event_id, second, second_index),
{
    let m = question_name(event_id, first, first_index);
    let n = question_name(event_id, second, second_index);
    if m == n {
        reveal_strlit(":");
        reveal_strlit("answer_option");
        reveal_strlit("skip_question");
        let k = event_id.len() as int;
        assert(m[k + 1] == types::action_name(first)[0]);
        assert(n[k + 1] == types::action_name(second)[0]);
        assert(first == second);
        assert(m.skip(k + 15) =~= number::decimal(first_index as nat));
        assert(n.skip(k + 15) =~= number::decimal(second_index as nat));
        if first_index != second_index {
            number::decimals_are_distinct(first_index as nat, second_index as nat);
        }
    }
}

/// The approval buttons of one event stand for different decisions.
pub proof fn approvals_stand_for_different_decisions(
    event_id: Seq<char>,
    first: TelegramCallbackAction,
    second: TelegramCallbackAction,
)
    requires
        first != second,
    ensures
        approval_name(event_id, first) != approval_name(event_id, second),
{
    let m = approval_name(event_id, first);
    let n = approval_name(event_id, second);
    if m == n {
        reveal_strlit(":");
        let k = event_id.len() as int;
        assert(m.skip(k + 1) =~= types::action_name(first));
        assert(n.skip(k + 1) =~= types::action_name(second));
        types::action_names_read_back(first);
        types::action_names_read_back(second);
    }
}

// ---------------------------------------------------------------------------------------------
// Details and lines
// ---------------------------------------------------------------------------------------------

/// `value` trimmed and, where it has more than `max` characters, cut and marked with three dots;
/// nothing where it is blank.
pub open spec fn trimmed_detail(value: Seq<char>, max: int) -> Option<Seq<char>> {
    let kept = text::trimmed(value);
    let room = if max >= 3 {
        max - 3
    } else {
        0
    };
    if kept.len() == 0 {
        None
    } else if kept.len() <= max {
        Some(kept)
    } else {
        Some(text::trimmed_end(kept.take(room)) + "..."@)
    }
}

/// Trims a detail and cuts it to size.
pub fn trim_for_telegram_detail(value: &str, max_chars: usize) -> (out: Option<String>)
    ensures
        json::opt_string(out) == trimmed_detail(value@, max_chars as int),
{
    let kept = trim(value);
    let total = kept.unicode_len();
    if total == 0 {
        return None;
    }
    if total <= max_chars {
        return Some(kept.to_owned());
    }
    let room: usize = if max_chars >= 3 {
        max_chars - 3
    } else {
        0
    };
    let head = take_chars(kept, room);
    assert(head@ =~= kept@.take(room as int));
    Some(cat2(trim_end(head), "..."))
}

/// `value` trimmed, on one line and, where it has more than `max` characters, cut and marked with
/// three dots.
pub open spec fn trimmed_line(value: Seq<char>, max: int) -> Seq<char> {
    let line = text::rewritten(text::trimmed(value), text::swapped('\n', ' '));
    let room = if max >= 1 {
        max - 1
    } else {
        0
    };
    if line.len() <= max {
        line
    } else {
        line.take(room) + "..."@
    }
}

/// Puts a text on one line and cuts it to size.
pub fn trim_for_telegram_line(value: &str, max_chars: usize) -> (out: String)
    ensures
        out@ == trimmed_line(value@, max_chars as int),
{
    let line = replace_char(trim(value), '\n', ' ');
    if line.as_str().unicode_len() <= max_chars {
        return line;
    }
    let room: usize = if max_chars >= 1 {
        max_chars - 1
    } else {
        0
    };
    let head = take_chars(line.as_str(), room);
    assert(head@ =~= line@.take(room as int));
    cat2(head, "...")
}

// ---------------------------------------------------------------------------------------------
// Replies to commands
// ---------------------------------------------------------------------------------------------

/// The project is the current one.
pub open spec fn is_current(
    current: Option<&RegisteredProject>,
    project: RegisteredProject,
) -> bool {
    current is Some && current->0.id@ == project.id@
}

/// The two lines of a configured project.
pub open spec fn project_lines(
    projects: Seq<RegisteredProject>,
    current: Option<&RegisteredProject>,
) -> Seq<Seq<char>>
    decreases projects.len(),
{
    if projects.len() == 0 {
        Seq::empty()
    } else {
        let project = projects.last();
        let marker = if is_current(current, project) {
            "•"@
        } else {
            "-"@
        };
        project_lines(projects.drop_last(), current).push(
            marker + " "@ + project.id@ + " - "@ + trimmed_line(project.label@, 80),
        ).push("  "@ + project.cwd@)
    }
}

/// The line of an observed workspace.
pub open spec fn workspace_line(workspace: ObservedWorkspace) -> Seq<char> {
    "- "@ + workspace.label@ + " - "@ + trimmed_line(workspace.cwd@, 90)
}

/// The lines about observed workspaces: the first five of them, and how to keep them.
pub open spec fn workspace_lines(observed: Seq<ObservedWorkspace>) -> Seq<Seq<char>> {
    let shown = if observed.len() <= 5 {
        observed
    } else {
        observed.take(5)
    };
    if observed.len() == 0 {
        Seq::empty()
    } else {
        Seq::<Seq<char>>::empty().push(Seq::empty()).push(
            "Observed from recent Codex history:"@,
        ) + Seq::new(shown.len(), |i: int| workspace_line(shown[i])).push(
            "Run `codex-telegram-bridge projects import` locally to promote observed workspaces into the curated registry."@,
        )
    }
}

/// The list of the projects.
pub open spec fn projects_text(
    projects: Seq<RegisteredProject>,
    current: Option<&RegisteredProject>,
    observed: Seq<ObservedWorkspace>,
) -> Seq<char> {
    let head = Seq::<Seq<char>>::empty().push("Projects"@).push(Seq::empty());
    let head = match current {
        Some(project) => head.push(
            "Current: "@ + project.id@ + " ("@ + project.label@ + ")"@,
        ),
        None => head.push("Current: none selected"@),
    };
    let configured = if projects.len() == 0 {
        head.push(Seq::empty()).push("No projects are configured yet."@)
    } else {
        head.push(Seq::empty()).push("Configured:"@) + project_lines(projects, current)
    };
    text::joined(
        (configured + workspace_lines(observed)).push(Seq::empty()).push(
            "Use /project <id> to switch the current project."@,
        ),
        "\n"@,
    )
}

fn push_project_lines(
    lines: &mut Vec<String>,
    projects: &Vec<RegisteredProject>,
    current: Option<&RegisteredProject>,
)
    ensures
        text::texts(final(lines)@) == text::texts(old(lines)@) + project_lines(projects@, current),
{
    let ghost before = text::texts(lines@);
    let mut i: usize = 0;
    assert(projects@.take(0) =~= Seq::<RegisteredProject>::empty());
    assert(before + project_lines(projects@.take(0), current) =~= before);
    while i < projects.len()
        invariant
            i <= projects@.len(),
            text::texts(lines@) == before + project_lines(projects@.take(i as int), current),
        decreases projects@.len() - i,
    {
        let project = &projects[i];
        let chosen = match current {
            Some(c) => same_text(c.id.as_str(), project.id.as_str()),
            None => false,
        };
        let marker = if chosen {
            "•"
        } else {
            "-"
        };
        let label = trim_for_telegram_line(project.label.as_str(), 80);
        let ghost so_far = text::texts(lines@);
        push_text(
            lines,
            cat5(marker, " ", project.id.as_str(), " - ", label.as_str()),
        );
        push_text(lines, cat2("  ", project.cwd.as_str()));
        assert(projects@.take(i + 1).drop_last() =~= projects@.take(i as int));
        assert(projects@.take(i + 1).last() == projects@[i as int]);
        i = i + 1;
        assert(text::texts(lines@) =~= before + project_lines(projects@.take(i as int), current));
    }
    assert(projects@.take(i as int) =~= projects@);
}

fn push_workspace_lines(lines: &mut Vec<String>, observed: &Vec<ObservedWorkspace>)
    ensures
        text::texts(final(lines)@) == text::texts(old(lines)@) + workspace_lines(observed@),
{
    let ghost before = text::texts(lines@);
    if observed.len() == 0 {
        assert(before + workspace_lines(observed@) =~= before);
        return ;
    }
    let shown: usize = if observed.len() <= 5 {
        observed.len()
    } else {
        5
    };
    push_text(lines, String::new());
    push_text(lines, "Observed from recent Codex history:".to_owned());
    let ghost head = text::texts(lines@);
    let ghost wanted = Seq::new(shown as nat, |k: int| workspace_line(observed@[k]));
    assert(head + wanted.take(0) =~= head);
    let mut i: usize = 0;
    while i < shown
        invariant
            shown <= observed@.len(),
            wanted == Seq::new(shown as nat, |k: int| workspace_line(observed@[k])),
            i <= shown,
            text::texts(lines@) == head + wanted.take(i as int),
        decreases shown - i,
    {
        let cwd = trim_for_telegram_line(observed[i].cwd.as_str(), 90);
        push_text(
            lines,
            cat4("- ", observed[i].label.as_str(), " - ", cwd.as_str()),
        );
        i = i + 1;
        assert(text::texts(lines@) =~= head + wanted.take(i as int));
    }
    push_text(
        lines,
        "Run `codex-telegram-bridge projects import` locally to promote observed workspaces into the curated registry.".to_owned(),
    );
    assert(text::texts(lines@) =~= before + workspace_lines(observed@));
}

/// Lists the projects.
pub fn telegram_projects_text(
    projects: &Vec<RegisteredProject>,
    current_project: Option<&RegisteredProject>,
    observed: &Vec<ObservedWorkspace>,
) -> (out: String)
    ensures
        out@ == projects_text(projects@, current_project, observed@),
{
    let mut lines = no_texts();
    push_text(&mut lines, "Projects".to_owned());
    push_text(&mut lines, String::new());
    match current_project {
        Some(project) => push_text(
            &mut lines,
            cat5("Current: ", project.id.as_str(), " (", project.label.as_str(), ")"),
        ),
        None => push_text(&mut lines, "Current: none selected".to_owned()),
    }
    if projects.len() == 0 {
        push_text(&mut lines, String::new());
        push_text(&mut lines, "No projects are configured yet.".to_owned());
    } else {
        push_text(&mut lines, String::new());
        push_text(&mut lines, "Configured:".to_owned());
        push_project_lines(&mut lines, projects, current_project);
    }
    push_workspace_lines(&mut lines, observed);
    push_text(&mut lines, String::new());
    push_text(&mut lines, "Use /project <id> to switch the current project.".to_owned());
    join(&lines, "\n")
}

/// The current project.
pub open spec fn project_text(project: Option<&RegisteredProject>) -> Seq<char> {
    match project {
        Some(project) => "Current project\n\n"@ + project.id@ + " ("@ + project.label@ + ")\n"@
            + project.cwd@
            + "\n\nNew Telegram threads will start here until you switch again."@,
        None => "No current project is selected.\n\nUse /project to inspect the registry, then /project <id> to choose one."@,
    }
}

/// Shows the current project.
pub fn telegram_project_text(project: Option<&RegisteredProject>) -> (out: String)
    ensures
        out@ == project_text(project),
{
    match project {
        Some(project) => {
            let mut out = cat5(
                "Current project\n\n",
                project.id.as_str(),
                " (",
                project.label.as_str(),
                ")\n",
            );
            out.append(project.cwd.as_str());
            out.append("\n\nNew Telegram threads will start here until you switch again.");
            out
        },
        None => "No current project is selected.\n\nUse /project to inspect the registry, then /project <id> to choose one.".to_owned(),
    }
}

/// The lines of the help text.
pub open spec fn help_lines() -> Seq<Seq<char>> {
    Seq::<Seq<char>>::empty().push("Codex remote is ready."@).push(Seq::empty()).push(
        "Use Telegram's Reply action on a Codex notification to continue that exact thread."@,
    ).push(Seq::empty()).push("/away - start remote Codex mode"@).push(
        "/back - stop remote Codex mode"@,
    ).push("/repair - fix remote Codex mode"@).push("/status - show remote status"@).push(
        "/threads - show the 5 most recent Codex threads"@,
    ).push("/threads <count> - show that many recent Codex threads"@).push(
        "/new <prompt> - start a new Codex thread"@,
    ).push("/new - ask for a prompt in a reply"@).push("/project - list projects"@).push(
        "/project <id> - switch the current project"@,
    )
}

/// The help text.
pub open spec fn help_text() -> Seq<char> {
    text::joined(help_lines(), "\n"@)
}

/// What the bot can do.
pub fn telegram_help_text() -> (out: String)
    ensures
        out@ == help_text(),
{
    let mut lines = no_texts();
    push_text(&mut lines, "Codex remote is ready.".to_owned());
    push_text(&mut lines, String::new());
    push_text(
        &mut lines,
        "Use Telegram's Reply action on a Codex notification to continue that exact thread.".to_owned(),
    );
    push_text(&mut lines, String::new());
    push_text(&mut lines, "/away - start remote Codex mode".to_owned());
    push_text(&mut lines, "/back - stop remote Codex mode".to_owned());
    push_text(&mut lines, "/repair - fix remote Codex mode".to_owned());
    push_text(&mut lines, "/status - show remote status".to_owned());
    push_text(&mut lines, "/threads - show the 5 most recent Codex threads".to_owned());
    push_text(&mut lines, "/threads <count> - show that many recent Codex threads".to_owned());
    push_text(&mut lines, "/new <prompt> - start a new Codex thread".to_owned());
    push_text(&mut lines, "/new - ask for a prompt in a reply".to_owned());
    push_text(&mut lines, "/project - list projects".to_owned());
    push_text(&mut lines, "/project <id> - switch the current project".to_owned());
    join(&lines, "\n")
}

/// The state of the shared backend.
#[derive(Debug, PartialEq, Eq)]
pub struct LiveBackendStatus {
    pub healthy: bool,
    pub pid: Option<u32>,
    pub websocket_url: String,
}

/// What is known of the shared backend.
#[derive(Debug, PartialEq, Eq)]
pub enum LiveBackendReport {
    /// The configuration could not be read.
    ConfigUnavailable { error: String },
    NotConfigured,
    Known { status: LiveBackendStatus },
    /// Its state could not be found out.
    Unreachable { websocket_url: String, error: String },
}

/// A process number, or what stands for none.
pub open spec fn pid_text(pid: Option<u32>, none: Seq<char>) -> Seq<char> {
    match pid {
        Some(pid) => number::decimal(pid as nat),
        None => none,
    }
}

/// A process number, or what stands for none.
pub fn show_pid(pid: Option<u32>, none: &str) -> (out: String)
    ensures
        out@ == pid_text(pid, none@),
{
    match pid {
        Some(pid) => to_decimal(pid as u128),
        None => none.to_owned(),
    }
}

/// The state of a backend in one word.
pub open spec fn health_word(healthy: bool) -> Seq<char> {
    if healthy {
        "healthy"@
    } else {
        "unhealthy"@
    }
}

/// The state of a backend in one word.
pub fn show_health(healthy: bool) -> (out: &'static str)
    ensures
        out@ == health_word(healthy),
{
    if healthy {
        "healthy"
    } else {
        "unhealthy"
    }
}

/// The line about the shared backend.
pub open spec fn backend_status_line(report: LiveBackendReport) -> Seq<char> {
    match report {
        LiveBackendReport::ConfigUnavailable { error } => {
            "Shared live backend: config unavailable ("@ + error@ + "). Run setup locally."@
        },
        LiveBackendReport::NotConfigured => {
            "Shared live backend: not configured. Run setup locally."@
        },
        LiveBackendReport::Known { status } => {
            "Shared live backend: "@ + health_word(status.healthy) + ", "@ + status.websocket_url@
                + ", pid "@ + pid_text(status.pid, "none"@) + ". "@ + if status.healthy {
                "Use /away before you leave."@
            } else {
                "Use /repair to recover."@
            }
        },
        LiveBackendReport::Unreachable { websocket_url, error } => {
            "Shared live backend: unhealthy, "@ + websocket_url@ + " ("@ + error@
                + "). Use /repair to recover."@
        },
    }
}

/// The line about the shared backend.
pub fn telegram_live_backend_status_line(report: &LiveBackendReport) -> (out: String)
    ensures
        out@ == backend_status_line(*report),
{
    match report {
        LiveBackendReport::ConfigUnavailable { error } => cat3(
            "Shared live backend: config unavailable (",
            error.as_str(),
            "). Run setup locally.",
        ),
        LiveBackendReport::NotConfigured => {
            "Shared live backend: not configured. Run setup locally.".to_owned()
        },
        LiveBackendReport::Known { status } => {
            let pid = show_pid(status.pid, "none");
            let mut out = cat6(
                "Shared live backend: ",
                show_health(status.healthy),
                ", ",
                status.websocket_url.as_str(),
                ", pid ",
                pid.as_str(),
            );
            out.append(". ");
            out.append(
                if status.healthy {
                    "Use /away before you leave."
                } else {
                    "Use /repair to recover."
                },
            );
            out
        },
        LiveBackendReport::Unreachable { websocket_url, error } => cat5(
            "Shared live backend: unhealthy, ",
            websocket_url.as_str(),
            " (",
            error.as_str(),
            "). Use /repair to recover.",
        ),
    }
}

/// Remote mode in one word, by the state that is stored for it.
pub open spec fn away_word(away: JsonView) -> Seq<char> {
    if json::truth_at(away.get("away"@)) == Some(true) {
        "on"@
    } else {
        "off"@
    }
}

/// Remote mode in one word.
pub fn show_away(away: &Json) -> (out: &'static str)
    ensures
        out@ == away_word(away@),
{
    match away.bool_at("away") {
        Some(true) => "on",
        _ => "off",
    }
}

/// The status text.
pub open spec fn status_text(
    away: JsonView,
    report: LiveBackendReport,
    pending: nat,
    waiting: nat,
) -> Seq<char> {
    "Codex remote status\n\nRemote mode: "@ + away_word(away) + "\n"@ + backend_status_line(report)
        + "\nPending Telegram notifications: "@ + number::decimal(pending)
        + "\nThreads waiting for you: "@ + number::decimal(waiting)
        + "\n\nUse /away before you leave. Use /repair if the backend is unhealthy. Use /back when you return."@
}

/// Shows remote mode, the backend, the notifications that are still to be sent and the threads
/// that wait.
pub fn telegram_status_text(
    away: &Json,
    report: &LiveBackendReport,
    pending: u64,
    waiting: u64,
) -> (out: String)
    ensures
        out@ == status_text(away@, *report, pending as nat, waiting as nat),
{
    let line = telegram_live_backend_status_line(report);
    let mut out = cat4(
        "Codex remote status\n\nRemote mode: ",
        show_away(away),
        "\n",
        line.as_str(),
    );
    out.append("\nPending Telegram notifications: ");
    let count = to_decimal(pending as u128);
    out.append(count.as_str());
    out.append("\nThreads waiting for you: ");
    let count = to_decimal(waiting as u128);
    out.append(count.as_str());
    out.append(
        "\n\nUse /away before you leave. Use /repair if the backend is unhealthy. Use /back when you return.",
    );
    out
}

/// What is said of a thread that was started.
pub open spec fn new_thread_confirmation(label: Seq<char>, result: JsonView) -> Seq<char> {
    let cwd = json::text_at(result.get("cwd"@));
    if cwd is Some && !text::blank(cwd->0) {
        "Started a new Codex thread in "@ + label + ".\n"@ + cwd->0
            + "\n\nCodex is working on the first answer now. I will send the answer here when it finishes.\n\nUse Telegram's Reply action on this message to continue it."@
    } else {
        "Started a new Codex thread in "@ + label
            + " with no explicit working directory reported back.\n\nCodex is working on the first answer now. I will send the answer here when it finishes.\n\nUse Telegram's Reply action on this message to continue it."@
    }
}

/// Confirms a thread that was started.
pub fn telegram_new_thread_confirmation_text(
    project: &RegisteredProject,
    result: &Json,
) -> (out: String)
    ensures
        out@ == new_thread_confirmation(project.label@, result@),
{
    let label = project.label.as_str();
    match result.str_at("cwd") {
        Some(cwd) => if !is_blank(cwd) {
            return cat5(
                "Started a new Codex thread in ",
                label,
                ".\n",
                cwd,
                "\n\nCodex is working on the first answer now. I will send the answer here when it finishes.\n\nUse Telegram's Reply action on this message to continue it.",
            );
        },
        None => {},
    }
    cat3(
        "Started a new Codex thread in ",
        label,
        " with no explicit working directory reported back.\n\nCodex is working on the first answer now. I will send the answer here when it finishes.\n\nUse Telegram's Reply action on this message to continue it.",
    )
}

} // verus!
