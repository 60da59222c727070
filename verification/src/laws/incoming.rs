//! What comes in from Telegram: who is heard, which text a reply carries, what a command asks for
//! and which button a tap belongs to.

use vstd::prelude::*;

use crate::api;
use crate::inbound;
use crate::inbound::CommandView;
use crate::inbound::ThreadsLimitError;
use crate::json;
use crate::json::Json;
use crate::json::JsonView;
use crate::laws::numbers;
use crate::laws::texts;
use crate::number;
use crate::text;
use crate::types;
use crate::types::TelegramConfig;

verus! {

// ---------------------------------------------------------------------------------------------
// Who is heard
// ---------------------------------------------------------------------------------------------

/// Only the configured chat is heard and, where a user is configured, only that user in it.
pub proof fn only_the_configured_chat_and_user_are_heard(
    telegram: TelegramConfig,
    chat_id: Option<Seq<char>>,
    user_id: Option<Seq<char>>,
)
    ensures
        chat_id is None ==> !inbound::authorized(telegram, chat_id, user_id),
        chat_id is Some && chat_id->0 != telegram.chat_id@ ==> !inbound::authorized(
            telegram,
            chat_id,
            user_id,
        ),
        telegram.allowed_user_id matches Some(user) ==> {
            &&& user_id is None ==> !inbound::authorized(telegram, chat_id, user_id)
            &&& user_id is Some && user_id->0 != user@ ==> !inbound::authorized(
                telegram,
                chat_id,
                user_id,
            )
            &&& inbound::authorized(telegram, Some(telegram.chat_id@), Some(user@))
        },
        telegram.allowed_user_id is None ==> inbound::authorized(
            telegram,
            Some(telegram.chat_id@),
            user_id,
        ),
{
}

/// A chat and a user are named by a number or by a text.
pub proof fn chats_and_users_are_named_by_number_or_text(message: JsonView, n: nat, s: Seq<char>)
    requires
        n <= i64::MAX,
    ensures
        json::at(message.get("chat"@), "id"@) == Some(JsonView::Int(n as int))
            ==> api::chat_id_of(message) == Some(number::decimal(n)),
        n > 0 && json::at(message.get("chat"@), "id"@) == Some(JsonView::Int(-n))
            ==> api::chat_id_of(message) == Some(seq!['-'] + number::decimal(n)),
        json::at(message.get("chat"@), "id"@) == Some(JsonView::Str(s)) ==> api::chat_id_of(message)
            == Some(s),
        json::at(message.get("chat"@), "id"@) is None ==> api::chat_id_of(message) is None,
        json::at(message.get("from"@), "id"@) == Some(JsonView::Int(n as int))
            ==> api::user_id_of(message) == Some(number::decimal(n)),
        json::at(message.get("from"@), "id"@) == Some(JsonView::Str(s)) ==> api::user_id_of(message)
            == Some(s),
        json::at(message.get("from"@), "id"@) is None ==> api::user_id_of(message) is None,
{
}

// ---------------------------------------------------------------------------------------------
// Replies
// ---------------------------------------------------------------------------------------------

/// A reply carries the whole text of its message but the blanks around it, and is a reply to the
/// message that the user replied to, in the configured chat.
pub proof fn a_reply_carries_the_whole_text(
    message: JsonView,
    telegram: TelegramConfig,
    body: Seq<char>,
)
    requires
        json::text_at(message.get("text"@)) == Some(body),
    ensures
        inbound::reply_of(message, telegram) matches Some(reply) ==> {
            &&& texts::trims_to(body, reply.text)
            &&& reply.text.len() > 0
            &&& json::at(message.get("reply_to_message"@), "message_id"@) == Some(
                JsonView::Int(reply.reply_to),
            )
            &&& reply.chat_id == telegram.chat_id@
            &&& api::chat_id_of(message) == Some(reply.chat_id)
        },
{
    texts::trimming_takes_only_the_blanks_around(body);
}

/// A reply of the configured user with any text at all is one.
pub proof fn replies_are_not_passed_over(
    message: JsonView,
    telegram: TelegramConfig,
    body: Seq<char>,
    id: int,
    k: int,
)
    requires
        json::text_at(message.get("text"@)) == Some(body),
        0 <= k < body.len(),
        !text::white(body[k]),
        json::at(message.get("reply_to_message"@), "message_id"@) == Some(JsonView::Int(id)),
        i64::MIN <= id <= i64::MAX,
        api::chat_id_of(message) == Some(telegram.chat_id@),
        telegram.allowed_user_id matches Some(user) ==> api::user_id_of(message) == Some(user@),
    ensures
        inbound::reply_of(message, telegram) is Some,
        inbound::reply_of(message, telegram)->0.reply_to == id,
{
    texts::blank_means_only_blanks(body);
}

/// A reply that is routed to a thread, a question or a command goes there with the whole text of
/// its message.
pub proof fn routed_replies_carry_the_whole_text(
    message: &Json,
    telegram: &TelegramConfig,
    body: Seq<char>,
    thread_id: Option<String>,
    turn: inbound::RoutedTelegramReply,
    question: Option<inbound::QuestionRef>,
    answer: inbound::RoutedTelegramQuestionReply,
    command: Option<inbound::CommandRoute>,
    prompt: inbound::RoutedTelegramCommandPromptReply,
)
    requires
        json::text_at(message@.get("text"@)) == Some(body),
    ensures
        call_ensures(
            inbound::extract_telegram_reply_route,
            (message, telegram, thread_id),
            Some(turn),
        ) ==> texts::trims_to(body, turn.message@) && thread_id is Some && turn.thread_id@
            == thread_id->0@,
        call_ensures(
            inbound::extract_telegram_question_reply,
            (message, telegram, question),
            Some(answer),
        ) ==> texts::trims_to(body, answer.text@) && question is Some && answer.question_key@
            == question->0.question_key@ && answer.question_id@ == question->0.question_id@,
        call_ensures(
            inbound::extract_telegram_command_prompt_reply,
            (message, telegram, command),
            Some(prompt),
        ) ==> texts::trims_to(body, prompt.message@),
{
    texts::trimming_takes_only_the_blanks_around(body);
}

// ---------------------------------------------------------------------------------------------
// Commands
// ---------------------------------------------------------------------------------------------

proof fn lemma_command(name: Seq<char>, blank: char, rest: Seq<char>)
    requires
        texts::is_word(name),
        name[0] == '/',
        text::white(blank),
    ensures
        inbound::parsed_command(name) == Some(inbound::command_for(name, None)),
        inbound::parsed_command(name.push(blank) + rest) == Some(
            inbound::command_for(
                name,
                if text::blank(rest) {
                    None
                } else {
                    Some(text::trimmed(rest))
                },
            ),
        ),
{
    let n = name.len() as int;
    let none = Seq::<char>::empty();
    assert(none + name + none =~= name);
    texts::blanks_around_a_text_do_not_matter(none, name, none);
    text::lemma_first_white_is(name, n);
    assert(name.take(n) =~= name);
    let all = name.push(blank) + rest;
    assert forall|i: int| 0 <= i < n implies all[i] == #[trigger] name[i] by {}
    texts::trimming_takes_only_the_blanks_around(rest);
    texts::blank_means_only_blanks(rest);
    let (i, j) = choose|i: int, j: int| #[trigger] texts::spans(rest, text::trimmed(rest), i, j);
    let line = text::trimmed(all);
    if text::blank(rest) {
        let after = seq![blank] + rest;
        assert forall|k: int| 0 <= k < after.len() implies text::white(#[trigger] after[k]) by {
            if k > 0 {
                assert(after[k] == rest[k - 1]);
            }
        }
        assert(none + name + after =~= all);
        texts::blanks_around_a_text_do_not_matter(none, name, after);
        assert(line == name);
    } else {
        let kept = name.push(blank) + rest.take(j);
        let after = rest.skip(j);
        assert(i < j);
        assert(kept[0] == name[0]);
        assert(kept.last() == rest[j - 1]);
        assert forall|k: int| 0 <= k < after.len() implies text::white(#[trigger] after[k]) by {
            assert(after[k] == rest[k + j]);
        }
        assert(none + kept + after =~= all);
        texts::blanks_around_a_text_do_not_matter(none, kept, after);
        assert(line == kept);
        assert forall|k: int| 0 <= k < n implies !text::white(kept[k]) by {
            assert(kept[k] == name[k]);
        }
        assert(kept[n] == blank);
        text::lemma_first_white_is(kept, n);
        assert(kept.take(n) =~= name);
        let argument = kept.skip(n + 1);
        assert(argument =~= rest.take(j));
        assert forall|k: int| 0 <= k < i implies text::white(#[trigger] argument[k]) by {
            assert(argument[k] == rest[k]);
        }
        assert(argument.subrange(i, j) =~= rest.subrange(i, j));
        assert(texts::spans(argument, text::trimmed(rest), i, j));
        texts::trimming_gives_what_is_between_the_blanks(argument, text::trimmed(rest));
    }
}

/// The argument of a command is the whole text behind its name, without the blanks around it, and
/// there is none where that is blank.
pub open spec fn is_argument(argument: Option<Seq<char>>, rest: Seq<char>) -> bool {
    match argument {
        Some(s) => texts::trims_to(rest, s) && s.len() > 0,
        None => forall|k: int| 0 <= k < rest.len() ==> text::white(#[trigger] rest[k]),
    }
}

proof fn lemma_literal(name: Seq<char>)
    requires
        name.len() > 0,
        name[0] == '/',
        forall|k: int|
            0 <= k < name.len() ==> #[trigger] name[k] == '/' || 'a' <= name[k] <= 'z',
    ensures
        texts::is_word(name),
        inbound::command_name(name) == name,
{
    let n = name.len() as int;
    text::lemma_first_index_is(name, '@', n);
    assert(name.take(n) =~= name);
    assert(text::ascii_lowered(name) =~= name);
}

/// `/threads`, `/new` and `/project` are read with their whole argument.
pub proof fn commands_are_read_with_their_whole_argument(blank: char, rest: Seq<char>)
    requires
        text::white(blank),
    ensures
        inbound::parsed_command("/threads"@.push(blank) + rest) matches Some(
            CommandView::Threads(argument),
        ) && is_argument(argument, rest),
        inbound::parsed_command("/new"@.push(blank) + rest) matches Some(
            CommandView::NewThread(argument),
        ) && is_argument(argument, rest),
        inbound::parsed_command("/project"@.push(blank) + rest) matches Some(
            CommandView::Project(argument),
        ) && is_argument(argument, rest),
        inbound::parsed_command("/threads"@) == Some(CommandView::Threads(None)),
        inbound::parsed_command("/new"@) == Some(CommandView::NewThread(None)),
        inbound::parsed_command("/project"@) == Some(CommandView::Project(None)),
{
    reveal_strlit("/start");
    reveal_strlit("/help");
    reveal_strlit("/away");
    reveal_strlit("/back");
    reveal_strlit("/repair");
    reveal_strlit("/status");
    reveal_strlit("/threads");
    reveal_strlit("/new");
    reveal_strlit("/project");
    lemma_literal("/threads"@);
    lemma_literal("/new"@);
    lemma_literal("/project"@);
    lemma_command("/threads"@, blank, rest);
    lemma_command("/new"@, blank, rest);
    lemma_command("/project"@, blank, rest);
    texts::trimming_takes_only_the_blanks_around(rest);
    texts::blank_means_only_blanks(rest);
    assert("/threads"@.len() == 8 && "/new"@.len() == 4 && "/project"@.len() == 8);
    assert("/start"@.len() == 6 && "/help"@.len() == 5 && "/away"@.len() == 5);
    assert("/back"@.len() == 5 && "/repair"@.len() == 7 && "/status"@.len() == 7);
    assert("/threads"@[1] != "/project"@[1]);
}

/// The other commands are read whatever stands behind their name.
pub proof fn commands_are_read_by_their_name(blank: char, rest: Seq<char>)
    requires
        text::white(blank),
    ensures
        inbound::parsed_command("/start"@.push(blank) + rest) == Some(CommandView::Start),
        inbound::parsed_command("/help"@.push(blank) + rest) == Some(CommandView::Help),
        inbound::parsed_command("/away"@.push(blank) + rest) == Some(CommandView::Away),
        inbound::parsed_command("/back"@.push(blank) + rest) == Some(CommandView::Back),
        inbound::parsed_command("/repair"@.push(blank) + rest) == Some(CommandView::Repair),
        inbound::parsed_command("/status"@.push(blank) + rest) == Some(CommandView::Status),
        inbound::parsed_command("/start"@) == Some(CommandView::Start),
        inbound::parsed_command("/help"@) == Some(CommandView::Help),
        inbound::parsed_command("/away"@) == Some(CommandView::Away),
        inbound::parsed_command("/back"@) == Some(CommandView::Back),
        inbound::parsed_command("/repair"@) == Some(CommandView::Repair),
        inbound::parsed_command("/status"@) == Some(CommandView::Status),
{
    reveal_strlit("/start");
    reveal_strlit("/help");
    reveal_strlit("/away");
    reveal_strlit("/back");
    reveal_strlit("/repair");
    reveal_strlit("/status");
    lemma_literal("/start"@);
    lemma_literal("/help"@);
    lemma_literal("/away"@);
    lemma_literal("/back"@);
    lemma_literal("/repair"@);
    lemma_literal("/status"@);
    lemma_command("/start"@, blank, rest);
    lemma_command("/help"@, blank, rest);
    lemma_command("/away"@, blank, rest);
    lemma_command("/back"@, blank, rest);
    lemma_command("/repair"@, blank, rest);
    lemma_command("/status"@, blank, rest);
    assert("/start"@.len() == 6 && "/help"@.len() == 5 && "/away"@.len() == 5);
    assert("/back"@.len() == 5 && "/repair"@.len() == 7 && "/status"@.len() == 7);
    assert("/help"@[1] != "/away"@[1] && "/help"@[1] != "/back"@[1]);
    assert("/away"@[1] != "/back"@[1] && "/repair"@[1] != "/status"@[1]);
}

/// A name that is no command, in any case and for any bot, is reported as it was written; a text
/// that does not begin with a slash is no command.
pub proof fn unknown_commands_are_named(name: Seq<char>, blank: char, rest: Seq<char>)
    requires
        texts::is_word(name),
        text::white(blank),
        name[0] == '/' ==> {
            let meant = text::ascii_lowered(name.take(text::first_index(name, '@')));
            &&& meant != "/start"@ && meant != "/help"@ && meant != "/away"@
            &&& meant != "/back"@ && meant != "/repair"@ && meant != "/status"@
            &&& meant != "/threads"@ && meant != "/new"@ && meant != "/project"@
        },
    ensures
        name[0] == '/' ==> inbound::parsed_command(name.push(blank) + rest) == Some(
            CommandView::Unknown(name),
        ) && inbound::parsed_command(name) == Some(CommandView::Unknown(name)),
        name[0] != '/' ==> inbound::parsed_command(name.push(blank) + rest) is None
            && inbound::parsed_command(name) is None,
{
    if name[0] == '/' {
        lemma_command(name, blank, rest);
    } else {
        let all = name.push(blank) + rest;
        texts::trimming_takes_only_the_blanks_around(all);
        texts::trimming_takes_only_the_blanks_around(name);
        let (i, j) = choose|i: int, j: int| #[trigger]
            texts::spans(all, text::trimmed(all), i, j);
        let (a, b) = choose|a: int, b: int| #[trigger]
            texts::spans(name, text::trimmed(name), a, b);
        assert(all[0] == name[0]);
        assert(!text::white(name[0]));
        assert(i == 0) by {
            if i > 0 {
                assert(text::white(all[0]));
            }
        }
        assert(a == 0) by {
            if a > 0 {
                assert(text::white(name[0]));
            }
        }
        if j > 0 {
            assert(text::trimmed(all)[0] == all[0]);
        }
        if b > 0 {
            assert(text::trimmed(name)[0] == name[0]);
        }
    }
}

/// A command is read in any mixture of capitals and small letters, and with the name of a bot.
pub proof fn commands_are_read_in_any_case_for_any_bot(
    written: Seq<char>,
    name: Seq<char>,
    bot: Seq<char>,
    argument: Option<Seq<char>>,
)
    requires
        !written.contains('@'),
        !name.contains('@'),
        text::ascii_lowered(written) == text::ascii_lowered(name),
        !(inbound::command_for(name, argument) is Unknown),
    ensures
        inbound::command_for(written, argument) == inbound::command_for(name, argument),
        inbound::command_for(written.push('@') + bot, argument) == inbound::command_for(
            name,
            argument,
        ),
{
    inbound::commands_ignore_case(written, name);
    inbound::addressed_commands_mean_the_same(written, bot);
}

/// The text of a message that is no reply and comes from the configured user is read as a command;
/// a reply never is.
pub proof fn commands_stand_in_messages_of_their_own(
    message: JsonView,
    telegram: TelegramConfig,
    body: Seq<char>,
)
    requires
        api::chat_id_of(message) == Some(telegram.chat_id@),
        telegram.allowed_user_id matches Some(user) ==> api::user_id_of(message) == Some(user@),
        json::text_at(message.get("text"@)) == Some(body),
    ensures
        message.get("reply_to_message"@) is None ==> inbound::message_command(message, telegram)
            == inbound::parsed_command(body),
        message.get("reply_to_message"@) is Some ==> inbound::message_command(message, telegram)
            is None,
{
}

/// A count from 1 to 25 asks for exactly so many threads, also with blanks around it; any other
/// count is refused, and none asks for five.
pub proof fn a_count_asks_for_so_many_threads(n: nat, before: Seq<char>, after: Seq<char>)
    requires
        n <= u64::MAX,
        forall|k: int| 0 <= k < before.len() ==> text::white(#[trigger] before[k]),
        forall|k: int| 0 <= k < after.len() ==> text::white(#[trigger] after[k]),
    ensures
        1 <= n <= 25 ==> inbound::threads_limit(Some(before + number::decimal(n) + after))
            == Ok::<int, ThreadsLimitError>(n as int),
        n == 0 || n > 25 ==> inbound::threads_limit(Some(before + number::decimal(n) + after))
            == Err::<int, ThreadsLimitError>(ThreadsLimitError::OutOfRange),
        inbound::threads_limit(Some(before)) == Ok::<int, ThreadsLimitError>(5),
        inbound::threads_limit(None) == Ok::<int, ThreadsLimitError>(5),
{
    let s = number::decimal(n);
    numbers::numbers_are_written_in_digits(n);
    numbers::written_numbers_are_read_back(n);
    assert('0' <= s[0] <= '9');
    assert('0' <= s[s.len() - 1] <= '9');
    texts::printed_characters_are_not_white(s[0]);
    texts::printed_characters_are_not_white(s.last());
    texts::blanks_around_a_text_do_not_matter(before, s, after);
    texts::blank_means_only_blanks(before);
}

/// A count that is no number is refused as one.
pub proof fn other_counts_are_refused(digits: Seq<char>, c: char, rest: Seq<char>)
    requires
        numbers::digits(digits),
        numbers::value(digits) <= u64::MAX,
        '!' <= c <= '~',
        !('0' <= c <= '9'),
        c != '+',
        texts::is_word(rest) || rest.len() == 0,
    ensures
        inbound::threads_limit(Some(digits.push(c) + rest)) == Err::<int, ThreadsLimitError>(
            ThreadsLimitError::NotANumber(number::NumberError::InvalidDigit),
        ),
{
    let s = digits.push(c) + rest;
    let none = Seq::<char>::empty();
    texts::printed_characters_are_not_white(c);
    if digits.len() > 0 {
        assert('0' <= digits[0] <= '9');
        texts::printed_characters_are_not_white(digits[0]);
        assert(s[0] == digits[0]);
    } else {
        assert(s[0] == c);
    }
    if rest.len() > 0 {
        assert(s.last() == rest[rest.len() - 1]);
    } else {
        assert(s.last() == c);
    }
    texts::blanks_around_a_text_do_not_matter(none, s, none);
    numbers::other_characters_are_no_digits(digits, c, rest);
}

// ---------------------------------------------------------------------------------------------
// Buttons
// ---------------------------------------------------------------------------------------------

/// A tap carries the button's identifier behind the bot's mark; other data is no button of the bot.
pub proof fn taps_carry_the_identifier(query: JsonView, id: Seq<char>, data: Seq<char>)
    ensures
        json::text_at(query.get("data"@)) == Some("codex:"@ + id) ==> inbound::tapped_callback_id(
            query,
        ) == Some(id),
        json::text_at(query.get("data"@)) == Some(data) && (data.len() < 6 || data.take(6)
            != "codex:"@) ==> inbound::tapped_callback_id(query) is None,
        json::text_at(query.get("data"@)) is None ==> inbound::tapped_callback_id(query) is None,
{
    reveal_strlit("codex:");
    assert(("codex:"@ + id).skip(6) =~= id);
    texts::occurring_means_standing_between(Seq::empty(), "codex:"@, id);
    if data.len() >= 6 {
        assert(data.subrange(0, 6) =~= data.take(6));
    }
}

/// A tap is answered by a stored button only where the button has the identifier of the tap, stands
/// in the configured chat, was not used and is on the tapped message or on another copy of its
/// question, and only where the configured user tapped.
pub proof fn only_live_buttons_of_the_message_answer(
    query: JsonView,
    telegram: TelegramConfig,
    rows: Seq<inbound::StoredCallbackRoute>,
    copies: Seq<inbound::QuestionMessage>,
    id: Seq<char>,
)
    requires
        json::text_at(query.get("data"@)) == Some("codex:"@ + id),
    ensures
        inbound::tap_answered_by(query, telegram, rows, copies) matches Some(at) ==> {
            &&& 0 <= at < rows.len()
            &&& rows[at].callback_id@ == id
            &&& rows[at].chat_id@ == telegram.chat_id@
            &&& !rows[at].used
            &&& types::action_named(rows[at].action@) is Some
            &&& query.get("message"@) is Some
            &&& api::chat_id_of(query.get("message"@)->0) == Some(telegram.chat_id@)
            &&& telegram.allowed_user_id matches Some(user) ==> api::user_id_of(query) == Some(
                user@,
            )
            &&& rows[at].message_id matches Some(on) ==> {
                ||| json::at(query.get("message"@), "message_id"@) == Some(
                    JsonView::Int(on as int),
                )
                ||| exists|i: int|
                    0 <= i < copies.len() && (#[trigger] copies[i]).chat_id@ == telegram.chat_id@
                        && json::at(query.get("message"@), "message_id"@) == Some(
                        JsonView::Int(copies[i].message_id as int),
                    ) && json::opt_string(rows[at].approval_key) == Some(copies[i].question_key@)
                        && json::opt_string(rows[at].question_id) == Some(copies[i].question_id@)
            }
        },
{
    taps_carry_the_identifier(query, id, id);
    lemma_answering(
        rows,
        copies,
        id,
        telegram.chat_id@,
        api::message_id_of(query.get("message"@)),
    );
}

proof fn lemma_answering(
    rows: Seq<inbound::StoredCallbackRoute>,
    copies: Seq<inbound::QuestionMessage>,
    id: Seq<char>,
    chat_id: Seq<char>,
    message_id: Option<int>,
)
    ensures
        ({
            let at = inbound::answering_button(rows, copies, id, chat_id, message_id);
            &&& 0 <= at <= rows.len()
            &&& at < rows.len() ==> inbound::button_answers(
                rows[at],
                copies,
                id,
                chat_id,
                message_id,
            )
        }),
    decreases rows.len(),
{
    if rows.len() > 0 && !inbound::button_answers(rows[0], copies, id, chat_id, message_id) {
        lemma_answering(rows.skip(1), copies, id, chat_id, message_id);
    }
}

/// A count between 1 and 25 is taken as it is, whatever blanks stand around it.
pub proof fn counts_are_taken_as_they_are(
    raw: &str,
    n: nat,
    before: Seq<char>,
    after: Seq<char>,
    out: Result<u64, ThreadsLimitError>,
    none: Result<u64, ThreadsLimitError>,
)
    requires
        call_ensures(inbound::parse_telegram_threads_limit, (Some(raw),), out),
        call_ensures(inbound::parse_telegram_threads_limit, (None::<&str>,), none),
        raw@ == before + number::decimal(n) + after,
        forall|k: int| 0 <= k < before.len() ==> text::white(#[trigger] before[k]),
        forall|k: int| 0 <= k < after.len() ==> text::white(#[trigger] after[k]),
        n <= u64::MAX,
    ensures
        1 <= n <= 25 ==> out == Ok::<u64, ThreadsLimitError>(n as u64),
        n == 0 || n > 25 ==> out is Err,
        none == Ok::<u64, ThreadsLimitError>(5),
{
    a_count_asks_for_so_many_threads(n, before, after);
}

/// A reply is read with the whole text of its message.
pub proof fn replies_are_read_whole(
    message: &Json,
    telegram: &TelegramConfig,
    body: Seq<char>,
    out: Option<inbound::TelegramReply>,
)
    requires
        call_ensures(inbound::telegram_reply, (message, telegram), out),
        json::text_at(message@.get("text"@)) == Some(body),
    ensures
        out matches Some(reply) ==> {
            &&& texts::trims_to(body, reply.text@)
            &&& json::at(message@.get("reply_to_message"@), "message_id"@) == Some(
                JsonView::Int(reply.reply_to as int),
            )
            &&& reply.chat_id@ == telegram.chat_id@
        },
{
    a_reply_carries_the_whole_text(message@, *telegram, body);
}

/// What is wrong with a count is told with how to ask.
pub proof fn wrong_counts_are_explained(error: ThreadsLimitError)
    ensures
        ({
            let usage = "Use /threads or /threads <count>, with count between 1 and 25"@;
            let told = inbound::threads_limit_error(error);
            match error {
                ThreadsLimitError::OutOfRange => told == usage,
                ThreadsLimitError::NotANumber(number::NumberError::Empty) => told == usage + ": "@
                    + "cannot parse integer from empty string"@,
                ThreadsLimitError::NotANumber(number::NumberError::InvalidDigit) => told == usage
                    + ": "@ + "invalid digit found in string"@,
                ThreadsLimitError::NotANumber(number::NumberError::TooLarge) => told == usage
                    + ": "@ + "number too large to fit in target type"@,
            }
        }),
{
}

/// Of several buttons that could answer a tap the first does.
pub proof fn the_first_live_button_answers(
    query: JsonView,
    telegram: TelegramConfig,
    rows: Seq<inbound::StoredCallbackRoute>,
    copies: Seq<inbound::QuestionMessage>,
    id: Seq<char>,
    k: int,
)
    requires
        inbound::tap_authorized(query, telegram),
        json::text_at(query.get("data"@)) == Some("codex:"@ + id),
        0 <= k < rows.len(),
        rows[k].callback_id@ == id,
        rows[k].chat_id@ == telegram.chat_id@,
        !rows[k].used,
        rows[k].message_id is None || json::opt_signed(rows[k].message_id) == json::signed_at(
            json::at(query.get("message"@), "message_id"@),
        ),
        forall|i: int|
            0 <= i < k ==> (#[trigger] rows[i]).callback_id@ != id || rows[i].used
                || rows[i].chat_id@ != telegram.chat_id@,
    ensures
        types::action_named(rows[k].action@) is Some ==> inbound::tap_answered_by(
            query,
            telegram,
            rows,
            copies,
        ) == Some(k),
        types::action_named(rows[k].action@) is None ==> inbound::tap_answered_by(
            query,
            telegram,
            rows,
            copies,
        ) is None,
{
    taps_carry_the_identifier(query, id, id);
    lemma_first_answering(
        rows,
        copies,
        id,
        telegram.chat_id@,
        api::message_id_of(query.get("message"@)),
        k,
    );
}

proof fn lemma_first_answering(
    rows: Seq<inbound::StoredCallbackRoute>,
    copies: Seq<inbound::QuestionMessage>,
    id: Seq<char>,
    chat_id: Seq<char>,
    message_id: Option<int>,
    k: int,
)
    requires
        0 <= k < rows.len(),
        inbound::button_answers(rows[k], copies, id, chat_id, message_id),
        forall|i: int|
            0 <= i < k ==> (#[trigger] rows[i]).callback_id@ != id || rows[i].used
                || rows[i].chat_id@ != chat_id,
    ensures
        inbound::answering_button(rows, copies, id, chat_id, message_id) == k,
    decreases k,
{
    if k > 0 {
        let rest = rows.skip(1);
        assert(rows[0].callback_id@ != id || rows[0].used || rows[0].chat_id@ != chat_id);
        assert forall|i: int| 0 <= i < k - 1 implies (#[trigger] rest[i]).callback_id@ != id
            || rest[i].used || rest[i].chat_id@ != chat_id by {
            assert(rest[i] == rows[i + 1]);
        }
        lemma_first_answering(rest, copies, id, chat_id, message_id, k - 1);
    }
}

/// Only the names of actions are read as actions.
pub proof fn only_names_of_actions_are_actions(name: Seq<char>)
    requires
        name != "approve"@,
        name != "approve_for_session"@,
        name != "deny"@,
        name != "answer_option"@,
        name != "skip_question"@,
    ensures
        types::action_named(name) is None,
{
}

/// A reply goes where its message leads: to the thread, the question or the command that is stored
/// for it, and nowhere where none is.
pub proof fn replies_go_where_their_message_leads(
    message: &Json,
    telegram: &TelegramConfig,
    thread_id: Option<String>,
    question: Option<inbound::QuestionRef>,
    command: Option<inbound::CommandRoute>,
    turn: Option<inbound::RoutedTelegramReply>,
    answer: Option<inbound::RoutedTelegramQuestionReply>,
    prompt: Option<inbound::RoutedTelegramCommandPromptReply>,
)
    requires
        call_ensures(
            inbound::extract_telegram_reply_route,
            (message, telegram, thread_id),
            turn,
        ),
        call_ensures(
            inbound::extract_telegram_question_reply,
            (message, telegram, question),
            answer,
        ),
        call_ensures(
            inbound::extract_telegram_command_prompt_reply,
            (message, telegram, command),
            prompt,
        ),
    ensures
        ({
            let replies = inbound::reply_of(message@, *telegram) is Some;
            &&& turn is Some <==> replies && thread_id is Some
            &&& answer is Some <==> replies && question is Some
            &&& prompt is Some <==> replies && command is Some
        }),
{
}

/// A command is read from a message, and a tap from the message that it is on.
pub proof fn commands_and_taps_are_read(
    message: &Json,
    query: &Json,
    telegram: &TelegramConfig,
    command: Option<inbound::TelegramInboundCommand>,
    on: Option<i64>,
    heard: bool,
)
    requires
        call_ensures(inbound::extract_telegram_command, (message, telegram), command),
        call_ensures(inbound::telegram_tapped_message_id, (query,), on),
        call_ensures(inbound::is_tap_authorized, (query, telegram), heard),
    ensures
        inbound::opt_command(command) == inbound::message_command(message@, *telegram),
        json::opt_signed(on) == json::signed_at(json::at(query@.get("message"@), "message_id"@)),
        heard ==> query@.get("message"@) is Some && api::chat_id_of(query@.get("message"@)->0)
            == Some(telegram.chat_id@),
        heard <==> inbound::tap_authorized(query@, *telegram),
{
}

} // verus!
