//! Deleting secret answers from the chat, within what is left of a daemon cycle.

use vstd::prelude::*;

use crate::api;
use crate::api::telegram_delete_message;
use crate::api::telegram_send_text_to_chat;
use crate::api::telegram_stable_bot_id;
use crate::api::ApiCall;
use crate::json;
use crate::text;
use crate::text::contains_text;
use crate::text::same_text;
use crate::types::TelegramConfig;

verus! {

/// The request timeout, cut to what is left of the cycle; nothing where nothing is left. `None` as
/// the remaining time means that the cycle has no limit. Times are in nanoseconds.
pub open spec fn cut_timeout(timeout: int, remaining: Option<int>) -> Option<int> {
    match remaining {
        None => Some(timeout),
        Some(left) => if left == 0 {
            None
        } else if timeout <= left {
            Some(timeout)
        } else {
            Some(left)
        },
    }
}

/// A time as a mathematical integer.
pub open spec fn opt_nanos(value: Option<u128>) -> Option<int> {
    match value {
        Some(n) => Some(n as int),
        None => None,
    }
}

/// The request timeout, cut to what is left of the cycle budget; `None` once it is spent.
pub fn budgeted_timeout(timeout: u128, remaining: Option<u128>) -> (out: Option<u128>)
    ensures
        opt_nanos(out) == cut_timeout(timeout as int, opt_nanos(remaining)),
{
    match remaining {
        None => Some(timeout),
        Some(left) => if left == 0 {
            None
        } else if timeout <= left {
            Some(timeout)
        } else {
            Some(left)
        },
    }
}

/// A cut timeout is never longer than the timeout nor than what is left, and a request is made
/// exactly where something is left.
pub proof fn timeouts_stay_within_the_budget(timeout: int, remaining: int)
    requires
        0 <= timeout,
        0 <= remaining,
    ensures
        cut_timeout(timeout, Some(remaining)) is Some <==> remaining > 0,
        cut_timeout(timeout, Some(remaining)) matches Some(cut) ==> cut <= timeout && cut
            <= remaining && (cut == timeout || cut == remaining),
        cut_timeout(timeout, None) == Some(timeout),
{
}

// ---------------------------------------------------------------------------------------------
// Deleting messages
// ---------------------------------------------------------------------------------------------

/// Telegram lets a bot delete a message for 48 hours; retrying stops a little before that.
pub const TELEGRAM_DELETE_WINDOW_MS: u64 = 169_200_000;

/// At most this many queued deletions are tried per cycle, so that a backlog during a Telegram
/// outage cannot hold up polling.
pub const TELEGRAM_DELETIONS_PER_CYCLE: usize = 5;

/// What to do after an attempt to delete a message.
#[derive(Debug, Clone, Copy, PartialEq, Eq, Structural)]
pub enum MessageDeletionStep {
    Done,
    Retry,
    /// The message can no longer be deleted: stop and ask the user to delete it.
    GiveUp,
}

/// What to do after an attempt to delete a message that was queued at `created_at`.
pub open spec fn deletion_step(
    error: Option<Seq<char>>,
    created_at: int,
    now: int,
) -> MessageDeletionStep {
    match error {
        None => MessageDeletionStep::Done,
        Some(e) => if text::occurs_in("message to delete not found"@, e) {
            MessageDeletionStep::Done
        } else if text::occurs_in("message can't be deleted"@, e) || now - created_at
            >= 169_200_000 {
            MessageDeletionStep::GiveUp
        } else {
            MessageDeletionStep::Retry
        },
    }
}

/// What to do next; `error` is the failed `deleteMessage` call, or `None` when it succeeded.
pub fn message_deletion_step(error: Option<&str>, created_at: u64, now: u64) -> (out:
    MessageDeletionStep)
    ensures
        out == deletion_step(json::opt_text(error), created_at as int, now as int),
{
    match error {
        None => MessageDeletionStep::Done,
        Some(e) => if contains_text(e, "message to delete not found") {
            MessageDeletionStep::Done
        } else if contains_text(e, "message can't be deleted") || (now >= created_at && now
            - created_at >= TELEGRAM_DELETE_WINDOW_MS) {
            MessageDeletionStep::GiveUp
        } else {
            MessageDeletionStep::Retry
        },
    }
}

/// Retrying ends: once the window is over, every attempt is the last one.
pub proof fn deletions_do_not_retry_forever(error: Option<Seq<char>>, created_at: int, now: int)
    requires
        now >= created_at + 169_200_000,
    ensures
        deletion_step(error, created_at, now) != MessageDeletionStep::Retry,
{
}

/// A deletion that is due.
#[derive(Debug, PartialEq, Eq)]
pub struct MessageDeletion {
    pub bot_id: String,
    pub chat_id: String,
    pub message_id: i64,
    pub created_at: u64,
}

/// The bot that received the message is the configured one.
pub open spec fn deletion_same_bot(deletion: MessageDeletion, telegram: TelegramConfig) -> bool {
    deletion.bot_id@ == api::stable_bot_id(telegram.bot_token@)
}

/// How a deletion is attempted.
#[derive(Debug, PartialEq, Eq)]
pub enum DeletionAttempt {
    Call(ApiCall),
    /// The bridge now uses a different bot, which cannot remove the message.
    OtherBot,
}

/// Attempts a deletion in the chat that it was queued for: that still works after the bridge is
/// paired with another chat; only a different bot can no longer remove the message.
pub fn deletion_attempt(deletion: &MessageDeletion, telegram: &TelegramConfig) -> (out:
    DeletionAttempt)
    ensures
        match out {
            DeletionAttempt::Call(call) => deletion_same_bot(*deletion, *telegram) && call@
                == api::delete_message_call(deletion.chat_id@, deletion.message_id as int),
            DeletionAttempt::OtherBot => !deletion_same_bot(*deletion, *telegram),
        },
{
    let bot_id = telegram_stable_bot_id(telegram.bot_token.as_str());
    if same_text(deletion.bot_id.as_str(), bot_id.as_str()) {
        DeletionAttempt::Call(
            telegram_delete_message(deletion.chat_id.as_str(), deletion.message_id),
        )
    } else {
        DeletionAttempt::OtherBot
    }
}

/// What becomes of a queued deletion after an attempt.
#[derive(Debug, PartialEq, Eq)]
pub enum DeletionFollowUp {
    /// It leaves the queue.
    Finish,
    /// It stays in the queue and is tried again later.
    Retry,
    /// The user is warned first: it leaves the queue once the warning is delivered.
    Warn(ApiCall),
}

/// What to do after an attempt: a message that only another bot can remove is given up.
pub open spec fn attempt_step(
    same_bot: bool,
    error: Option<Seq<char>>,
    created_at: int,
    now: int,
) -> MessageDeletionStep {
    if same_bot {
        deletion_step(error, created_at, now)
    } else {
        MessageDeletionStep::GiveUp
    }
}

/// What becomes of a queued deletion, without the text of a warning.
pub ghost enum FollowUpView {
    Finish,
    Retry,
    Warn,
}

/// What becomes of a queued deletion after an attempt: one that is given up is warned about, where
/// the chat that holds the message can be reached.
pub open spec fn follow_up(
    same_bot: bool,
    same_chat: bool,
    error: Option<Seq<char>>,
    created_at: int,
    now: int,
) -> FollowUpView {
    match attempt_step(same_bot, error, created_at, now) {
        MessageDeletionStep::Done => FollowUpView::Finish,
        MessageDeletionStep::Retry => FollowUpView::Retry,
        MessageDeletionStep::GiveUp => if same_bot || same_chat {
            FollowUpView::Warn
        } else {
            FollowUpView::Finish
        },
    }
}

/// The warning about a message that could not be deleted.
pub open spec fn not_deleted_text() -> Seq<char> {
    "⚠️ The bridge could not delete one of your secret answers to Codex. Please delete it yourself."@
}

/// What becomes of a queued deletion after an attempt. `error` is that of the call where one was
/// made. The warning goes to the chat that holds the message. A different bot can only reach it when
/// it is still the configured chat; otherwise there is no one to tell.
pub fn deletion_follow_up(
    deletion: &MessageDeletion,
    telegram: &TelegramConfig,
    error: Option<&str>,
    now: u64,
) -> (out: DeletionFollowUp)
    ensures
        ({
            let next = follow_up(
                deletion_same_bot(*deletion, *telegram),
                deletion.chat_id@ == telegram.chat_id@,
                json::opt_text(error),
                deletion.created_at as int,
                now as int,
            );
            match out {
                DeletionFollowUp::Finish => next is Finish,
                DeletionFollowUp::Retry => next is Retry,
                DeletionFollowUp::Warn(call) => next is Warn && call@ == api::send_text_call(
                    deletion.chat_id@,
                    not_deleted_text(),
                ),
            }
        }),
{
    let bot_id = telegram_stable_bot_id(telegram.bot_token.as_str());
    let same_bot = same_text(deletion.bot_id.as_str(), bot_id.as_str());
    let step = if same_bot {
        message_deletion_step(error, deletion.created_at, now)
    } else {
        MessageDeletionStep::GiveUp
    };
    match step {
        MessageDeletionStep::Done => DeletionFollowUp::Finish,
        MessageDeletionStep::Retry => DeletionFollowUp::Retry,
        MessageDeletionStep::GiveUp => {
            if !same_bot && !same_text(deletion.chat_id.as_str(), telegram.chat_id.as_str()) {
                return DeletionFollowUp::Finish;
            }
            DeletionFollowUp::Warn(
                telegram_send_text_to_chat(
                    deletion.chat_id.as_str(),
                    "⚠️ The bridge could not delete one of your secret answers to Codex. Please delete it yourself.",
                ),
            )
        },
    }
}

/// What becomes of a queued deletion after the warning.
pub open spec fn after_warning(delivered: bool) -> FollowUpView {
    if delivered {
        FollowUpView::Finish
    } else {
        FollowUpView::Retry
    }
}

/// What becomes of a queued deletion after the warning: it stays in the queue until the warning is
/// delivered, since the outage that failed the deletion can fail the warning too.
pub fn warning_follow_up(delivered: bool) -> (out: DeletionFollowUp)
    ensures
        match out {
            DeletionFollowUp::Finish => after_warning(delivered) is Finish,
            DeletionFollowUp::Retry => after_warning(delivered) is Retry,
            DeletionFollowUp::Warn(_) => false,
        },
{
    if delivered {
        DeletionFollowUp::Finish
    } else {
        DeletionFollowUp::Retry
    }
}

/// What happened to one queued deletion in a cycle.
pub ghost struct DeletionHistory {
    pub same_bot: bool,
    pub same_chat: bool,
    pub error: Option<Seq<char>>,
    pub warned: bool,
}

/// The deletion leaves the queue, at once or after a warning.
pub open spec fn leaves_queue(history: DeletionHistory, created_at: int, now: int) -> bool {
    let next = follow_up(history.same_bot, history.same_chat, history.error, created_at, now);
    next is Finish || next is Warn && after_warning(history.warned) is Finish
}

/// A promise to delete is never silently dropped: a deletion leaves the queue only where Telegram
/// deleted the message or no longer has it, where the user was warned, or where a different bot
/// cannot reach the chat that holds it.
pub proof fn promises_to_delete_are_kept(history: DeletionHistory, created_at: int, now: int)
    requires
        leaves_queue(history, created_at, now),
    ensures
        ({
            ||| history.same_bot && (history.error is None || text::occurs_in(
                "message to delete not found"@,
                history.error->0,
            ))
            ||| history.warned
            ||| !history.same_bot && !history.same_chat
        }),
{
}

} // verus!
