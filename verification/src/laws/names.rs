//! The names of members: what tells each from the others.

use vstd::prelude::*;

verus! {

proof fn lemma_first_names()
    ensures
        "id"@.len() == 2 && "id"@[0] == 'i',
        "ok"@.len() == 2 && "ok"@[0] == 'o',
        "bot"@.len() == 3 && "bot"@[0] == 'b',
        "cwd"@.len() == 3 && "cwd"@[0] == 'c',
        "ids"@.len() == 3 && "ids"@[0] == 'i',
        "raw"@.len() == 3 && "raw"@[0] == 'r',
        "away"@.len() == 4 && "away"@[0] == 'a' && "away"@[2] == 'a',
        "chat"@.len() == 4 && "chat"@[0] == 'c' && "chat"@[2] == 'a',
        "code"@.len() == 4 && "code"@[0] == 'c' && "code"@[2] == 'd',
        "data"@.len() == 4 && "data"@[0] == 'd' && "data"@[2] == 't',
        "from"@.len() == 4 && "from"@[0] == 'f' && "from"@[2] == 'o',
        "item"@.len() == 4 && "item"@[0] == 'i' && "item"@[2] == 'e',
        "kind"@.len() == 4 && "kind"@[0] == 'k' && "kind"@[2] == 'n',
        "logs"@.len() == 4 && "logs"@[0] == 'l' && "logs"@[2] == 'g',
        "mode"@.len() == 4 && "mode"@[0] == 'm' && "mode"@[2] == 'd',
        "name"@.len() == 4 && "name"@[0] == 'n' && "name"@[2] == 'm',
        "seen"@.len() == 4 && "seen"@[0] == 's' && "seen"@[2] == 'e',
        "sent"@.len() == 4 && "sent"@[0] == 's' && "sent"@[2] == 'n',
        "text"@.len() == 4 && "text"@[0] == 't' && "text"@[2] == 'x',
        "turn"@.len() == 4 && "turn"@[0] == 't' && "turn"@[2] == 'r',
        "type"@.len() == 4 && "type"@[0] == 't' && "type"@[2] == 'p',
        "chats"@.len() == 5 && "chats"@[0] == 'c' && "chats"@[4] == 's',
        "codex"@.len() == 5 && "codex"@[0] == 'c' && "codex"@[4] == 'x',
        "count"@.len() == 5 && "count"@[0] == 'c' && "count"@[4] == 't',
{
    reveal_strlit("id");
    reveal_strlit("ok");
    reveal_strlit("bot");
    reveal_strlit("cwd");
    reveal_strlit("ids");
    reveal_strlit("raw");
    reveal_strlit("away");
    reveal_strlit("chat");
    reveal_strlit("code");
    reveal_strlit("data");
    reveal_strlit("from");
    reveal_strlit("item");
    reveal_strlit("kind");
    reveal_strlit("logs");
    reveal_strlit("mode");
    reveal_strlit("name");
    reveal_strlit("seen");
    reveal_strlit("sent");
    reveal_strlit("text");
    reveal_strlit("turn");
    reveal_strlit("type");
    reveal_strlit("chats");
    reveal_strlit("codex");
    reveal_strlit("count");
}

proof fn lemma_second_names()
    ensures
        "error"@.len() == 5 && "error"@[0] == 'e' && "error"@[4] == 'r',
        "index"@.len() == 5 && "index"@[0] == 'i' && "index"@[4] == 'x',
        "input"@.len() == 5 && "input"@[0] == 'i' && "input"@[4] == 't',
        "label"@.len() == 5 && "label"@[0] == 'l' && "label"@[4] == 'l',
        "limit"@.len() == 5 && "limit"@[0] == 'l' && "limit"@[4] == 't',
        "lines"@.len() == 5 && "lines"@[0] == 'l' && "lines"@[4] == 's',
        "state"@.len() == 5 && "state"@[0] == 's' && "state"@[4] == 'e',
        "title"@.len() == 5 && "title"@[0] == 't' && "title"@[4] == 'e',
        "total"@.len() == 5 && "total"@[0] == 't' && "total"@[4] == 'l',
        "until"@.len() == 5 && "until"@[0] == 'u' && "until"@[4] == 'l',
        "action"@.len() == 6 && "action"@[0] == 'a' && "action"@[1] == 'c' && "action"@[5] == 'n',
        "active"@.len() == 6 && "active"@[0] == 'a' && "active"@[1] == 'c' && "active"@[5] == 'e',
        "chatId"@.len() == 6 && "chatId"@[0] == 'c' && "chatId"@[1] == 'h' && "chatId"@[5] == 'd',
        "chunks"@.len() == 6 && "chunks"@[0] == 'c' && "chunks"@[1] == 'h' && "chunks"@[5] == 's',
        "config"@.len() == 6 && "config"@[0] == 'c' && "config"@[1] == 'o' && "config"@[5] == 'g',
        "dryRun"@.len() == 6 && "dryRun"@[0] == 'd' && "dryRun"@[1] == 'r' && "dryRun"@[5] == 'n',
        "events"@.len() == 6 && "events"@[0] == 'e' && "events"@[1] == 'v' && "events"@[5] == 's',
        "failed"@.len() == 6 && "failed"@[0] == 'f' && "failed"@[1] == 'a' && "failed"@[5] == 'd',
        "header"@.len() == 6 && "header"@[0] == 'h' && "header"@[1] == 'e' && "header"@[5] == 'r',
        "is_bot"@.len() == 6 && "is_bot"@[0] == 'i' && "is_bot"@[1] == 's' && "is_bot"@[5] == 't',
        "itemId"@.len() == 6 && "itemId"@[0] == 'i' && "itemId"@[1] == 't' && "itemId"@[5] == 'd',
        "loaded"@.len() == 6 && "loaded"@[0] == 'l' && "loaded"@[1] == 'o' && "loaded"@[5] == 'd',
        "method"@.len() == 6 && "method"@[0] == 'm' && "method"@[1] == 'e' && "method"@[5] == 'd',
        "nextAt"@.len() == 6 && "nextAt"@[0] == 'n' && "nextAt"@[1] == 'e' && "nextAt"@[5] == 't',
{
    reveal_strlit("error");
    reveal_strlit("index");
    reveal_strlit("input");
    reveal_strlit("label");
    reveal_strlit("limit");
    reveal_strlit("lines");
    reveal_strlit("state");
    reveal_strlit("title");
    reveal_strlit("total");
    reveal_strlit("until");
    reveal_strlit("action");
    reveal_strlit("active");
    reveal_strlit("chatId");
    reveal_strlit("chunks");
    reveal_strlit("config");
    reveal_strlit("dryRun");
    reveal_strlit("events");
    reveal_strlit("failed");
    reveal_strlit("header");
    reveal_strlit("is_bot");
    reveal_strlit("itemId");
    reveal_strlit("loaded");
    reveal_strlit("method");
    reveal_strlit("nextAt");
}

proof fn lemma_third_names()
    ensures
        "offset"@.len() == 6 && "offset"@[0] == 'o' && "offset"@[1] == 'f' && "offset"@[5] == 't',
        "output"@.len() == 6 && "output"@[0] == 'o' && "output"@[1] == 'u' && "output"@[5] == 't',
        "params"@.len() == 6 && "params"@[0] == 'p' && "params"@[1] == 'a' && "params"@[5] == 's',
        "prompt"@.len() == 6 && "prompt"@[0] == 'p' && "prompt"@[1] == 'r' && "prompt"@[5] == 't',
        "result"@.len() == 6 && "result"@[0] == 'r' && "result"@[1] == 'e' && "result"@[5] == 't',
        "sentAt"@.len() == 6 && "sentAt"@[0] == 's' && "sentAt"@[1] == 'e' && "sentAt"@[5] == 't',
        "status"@.len() == 6 && "status"@[0] == 's' && "status"@[1] == 't' && "status"@[5] == 's',
        "stderr"@.len() == 6 && "stderr"@[0] == 's' && "stderr"@[1] == 't' && "stderr"@[5] == 'r',
        "stdout"@.len() == 6 && "stdout"@[0] == 's' && "stdout"@[1] == 't' && "stdout"@[5] == 't',
        "thread"@.len() == 6 && "thread"@[0] == 't' && "thread"@[1] == 'h' && "thread"@[5] == 'd',
        "turnId"@.len() == 6 && "turnId"@[0] == 't' && "turnId"@[1] == 'u' && "turnId"@[5] == 'd',
        "answers"@.len() == 7 && "answers"@[0] == 'a' && "answers"@[2] == 's',
        "backend"@.len() == 7 && "backend"@[0] == 'b' && "backend"@[2] == 'c',
        "chat_id"@.len() == 7 && "chat_id"@[0] == 'c' && "chat_id"@[2] == 'a',
        "command"@.len() == 7 && "command"@[0] == 'c' && "command"@[2] == 'm',
        "expired"@.len() == 7 && "expired"@[0] == 'e' && "expired"@[2] == 'p',
        "healthy"@.len() == 7 && "healthy"@[0] == 'h' && "healthy"@[2] == 'a',
        "ignored"@.len() == 7 && "ignored"@[0] == 'i' && "ignored"@[2] == 'n',
        "isOther"@.len() == 7 && "isOther"@[0] == 'i' && "isOther"@[2] == 'O',
        "message"@.len() == 7 && "message"@[0] == 'm' && "message"@[2] == 's',
        "options"@.len() == 7 && "options"@[0] == 'o' && "options"@[2] == 't',
        "pairing"@.len() == 7 && "pairing"@[0] == 'p' && "pairing"@[2] == 'i',
        "payload"@.len() == 7 && "payload"@[0] == 'p' && "payload"@[2] == 'y',
        "pending"@.len() == 7 && "pending"@[0] == 'p' && "pending"@[2] == 'n',
{
    reveal_strlit("offset");
    reveal_strlit("output");
    reveal_strlit("params");
    reveal_strlit("prompt");
    reveal_strlit("result");
    reveal_strlit("sentAt");
    reveal_strlit("status");
    reveal_strlit("stderr");
    reveal_strlit("stdout");
    reveal_strlit("thread");
    reveal_strlit("turnId");
    reveal_strlit("answers");
    reveal_strlit("backend");
    reveal_strlit("chat_id");
    reveal_strlit("command");
    reveal_strlit("expired");
    reveal_strlit("healthy");
    reveal_strlit("ignored");
    reveal_strlit("isOther");
    reveal_strlit("message");
    reveal_strlit("options");
    reveal_strlit("pairing");
    reveal_strlit("payload");
    reveal_strlit("pending");
}

proof fn lemma_fourth_names()
    ensures
        "project"@.len() == 7 && "project"@[0] == 'p' && "project"@[2] == 'o',
        "removed"@.len() == 7 && "removed"@[0] == 'r' && "removed"@[2] == 'm',
        "replies"@.len() == 7 && "replies"@[0] == 'r' && "replies"@[2] == 'p',
        "resumed"@.len() == 7 && "resumed"@[0] == 'r' && "resumed"@[2] == 's',
        "running"@.len() == 7 && "running"@[0] == 'r' && "running"@[2] == 'n',
        "skipped"@.len() == 7 && "skipped"@[0] == 's' && "skipped"@[2] == 'i',
        "started"@.len() == 7 && "started"@[0] == 's' && "started"@[2] == 'a',
        "success"@.len() == 7 && "success"@[0] == 's' && "success"@[2] == 'c',
        "summary"@.len() == 7 && "summary"@[0] == 's' && "summary"@[2] == 'm',
        "threads"@.len() == 7 && "threads"@[0] == 't' && "threads"@[2] == 'r',
        "timeout"@.len() == 7 && "timeout"@[0] == 't' && "timeout"@[2] == 'm',
        "answered"@.len() == 8 && "answered"@[0] == 'a' && "answered"@[2] == 's',
        "botToken"@.len() == 8 && "botToken"@[0] == 'b' && "botToken"@[2] == 't',
        "commands"@.len() == 8 && "commands"@[0] == 'c' && "commands"@[2] == 'm',
        "contents"@.len() == 8 && "contents"@[0] == 'c' && "contents"@[2] == 'n',
        "decision"@.len() == 8 && "decision"@[0] == 'd' && "decision"@[2] == 'c',
        "delivery"@.len() == 8 && "delivery"@[0] == 'd' && "delivery"@[2] == 'l',
        "enqueued"@.len() == 8 && "enqueued"@[0] == 'e' && "enqueued"@[2] == 'q',
        "freeText"@.len() == 8 && "freeText"@[0] == 'f' && "freeText"@[2] == 'e',
        "isActive"@.len() == 8 && "isActive"@[0] == 'i' && "isActive"@[2] == 'A',
        "isSecret"@.len() == 8 && "isSecret"@[0] == 'i' && "isSecret"@[2] == 'S',
        "nextStep"@.len() == 8 && "nextStep"@[0] == 'n' && "nextStep"@[2] == 'x',
        "observed"@.len() == 8 && "observed"@[0] == 'o' && "observed"@[2] == 's',
        "promptId"@.len() == 8 && "promptId"@[0] == 'p' && "promptId"@[2] == 'o',
{
    reveal_strlit("project");
    reveal_strlit("removed");
    reveal_strlit("replies");
    reveal_strlit("resumed");
    reveal_strlit("running");
    reveal_strlit("skipped");
    reveal_strlit("started");
    reveal_strlit("success");
    reveal_strlit("summary");
    reveal_strlit("threads");
    reveal_strlit("timeout");
    reveal_strlit("answered");
    reveal_strlit("botToken");
    reveal_strlit("commands");
    reveal_strlit("contents");
    reveal_strlit("decision");
    reveal_strlit("delivery");
    reveal_strlit("enqueued");
    reveal_strlit("freeText");
    reveal_strlit("isActive");
    reveal_strlit("isSecret");
    reveal_strlit("nextStep");
    reveal_strlit("observed");
    reveal_strlit("promptId");
}

proof fn lemma_fifth_names()
    ensures
        "question"@.len() == 8 && "question"@[0] == 'q' && "question"@[2] == 'e',
        "required"@.len() == 8 && "required"@[0] == 'r' && "required"@[2] == 'q',
        "response"@.len() == 8 && "response"@[0] == 'r' && "response"@[2] == 's',
        "sentText"@.len() == 8 && "sentText"@[0] == 's' && "sentText"@[2] == 'n',
        "telegram"@.len() == 8 && "telegram"@[0] == 't' && "telegram"@[2] == 'l',
        "threadId"@.len() == 8 && "threadId"@[0] == 't' && "threadId"@[2] == 'r',
        "username"@.len() == 8 && "username"@[0] == 'u' && "username"@[2] == 'e',
        "callbacks"@.len() == 9 && "callbacks"@[0] == 'c' && "callbacks"@[6] == 'c',
        "duplicate"@.len() == 9 && "duplicate"@[0] == 'd' && "duplicate"@[6] == 'a',
        "messageId"@.len() == 9 && "messageId"@[0] == 'm' && "messageId"@[6] == 'e',
        "projectId"@.len() == 9 && "projectId"@[0] == 'p' && "projectId"@[6] == 't',
        "questions"@.len() == 9 && "questions"@[0] == 'q' && "questions"@[6] == 'o',
        "remaining"@.len() == 9 && "remaining"@[0] == 'r' && "remaining"@[6] == 'i',
        "requestId"@.len() == 9 && "requestId"@[0] == 'r' && "requestId"@[6] == 't',
        "timeoutMs"@.len() == 9 && "timeoutMs"@[0] == 't' && "timeoutMs"@[6] == 't',
        "transport"@.len() == 9 && "transport"@[0] == 't' && "transport"@[6] == 'o',
        "update_id"@.len() == 9 && "update_id"@[0] == 'u' && "update_id"@[6] == '_',
        "updatedAt"@.len() == 9 && "updatedAt"@[0] == 'u' && "updatedAt"@[6] == 'd',
        "configPath"@.len() == 10 && "configPath"@[0] == 'c' && "configPath"@[7] == 'a',
        "configured"@.len() == 10 && "configured"@[0] == 'c' && "configured"@[7] == 'r',
        "first_name"@.len() == 10 && "first_name"@[0] == 'f' && "first_name"@[7] == 'a',
        "messageIds"@.len() == 10 && "messageIds"@[0] == 'm' && "messageIds"@[7] == 'I',
        "message_id"@.len() == 10 && "message_id"@[0] == 'm' && "message_id"@[7] == '_',
        "observedAt"@.len() == 10 && "observedAt"@[0] == 'o' && "observedAt"@[7] == 'd',
{
    reveal_strlit("question");
    reveal_strlit("required");
    reveal_strlit("response");
    reveal_strlit("sentText");
    reveal_strlit("telegram");
    reveal_strlit("threadId");
    reveal_strlit("username");
    reveal_strlit("callbacks");
    reveal_strlit("duplicate");
    reveal_strlit("messageId");
    reveal_strlit("projectId");
    reveal_strlit("questions");
    reveal_strlit("remaining");
    reveal_strlit("requestId");
    reveal_strlit("timeoutMs");
    reveal_strlit("transport");
    reveal_strlit("update_id");
    reveal_strlit("updatedAt");
    reveal_strlit("configPath");
    reveal_strlit("configured");
    reveal_strlit("first_name");
    reveal_strlit("messageIds");
    reveal_strlit("message_id");
    reveal_strlit("observedAt");
}

proof fn lemma_sixth_names()
    ensures
        "promptKind"@.len() == 10 && "promptKind"@[0] == 'p' && "promptKind"@[7] == 'i',
        "questionId"@.len() == 10 && "questionId"@[0] == 'q' && "questionId"@[7] == 'n',
        "registered"@.len() == 10 && "registered"@[0] == 'r' && "registered"@[7] == 'r',
        "runCommand"@.len() == 10 && "runCommand"@[0] == 'r' && "runCommand"@[7] == 'a',
        "show_alert"@.len() == 10 && "show_alert"@[0] == 's' && "show_alert"@[7] == 'e',
        "statusType"@.len() == 10 && "statusType"@[0] == 's' && "statusType"@[7] == 'y',
        "approvalKey"@.len() == 11 && "approvalKey"@[0] == 'a' && "approvalKey"@[3] == 'r',
        "description"@.len() == 11 && "description"@[0] == 'd' && "description"@[3] == 'c',
        "displayName"@.len() == 11 && "displayName"@[0] == 'd' && "displayName"@[3] == 'p',
        "lastPreview"@.len() == 11 && "lastPreview"@[0] == 'l' && "lastPreview"@[3] == 't',
        "questionKey"@.len() == 11 && "questionKey"@[0] == 'q' && "questionKey"@[3] == 's',
        "servicePath"@.len() == 11 && "servicePath"@[0] == 's' && "servicePath"@[3] == 'v',
        "statusFlags"@.len() == 11 && "statusFlags"@[0] == 's' && "statusFlags"@[3] == 't',
        "stopCommand"@.len() == 11 && "stopCommand"@[0] == 's' && "stopCommand"@[3] == 'p',
        "tailCommand"@.len() == 11 && "tailCommand"@[0] == 't' && "tailCommand"@[3] == 'l',
        "appServerPid"@.len() == 12 && "appServerPid"@[9] == 'P',
        "configExists"@.len() == 12 && "configExists"@[9] == 's',
        "confirmation"@.len() == 12 && "confirmation"@[9] == 'i',
        "lastUpdateId"@.len() == 12 && "lastUpdateId"@[9] == 'e',
        "projectLabel"@.len() == 12 && "projectLabel"@[9] == 'b',
        "promptStatus"@.len() == 12 && "promptStatus"@[9] == 't',
        "reply_markup"@.len() == 12 && "reply_markup"@[9] == 'k',
        "startCommand"@.len() == 12 && "startCommand"@[9] == 'a',
        "allowedUserId"@.len() == 13 && "allowedUserId"@[0] == 'a' && "allowedUserId"@[7] == 'U',
{
    reveal_strlit("promptKind");
    reveal_strlit("questionId");
    reveal_strlit("registered");
    reveal_strlit("runCommand");
    reveal_strlit("show_alert");
    reveal_strlit("statusType");
    reveal_strlit("approvalKey");
    reveal_strlit("description");
    reveal_strlit("displayName");
    reveal_strlit("lastPreview");
    reveal_strlit("questionKey");
    reveal_strlit("servicePath");
    reveal_strlit("statusFlags");
    reveal_strlit("stopCommand");
    reveal_strlit("tailCommand");
    reveal_strlit("appServerPid");
    reveal_strlit("configExists");
    reveal_strlit("confirmation");
    reveal_strlit("lastUpdateId");
    reveal_strlit("projectLabel");
    reveal_strlit("promptStatus");
    reveal_strlit("reply_markup");
    reveal_strlit("startCommand");
    reveal_strlit("allowedUserId");
}

proof fn lemma_seventh_names()
    ensures
        "awayStartedAt"@.len() == 13 && "awayStartedAt"@[0] == 'a' && "awayStartedAt"@[7] == 'r',
        "callback_data"@.len() == 13 && "callback_data"@[0] == 'c' && "callback_data"@[7] == 'k',
        "daemonCommand"@.len() == 13 && "daemonCommand"@[0] == 'd' && "daemonCommand"@[7] == 'o',
        "pendingPrompt"@.len() == 13 && "pendingPrompt"@[0] == 'p' && "pendingPrompt"@[7] == 'P',
        "serviceExists"@.len() == 13 && "serviceExists"@[0] == 's' && "serviceExists"@[7] == 'E',
        "serviceStatus"@.len() == 13 && "serviceStatus"@[0] == 's' && "serviceStatus"@[7] == 'S',
        "startedTurnId"@.len() == 13 && "startedTurnId"@[0] == 's' && "startedTurnId"@[7] == 'T',
        "statusCommand"@.len() == 13 && "statusCommand"@[0] == 's' && "statusCommand"@[7] == 'o',
        "callback_query"@.len() == 14 && "callback_query"@[0] == 'c',
        "edited_message"@.len() == 14 && "edited_message"@[0] == 'e',
        "installCommand"@.len() == 14 && "installCommand"@[0] == 'i',
        "lastTurnStatus"@.len() == 14 && "lastTurnStatus"@[0] == 'l',
        "allowed_updates"@.len() == 15 && "allowed_updates"@[1] == 'l',
        "approvalRequest"@.len() == 15 && "approvalRequest"@[1] == 'p',
        "inline_keyboard"@.len() == 15 && "inline_keyboard"@[1] == 'n',
        "questionRequest"@.len() == 15 && "questionRequest"@[1] == 'u',
        "telegramUpdates"@.len() == 15 && "telegramUpdates"@[1] == 'e',
        "reply_to_message"@.len() == 16 && "reply_to_message"@[0] == 'r',
        "telegramCommands"@.len() == 16 && "telegramCommands"@[0] == 't',
        "uninstallCommand"@.len() == 16 && "uninstallCommand"@[0] == 'u',
        "callback_query_id"@.len() == 17,
        "reply_to_message_id"@.len() == 19,
        "commandPromptReplies"@.len() == 20 && "commandPromptReplies"@[1] == 'o',
        "daemonInstallCommand"@.len() == 20 && "daemonInstallCommand"@[1] == 'a',
{
    reveal_strlit("awayStartedAt");
    reveal_strlit("callback_data");
    reveal_strlit("daemonCommand");
    reveal_strlit("pendingPrompt");
    reveal_strlit("serviceExists");
    reveal_strlit("serviceStatus");
    reveal_strlit("startedTurnId");
    reveal_strlit("statusCommand");
    reveal_strlit("callback_query");
    reveal_strlit("edited_message");
    reveal_strlit("installCommand");
    reveal_strlit("lastTurnStatus");
    reveal_strlit("allowed_updates");
    reveal_strlit("approvalRequest");
    reveal_strlit("inline_keyboard");
    reveal_strlit("questionRequest");
    reveal_strlit("telegramUpdates");
    reveal_strlit("reply_to_message");
    reveal_strlit("telegramCommands");
    reveal_strlit("uninstallCommand");
    reveal_strlit("callback_query_id");
    reveal_strlit("reply_to_message_id");
    reveal_strlit("commandPromptReplies");
    reveal_strlit("daemonInstallCommand");
}

proof fn lemma_eighth_names()
    ensures
        "drop_pending_updates"@.len() == 20 && "drop_pending_updates"@[1] == 'r',
        "disable_web_page_preview"@.len() == 24,
        "clearedPendingNotifications"@.len() == 27,
{
    reveal_strlit("drop_pending_updates");
    reveal_strlit("disable_web_page_preview");
    reveal_strlit("clearedPendingNotifications");
}

/// The length of every name, and the characters in which it differs from the others that long.
pub proof fn names_differ()
    ensures
        "id"@.len() == 2 && "id"@[0] == 'i',
        "ok"@.len() == 2 && "ok"@[0] == 'o',
        "bot"@.len() == 3 && "bot"@[0] == 'b',
        "cwd"@.len() == 3 && "cwd"@[0] == 'c',
        "ids"@.len() == 3 && "ids"@[0] == 'i',
        "raw"@.len() == 3 && "raw"@[0] == 'r',
        "away"@.len() == 4 && "away"@[0] == 'a' && "away"@[2] == 'a',
        "chat"@.len() == 4 && "chat"@[0] == 'c' && "chat"@[2] == 'a',
        "code"@.len() == 4 && "code"@[0] == 'c' && "code"@[2] == 'd',
        "data"@.len() == 4 && "data"@[0] == 'd' && "data"@[2] == 't',
        "from"@.len() == 4 && "from"@[0] == 'f' && "from"@[2] == 'o',
        "item"@.len() == 4 && "item"@[0] == 'i' && "item"@[2] == 'e',
        "kind"@.len() == 4 && "kind"@[0] == 'k' && "kind"@[2] == 'n',
        "logs"@.len() == 4 && "logs"@[0] == 'l' && "logs"@[2] == 'g',
        "mode"@.len() == 4 && "mode"@[0] == 'm' && "mode"@[2] == 'd',
        "name"@.len() == 4 && "name"@[0] == 'n' && "name"@[2] == 'm',
        "seen"@.len() == 4 && "seen"@[0] == 's' && "seen"@[2] == 'e',
        "sent"@.len() == 4 && "sent"@[0] == 's' && "sent"@[2] == 'n',
        "text"@.len() == 4 && "text"@[0] == 't' && "text"@[2] == 'x',
        "turn"@.len() == 4 && "turn"@[0] == 't' && "turn"@[2] == 'r',
        "type"@.len() == 4 && "type"@[0] == 't' && "type"@[2] == 'p',
        "chats"@.len() == 5 && "chats"@[0] == 'c' && "chats"@[4] == 's',
        "codex"@.len() == 5 && "codex"@[0] == 'c' && "codex"@[4] == 'x',
        "count"@.len() == 5 && "count"@[0] == 'c' && "count"@[4] == 't',
        "error"@.len() == 5 && "error"@[0] == 'e' && "error"@[4] == 'r',
        "index"@.len() == 5 && "index"@[0] == 'i' && "index"@[4] == 'x',
        "input"@.len() == 5 && "input"@[0] == 'i' && "input"@[4] == 't',
        "label"@.len() == 5 && "label"@[0] == 'l' && "label"@[4] == 'l',
        "limit"@.len() == 5 && "limit"@[0] == 'l' && "limit"@[4] == 't',
        "lines"@.len() == 5 && "lines"@[0] == 'l' && "lines"@[4] == 's',
        "state"@.len() == 5 && "state"@[0] == 's' && "state"@[4] == 'e',
        "title"@.len() == 5 && "title"@[0] == 't' && "title"@[4] == 'e',
        "total"@.len() == 5 && "total"@[0] == 't' && "total"@[4] == 'l',
        "until"@.len() == 5 && "until"@[0] == 'u' && "until"@[4] == 'l',
        "action"@.len() == 6 && "action"@[0] == 'a' && "action"@[1] == 'c' && "action"@[5] == 'n',
        "active"@.len() == 6 && "active"@[0] == 'a' && "active"@[1] == 'c' && "active"@[5] == 'e',
        "chatId"@.len() == 6 && "chatId"@[0] == 'c' && "chatId"@[1] == 'h' && "chatId"@[5] == 'd',
        "chunks"@.len() == 6 && "chunks"@[0] == 'c' && "chunks"@[1] == 'h' && "chunks"@[5] == 's',
        "config"@.len() == 6 && "config"@[0] == 'c' && "config"@[1] == 'o' && "config"@[5] == 'g',
        "dryRun"@.len() == 6 && "dryRun"@[0] == 'd' && "dryRun"@[1] == 'r' && "dryRun"@[5] == 'n',
        "events"@.len() == 6 && "events"@[0] == 'e' && "events"@[1] == 'v' && "events"@[5] == 's',
        "failed"@.len() == 6 && "failed"@[0] == 'f' && "failed"@[1] == 'a' && "failed"@[5] == 'd',
        "header"@.len() == 6 && "header"@[0] == 'h' && "header"@[1] == 'e' && "header"@[5] == 'r',
        "is_bot"@.len() == 6 && "is_bot"@[0] == 'i' && "is_bot"@[1] == 's' && "is_bot"@[5] == 't',
        "itemId"@.len() == 6 && "itemId"@[0] == 'i' && "itemId"@[1] == 't' && "itemId"@[5] == 'd',
        "loaded"@.len() == 6 && "loaded"@[0] == 'l' && "loaded"@[1] == 'o' && "loaded"@[5] == 'd',
        "method"@.len() == 6 && "method"@[0] == 'm' && "method"@[1] == 'e' && "method"@[5] == 'd',
        "nextAt"@.len() == 6 && "nextAt"@[0] == 'n' && "nextAt"@[1] == 'e' && "nextAt"@[5] == 't',
        "offset"@.len() == 6 && "offset"@[0] == 'o' && "offset"@[1] == 'f' && "offset"@[5] == 't',
        "output"@.len() == 6 && "output"@[0] == 'o' && "output"@[1] == 'u' && "output"@[5] == 't',
        "params"@.len() == 6 && "params"@[0] == 'p' && "params"@[1] == 'a' && "params"@[5] == 's',
        "prompt"@.len() == 6 && "prompt"@[0] == 'p' && "prompt"@[1] == 'r' && "prompt"@[5] == 't',
        "result"@.len() == 6 && "result"@[0] == 'r' && "result"@[1] == 'e' && "result"@[5] == 't',
        "sentAt"@.len() == 6 && "sentAt"@[0] == 's' && "sentAt"@[1] == 'e' && "sentAt"@[5] == 't',
        "status"@.len() == 6 && "status"@[0] == 's' && "status"@[1] == 't' && "status"@[5] == 's',
        "stderr"@.len() == 6 && "stderr"@[0] == 's' && "stderr"@[1] == 't' && "stderr"@[5] == 'r',
        "stdout"@.len() == 6 && "stdout"@[0] == 's' && "stdout"@[1] == 't' && "stdout"@[5] == 't',
        "thread"@.len() == 6 && "thread"@[0] == 't' && "thread"@[1] == 'h' && "thread"@[5] == 'd',
        "turnId"@.len() == 6 && "turnId"@[0] == 't' && "turnId"@[1] == 'u' && "turnId"@[5] == 'd',
        "answers"@.len() == 7 && "answers"@[0] == 'a' && "answers"@[2] == 's',
        "backend"@.len() == 7 && "backend"@[0] == 'b' && "backend"@[2] == 'c',
        "chat_id"@.len() == 7 && "chat_id"@[0] == 'c' && "chat_id"@[2] == 'a',
        "command"@.len() == 7 && "command"@[0] == 'c' && "command"@[2] == 'm',
        "expired"@.len() == 7 && "expired"@[0] == 'e' && "expired"@[2] == 'p',
        "healthy"@.len() == 7 && "healthy"@[0] == 'h' && "healthy"@[2] == 'a',
        "ignored"@.len() == 7 && "ignored"@[0] == 'i' && "ignored"@[2] == 'n',
        "isOther"@.len() == 7 && "isOther"@[0] == 'i' && "isOther"@[2] == 'O',
        "message"@.len() == 7 && "message"@[0] == 'm' && "message"@[2] == 's',
        "options"@.len() == 7 && "options"@[0] == 'o' && "options"@[2] == 't',
        "pairing"@.len() == 7 && "pairing"@[0] == 'p' && "pairing"@[2] == 'i',
        "payload"@.len() == 7 && "payload"@[0] == 'p' && "payload"@[2] == 'y',
        "pending"@.len() == 7 && "pending"@[0] == 'p' && "pending"@[2] == 'n',
        "project"@.len() == 7 && "project"@[0] == 'p' && "project"@[2] == 'o',
        "removed"@.len() == 7 && "removed"@[0] == 'r' && "removed"@[2] == 'm',
        "replies"@.len() == 7 && "replies"@[0] == 'r' && "replies"@[2] == 'p',
        "resumed"@.len() == 7 && "resumed"@[0] == 'r' && "resumed"@[2] == 's',
        "running"@.len() == 7 && "running"@[0] == 'r' && "running"@[2] == 'n',
        "skipped"@.len() == 7 && "skipped"@[0] == 's' && "skipped"@[2] == 'i',
        "started"@.len() == 7 && "started"@[0] == 's' && "started"@[2] == 'a',
        "success"@.len() == 7 && "success"@[0] == 's' && "success"@[2] == 'c',
        "summary"@.len() == 7 && "summary"@[0] == 's' && "summary"@[2] == 'm',
        "threads"@.len() == 7 && "threads"@[0] == 't' && "threads"@[2] == 'r',
        "timeout"@.len() == 7 && "timeout"@[0] == 't' && "timeout"@[2] == 'm',
        "answered"@.len() == 8 && "answered"@[0] == 'a' && "answered"@[2] == 's',
        "botToken"@.len() == 8 && "botToken"@[0] == 'b' && "botToken"@[2] == 't',
        "commands"@.len() == 8 && "commands"@[0] == 'c' && "commands"@[2] == 'm',
        "contents"@.len() == 8 && "contents"@[0] == 'c' && "contents"@[2] == 'n',
        "decision"@.len() == 8 && "decision"@[0] == 'd' && "decision"@[2] == 'c',
        "delivery"@.len() == 8 && "delivery"@[0] == 'd' && "delivery"@[2] == 'l',
        "enqueued"@.len() == 8 && "enqueued"@[0] == 'e' && "enqueued"@[2] == 'q',
        "freeText"@.len() == 8 && "freeText"@[0] == 'f' && "freeText"@[2] == 'e',
        "isActive"@.len() == 8 && "isActive"@[0] == 'i' && "isActive"@[2] == 'A',
        "isSecret"@.len() == 8 && "isSecret"@[0] == 'i' && "isSecret"@[2] == 'S',
        "nextStep"@.len() == 8 && "nextStep"@[0] == 'n' && "nextStep"@[2] == 'x',
        "observed"@.len() == 8 && "observed"@[0] == 'o' && "observed"@[2] == 's',
        "promptId"@.len() == 8 && "promptId"@[0] == 'p' && "promptId"@[2] == 'o',
        "question"@.len() == 8 && "question"@[0] == 'q' && "question"@[2] == 'e',
        "required"@.len() == 8 && "required"@[0] == 'r' && "required"@[2] == 'q',
        "response"@.len() == 8 && "response"@[0] == 'r' && "response"@[2] == 's',
        "sentText"@.len() == 8 && "sentText"@[0] == 's' && "sentText"@[2] == 'n',
        "telegram"@.len() == 8 && "telegram"@[0] == 't' && "telegram"@[2] == 'l',
        "threadId"@.len() == 8 && "threadId"@[0] == 't' && "threadId"@[2] == 'r',
        "username"@.len() == 8 && "username"@[0] == 'u' && "username"@[2] == 'e',
        "callbacks"@.len() == 9 && "callbacks"@[0] == 'c' && "callbacks"@[6] == 'c',
        "duplicate"@.len() == 9 && "duplicate"@[0] == 'd' && "duplicate"@[6] == 'a',
        "messageId"@.len() == 9 && "messageId"@[0] == 'm' && "messageId"@[6] == 'e',
        "projectId"@.len() == 9 && "projectId"@[0] == 'p' && "projectId"@[6] == 't',
        "questions"@.len() == 9 && "questions"@[0] == 'q' && "questions"@[6] == 'o',
        "remaining"@.len() == 9 && "remaining"@[0] == 'r' && "remaining"@[6] == 'i',
        "requestId"@.len() == 9 && "requestId"@[0] == 'r' && "requestId"@[6] == 't',
        "timeoutMs"@.len() == 9 && "timeoutMs"@[0] == 't' && "timeoutMs"@[6] == 't',
        "transport"@.len() == 9 && "transport"@[0] == 't' && "transport"@[6] == 'o',
        "update_id"@.len() == 9 && "update_id"@[0] == 'u' && "update_id"@[6] == '_',
        "updatedAt"@.len() == 9 && "updatedAt"@[0] == 'u' && "updatedAt"@[6] == 'd',
        "configPath"@.len() == 10 && "configPath"@[0] == 'c' && "configPath"@[7] == 'a',
        "configured"@.len() == 10 && "configured"@[0] == 'c' && "configured"@[7] == 'r',
        "first_name"@.len() == 10 && "first_name"@[0] == 'f' && "first_name"@[7] == 'a',
        "messageIds"@.len() == 10 && "messageIds"@[0] == 'm' && "messageIds"@[7] == 'I',
        "message_id"@.len() == 10 && "message_id"@[0] == 'm' && "message_id"@[7] == '_',
        "observedAt"@.len() == 10 && "observedAt"@[0] == 'o' && "observedAt"@[7] == 'd',
        "promptKind"@.len() == 10 && "promptKind"@[0] == 'p' && "promptKind"@[7] == 'i',
        "questionId"@.len() == 10 && "questionId"@[0] == 'q' && "questionId"@[7] == 'n',
        "registered"@.len() == 10 && "registered"@[0] == 'r' && "registered"@[7] == 'r',
        "runCommand"@.len() == 10 && "runCommand"@[0] == 'r' && "runCommand"@[7] == 'a',
        "show_alert"@.len() == 10 && "show_alert"@[0] == 's' && "show_alert"@[7] == 'e',
        "statusType"@.len() == 10 && "statusType"@[0] == 's' && "statusType"@[7] == 'y',
        "approvalKey"@.len() == 11 && "approvalKey"@[0] == 'a' && "approvalKey"@[3] == 'r',
        "description"@.len() == 11 && "description"@[0] == 'd' && "description"@[3] == 'c',
        "displayName"@.len() == 11 && "displayName"@[0] == 'd' && "displayName"@[3] == 'p',
        "lastPreview"@.len() == 11 && "lastPreview"@[0] == 'l' && "lastPreview"@[3] == 't',
        "questionKey"@.len() == 11 && "questionKey"@[0] == 'q' && "questionKey"@[3] == 's',
        "servicePath"@.len() == 11 && "servicePath"@[0] == 's' && "servicePath"@[3] == 'v',
        "statusFlags"@.len() == 11 && "statusFlags"@[0] == 's' && "statusFlags"@[3] == 't',
        "stopCommand"@.len() == 11 && "stopCommand"@[0] == 's' && "stopCommand"@[3] == 'p',
        "tailCommand"@.len() == 11 && "tailCommand"@[0] == 't' && "tailCommand"@[3] == 'l',
        "appServerPid"@.len() == 12 && "appServerPid"@[9] == 'P',
        "configExists"@.len() == 12 && "configExists"@[9] == 's',
        "confirmation"@.len() == 12 && "confirmation"@[9] == 'i',
        "lastUpdateId"@.len() == 12 && "lastUpdateId"@[9] == 'e',
        "projectLabel"@.len() == 12 && "projectLabel"@[9] == 'b',
        "promptStatus"@.len() == 12 && "promptStatus"@[9] == 't',
        "reply_markup"@.len() == 12 && "reply_markup"@[9] == 'k',
        "startCommand"@.len() == 12 && "startCommand"@[9] == 'a',
        "allowedUserId"@.len() == 13 && "allowedUserId"@[0] == 'a' && "allowedUserId"@[7] == 'U',
        "awayStartedAt"@.len() == 13 && "awayStartedAt"@[0] == 'a' && "awayStartedAt"@[7] == 'r',
        "callback_data"@.len() == 13 && "callback_data"@[0] == 'c' && "callback_data"@[7] == 'k',
        "daemonCommand"@.len() == 13 && "daemonCommand"@[0] == 'd' && "daemonCommand"@[7] == 'o',
        "pendingPrompt"@.len() == 13 && "pendingPrompt"@[0] == 'p' && "pendingPrompt"@[7] == 'P',
        "serviceExists"@.len() == 13 && "serviceExists"@[0] == 's' && "serviceExists"@[7] == 'E',
        "serviceStatus"@.len() == 13 && "serviceStatus"@[0] == 's' && "serviceStatus"@[7] == 'S',
        "startedTurnId"@.len() == 13 && "startedTurnId"@[0] == 's' && "startedTurnId"@[7] == 'T',
        "statusCommand"@.len() == 13 && "statusCommand"@[0] == 's' && "statusCommand"@[7] == 'o',
        "callback_query"@.len() == 14 && "callback_query"@[0] == 'c',
        "edited_message"@.len() == 14 && "edited_message"@[0] == 'e',
        "installCommand"@.len() == 14 && "installCommand"@[0] == 'i',
        "lastTurnStatus"@.len() == 14 && "lastTurnStatus"@[0] == 'l',
        "allowed_updates"@.len() == 15 && "allowed_updates"@[1] == 'l',
        "approvalRequest"@.len() == 15 && "approvalRequest"@[1] == 'p',
        "inline_keyboard"@.len() == 15 && "inline_keyboard"@[1] == 'n',
        "questionRequest"@.len() == 15 && "questionRequest"@[1] == 'u',
        "telegramUpdates"@.len() == 15 && "telegramUpdates"@[1] == 'e',
        "reply_to_message"@.len() == 16 && "reply_to_message"@[0] == 'r',
        "telegramCommands"@.len() == 16 && "telegramCommands"@[0] == 't',
        "uninstallCommand"@.len() == 16 && "uninstallCommand"@[0] == 'u',
        "callback_query_id"@.len() == 17,
        "reply_to_message_id"@.len() == 19,
        "commandPromptReplies"@.len() == 20 && "commandPromptReplies"@[1] == 'o',
        "daemonInstallCommand"@.len() == 20 && "daemonInstallCommand"@[1] == 'a',
        "drop_pending_updates"@.len() == 20 && "drop_pending_updates"@[1] == 'r',
        "disable_web_page_preview"@.len() == 24,
        "clearedPendingNotifications"@.len() == 27,
{
    lemma_first_names();
    lemma_second_names();
    lemma_third_names();
    lemma_fourth_names();
    lemma_fifth_names();
    lemma_sixth_names();
    lemma_seventh_names();
    lemma_eighth_names();
}

} // verus!
