# Codex Telegram bridge

Remote control of Codex threads from a Telegram chat: notifications while the user is away, replies
that continue threads, buttons for approvals and questions, and a background service that keeps it
running.

The library under `src/` holds the rules, and Verus proves its contracts: how messages are rendered
and split, how updates are read, authorized and routed, how answers to questions are held and sent,
how secret answers are deleted, how far a batch of updates is acknowledged, which events of a cycle are
kept, and how the service is described on launchd and systemd. It does no input or output.
Where outside work comes in between, the library gives the next step as a value, and a function takes
what came of it.

The crate under `app/` performs that work: calls of Telegram, the store, the lock, the service
manager and the loop of the daemon. `tests/` runs the library on concrete values.

Contracts rest on two trusted facts: what `String::push` does, and that SHA-256 gives 32 bytes that
depend on the input alone.
