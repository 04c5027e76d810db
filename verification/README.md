# Wurzburg persistence

The Oracle persistence layer of the Wurzburg card platform, written in Rust and verified with
Verus. It holds the commands, queries and background jobs on providers, card ranges, cards,
policies, fees, credit and events: which statements each of them runs, with which values, in
which order, and what it decides from what comes back.

## How it works

No verified function reaches a database. Each operation is a *script*: a function of its
arguments and of the replies received so far that returns its result, an error, or the next call
to make. `app/` runs scripts against a connection inside a transaction. It makes the call, appends
the reply and runs the script again until there is a result.

A call is either a statement with its bind values or a question: a fresh identifier, the time, or
a rule or serialization that belongs to the surrounding application (`consult::Rule`).

The contract of a script states its result and every call it makes, for every transcript. What
holds of several scripts, or of a script over time, stands beside them as public proof functions:
that a completed command is replayed and does nothing more, that a refused change writes nothing,
that a change leaves its audit entry and its outbox event, that ledger entries balance, that pages
neither lose nor repeat a row.

## Layout

- `src/text.rs`, `src/uuid.rs`, `src/time.rs`, `src/digest.rs`, `src/json.rs`: texts, identifiers,
  points in time, digests and JSON. The calls into `uuid`, `chrono`, `sha2` and `serde_json` are
  here.
- `src/domain/`: the records, commands and outcomes.
- `src/db/`: errors, account records, and under `oracle/` one module for each area of the schema,
  on top of `script` (calls, replies, transcripts), `consult` (questions), `answers` (the questions
  that this library answers itself), `document` (the JSON documents that are stored) and `binds` /
  `values` (bind values and rows).
- `tests/`: the statements, and scripts run on written transcripts.
- `app/`: the connection pool, transactions, the async repository, and the types with `serde`
  and `utoipa` derives.
