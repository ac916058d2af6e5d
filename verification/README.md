# konnect-ipc

A client of the KiCAD 10 IPC API. KiCAD answers protobuf commands over an NNG socket; this
project says which commands an operation sends, in which order, and what the answers amount to,
and proves it with [Verus](https://github.com/verus-lang/verus).

## How it works

The library under `src/` does no I/O. An operation is a function of the replies heard so far: it
either asks for one more thing to be done (`Step::Ask`) or is done (`Step::Done`). A caller leads
the conversation: it performs what was asked, adds the reply to the log, and asks the operation
again. The contract of an operation says, for every log, what it does next.

`app/` is such a caller. It holds the socket, the files, the environment, the clock and all
floating-point arithmetic. KiCAD's generated messages and the S-expression reader come in through
the trait `Bindings`.

## What is proved

- Each operation does exactly what its `*_turn` function says.
- Conversations can be replayed (`src/replay.rs`): a result stays, and each reply answers the
  request before it.
- Edits happen only inside a commit, and a commit is always ended (`src/laws/commits.rs`).
- Success means that the change was seen on the board (`src/laws/items.rs`,
  `src/laws/found.rs`).
- The board's file is written only with a checked splice, under the lock, and is restored after a
  failure (`src/laws/splices.rs`).
- Names and texts (`src/laws/names.rs`), sending (`src/laws/sending.rs`) and the self-test
  (`src/laws/probes.rs`).

A few functions of `prost` and of the standard library are trusted; they are in `src/wire.rs` and
`src/text.rs`, each with a comment that says what is taken for granted.

Lengths are whole nanometres inside the library. A float that only passes through is carried by
its bits.
