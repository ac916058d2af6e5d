//! The board's file, while clauses are put into it.
use vstd::prelude::*;
use vstd::string::*;

use crate::documents::{
    board_file_path_turn, revert_document_turn, save_board_to_string_turn, save_board_turn,
};
use crate::laws::placing::goes_by;
use crate::laws::reading::fails_at;
use crate::laws::texts::holds;
use crate::replay::{
    board_file_path_replays, save_board_to_string_replays, splice_and_reload_replays,
    splice_with_backup_replays, spliced_board_replays,
};
use crate::sexp::{head_of, is_board_head, splice_turn, spliced};
use crate::splice::{
    backup_in, save_splice_revert_turn, splice_and_reload_turn, splice_with_backup_turn,
    spliced_board_turn, write_board_turn,
};
use crate::talk::{Query, Reply, Turn};
use crate::text::{debug_quoted, last_index, trim_end};

verus! {

// ------------------------------------------------------------ the spliced text

/// The last position of `c` is one where `c` stands, and `c` stands nowhere after it; there is
/// one exactly if `c` stands anywhere.
pub proof fn last_index_is_last(s: Seq<char>, c: char)
    ensures
        match last_index(s, c) {
            Some(p) => 0 <= p < s.len() && s[p] == c && forall|i: int|
                p < i < s.len() ==> s[i] != c,
            None => forall|i: int| 0 <= i < s.len() ==> s[i] != c,
        },
    decreases s.len(),
{
    if s.len() > 0 && s.last() != c {
        let before = s.drop_last();
        last_index_is_last(before, c);
        assert forall|i: int| 0 <= i < before.len() implies s[i] == before[i] by {}
    }
}

/// Splicing keeps the contents, but for white space at the end: what was before the last
/// closing paren stays before the block, and that paren and what follows it stays after it. It
/// can be done exactly if there is a closing paren.
pub proof fn splicing_keeps_the_contents(contents: Seq<char>, block: Seq<char>)
    ensures
        match spliced(contents, block) {
            None => !trim_end(contents).contains(')'),
            Some(out) => exists|before: Seq<char>, after: Seq<char>|
                {
                    &&& before + after == trim_end(contents)
                    &&& after.len() > 0
                    &&& after[0] == ')'
                    &&& forall|i: int| 0 < i < after.len() ==> after[i] != ')'
                    &&& out == #[trigger] (before + "\n"@ + block + "\n"@ + after + "\n"@)
                },
        },
{
    let trimmed = trim_end(contents);
    last_index_is_last(trimmed, ')');
    if let Some(p) = last_index(trimmed, ')') {
        let before = trimmed.subrange(0, p);
        let after = trimmed.subrange(p, trimmed.len() as int);
        assert(before + after =~= trimmed);
        assert(after[0] == trimmed[p]);
        assert forall|i: int| 0 < i < after.len() implies after[i] != ')' by {
            assert(after[i] == trimmed[p + i]);
        }
    }
}

// ------------------------------------------------------------ what is written

/// `text` is some board contents with `block` spliced in, and both the contents and `text` were
/// found to be board files: the last two replies in `log` say so.
pub open spec fn is_checked_splice(text: Seq<char>, block: Seq<char>, log: Seq<Reply>) -> bool {
    &&& log.len() >= 2
    &&& exists|contents: Seq<char>| #[trigger] spliced(contents, block) == Some(text)
    &&& head_of(log[log.len() - 2]) matches Some(head) && is_board_head(head)
    &&& head_of(log[log.len() - 1]) matches Some(head) && is_board_head(head)
}

proof fn a_spliced_board_is_checked(path: Seq<char>, block: Seq<char>, log: Seq<Reply>, at: int)
    requires
        0 <= at <= log.len(),
    ensures
        match spliced_board_turn(path, block, log, at) {
            Turn::Done(Ok(text), n) => is_checked_splice(text, block, log.take(n)),
            Turn::Done(Err(_), _) => true,
            Turn::Ask(q) => !(q is WriteText) && !(q is WriteBytes),
        },
{
}

/// What `save_splice_revert` writes to the board's file as text is always a checked splice.
pub proof fn only_checked_splices_are_written(block: Seq<char>, log: Seq<Reply>, at: int)
    requires
        0 <= at <= log.len(),
    ensures
        save_splice_revert_turn(block, log, at) matches Turn::Ask(Query::WriteText { path, text })
            ==> {
            &&& is_checked_splice(text, block, log)
            &&& board_file_path_turn(log, at + 1) matches Turn::Done(Ok(p), _)
            &&& p == path
        },
{
    if at < log.len() {
        board_file_path_replays(log, log, at + 1);
        if let Turn::Done(Ok(path), n) = board_file_path_turn(log, at + 1) {
            if n < log.len() {
                a_spliced_board_is_checked(path, block, log, n + 1);
                spliced_board_replays(path, block, log, log, n + 1);
                if let Turn::Done(Ok(text), m) = spliced_board_turn(path, block, log, n + 1) {
                    assert(log.take(log.len() as int) =~= log);
                }
            }
        }
    }
}

// ------------------------------------------------------------ the lock

/// After as many replies as it has used, splicing with a backup is done.
proof fn a_splice_with_backup_is_settled(block: Seq<char>, log: Seq<Reply>, at: int)
    requires
        0 <= at <= log.len(),
    ensures
        splice_with_backup_turn(block, log, at) matches Turn::Done(_, n) ==> at <= n <= log.len()
            && splice_with_backup_turn(block, log.take(n), at) == splice_with_backup_turn(
            block,
            log,
            at,
        ),
{
    splice_with_backup_replays(block, log, log, at);
    if let Turn::Done(_, n) = splice_with_backup_turn(block, log, at) {
        splice_with_backup_replays(block, log.take(n), log, at);
    }
}

/// `save_splice_revert` takes the lock before anything else.
pub proof fn a_splice_takes_the_lock_first(block: Seq<char>, log: Seq<Reply>, at: int)
    requires
        0 <= at <= log.len(),
    ensures
        save_splice_revert_turn(block, log.take(at), at) == Turn::<()>::Ask(Query::Lock),
{
}

/// `save_splice_revert` releases the lock after everything else, whatever comes of it.
#[verifier::spinoff_prover]
#[verifier::rlimit(40)]
pub proof fn a_splice_releases_the_lock_last(block: Seq<char>, log: Seq<Reply>, at: int)
    requires
        0 <= at <= log.len(),
    ensures
        save_splice_revert_turn(block, log, at) matches Turn::Done(_, n) ==> n >= at + 2
            && save_splice_revert_turn(block, log.take(n - 1), at) == Turn::<()>::Ask(
            Query::Unlock,
        ),
{
    if at < log.len() {
        a_splice_with_backup_is_settled(block, log, at + 1);
    }
}

// ------------------------------------------------------------ failures

/// After as many replies as it has used, splicing and loading is done.
proof fn a_splice_and_reload_is_settled(
    path: Seq<char>,
    block: Seq<char>,
    log: Seq<Reply>,
    at: int,
)
    requires
        0 <= at <= log.len(),
    ensures
        splice_and_reload_turn(path, block, log, at) matches Turn::Done(_, n) ==> at <= n
            <= log.len() && splice_and_reload_turn(path, block, log.take(n), at)
            == splice_and_reload_turn(path, block, log, at),
{
    splice_and_reload_replays(path, block, log, log, at);
    if let Turn::Done(_, n) = splice_and_reload_turn(path, block, log, at) {
        splice_and_reload_replays(path, block, log.take(n), log, at);
    }
}

/// If `save_splice_revert` fails after it has read what the board's file held, the last thing it
/// asks for before the lock is released is to write that back, and the error is that of what
/// failed first. If it fails earlier, it has written nothing: it has not found out which file to
/// write.
#[verifier::spinoff_prover]
#[verifier::rlimit(40)]
pub proof fn a_failed_splice_is_undone(block: Seq<char>, log: Seq<Reply>, at: int)
    requires
        0 <= at <= log.len(),
        save_splice_revert_turn(block, log, at) matches Turn::Done(Err(_), _),
    ensures
        save_splice_revert_turn(block, log, at) matches Turn::Done(Err(e), n) && (
        match board_file_path_turn(log, at + 1) {
            Turn::Done(Ok(path), k) => {
                &&& k < n - 1
                &&& splice_and_reload_turn(path, block, log, k + 1) matches Turn::Done(Err(f), _)
                    && f == e
                &&& save_splice_revert_turn(block, log.take(k), at) == Turn::<()>::Ask(
                    Query::ReadBytes { path },
                )
                &&& backup_in(log[k]) matches Some(bytes) ==> save_splice_revert_turn(
                    block,
                    log.take(n - 2),
                    at,
                ) == Turn::<()>::Ask(Query::WriteBytes { path, bytes })
            },
            Turn::Done(Err(f), k) => e == f && k == n - 1,
            Turn::Ask(_) => false,
        }),
{
    board_file_path_replays(log, log, at + 1);
    if let Turn::Done(Ok(path), k) = board_file_path_turn(log, at + 1) {
        board_file_path_replays(log.take(k), log, at + 1);
        a_splice_and_reload_is_settled(path, block, log, k + 1);
        if let Turn::Done(Err(_), m) = splice_and_reload_turn(path, block, log, k + 1) {
            board_file_path_replays(log.take(m), log, at + 1);
        }
    }
}

/// If `save_splice_revert` succeeds, a checked splice was written to the board's file, and KiCAD
/// has loaded that file after it.
#[verifier::spinoff_prover]
#[verifier::rlimit(40)]
pub proof fn a_splice_that_succeeds_was_loaded(block: Seq<char>, log: Seq<Reply>, at: int)
    requires
        0 <= at <= log.len(),
        save_splice_revert_turn(block, log, at) matches Turn::Done(Ok(_), _),
    ensures
        save_splice_revert_turn(block, log, at) matches Turn::Done(Ok(_), n) && (
        board_file_path_turn(log, at + 1) matches Turn::Done(Ok(path), k) && (spliced_board_turn(
            path,
            block,
            log,
            k + 1,
        ) matches Turn::Done(Ok(text), m) && {
            &&& is_checked_splice(text, block, log.take(m))
            &&& save_splice_revert_turn(block, log.take(m), at) == Turn::<()>::Ask(
                Query::WriteText { path, text },
            )
            &&& !(log[m] is Failed)
            &&& revert_document_turn(log, m + 1) == Turn::Done(Ok::<(), Seq<char>>(()), n - 1)
        })),
{
    board_file_path_replays(log, log, at + 1);
    if let Turn::Done(Ok(path), k) = board_file_path_turn(log, at + 1) {
        a_spliced_board_is_checked(path, block, log, k + 1);
        spliced_board_replays(path, block, log, log, k + 1);
        if let Turn::Done(Ok(text), m) = spliced_board_turn(path, block, log, k + 1) {
            board_file_path_replays(log.take(m), log, at + 1);
            spliced_board_replays(path, block, log.take(m), log, k + 1);
        }
    }
}

// ------------------------------------------------------------ step by step

/// The reply at `n` says that the text is a board file: its head is `kicad_pcb`.
pub open spec fn is_board_text(log: Seq<Reply>, n: int) -> bool {
    &&& 0 <= n < log.len()
    &&& log[n] matches Reply::Head(head)
    &&& head matches Some(name)
    &&& name@ == "kicad_pcb"@
}

/// What is shown of a head: the name in quotes, inside `Some(..)`, or `None`.
pub open spec fn shown_in_error(head: Option<String>) -> Seq<char> {
    match head {
        Some(name) => "Some("@ + debug_quoted(name@) + ")"@,
        None => "None"@,
    }
}

/// `turn` asks at position `n` what the head of `text` is, and fails if that cannot be found out.
pub open spec fn wants_head<T>(turn: Turn<T>, text: Seq<char>, log: Seq<Reply>, n: int) -> bool {
    &&& log.len() <= n ==> turn == Turn::<T>::Ask(Query::ParseHead { text })
    &&& log.len() > n && !(log[n] is Head) ==> fails_at(turn, log, n)
}

/// A block is spliced into contents that are a board file, and the outcome is kept only if it is a
/// board file too.
pub proof fn splicing_checks_before_and_after(
    contents: Seq<char>,
    block: Seq<char>,
    log: Seq<Reply>,
    at: int,
)
    requires
        0 <= at <= log.len(),
    ensures
        ({
            let turn = splice_turn(contents, block, log, at);
            &&& wants_head(turn, contents, log, at)
            &&& log.len() > at && !is_board_text(log, at) ==> (log[at] matches Reply::Head(head)
                ==> turn == Turn::Done(
                Err::<Seq<char>, Seq<char>>(
                    "refusing to splice: board contents do not parse as a valid .kicad_pcb document (got head "@
                        + shown_in_error(head) + ") — likely a truncated or torn read"@,
                ),
                at + 1,
            ))
            &&& is_board_text(log, at) ==> match spliced(contents, block) {
                None => turn == Turn::Done(
                    Err::<Seq<char>, Seq<char>>("board contents have no closing paren"@),
                    at + 1,
                ),
                Some(out) => {
                    &&& wants_head(turn, out, log, at + 1)
                    &&& log.len() > at + 1 && !is_board_text(log, at + 1) ==> (log[at + 1] matches
                        Reply::Head(head) ==> turn == Turn::Done(
                        Err::<Seq<char>, Seq<char>>(
                            "refusing to write spliced board: result no longer parses as a valid .kicad_pcb document after splicing (got head "@
                                + shown_in_error(head) + ")"@,
                        ),
                        at + 2,
                    ))
                    &&& is_board_text(log, at + 1) ==> turn == Turn::Done(
                        Ok::<Seq<char>, Seq<char>>(out),
                        at + 2,
                    )
                },
            }
        }),
{
}

/// The contents to splice into are those that KiCAD hands over. If it hands over none, the board
/// is saved first, and its file is read.
pub proof fn the_contents_come_from_kicad_or_from_the_file(
    path: Seq<char>,
    block: Seq<char>,
    log: Seq<Reply>,
    at: int,
)
    requires
        0 <= at <= log.len(),
    ensures
        ({
            let turn = spliced_board_turn(path, block, log, at);
            match save_board_to_string_turn(log, at) {
                Turn::Ask(q) => turn == Turn::<Seq<char>>::Ask(q),
                Turn::Done(Ok(contents), n) => turn == splice_turn(contents, block, log, n),
                Turn::Done(Err(e), n) => if holds(e, "empty contents"@) {
                    &&& goes_by(turn, save_board_turn(log, n))
                    &&& save_board_turn(log, n) matches Turn::Done(Ok(_), m) ==> {
                        &&& log.len() <= m ==> turn == Turn::<Seq<char>>::Ask(
                            Query::ReadText { path },
                        )
                        &&& log.len() > m ==> match log[m] {
                            Reply::Text(contents) => turn == splice_turn(
                                contents@,
                                block,
                                log,
                                m + 1,
                            ),
                            _ => turn == Turn::Done(
                                Err::<Seq<char>, Seq<char>>("could not read board file "@ + path),
                                m + 1,
                            ),
                        }
                    }
                } else {
                    turn == Turn::Done(Err::<Seq<char>, Seq<char>>(e), n)
                },
            }
        }),
{
    if let Turn::Done(Err(e), n) = save_board_to_string_turn(log, at) {
        crate::laws::texts::a_text_is_contained_if_it_stands_there(e, "empty contents"@);
        save_board_to_string_replays(log, log, at);
        crate::replay::save_board_replays(log, log, n);
    }
}

/// The spliced board is written to its file, and then KiCAD is asked to load it.
pub proof fn a_spliced_board_is_written_and_loaded(
    path: Seq<char>,
    block: Seq<char>,
    log: Seq<Reply>,
    at: int,
)
    requires
        0 <= at <= log.len(),
    ensures
        ({
            let turn = splice_and_reload_turn(path, block, log, at);
            &&& goes_by(turn, spliced_board_turn(path, block, log, at))
            &&& spliced_board_turn(path, block, log, at) matches Turn::Done(Ok(text), n) ==> {
                &&& log.len() <= n ==> turn == Turn::<()>::Ask(Query::WriteText { path, text })
                &&& log.len() > n ==> if log[n] is Failed {
                    turn == Turn::Done(
                        Err::<(), Seq<char>>("could not write board file "@ + path),
                        n + 1,
                    )
                } else {
                    turn == revert_document_turn(log, n + 1)
                }
            }
        }),
{
    spliced_board_replays(path, block, log, log, at);
    if let Turn::Done(Ok(_), n) = spliced_board_turn(path, block, log, at) {
        if log.len() > n {
            assert(splice_and_reload_turn(path, block, log, at) == write_board_turn(
                path,
                spliced_board_turn(path, block, log, at)->Done_0->Ok_0,
                log,
                n,
            ).and_then(|written: (), n: int| revert_document_turn(log, n)));
        }
    }
}

/// `save_splice_revert` takes the lock, finds the board's file, keeps what it holds, splices and
/// loads, writes back what the file held if that failed, and releases the lock. The result is that
/// of splicing and loading.
#[verifier::spinoff_prover]
#[verifier::rlimit(40)]
pub proof fn a_splice_is_done_under_the_lock_with_a_backup(
    block: Seq<char>,
    log: Seq<Reply>,
    at: int,
)
    requires
        0 <= at <= log.len(),
    ensures
        ({
            let turn = save_splice_revert_turn(block, log, at);
            &&& log.len() == at ==> turn == Turn::<()>::Ask(Query::Lock)
            &&& log.len() > at ==> match board_file_path_turn(log, at + 1) {
                Turn::Ask(q) => turn == Turn::<()>::Ask(q),
                Turn::Done(Err(e), n) => if log.len() <= n {
                    turn == Turn::<()>::Ask(Query::Unlock)
                } else {
                    turn == Turn::Done(Err::<(), Seq<char>>(e), n + 1)
                },
                Turn::Done(Ok(path), n) => if log.len() <= n {
                    turn == Turn::<()>::Ask(Query::ReadBytes { path })
                } else {
                    match splice_and_reload_turn(path, block, log, n + 1) {
                        Turn::Ask(q) => turn == Turn::<()>::Ask(q),
                        Turn::Done(Ok(_), m) => if log.len() <= m {
                            turn == Turn::<()>::Ask(Query::Unlock)
                        } else {
                            turn == Turn::Done(Ok::<(), Seq<char>>(()), m + 1)
                        },
                        Turn::Done(Err(e), m) => match log[n] {
                            Reply::Bytes(held) => if log.len() <= m {
                                turn == Turn::<()>::Ask(Query::WriteBytes { path, bytes: held@ })
                            } else if log.len() == m + 1 {
                                turn == Turn::<()>::Ask(Query::Unlock)
                            } else {
                                turn == Turn::Done(Err::<(), Seq<char>>(e), m + 2)
                            },
                            _ => if log.len() <= m {
                                turn == Turn::<()>::Ask(Query::Unlock)
                            } else {
                                turn == Turn::Done(Err::<(), Seq<char>>(e), m + 1)
                            },
                        },
                    }
                },
            }
        }),
{
    if log.len() > at {
        board_file_path_replays(log, log, at + 1);
        if let Turn::Done(Ok(path), n) = board_file_path_turn(log, at + 1) {
            if log.len() > n {
                splice_and_reload_replays(path, block, log, log, n + 1);
            }
        }
    }
}

} // verus!
