//! Putting clauses into the board by way of its file.
//!
//! KiCAD has no working command that creates items from text. So the board is saved, the clause
//! is spliced into what was saved, the result is written to the board's file, and KiCAD is told
//! to load that file again. The whole is done under a lock. If any of it fails, the file gets
//! back the bytes that it held before.
use vstd::prelude::*;
use vstd::string::*;

use crate::client::KiCadIpcClient;
use crate::documents::{
    board_file_path_turn, revert_document_turn, save_board_to_string_turn, save_board_turn,
};
use crate::library::{read_text, read_text_turn};
use crate::sexp::{splice_sexp_into_string, splice_turn};
use crate::talk::{exchange, hear, IpcError, Query, Reply, Request, Step, Turn};
use crate::text::{contains, copy_bytes, text_contains};

verus! {

/// The contents of the board with `block` spliced in. KiCAD is asked for the contents; where it
/// does not hand them over, it is told to save the board, and they are read from the file
/// `path`.
pub open spec fn spliced_board_turn(
    path: Seq<char>,
    block: Seq<char>,
    log: Seq<Reply>,
    at: int,
) -> Turn<Seq<char>> {
    match save_board_to_string_turn(log, at) {
        Turn::Ask(q) => Turn::Ask(q),
        Turn::Done(Ok(contents), n) => splice_turn(contents, block, log, n),
        Turn::Done(Err(e), n) => if contains(e, "empty contents"@) {
            save_board_turn(log, n).and_then(
                |saved: (), n: int| read_text_turn(path, "could not read board file "@, log, n),
            ).and_then(|contents: Seq<char>, n: int| splice_turn(contents, block, log, n))
        } else {
            Turn::Done(Err(e), n)
        },
    }
}

/// Writing `text` to the file `path`.
pub open spec fn write_board_turn(
    path: Seq<char>,
    text: Seq<char>,
    log: Seq<Reply>,
    at: int,
) -> Turn<()> {
    match exchange(Query::WriteText { path, text }, log, at) {
        Turn::Ask(q) => Turn::Ask(q),
        Turn::Done(Ok(_), n) => Turn::Done(Ok(()), n),
        Turn::Done(Err(_), n) => Turn::Done(Err("could not write board file "@ + path), n),
    }
}

/// Splicing `block` into the board, writing the file `path`, and having it loaded.
pub open spec fn splice_and_reload_turn(
    path: Seq<char>,
    block: Seq<char>,
    log: Seq<Reply>,
    at: int,
) -> Turn<()> {
    spliced_board_turn(path, block, log, at).and_then(
        |text: Seq<char>, n: int| write_board_turn(path, text, log, n),
    ).and_then(|written: (), n: int| revert_document_turn(log, n))
}

/// The bytes that a reply holds, if the file could be read.
pub open spec fn backup_in(reply: Reply) -> Option<Seq<u8>> {
    match reply {
        Reply::Bytes(bytes) => Some(bytes@),
        _ => None,
    }
}

/// After a failure, writing back to the file `path` what it held before. Whether that works
/// makes no difference.
pub open spec fn restore_turn(
    path: Seq<char>,
    backup: Option<Seq<u8>>,
    result: Result<(), Seq<char>>,
    log: Seq<Reply>,
    at: int,
) -> Turn<()> {
    match (result, backup) {
        (Err(_), Some(bytes)) => if 0 <= at < log.len() {
            Turn::Done(result, at + 1)
        } else {
            Turn::Ask(Query::WriteBytes { path, bytes })
        },
        _ => Turn::Done(result, at),
    }
}

/// Splicing `block` into the board whose file is `path`, where `backup` is what the file holds
/// before.
pub open spec fn splice_or_restore_turn(
    path: Seq<char>,
    backup: Option<Seq<u8>>,
    block: Seq<char>,
    log: Seq<Reply>,
    at: int,
) -> Turn<()> {
    match splice_and_reload_turn(path, block, log, at) {
        Turn::Ask(q) => Turn::Ask(q),
        Turn::Done(result, n) => restore_turn(path, backup, result, log, n),
    }
}

/// Splicing `block` into the open board, with what its file held before at hand.
pub open spec fn splice_with_backup_turn(block: Seq<char>, log: Seq<Reply>, at: int) -> Turn<()> {
    match board_file_path_turn(log, at) {
        Turn::Ask(q) => Turn::Ask(q),
        Turn::Done(Err(e), n) => Turn::Done(Err(e), n),
        Turn::Done(Ok(path), n) => if 0 <= n < log.len() {
            splice_or_restore_turn(path, backup_in(log[n]), block, log, n + 1)
        } else {
            Turn::Ask(Query::ReadBytes { path })
        },
    }
}

/// Splicing `block` into the open board, under the lock.
pub open spec fn save_splice_revert_turn(block: Seq<char>, log: Seq<Reply>, at: int) -> Turn<()> {
    if !(0 <= at < log.len()) {
        Turn::Ask(Query::Lock)
    } else {
        match splice_with_backup_turn(block, log, at + 1) {
            Turn::Ask(q) => Turn::Ask(q),
            Turn::Done(result, n) => if 0 <= n < log.len() {
                Turn::Done(result, n + 1)
            } else {
                Turn::Ask(Query::Unlock)
            },
        }
    }
}

impl KiCadIpcClient {
    fn spliced_board(
        &self,
        path: &str,
        block: &str,
        log: &Vec<Reply>,
        at: usize,
    ) -> (s: Step<String>)
        requires
            at <= log@.len(),
        ensures
            s.deep_view() == spliced_board_turn(path@, block@, log@, at as int),
            s.within(at as int, log@),
    {
        match self.save_board_to_string(log, at) {
            Step::Ask(q) => Step::Ask(q),
            Step::Done(Ok(contents), n) => splice_sexp_into_string(
                contents.as_str(),
                block,
                log,
                n,
            ),
            Step::Done(Err(e), n) => {
                if !text_contains(e.text.as_str(), "empty contents") {
                    return Step::Done(Err(e), n);
                }
                let n: usize = match self.save_board(log, n) {
                    Step::Done(Ok(_), n) => n,
                    Step::Done(Err(e), n) => {
                        return Step::Done(Err(e), n);
                    },
                    Step::Ask(q) => {
                        return Step::Ask(q);
                    },
                };
                match read_text(path, "could not read board file ", log, n) {
                    Step::Ask(q) => Step::Ask(q),
                    Step::Done(Err(e), n) => Step::Done(Err(e), n),
                    Step::Done(Ok(contents), n) => splice_sexp_into_string(
                        contents.as_str(),
                        block,
                        log,
                        n,
                    ),
                }
            },
        }
    }

    fn splice_and_reload(
        &self,
        path: &str,
        block: &str,
        log: &Vec<Reply>,
        at: usize,
    ) -> (s: Step<()>)
        requires
            at <= log@.len(),
        ensures
            s.deep_view() == splice_and_reload_turn(path@, block@, log@, at as int),
            s.within(at as int, log@),
    {
        let (text, n) = match self.spliced_board(path, block, log, at) {
            Step::Done(Ok(text), n) => (text, n),
            Step::Done(Err(e), n) => {
                return Step::Done(Err(e), n);
            },
            Step::Ask(q) => {
                return Step::Ask(q);
            },
        };
        match hear(Request::WriteText { path: path.to_string(), text }, log, n) {
            Step::Ask(q) => Step::Ask(q),
            Step::Done(Ok(_), n) => self.revert_document(log, n),
            Step::Done(Err(_), n) => {
                let mut text = "could not write board file ".to_string();
                text.append(path);
                Step::Done(Err(IpcError { text }), n)
            },
        }
    }

    fn splice_with_backup(&self, block: &str, log: &Vec<Reply>, at: usize) -> (s: Step<()>)
        requires
            at <= log@.len(),
        ensures
            s.deep_view() == splice_with_backup_turn(block@, log@, at as int),
            s.within(at as int, log@),
    {
        let (path, n) = match self.board_file_path(log, at) {
            Step::Done(Ok(path), n) => (path, n),
            Step::Done(Err(e), n) => {
                return Step::Done(Err(e), n);
            },
            Step::Ask(q) => {
                return Step::Ask(q);
            },
        };
        if n >= log.len() {
            return Step::Ask(Request::ReadBytes { path });
        }
        match self.splice_and_reload(path.as_str(), block, log, n + 1) {
            Step::Ask(q) => Step::Ask(q),
            Step::Done(Ok(_), m) => Step::Done(Ok(()), m),
            Step::Done(Err(e), m) => {
                if let Reply::Bytes(bytes) = &log[n] {
                    if m >= log.len() {
                        return Step::Ask(Request::WriteBytes { path, bytes: copy_bytes(bytes) });
                    }
                    return Step::Done(Err(e), m + 1);
                }
                Step::Done(Err(e), m)
            },
        }
    }

    /// Puts the clause `sexp_block` into the open board, by way of its file. After a failure the
    /// file holds what it held before, if it can be written.
    pub fn save_splice_revert(&self, sexp_block: &str, log: &Vec<Reply>, at: usize) -> (s: Step<()>)
        requires
            at <= log@.len(),
        ensures
            s.deep_view() == save_splice_revert_turn(sexp_block@, log@, at as int),
            s.within(at as int, log@),
    {
        if at >= log.len() {
            return Step::Ask(Request::Lock);
        }
        match self.splice_with_backup(sexp_block, log, at + 1) {
            Step::Ask(q) => Step::Ask(q),
            Step::Done(result, n) => {
                if n >= log.len() {
                    return Step::Ask(Request::Unlock);
                }
                Step::Done(result, n + 1)
            },
        }
    }
}

} // verus!
