//! The open documents, and the board among them.
use vstd::prelude::*;
use vstd::string::*;

use crate::client::KiCadIpcClient;
use crate::library::{join_path, join_turn};
use crate::talk::{
    error, exchange, hear, unreadable, unreadable_error, Command, CommandModel, DocumentSpecifier,
    DocumentType, IpcError, ItemHeader, Query, Reply, Request, Step, Turn,
};

verus! {

/// Sending a command whose answer holds nothing of interest.
pub open spec fn order_turn(command: CommandModel, log: Seq<Reply>, at: int) -> Turn<()> {
    exchange(Query::Send(command), log, at).and_then(
        |reply: Reply, n: int| Turn::Done(Ok(()), n),
    )
}

/// Sends a command whose answer holds nothing of interest.
pub fn order(command: Command, log: &Vec<Reply>, at: usize) -> (s: Step<()>)
    requires
        at <= log@.len(),
    ensures
        s.deep_view() == order_turn(command.deep_view(), log@, at as int),
        s.within(at as int, log@),
{
    match hear(Request::Send(command), log, at) {
        Step::Ask(q) => Step::Ask(q),
        Step::Done(Err(e), n) => Step::Done(Err(e), n),
        Step::Done(Ok(_), n) => Step::Done(Ok(()), n),
    }
}

/// Whether KiCAD answers. No answer is no failure.
pub open spec fn ping_turn(log: Seq<Reply>, at: int) -> Turn<bool> {
    match exchange(Query::Send(CommandModel::Ping), log, at) {
        Turn::Ask(q) => Turn::Ask(q),
        Turn::Done(r, n) => Turn::Done(Ok(r is Ok), n),
    }
}

/// The documents that a reply lists.
pub open spec fn documents_in(reply: Reply) -> Option<Seq<DocumentSpecifier>> {
    match reply {
        Reply::Documents(documents) => Some(documents@),
        Reply::Nothing => Some(seq![]),
        _ => None,
    }
}

/// The boards that are open.
pub open spec fn get_open_documents_turn(log: Seq<Reply>, at: int) -> Turn<Seq<DocumentSpecifier>> {
    exchange(
        Query::Send(CommandModel::GetOpenDocuments { document_type: DocumentType::DoctypePcb }),
        log,
        at,
    ).and_then(
        |reply: Reply, n: int|
            match documents_in(reply) {
                Some(documents) => Turn::Done(Ok(documents), n),
                None => Turn::Done(Err(unreadable()), n),
            },
    )
}

/// The first board that is open.
pub open spec fn get_board_document_turn(log: Seq<Reply>, at: int) -> Turn<DocumentSpecifier> {
    get_open_documents_turn(log, at).and_then(
        |documents: Seq<DocumentSpecifier>, n: int|
            if documents.len() == 0 {
                Turn::Done(
                    Err("No PCB document is open in KiCAD. Open a board file first."@),
                    n,
                )
            } else {
                Turn::Done(Ok(documents[0]), n)
            },
    )
}

/// All the fields of all the items of a document.
pub open spec fn whole_document(document: DocumentSpecifier) -> ItemHeader {
    ItemHeader { document, container: None, field_mask: None }
}

/// The first board that is open, as what a command on items applies to.
pub open spec fn make_header_turn(log: Seq<Reply>, at: int) -> Turn<ItemHeader> {
    get_board_document_turn(log, at).and_then(
        |document: DocumentSpecifier, n: int| Turn::Done(Ok(whole_document(document)), n),
    )
}

/// Having the board saved. KiCAD answers before the file is written.
pub open spec fn save_board_turn(log: Seq<Reply>, at: int) -> Turn<()> {
    get_board_document_turn(log, at).and_then(
        |document: DocumentSpecifier, n: int|
            order_turn(CommandModel::SaveDocument { document }, log, n),
    )
}

/// The saved contents that a reply holds.
pub open spec fn contents_in(reply: Reply) -> Option<Seq<char>> {
    match reply {
        Reply::Text(contents) => Some(contents@),
        Reply::Nothing => Some(seq![]),
        _ => None,
    }
}

/// The text for a KiCAD that does not hand contents over.
pub open spec fn empty_contents() -> Seq<char> {
    "SaveDocumentToString returned empty contents — likely unimplemented on this KiCAD version"@
}

/// The contents of the board, without a file. Empty contents are a failure.
pub open spec fn save_board_to_string_turn(log: Seq<Reply>, at: int) -> Turn<Seq<char>> {
    get_board_document_turn(log, at).and_then(
        |document: DocumentSpecifier, n: int|
            exchange(Query::Send(CommandModel::SaveDocumentToString { document }), log, n),
    ).and_then(
        |reply: Reply, n: int|
            match contents_in(reply) {
                None => Turn::Done(Err(unreadable()), n),
                Some(contents) => if contents.len() == 0 {
                    Turn::Done(Err(empty_contents()), n)
                } else {
                    Turn::Done(Ok(contents), n)
                },
            },
    )
}

/// Where the file of a document is: its name, in the directory of its project.
pub open spec fn document_path_turn(
    document: DocumentSpecifier,
    log: Seq<Reply>,
    at: int,
) -> Turn<Seq<char>> {
    match document.board_filename {
        None => Turn::Done(Err("open board document has no board_filename"@), at),
        Some(file) => match document.project_path {
            Some(dir) if dir@.len() > 0 => join_turn(dir@, file@, log, at),
            _ => Turn::Done(Err("open board document has no project path"@), at),
        },
    }
}

/// Where the file of the open board is.
pub open spec fn board_file_path_turn(log: Seq<Reply>, at: int) -> Turn<Seq<char>> {
    get_board_document_turn(log, at).and_then(
        |document: DocumentSpecifier, n: int| document_path_turn(document, log, n),
    )
}

/// The text for a board that is not the open one.
pub open spec fn other_board(requested: Seq<char>, open: Seq<char>) -> Seq<char> {
    "requested board '"@ + requested + "' is not the board KiCAD currently has open ('"@ + open
        + "'). KiCAD's IPC API drives a single open document -- this call would otherwise silently mutate the open board instead of the requested file. Open '"@
        + requested
        + "' in the KiCAD GUI (or restart the konnect container with only that project present under /work) before retrying."@
}

/// The board that is open must be the requested one.
pub open spec fn verify_board_turn(requested: Seq<char>, log: Seq<Reply>, at: int) -> Turn<()> {
    board_file_path_turn(log, at).and_then(
        |open: Seq<char>, n: int|
            exchange(Query::SameFile { requested, open }, log, n).and_then(
                |reply: Reply, n: int|
                    match reply {
                        Reply::Flag(true) => Turn::Done(Ok(()), n),
                        Reply::Flag(false) => Turn::Done(Err(other_board(requested, open)), n),
                        _ => Turn::Done(Err(unreadable()), n),
                    },
            ),
    )
}

/// Having the board loaded from its file again.
pub open spec fn revert_document_turn(log: Seq<Reply>, at: int) -> Turn<()> {
    get_board_document_turn(log, at).and_then(
        |document: DocumentSpecifier, n: int|
            order_turn(CommandModel::RevertDocument { document }, log, n),
    )
}

fn copy_documents(v: &Vec<DocumentSpecifier>) -> (r: Vec<DocumentSpecifier>)
    ensures
        r.deep_view() == v@,
{
    let mut r: Vec<DocumentSpecifier> = Vec::new();
    let mut i: usize = 0;
    while i < v.len()
        invariant
            i <= v@.len(),
            r@.len() == i,
            forall|j: int| 0 <= j < i ==> r@[j] == v@[j],
        decreases v@.len() - i,
    {
        r.push(v[i].clone());
        i = i + 1;
    }
    assert(r.deep_view() =~= v@);
    r
}

impl KiCadIpcClient {
    /// Whether KiCAD can be reached.
    pub fn ping(&self, log: &Vec<Reply>, at: usize) -> (s: Step<bool>)
        requires
            at <= log@.len(),
        ensures
            s.deep_view() == ping_turn(log@, at as int),
            s.within(at as int, log@),
    {
        match hear(Request::Send(Command::Ping), log, at) {
            Step::Ask(q) => Step::Ask(q),
            Step::Done(Ok(_), n) => Step::Done(Ok(true), n),
            Step::Done(Err(_), n) => Step::Done(Ok(false), n),
        }
    }

    /// The boards that are open.
    pub fn get_open_documents(
        &self,
        log: &Vec<Reply>,
        at: usize,
    ) -> (s: Step<Vec<DocumentSpecifier>>)
        requires
            at <= log@.len(),
        ensures
            s.deep_view() == get_open_documents_turn(log@, at as int),
            s.within(at as int, log@),
    {
        let command = Command::GetOpenDocuments { document_type: DocumentType::DoctypePcb };
        match hear(Request::Send(command), log, at) {
            Step::Ask(q) => Step::Ask(q),
            Step::Done(Err(e), n) => Step::Done(Err(e), n),
            Step::Done(Ok(Reply::Documents(documents)), n) => Step::Done(
                Ok(copy_documents(documents)),
                n,
            ),
            Step::Done(Ok(Reply::Nothing), n) => {
                let none: Vec<DocumentSpecifier> = Vec::new();
                assert(none.deep_view() =~= seq![]);
                Step::Done(Ok(none), n)
            },
            Step::Done(Ok(_), n) => Step::Done(Err(unreadable_error()), n),
        }
    }

    /// The first board that is open.
    pub fn get_board_document(&self, log: &Vec<Reply>, at: usize) -> (s: Step<DocumentSpecifier>)
        requires
            at <= log@.len(),
        ensures
            s.deep_view() == get_board_document_turn(log@, at as int),
            s.within(at as int, log@),
    {
        match self.get_open_documents(log, at) {
            Step::Ask(q) => Step::Ask(q),
            Step::Done(Err(e), n) => Step::Done(Err(e), n),
            Step::Done(Ok(documents), n) => {
                if documents.len() == 0 {
                    Step::Done(
                        Err(error("No PCB document is open in KiCAD. Open a board file first.")),
                        n,
                    )
                } else {
                    assert(documents.deep_view()[0] == documents@[0]);
                    Step::Done(Ok(documents[0].clone()), n)
                }
            },
        }
    }

    /// The first board that is open, as what a command on items applies to.
    pub fn make_header(&self, log: &Vec<Reply>, at: usize) -> (s: Step<ItemHeader>)
        requires
            at <= log@.len(),
        ensures
            s.deep_view() == make_header_turn(log@, at as int),
            s.within(at as int, log@),
    {
        match self.get_board_document(log, at) {
            Step::Ask(q) => Step::Ask(q),
            Step::Done(Err(e), n) => Step::Done(Err(e), n),
            Step::Done(Ok(document), n) => {
                let header = ItemHeader { document, container: None, field_mask: None };
                Step::Done(Ok(header), n)
            },
        }
    }

    /// Has the board saved. KiCAD answers before the file is written.
    pub fn save_board(&self, log: &Vec<Reply>, at: usize) -> (s: Step<()>)
        requires
            at <= log@.len(),
        ensures
            s.deep_view() == save_board_turn(log@, at as int),
            s.within(at as int, log@),
    {
        match self.get_board_document(log, at) {
            Step::Ask(q) => Step::Ask(q),
            Step::Done(Err(e), n) => Step::Done(Err(e), n),
            Step::Done(Ok(document), n) => order(Command::SaveDocument { document }, log, n),
        }
    }

    /// The contents of the board, without a file. Fails if they are empty, as they are where
    /// KiCAD does not know the command.
    pub fn save_board_to_string(&self, log: &Vec<Reply>, at: usize) -> (s: Step<String>)
        requires
            at <= log@.len(),
        ensures
            s.deep_view() == save_board_to_string_turn(log@, at as int),
            s.within(at as int, log@),
    {
        let (document, n) = match self.get_board_document(log, at) {
            Step::Done(Ok(document), n) => (document, n),
            Step::Done(Err(e), n) => {
                return Step::Done(Err(e), n);
            },
            Step::Ask(q) => {
                return Step::Ask(q);
            },
        };
        let (contents, n) = match hear(
            Request::Send(Command::SaveDocumentToString { document }),
            log,
            n,
        ) {
            Step::Ask(q) => {
                return Step::Ask(q);
            },
            Step::Done(Err(e), n) => {
                return Step::Done(Err(e), n);
            },
            Step::Done(Ok(Reply::Text(contents)), n) => (contents.clone(), n),
            Step::Done(Ok(Reply::Nothing), n) => (String::new(), n),
            Step::Done(Ok(_), n) => {
                return Step::Done(Err(unreadable_error()), n);
            },
        };
        if contents.as_str().is_empty() {
            Step::Done(
                Err(
                    error(
                        "SaveDocumentToString returned empty contents — likely unimplemented on this KiCAD version",
                    ),
                ),
                n,
            )
        } else {
            Step::Done(Ok(contents), n)
        }
    }

    /// Where the file of the open board is.
    pub fn board_file_path(&self, log: &Vec<Reply>, at: usize) -> (s: Step<String>)
        requires
            at <= log@.len(),
        ensures
            s.deep_view() == board_file_path_turn(log@, at as int),
            s.within(at as int, log@),
    {
        let (document, n) = match self.get_board_document(log, at) {
            Step::Done(Ok(document), n) => (document, n),
            Step::Done(Err(e), n) => {
                return Step::Done(Err(e), n);
            },
            Step::Ask(q) => {
                return Step::Ask(q);
            },
        };
        match (document.board_filename, document.project_path) {
            (None, _) => Step::Done(Err(error("open board document has no board_filename")), n),
            (Some(file), Some(dir)) => {
                if dir.as_str().is_empty() {
                    Step::Done(Err(error("open board document has no project path")), n)
                } else {
                    join_path(dir, file, log, n)
                }
            },
            (Some(_), None) => Step::Done(Err(error("open board document has no project path")), n),
        }
    }

    /// Makes sure that the board that is open is the one in the file `requested`. Every edit
    /// goes to the open board, whichever was meant.
    pub fn verify_board_matches(
        &self,
        requested: &str,
        log: &Vec<Reply>,
        at: usize,
    ) -> (s: Step<()>)
        requires
            at <= log@.len(),
        ensures
            s.deep_view() == verify_board_turn(requested@, log@, at as int),
            s.within(at as int, log@),
    {
        let (open, n) = match self.board_file_path(log, at) {
            Step::Done(Ok(open), n) => (open, n),
            Step::Done(Err(e), n) => {
                return Step::Done(Err(e), n);
            },
            Step::Ask(q) => {
                return Step::Ask(q);
            },
        };
        match hear(
            Request::SameFile { requested: requested.to_string(), open: open.clone() },
            log,
            n,
        ) {
            Step::Ask(q) => Step::Ask(q),
            Step::Done(Err(e), n) => Step::Done(Err(e), n),
            Step::Done(Ok(Reply::Flag(same)), n) => {
                if *same {
                    Step::Done(Ok(()), n)
                } else {
                    let mut text = "requested board '".to_string();
                    text.append(requested);
                    text.append("' is not the board KiCAD currently has open ('");
                    text.append(open.as_str());
                    text.append(
                        "'). KiCAD's IPC API drives a single open document -- this call would otherwise silently mutate the open board instead of the requested file. Open '",
                    );
                    text.append(requested);
                    text.append(
                        "' in the KiCAD GUI (or restart the konnect container with only that project present under /work) before retrying.",
                    );
                    Step::Done(Err(IpcError { text }), n)
                }
            },
            Step::Done(Ok(_), n) => Step::Done(Err(unreadable_error()), n),
        }
    }

    /// Has the board loaded from its file again; what was not saved is lost.
    pub fn revert_document(&self, log: &Vec<Reply>, at: usize) -> (s: Step<()>)
        requires
            at <= log@.len(),
        ensures
            s.deep_view() == revert_document_turn(log@, at as int),
            s.within(at as int, log@),
    {
        match self.get_board_document(log, at) {
            Step::Ask(q) => Step::Ask(q),
            Step::Done(Err(e), n) => Step::Done(Err(e), n),
            Step::Done(Ok(document), n) => order(Command::RevertDocument { document }, log, n),
        }
    }

    /// Has KiCAD perform one of its actions.
    pub fn run_action(&self, action: &str, log: &Vec<Reply>, at: usize) -> (s: Step<()>)
        requires
            at <= log@.len(),
        ensures
            s.deep_view() == order_turn(CommandModel::RunAction { name: action@ }, log@, at as int),
            s.within(at as int, log@),
            at == log@.len() ==> (s matches Step::Ask(Request::Send(Command::RunAction { name }))
                && name@ == action@),
    {
        order(Command::RunAction { name: action.to_string() }, log, at)
    }
}

} // verus!
