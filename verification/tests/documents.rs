//! Documents and commits.
use konnect_ipc::client::KiCadIpcClient;
use konnect_ipc::talk::{
    BoundingBoxMode, Command, CommitAction, DocumentSpecifier, DocumentType, IpcError, ItemHeader,
    Reply, Request, Step,
};
use konnect_ipc::types::Kiid;

/// Leads a conversation with the given replies. Gives what was asked, and the result.
fn talk<T>(
    op: impl Fn(&Vec<Reply>) -> Step<T>,
    replies: Vec<Reply>,
) -> (Vec<String>, Result<T, String>) {
    let mut asked = vec![];
    let mut log: Vec<Reply> = vec![];
    let mut replies = replies.into_iter();
    loop {
        match op(&log) {
            Step::Ask(request) => {
                asked.push(format!("{request:?}"));
                log.push(replies.next().unwrap_or_else(|| panic!("no reply to {asked:?}")));
            }
            Step::Done(result, n) => {
                assert_eq!(n, log.len());
                assert!(replies.next().is_none(), "a reply was left over");
                return (asked, result.map_err(|e| e.text));
            }
        }
    }
}

fn client() -> KiCadIpcClient {
    KiCadIpcClient::new("ipc:///s".to_string(), None, false, 1)
}

fn board() -> DocumentSpecifier {
    DocumentSpecifier {
        handle: 7,
        board_filename: Some("b.kicad_pcb".to_string()),
        project_path: Some("/p".to_string()),
    }
}

fn documents() -> Reply {
    Reply::Documents(vec![board()])
}

fn failed(text: &str) -> Reply {
    Reply::Failed(IpcError { text: text.to_string() })
}

const UNREADABLE: &str = "Failed to decode protobuf Any body";

#[test]
fn ping_says_whether_kicad_answers() {
    let c = client();
    let ping = |log: &Vec<Reply>| c.ping(log, 0);
    assert_eq!(talk(ping, vec![Reply::Nothing]), (vec!["Send(Ping)".to_string()], Ok(true)));
    assert_eq!(talk(ping, vec![failed("no")]).1, Ok(false));
}

#[test]
fn open_documents_are_listed() {
    let c = client();
    let op = |log: &Vec<Reply>| c.get_open_documents(log, 0);
    let (asked, result) = talk(op, vec![documents()]);
    assert_eq!(asked, vec!["Send(GetOpenDocuments { document_type: DoctypePcb })"]);
    assert_eq!(result.unwrap()[0].handle, 7);
    assert_eq!(talk(op, vec![Reply::Nothing]).1.unwrap().len(), 0);
    assert_eq!(talk(op, vec![failed("x")]).1.unwrap_err(), "x");
    assert_eq!(talk(op, vec![Reply::Unreadable]).1.unwrap_err(), UNREADABLE);
}

#[test]
fn the_first_document_is_the_board() {
    let c = client();
    let op = |log: &Vec<Reply>| c.get_board_document(log, 0);
    let other = DocumentSpecifier { handle: 8, board_filename: None, project_path: None };
    let (_, result) = talk(op, vec![Reply::Documents(vec![board(), other])]);
    assert_eq!(result.unwrap().handle, 7);
    assert_eq!(
        talk(op, vec![Reply::Documents(vec![])]).1.unwrap_err(),
        "No PCB document is open in KiCAD. Open a board file first."
    );
}

#[test]
fn the_header_names_the_board() {
    let c = client();
    let (_, result) = talk(|log: &Vec<Reply>| c.make_header(log, 0), vec![documents()]);
    assert_eq!(result.unwrap().document.handle, 7);
}

#[test]
fn saving_and_reverting_are_acknowledged() {
    let c = client();
    let (asked, result) = talk(
        |log: &Vec<Reply>| c.save_board(log, 0),
        vec![documents(), Reply::Nothing],
    );
    assert_eq!(result, Ok(()));
    assert!(asked[1].starts_with("Send(SaveDocument { document: DocumentSpecifier { handle: 7"));
    let (asked, result) = talk(
        |log: &Vec<Reply>| c.revert_document(log, 0),
        vec![documents(), failed("no")],
    );
    assert_eq!(result, Err("no".to_string()));
    assert!(asked[1].starts_with("Send(RevertDocument { document"));
}

#[test]
fn contents_come_without_a_file() {
    let c = client();
    let op = |log: &Vec<Reply>| c.save_board_to_string(log, 0);
    let (asked, result) = talk(op, vec![documents(), Reply::Text("(kicad_pcb)".to_string())]);
    assert!(asked[1].starts_with("Send(SaveDocumentToString { document"));
    assert_eq!(result, Ok("(kicad_pcb)".to_string()));
    let empty = "SaveDocumentToString returned empty contents — likely unimplemented on this \
                 KiCAD version";
    assert_eq!(talk(op, vec![documents(), Reply::Nothing]).1, Err(empty.to_string()));
    assert_eq!(talk(op, vec![documents(), Reply::Text(String::new())]).1, Err(empty.to_string()));
    assert_eq!(talk(op, vec![documents(), Reply::Unreadable]).1, Err(UNREADABLE.to_string()));
}

#[test]
fn the_board_file_is_in_the_project() {
    let c = client();
    let op = |log: &Vec<Reply>| c.board_file_path(log, 0);
    let (asked, result) = talk(op, vec![documents(), Reply::Text("/p/b.kicad_pcb".to_string())]);
    assert_eq!(asked[1], "JoinPath { dir: \"/p\", file: \"b.kicad_pcb\" }");
    assert_eq!(result, Ok("/p/b.kicad_pcb".to_string()));
    let mut unnamed = board();
    unnamed.board_filename = None;
    assert_eq!(
        talk(op, vec![Reply::Documents(vec![unnamed])]).1.unwrap_err(),
        "open board document has no board_filename"
    );
    let mut homeless = board();
    homeless.project_path = None;
    let mut empty = board();
    empty.project_path = Some(String::new());
    for document in [homeless, empty] {
        assert_eq!(
            talk(op, vec![Reply::Documents(vec![document])]).1.unwrap_err(),
            "open board document has no project path"
        );
    }
}

#[test]
fn the_open_board_must_be_the_requested_one() {
    let c = client();
    let op = |log: &Vec<Reply>| c.verify_board_matches("/q/b.kicad_pcb", log, 0);
    let path = || Reply::Text("/p/b.kicad_pcb".to_string());
    let (asked, result) = talk(op, vec![documents(), path(), Reply::Flag(true)]);
    assert_eq!(asked[2], "SameFile { requested: \"/q/b.kicad_pcb\", open: \"/p/b.kicad_pcb\" }");
    assert_eq!(result, Ok(()));
    assert_eq!(
        talk(op, vec![documents(), path(), Reply::Flag(false)]).1.unwrap_err(),
        "requested board '/q/b.kicad_pcb' is not the board KiCAD currently has open \
         ('/p/b.kicad_pcb'). KiCAD's IPC API drives a single open document -- this call would \
         otherwise silently mutate the open board instead of the requested file. Open \
         '/q/b.kicad_pcb' in the KiCAD GUI (or restart the konnect container with only that \
         project present under /work) before retrying."
    );
}

#[test]
fn actions_are_run_by_name() {
    let c = client();
    let (asked, result) = talk(
        |log: &Vec<Reply>| c.run_action("pcbnew.Refresh", log, 0),
        vec![Reply::Nothing],
    );
    assert_eq!(asked, vec!["Send(RunAction { name: \"pcbnew.Refresh\" })"]);
    assert_eq!(result, Ok(()));
}

fn commit() -> Reply {
    Reply::Commit { id: Some(Kiid { value: "c1".to_string() }) }
}

#[test]
fn a_commit_has_an_identifier_or_none() {
    let c = client();
    let op = |log: &Vec<Reply>| c.begin_commit(log, 0);
    assert_eq!(talk(op, vec![commit()]).1, Ok("c1".to_string()));
    assert_eq!(talk(op, vec![Reply::Commit { id: None }]).1, Ok(String::new()));
    assert_eq!(talk(op, vec![Reply::Nothing]).1, Ok(String::new()));
    assert_eq!(talk(op, vec![Reply::Unreadable]).1, Err(UNREADABLE.to_string()));
}

#[test]
fn commits_are_ended_either_way() {
    let c = client();
    let (asked, _) = talk(
        |log: &Vec<Reply>| c.push_commit("c1", "why", log, 0),
        vec![Reply::Nothing],
    );
    assert_eq!(
        asked[0],
        "Send(EndCommit { id: \"c1\", action: CmaCommit, message: \"why\" })"
    );
    let (asked, _) = talk(|log: &Vec<Reply>| c.drop_commit("c1", log, 0), vec![Reply::Nothing]);
    assert_eq!(asked[0], "Send(EndCommit { id: \"c1\", action: CmaDrop, message: \"\" })");
    let (asked, _) = talk(
        |log: &Vec<Reply>| c.end_commit("c2", CommitAction::CmaDrop, "m", log, 0),
        vec![Reply::Nothing],
    );
    assert_eq!(asked[0], "Send(EndCommit { id: \"c2\", action: CmaDrop, message: \"m\" })");
    let (asked, _) = talk(
        |log: &Vec<Reply>| c.end_commit("c2", CommitAction::Other(0), "m", log, 0),
        vec![Reply::Nothing],
    );
    assert_eq!(asked[0], "Send(EndCommit { id: \"c2\", action: Other(0), message: \"m\" })");
}

/// Sends an edit, and gives what kind of reply came back.
fn edit(replies: Vec<Reply>) -> (Vec<String>, Result<String, String>) {
    let c = client();
    talk(
        |log: &Vec<Reply>| {
            let command = Command::RefillZones { board: board(), zones: vec![] };
            match c.send_mutating_command(command, "Refill", log, 0) {
                Step::Ask(q) => Step::Ask(q),
                Step::Done(r, n) => Step::Done(r.map(|reply| format!("{reply:?}")), n),
            }
        },
        replies,
    )
}

#[test]
fn an_edit_stands_in_a_commit() {
    let (asked, result) = edit(vec![commit(), Reply::Flag(true), Reply::Nothing]);
    assert_eq!(asked.len(), 3);
    assert_eq!(asked[0], "Send(BeginCommit)");
    assert!(asked[1].starts_with("Send(RefillZones"));
    assert_eq!(
        asked[2],
        "Send(EndCommit { id: \"c1\", action: CmaCommit, message: \"Refill\" })"
    );
    assert_eq!(result, Ok("Flag(true)".to_string()));
}

#[test]
fn a_refused_edit_is_rolled_back() {
    for last in [Reply::Nothing, failed("drop failed")] {
        let (asked, result) = edit(vec![commit(), failed("refused"), last]);
        assert_eq!(asked[2], "Send(EndCommit { id: \"c1\", action: CmaDrop, message: \"\" })");
        assert_eq!(result, Err("refused".to_string()));
    }
}

#[test]
fn a_commit_that_cannot_be_kept_is_rolled_back() {
    let (asked, result) = edit(vec![commit(), Reply::Nothing, failed("push"), Reply::Nothing]);
    assert_eq!(asked.len(), 4);
    assert_eq!(asked[3], "Send(EndCommit { id: \"c1\", action: CmaDrop, message: \"\" })");
    assert_eq!(result, Err("push".to_string()));
}

#[test]
fn without_a_commit_there_is_no_edit() {
    let (asked, result) = edit(vec![failed("busy")]);
    assert_eq!(asked.len(), 1);
    assert_eq!(result, Err("busy".to_string()));
}

#[test]
fn a_header_stands_for_the_whole_board() {
    let c = client();
    let (_, result) = talk(|log: &Vec<Reply>| c.make_header(log, 0), vec![documents()]);
    let header = result.unwrap();
    assert_eq!(header.document.handle, 7);
    assert!(header.container.is_none());
    assert!(header.field_mask.is_none());
}

#[test]
fn commands_know_their_message_types() {
    let header = || ItemHeader { document: board(), container: None, field_mask: None };
    assert_eq!(Command::Ping.message_type(), "kiapi.common.commands.Ping");
    assert_eq!(
        Command::RefillZones { board: board(), zones: vec![] }.message_type(),
        "kiapi.board.commands.RefillZones"
    );
    assert_eq!(
        Command::GetBoundingBox {
            header: header(),
            item_ids: vec![],
            mode: BoundingBoxMode::BbmItemOnly,
        }
        .message_type(),
        "kiapi.common.commands.GetBoundingBox"
    );
    assert_eq!(
        Command::GetItemsById { header: header(), ids: vec![] }.message_type(),
        "kiapi.common.commands.GetItemsById"
    );
}

#[test]
fn an_operation_that_is_done_stays_done() {
    let c = client();
    let mut log = vec![documents(), Reply::Nothing];
    assert!(matches!(c.save_board(&log, 0), Step::Done(Ok(()), 2)));
    log.push(failed("later"));
    assert!(matches!(c.save_board(&log, 0), Step::Done(Ok(()), 2)));
    assert!(matches!(
        c.save_board(&log, 3),
        Step::Ask(Request::Send(Command::GetOpenDocuments {
            document_type: DocumentType::DoctypePcb
        }))
    ));
}
