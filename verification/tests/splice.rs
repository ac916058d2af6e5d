//! The board's file, while clauses are put into it.
use konnect_ipc::client::KiCadIpcClient;
use konnect_ipc::talk::{DocumentSpecifier, IpcError, Reply, Step};

/// Leads a conversation with the given replies. Gives what was asked, and the result.
fn talk<T>(
    op: impl Fn(&Vec<Reply>) -> Step<T>,
    replies: Vec<Reply>,
) -> (Vec<String>, Result<T, String>) {
    let mut asked = vec![];
    let mut log: Vec<Reply> = vec![];
    let mut replies = replies.into_iter();
    loop {
        match op(&log) {
            Step::Ask(request) => {
                asked.push(format!("{request:?}"));
                log.push(replies.next().unwrap_or_else(|| panic!("no reply to {asked:?}")));
            }
            Step::Done(result, n) => {
                assert_eq!(n, log.len());
                assert!(replies.next().is_none(), "a reply was left over");
                return (asked, result.map_err(|e| e.text));
            }
        }
    }
}

fn client() -> KiCadIpcClient {
    KiCadIpcClient::new("ipc:///s".to_string(), None, false, 1)
}

fn board() -> DocumentSpecifier {
    DocumentSpecifier {
        handle: 7,
        board_filename: Some("b.kicad_pcb".to_string()),
        project_path: Some("/p".to_string()),
    }
}

fn documents() -> Reply {
    Reply::Documents(vec![board()])
}

fn failed(text: &str) -> Reply {
    Reply::Failed(IpcError { text: text.to_string() })
}

/// The replies to a splice that works, from the lock to its release.
fn good_splice() -> Vec<Reply> {
    let head = || Reply::Head(Some("kicad_pcb".to_string()));
    vec![
        Reply::Nothing,
        documents(),
        Reply::Text("/p/b.kicad_pcb".to_string()),
        Reply::Bytes(vec![1, 2]),
        documents(),
        Reply::Text("(kicad_pcb)".to_string()),
        head(),
        head(),
        Reply::Nothing,
        documents(),
        Reply::Nothing,
        Reply::Nothing,
    ]
}

fn splice(replies: Vec<Reply>) -> (Vec<String>, Result<(), String>) {
    let c = client();
    talk(|log: &Vec<Reply>| c.save_splice_revert("(via)", log, 0), replies)
}

fn head() -> Reply {
    Reply::Head(Some("kicad_pcb".to_string()))
}

/// The replies up to and with the backup.
fn begun() -> Vec<Reply> {
    good_splice().into_iter().take(4).collect()
}

const RESTORE: &str = "WriteBytes { path: \"/p/b.kicad_pcb\", bytes: [1, 2] }";

#[test]
fn a_clause_is_saved_spliced_written_and_loaded() {
    let (asked, result) = splice(good_splice());
    assert_eq!(asked[0], "Lock");
    assert_eq!(asked[2], "JoinPath { dir: \"/p\", file: \"b.kicad_pcb\" }");
    assert_eq!(asked[3], "ReadBytes { path: \"/p/b.kicad_pcb\" }");
    assert!(asked[5].starts_with("Send(SaveDocumentToString"));
    assert_eq!(asked[6], "ParseHead { text: \"(kicad_pcb)\" }");
    assert_eq!(asked[7], "ParseHead { text: \"(kicad_pcb\\n(via)\\n)\\n\" }");
    assert_eq!(
        asked[8],
        "WriteText { path: \"/p/b.kicad_pcb\", text: \"(kicad_pcb\\n(via)\\n)\\n\" }"
    );
    assert!(asked[10].starts_with("Send(RevertDocument"));
    assert_eq!(asked[11], "Unlock");
    assert_eq!(asked.len(), 12);
    assert_eq!(result, Ok(()));
}

#[test]
fn the_file_is_read_where_kicad_does_not_hand_contents_over() {
    let mut replies = begun();
    replies.extend([
        documents(),
        Reply::Nothing,
        documents(),
        Reply::Nothing,
        Reply::Text("(kicad_pcb (x))\n".to_string()),
        head(),
        head(),
        Reply::Nothing,
        documents(),
        Reply::Nothing,
        Reply::Nothing,
    ]);
    let (asked, result) = splice(replies);
    assert!(asked[7].starts_with("Send(SaveDocument {"));
    assert_eq!(asked[8], "ReadText { path: \"/p/b.kicad_pcb\" }");
    assert!(asked[11].ends_with("text: \"(kicad_pcb (x)\\n(via)\\n)\\n\" }"));
    assert_eq!(result, Ok(()));
}

#[test]
fn a_file_that_cannot_be_read_is_an_error() {
    let mut replies = begun();
    replies.extend([
        documents(),
        Reply::Text(String::new()),
        documents(),
        Reply::Nothing,
        failed("gone"),
        Reply::Nothing,
        Reply::Nothing,
    ]);
    let (asked, result) = splice(replies);
    assert_eq!(asked[9], RESTORE);
    assert_eq!(asked[10], "Unlock");
    assert_eq!(result, Err("could not read board file /p/b.kicad_pcb".to_string()));
}

#[test]
fn every_failure_restores_the_file() {
    // Saving, the first look, the second look, writing and loading fail in turn.
    let cases: Vec<(Vec<Reply>, &str)> = vec![
        (vec![documents(), failed("busy")], "busy"),
        (
            vec![documents(), Reply::Text("x".to_string()), Reply::Head(None)],
            "refusing to splice: ",
        ),
        (
            vec![documents(), Reply::Text("(kicad_pcb)".to_string()), head(), Reply::Head(None)],
            "refusing to write spliced board: ",
        ),
        (
            vec![
                documents(),
                Reply::Text("(kicad_pcb)".to_string()),
                head(),
                head(),
                failed("full"),
            ],
            "could not write board file /p/b.kicad_pcb",
        ),
        (
            vec![
                documents(),
                Reply::Text("(kicad_pcb)".to_string()),
                head(),
                head(),
                Reply::Nothing,
                documents(),
                failed("timed out"),
            ],
            "timed out",
        ),
    ];
    for (middle, text) in cases {
        for restored in [Reply::Nothing, failed("full")] {
            let mut replies = begun();
            replies.extend(middle.iter().map(copy));
            replies.extend([restored, Reply::Nothing]);
            let (asked, result) = splice(replies);
            assert_eq!(asked[asked.len() - 2], RESTORE);
            assert_eq!(asked[asked.len() - 1], "Unlock");
            assert!(result.unwrap_err().starts_with(text), "{text}");
        }
    }
}

/// A copy of one of the replies that are used here.
fn copy(reply: &Reply) -> Reply {
    match reply {
        Reply::Documents(_) => documents(),
        Reply::Failed(e) => failed(&e.text),
        Reply::Text(t) => Reply::Text(t.clone()),
        Reply::Head(h) => Reply::Head(h.clone()),
        _ => Reply::Nothing,
    }
}

#[test]
fn without_a_backup_nothing_is_restored() {
    let mut replies = begun();
    replies[3] = failed("no such file");
    replies.extend([documents(), failed("busy"), Reply::Nothing]);
    let (asked, result) = splice(replies);
    assert_eq!(asked.len(), 7);
    assert_eq!(asked[6], "Unlock");
    assert_eq!(result, Err("busy".to_string()));
}

#[test]
fn the_lock_is_released_when_there_is_no_board() {
    let (asked, result) = splice(vec![
        failed("poisoned"),
        Reply::Documents(vec![]),
        Reply::Nothing,
    ]);
    assert_eq!(asked, vec!["Lock", "Send(GetOpenDocuments { document_type: DoctypePcb })", "Unlock"]);
    assert!(result.unwrap_err().starts_with("No PCB document is open"));
}
