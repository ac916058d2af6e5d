//! Board items: reading, creating, updating, deleting, and zones.
use konnect_ipc::client::KiCadIpcClient;
use konnect_ipc::items::{read_deleted, read_edited};
use konnect_ipc::talk::{
    DocumentSpecifier, IpcError, Item, ItemBody, ItemResult, KiCadObjectType, Reply, StatusCode,
    Step,
};
use konnect_ipc::types::{Kiid, Zone};
use konnect_ipc::wire::Any;

/// Leads a conversation with the given replies. Gives what was asked, and the result.
fn talk<T>(
    op: impl Fn(&Vec<Reply>) -> Step<T>,
    replies: Vec<Reply>,
) -> (Vec<String>, Result<T, String>) {
    let mut asked = vec![];
    let mut log: Vec<Reply> = vec![];
    let mut replies = replies.into_iter();
    loop {
        match op(&log) {
            Step::Ask(request) => {
                asked.push(format!("{request:?}"));
                log.push(replies.next().unwrap_or_else(|| panic!("no reply to {asked:?}")));
            }
            Step::Done(result, n) => {
                assert_eq!(n, log.len());
                assert!(replies.next().is_none(), "a reply was left over");
                return (asked, result.map_err(|e| e.text));
            }
        }
    }
}

fn client() -> KiCadIpcClient {
    KiCadIpcClient::new("ipc:///s".to_string(), None, false, 1)
}

fn board() -> DocumentSpecifier {
    DocumentSpecifier {
        handle: 7,
        board_filename: Some("b.kicad_pcb".to_string()),
        project_path: Some("/p".to_string()),
    }
}

fn documents() -> Reply {
    Reply::Documents(vec![board()])
}

fn failed(text: &str) -> Reply {
    Reply::Failed(IpcError { text: text.to_string() })
}

fn any(value: Vec<u8>) -> Any {
    Any { type_url: "t".to_string(), value }
}

/// A packed item with the given identifier.
fn with_id(id: &str) -> Any {
    let mut value = vec![0x0a, id.len() as u8 + 2, 0x0a, id.len() as u8];
    value.extend_from_slice(id.as_bytes());
    any(value)
}

fn item(body: ItemBody) -> Item {
    Item { any: any(vec![1]), body }
}

fn unread(count: usize) -> Reply {
    Reply::Items((0..count).map(|_| item(ItemBody::Unreadable)).collect())
}

fn ok() -> Option<StatusCode> {
    Some(StatusCode::Okay)
}

fn commit() -> Reply {
    Reply::Commit { id: Some(Kiid { value: "c".to_string() }) }
}

fn edited(ids: &[&str]) -> Reply {
    let results = ids
        .iter()
        .map(|id| ItemResult { status: None, item: Some(with_id(id)) })
        .collect();
    Reply::Edited { status: ok(), results }
}

fn by_id(ids: &[&str], replies: Vec<Reply>) -> (Vec<String>, Result<usize, String>) {
    let c = client();
    let ids: Vec<String> = ids.iter().map(|id| id.to_string()).collect();
    talk(
        |log: &Vec<Reply>| match c.get_items_by_id(&ids, log, 0) {
            Step::Ask(q) => Step::Ask(q),
            Step::Done(r, n) => Step::Done(r.map(|items| items.len()), n),
        },
        replies,
    )
}

#[test]
fn items_of_a_kind_are_listed() {
    let c = client();
    let op = |log: &Vec<Reply>| c.get_items(KiCadObjectType::KotPcbVia, log, 0);
    let (asked, result) = talk(op, vec![documents(), unread(2)]);
    assert!(asked[1].starts_with("Send(GetItems { header: ItemHeader {"));
    assert!(asked[1].ends_with("kind: KotPcbVia })"));
    let items = result.unwrap();
    assert_eq!(items.len(), 2);
    assert_eq!(items[1].value, vec![1]);
    assert_eq!(talk(op, vec![documents(), Reply::Nothing]).1.unwrap().len(), 0);
    assert_eq!(
        talk(op, vec![documents(), Reply::Text(String::new())]).1.unwrap_err(),
        "Failed to decode protobuf Any body"
    );
}

#[test]
fn looking_up_nothing_asks_nothing() {
    assert_eq!(by_id(&[], vec![]), (vec![], Ok(0)));
}

#[test]
fn items_are_looked_up_by_identifier() {
    let (asked, result) = by_id(&["a", "b"], vec![documents(), unread(2)]);
    assert!(asked[1].starts_with("Send(GetItemsById {"));
    assert!(asked[1].ends_with("ids: [\"a\", \"b\"] })"));
    assert_eq!(result, Ok(2));
    assert_eq!(by_id(&["a"], vec![documents(), Reply::Nothing]).1, Ok(0));
}

#[test]
fn a_bad_request_means_that_nothing_was_found() {
    let bad = "KiCAD IPC error: none of the requested IDs were found (AS_BAD_REQUEST)";
    assert_eq!(by_id(&["a"], vec![documents(), failed(bad)]).1, Ok(0));
    let other = "KiCAD IPC error: busy (AS_BUSY)";
    assert_eq!(by_id(&["a"], vec![documents(), failed(other)]).1, Err(other.to_string()));
    // The same words about the document are a failure.
    assert_eq!(by_id(&["a"], vec![failed(bad)]).1, Err(bad.to_string()));
}

#[test]
fn created_items_are_looked_up() {
    let c = client();
    let items = vec![any(vec![5])];
    let op = |log: &Vec<Reply>| c.create_items(&items, log, 0);
    let (asked, result) = talk(
        op,
        vec![documents(), commit(), edited(&["a"]), Reply::Nothing, documents(), unread(1)],
    );
    assert_eq!(asked[1], "Send(BeginCommit)");
    assert!(asked[2].starts_with("Send(CreateItems {"));
    assert!(asked[2].ends_with(
        "items: [Any { type_url: \"t\", value: [5] }], container: None })"
    ));
    assert!(asked[3].contains("message: \"Create items\""));
    assert!(asked[5].ends_with("ids: [\"a\"] })"));
    assert_eq!(result, Ok(()));
}

#[test]
fn an_item_that_did_not_land_is_an_error() {
    let c = client();
    let items = vec![any(vec![5]), any(vec![6])];
    let (_, result) = talk(
        |log: &Vec<Reply>| c.create_items(&items, log, 0),
        vec![
            documents(),
            commit(),
            edited(&["a", "b"]),
            Reply::Nothing,
            documents(),
            unread(1),
        ],
    );
    assert_eq!(
        result.unwrap_err(),
        "CreateItems reported success but only 1 of 2 item(s) independently re-resolved by KIID \
         afterward — the mutation did not fully land"
    );
}

#[test]
fn updated_items_are_looked_up() {
    let c = client();
    let items = vec![any(vec![5])];
    let (asked, result) = talk(
        |log: &Vec<Reply>| c.update_items(&items, log, 0),
        vec![documents(), commit(), edited(&["a"]), Reply::Nothing, documents(), unread(0)],
    );
    assert!(asked[2].starts_with("Send(UpdateItems {"));
    assert!(asked[3].contains("message: \"Update items\""));
    assert_eq!(
        result.unwrap_err(),
        "UpdateItems reported success but only 0 of 1 item(s) independently re-resolved by KIID \
         afterward — the mutation did not fully land"
    );
}

#[test]
fn items_that_cannot_be_looked_up_are_an_error() {
    let c = client();
    let items = vec![any(vec![5]), any(vec![6])];
    for unidentified in [None, Some(any(vec![])), Some(any(vec![0]))] {
        let reply = Reply::Edited {
            status: ok(),
            results: vec![
                ItemResult { status: None, item: Some(with_id("a")) },
                ItemResult { status: None, item: unidentified },
            ],
        };
        let mut log = vec![documents(), commit(), reply, Reply::Nothing];
        for (op, result) in [
            ("UpdateItems", c.update_items(&items, &log, 0)),
            ("CreateItems", c.create_items(&items, &log, 0)),
        ] {
            match result {
                Step::Done(Err(e), n) => {
                    assert_eq!(n, 4);
                    assert_eq!(
                        e.text,
                        format!(
                            "{op} reported success but only 1 of 2 item(s) came with a KIID — \
                             the rest cannot be re-resolved"
                        )
                    );
                }
                _ => panic!("{op} went on"),
            }
        }
        log.pop();
        assert!(matches!(c.update_items(&items, &log, 0), Step::Ask(_)));
    }
}

#[test]
fn answers_to_edits_are_looked_at_closely() {
    let text = |requested, reply: &Reply| read_edited(requested, reply, "CreateItems").unwrap_err().text;
    assert_eq!(text(1, &Reply::Nothing), "CreateItems returned no response body");
    assert_eq!(text(1, &Reply::Unreadable), "Failed to decode protobuf Any body");
    assert_eq!(
        text(1, &Reply::Edited { status: None, results: vec![] }),
        "CreateItems request failed: IRS_UNKNOWN"
    );
    assert_eq!(
        text(1, &Reply::Edited { status: ok(), results: vec![] }),
        "CreateItems requested 1 item(s) but KiCAD only returned a result for 0 — the rest \
         don't exist (or are otherwise unresolvable) on the board"
    );
    assert_eq!(read_edited(1, &edited(&["x", "y"]), "CreateItems").unwrap(), vec!["x", "y"]);
}

#[test]
fn answers_to_deletions_are_looked_at_closely() {
    let text = |reply: &Reply| read_deleted(reply).unwrap_err().text;
    assert_eq!(text(&Reply::Nothing), "DeleteItems returned no response body");
    assert_eq!(text(&Reply::Unreadable), "Failed to decode protobuf Any body");
    assert_eq!(
        text(&Reply::Deleted { status: None, outcomes: vec![] }),
        "DeleteItems request failed: IRS_UNKNOWN"
    );
    assert_eq!(
        text(&Reply::Deleted { status: ok(), outcomes: vec![ok(), None] }),
        "DeleteItems failed for an item: IDS_UNKNOWN"
    );
    assert!(read_deleted(&Reply::Deleted { status: ok(), outcomes: vec![] }).is_ok());
}

fn delete(ids: &[&str], replies: Vec<Reply>) -> (Vec<String>, Result<(), String>) {
    let c = client();
    let ids: Vec<String> = ids.iter().map(|id| id.to_string()).collect();
    talk(|log: &Vec<Reply>| c.delete_items(&ids, log, 0), replies)
}

#[test]
fn items_on_the_board_are_deleted() {
    let (asked, result) = delete(
        &["a"],
        vec![
            documents(),
            unread(1),
            documents(),
            commit(),
            Reply::Deleted { status: ok(), outcomes: vec![] },
            Reply::Nothing,
        ],
    );
    assert!(asked[1].starts_with("Send(GetItemsById"));
    assert_eq!(asked[3], "Send(BeginCommit)");
    assert!(asked[4].starts_with("Send(DeleteItems {"));
    assert!(asked[4].ends_with("ids: [\"a\"] })"));
    assert!(asked[5].contains("message: \"Delete items\""));
    assert_eq!(result, Ok(()));
}

#[test]
fn items_that_are_not_there_are_not_deleted() {
    let (asked, result) = delete(&["a", "b"], vec![documents(), unread(1)]);
    assert_eq!(asked.len(), 2);
    assert_eq!(
        result.unwrap_err(),
        "DeleteItems requested 2 item(s) but only 1 of them exist on the board — the rest are \
         bogus/nonexistent KIIDs"
    );
}

fn zones(filled: &[bool]) -> Reply {
    Reply::Items(
        filled.iter().map(|&filled| item(ItemBody::Zone(Zone { filled }))).collect(),
    )
}

fn refill(replies: Vec<Reply>) -> (Vec<String>, Result<(), String>) {
    let c = client();
    let mut all = vec![documents(), commit(), Reply::Nothing, Reply::Nothing];
    all.extend(replies);
    talk(|log: &Vec<Reply>| c.refill_zones(log, 0), all)
}

#[test]
fn a_board_without_zones_is_filled_at_once() {
    let (asked, result) = refill(vec![documents(), zones(&[])]);
    assert!(asked[2].starts_with("Send(RefillZones {"));
    assert!(asked[2].ends_with("zones: [] })"));
    assert!(asked[3].contains("message: \"Refill zones\""));
    assert!(asked[5].ends_with("kind: KotPcbZone })"));
    assert_eq!(result, Ok(()));
}

#[test]
fn zones_are_watched_until_they_are_filled() {
    let (asked, result) = refill(vec![
        documents(),
        zones(&[false, false]),
        Reply::Nothing,
        documents(),
        zones(&[true, false]),
        Reply::Flag(false),
        Reply::Nothing,
        documents(),
        zones(&[true, true]),
    ]);
    assert_eq!(asked[6], "StartTimer");
    assert_eq!(asked[9], "Expired { millis: 15000 }");
    assert_eq!(asked[10], "Sleep { millis: 200 }");
    assert_eq!(result, Ok(()));
}

#[test]
fn zones_that_are_not_filled_in_time_are_an_error() {
    let (_, result) = refill(vec![
        documents(),
        zones(&[false]),
        Reply::Nothing,
        documents(),
        Reply::Items(vec![item(ItemBody::Unreadable)]),
        Reply::Flag(true),
    ]);
    assert_eq!(
        result.unwrap_err(),
        "RefillZones was accepted by KiCAD but the fill did not complete within 15s of polling \
         — KiCAD defers the actual fill to a later event-loop tick when running with a GUI \
         frame, and it never reported all zones filled"
    );
}

#[test]
fn a_refused_refill_is_an_error() {
    let c = client();
    let (_, result) = talk(
        |log: &Vec<Reply>| c.refill_zones(log, 0),
        vec![documents(), commit(), failed("no"), Reply::Nothing],
    );
    assert_eq!(result, Err("no".to_string()));
}
