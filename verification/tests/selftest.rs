//! The self-test.
use konnect_ipc::client::KiCadIpcClient;
use konnect_ipc::selftest::{
    judge_added, judge_placed, probe_add_via, probe_place_footprint, run_selftest, verdict_line,
};
use konnect_ipc::talk::{
    DocumentSpecifier, IpcError, Item, ItemBody, Reply, StatusCode, Step,
};
use konnect_ipc::types::{
    BoardLayer, BoardText, DrillProperties, Field, FootprintInstance, IpcFootprint, Kiid,
    LockedState, Net, PadStack, PadStackLayer, Real, Text, Vector2, Via,
};
use konnect_ipc::wire::Any;

/// Leads a conversation with the given replies. Gives what was asked, and the result.
fn talk<T>(
    op: impl Fn(&Vec<Reply>) -> Step<T>,
    replies: Vec<Reply>,
) -> (Vec<String>, Result<T, String>) {
    let mut asked = vec![];
    let mut log: Vec<Reply> = vec![];
    let mut replies = replies.into_iter();
    loop {
        match op(&log) {
            Step::Ask(request) => {
                asked.push(format!("{request:?}"));
                log.push(replies.next().unwrap_or_else(|| panic!("no reply to {asked:?}")));
            }
            Step::Done(result, n) => {
                assert_eq!(n, log.len());
                assert!(replies.next().is_none(), "a reply was left over");
                return (asked, result.map_err(|e| e.text));
            }
        }
    }
}

fn client() -> KiCadIpcClient {
    KiCadIpcClient::new("ipc:///s".to_string(), None, false, 1)
}

fn board() -> DocumentSpecifier {
    DocumentSpecifier {
        handle: 7,
        board_filename: Some("b.kicad_pcb".to_string()),
        project_path: Some("/p".to_string()),
    }
}

fn documents() -> Reply {
    Reply::Documents(vec![board()])
}

fn failed(text: &str) -> Reply {
    Reply::Failed(IpcError { text: text.to_string() })
}

/// The replies to a splice that works, from the lock to its release.
fn good_splice() -> Vec<Reply> {
    let head = || Reply::Head(Some("kicad_pcb".to_string()));
    vec![
        Reply::Nothing,
        documents(),
        Reply::Text("/p/b.kicad_pcb".to_string()),
        Reply::Bytes(vec![1, 2]),
        documents(),
        Reply::Text("(kicad_pcb)".to_string()),
        head(),
        head(),
        Reply::Nothing,
        documents(),
        Reply::Nothing,
        Reply::Nothing,
    ]
}

fn item(body: ItemBody) -> Item {
    Item { any: Any { type_url: String::new(), value: vec![] }, body }
}

fn text(t: &str) -> Reply {
    Reply::Text(t.to_string())
}

fn probe_footprint() -> Reply {
    let field = Field {
        text: Some(BoardText {
            id: None,
            text: Some(Text {
                position: None,
                attributes: None,
                text: "KONNECT_SELFTEST_FP".to_string(),
                hyperlink: String::new(),
            }),
            layer: BoardLayer::BlUndefined,
            knockout: false,
            locked: LockedState::LsUnknown,
        }),
    };
    Reply::Items(vec![item(ItemBody::Footprint(FootprintInstance {
        id: Some(Kiid { value: "fp".to_string() }),
        position: None,
        orientation: None,
        layer: BoardLayer::BlFCu,
        definition: None,
        reference_field: Some(field),
        value_field: None,
    }))])
}

/// The probed via as it is found, with the given identifier and drill.
fn found_via(id: Option<&str>, drill: i64) -> Reply {
    let size = |d| Vector2 { x_nm: d, y_nm: d };
    Reply::Items(vec![item(ItemBody::Via(Via {
        id: id.map(|id| Kiid { value: id.to_string() }),
        position: Some(size(-495_000_000)),
        net: None,
        pad_stack: Some(PadStack {
            drill: Some(DrillProperties { diameter: Some(size(drill)) }),
            copper_layers: vec![PadStackLayer { size: Some(size(800_000)) }],
        }),
    }))])
}

fn ok() -> Option<StatusCode> {
    Some(StatusCode::Okay)
}

/// The replies to a deletion of one item that works.
fn good_deletion() -> Vec<Reply> {
    vec![
        documents(),
        Reply::Items(vec![item(ItemBody::Unreadable)]),
        documents(),
        Reply::Nothing,
        Reply::Deleted { status: ok(), outcomes: vec![] },
        Reply::Nothing,
    ]
}

fn good_footprint_probe() -> Vec<Reply> {
    let raw = "(footprint \"R\" (layer \"F.Cu\") (property \"Reference\" \"REF**\"))";
    let table = "(lib (name \"Resistor_SMD\")(uri \"/lib\"))";
    let mut replies = vec![documents(), Reply::Items(vec![])];
    replies.extend([text("/h"), text("/t"), text(table), text("/lib/f"), text(raw)]);
    replies.extend([text("-500"), text("-500")]);
    replies.extend(good_splice());
    replies.extend([documents(), probe_footprint(), documents(), probe_footprint()]);
    replies.extend(good_deletion());
    replies
}

fn good_via_probe() -> Vec<Reply> {
    let nets = Reply::Nets(vec![Net { code: None, name: String::new() }]);
    let mut replies = vec![documents(), nets, text("uuid")];
    replies.extend(good_splice());
    replies.extend([documents(), found_via(Some("v"), 400_000)]);
    replies.extend(good_deletion());
    replies
}

#[test]
fn the_footprint_probe_places_and_deletes() {
    let c = client();
    let (asked, result) = talk(
        |log: &Vec<Reply>| probe_place_footprint(&c, log, 0),
        good_footprint_probe(),
    );
    assert!(asked[5].contains("R_0603_1608Metric.kicad_mod"));
    assert_eq!(asked[7], "ShowMm { nm: -500000000 }");
    assert!(asked[17].contains("(at -500 -500 0)"));
    assert!(asked[17].contains("KONNECT_SELFTEST_FP"));
    assert!(asked.last().unwrap().contains("message: \"Delete items\""));
    assert_eq!(result, Ok(()));
}

#[test]
fn the_footprint_probe_cleans_up_after_a_failure() {
    let c = client();
    let (asked, result) = talk(
        |log: &Vec<Reply>| probe_place_footprint(&c, log, 0),
        vec![
            documents(),
            Reply::Items(vec![]),
            text("/h"),
            text("/t"),
            failed("no table"),
            documents(),
            Reply::Items(vec![]),
        ],
    );
    assert!(asked[6].starts_with("Send(GetItems {"));
    assert_eq!(result, Err("could not read fp-lib-table at /t".to_string()));
}

#[test]
fn the_via_probe_adds_and_deletes() {
    let c = client();
    let (asked, result) =
        talk(|log: &Vec<Reply>| probe_add_via(&c, log, 0), good_via_probe());
    assert!(asked[11].contains("(at -495 -495) (size 0.8) (drill 0.4)"));
    assert!(asked[11].contains("(net \\\"\\\")"));
    assert!(asked[18].ends_with("ids: [\"v\"] })"));
    assert_eq!(result, Ok(()));
}

/// Probes with a via that is loaded, and then found like this.
fn probe_finding(found: Reply, rest: Vec<Reply>) -> (Vec<String>, Result<(), String>) {
    let c = client();
    let mut replies: Vec<Reply> = good_via_probe().into_iter().take(16).collect();
    replies.push(found);
    replies.extend(rest);
    talk(|log: &Vec<Reply>| probe_add_via(&c, log, 0), replies)
}

#[test]
fn a_via_without_identifier_fails_the_probe() {
    for id in [None, Some("")] {
        let (asked, result) = probe_finding(found_via(id, 400_000), good_deletion());
        // It was written with this identifier.
        assert!(asked[11].contains("(uuid \\\"uuid\\\")"));
        assert!(asked[21].starts_with("Send(DeleteItems {"));
        assert!(asked[21].ends_with("ids: [\"uuid\"] })"));
        assert_eq!(result, Err("add_via returned an empty KIID".to_string()));
    }
}

#[test]
fn a_via_that_fails_the_probe_is_deleted_too() {
    let mut rest = vec![text("0.3")];
    rest.extend(good_deletion());
    let (asked, result) = probe_finding(found_via(Some("uuid"), 300_000), rest);
    assert!(asked[22].starts_with("Send(DeleteItems {"));
    assert!(asked[22].ends_with("ids: [\"uuid\"] })"));
    assert!(result.unwrap_err().contains("was created with drill 0.3mm"));
}

#[test]
fn only_the_via_of_the_probe_is_deleted() {
    // Another via is where the probed one should be, and the probed one is not on the board.
    let rest = vec![text("0.3"), documents(), Reply::Items(vec![])];
    let (asked, result) = probe_finding(found_via(Some("other"), 300_000), rest);
    assert!(asked[19].starts_with("Send(GetItemsById {"));
    assert!(asked[19].ends_with("ids: [\"uuid\"] })"));
    assert_eq!(asked.len(), 20);
    assert!(result.unwrap_err().contains("was created with drill 0.3mm"));
}

#[test]
fn a_failed_deletion_changes_nothing_about_a_failed_probe() {
    let (_, result) =
        probe_finding(found_via(Some("uuid"), 300_000), vec![text("0.3"), failed("dead")]);
    assert!(result.unwrap_err().contains("was created with drill 0.3mm"));
    let (_, result) = probe_finding(failed("lost"), vec![failed("dead")]);
    assert_eq!(result, Err("lost".to_string()));
}

#[test]
fn nothing_is_deleted_if_the_via_was_not_loaded() {
    let c = client();
    let probe = |replies| talk(|log: &Vec<Reply>| probe_add_via(&c, log, 0), replies);
    // No net without a name.
    let nets = Reply::Nets(vec![Net { code: None, name: "GND".to_string() }]);
    let (asked, result) = probe(vec![documents(), nets]);
    assert_eq!(asked.len(), 2);
    assert_eq!(result, Err("Net '' not found on board".to_string()));
    // The board is not loaded again.
    let mut replies: Vec<Reply> = good_via_probe().into_iter().take(13).collect();
    replies.extend([failed("stuck"), Reply::Nothing, Reply::Nothing]);
    let (asked, result) = probe(replies);
    assert!(asked[13].starts_with("Send(RevertDocument {"));
    assert!(asked[14].starts_with("WriteBytes {"));
    assert_eq!(asked[15], "Unlock");
    assert_eq!(asked.len(), 16);
    assert_eq!(result, Err("stuck".to_string()));
}

#[test]
fn adding_must_give_an_identifier() {
    assert!(judge_added(Ok("v".to_string())).is_ok());
    assert_eq!(
        judge_added(Ok(String::new())).unwrap_err().text,
        "add_via returned an empty KIID"
    );
    assert_eq!(judge_added(Err(IpcError { text: "e".to_string() })).unwrap_err().text, "e");
}

#[test]
fn a_good_self_test_exits_with_zero() {
    let c = client();
    let mut replies = vec![Reply::Nothing];
    replies.extend(good_footprint_probe());
    replies.push(Reply::Nothing);
    replies.extend(good_via_probe());
    replies.extend([Reply::Nothing, Reply::Nothing]);
    let (asked, result) = talk(|log: &Vec<Reply>| run_selftest(&c, log, 0), replies);
    let printed: Vec<&String> = asked.iter().filter(|a| a.starts_with("Print")).collect();
    assert_eq!(
        printed,
        vec![
            "Print { line: \"[selftest] Konnect capability probe starting\" }",
            "Print { line: \"[selftest] PASS place_footprint (save->splice->reload path)\" }",
            "Print { line: \"[selftest] PASS add_via (net-clause serialization)\" }",
            "Print { line: \"[selftest] 2/2 capabilities passed\" }",
        ]
    );
    assert_eq!(result, Ok(0));
}

#[test]
fn a_failed_self_test_exits_with_one() {
    let c = client();
    let dead = || failed("dead");
    let replies = vec![
        Reply::Nothing,
        dead(),
        failed("not set"),
        dead(),
        dead(),
        Reply::Nothing,
        dead(),
        Reply::Nothing,
        Reply::Nothing,
    ];
    let (asked, result) = talk(|log: &Vec<Reply>| run_selftest(&c, log, 0), replies);
    assert_eq!(
        asked[5],
        "Print { line: \"[selftest] FAIL place_footprint (save->splice->reload path): dead\" }"
    );
    assert_eq!(
        asked[7],
        "Print { line: \"[selftest] FAIL add_via (net-clause serialization): dead\" }"
    );
    assert_eq!(asked[8], "Print { line: \"[selftest] 0/2 capabilities passed\" }");
    assert_eq!(result, Ok(1));
}

#[test]
fn one_of_two_is_a_failure_too() {
    let c = client();
    let mut replies = vec![Reply::Nothing];
    replies.extend(good_footprint_probe());
    replies.extend([Reply::Nothing, failed("dead"), Reply::Nothing, Reply::Nothing]);
    let (asked, result) = talk(|log: &Vec<Reply>| run_selftest(&c, log, 0), replies);
    assert!(asked.last().unwrap().contains("1/2 capabilities passed"));
    assert_eq!(result, Ok(1));
}

#[test]
fn another_reference_fails_the_probe() {
    let placed = IpcFootprint {
        reference: "R1".to_string(),
        value: String::new(),
        footprint: String::new(),
        position: Vector2 { x_nm: 0, y_nm: 0 },
        rotation: Real { bits: 0 },
        layer: String::new(),
        kiid: String::new(),
    };
    let verdict = judge_placed(Ok(placed));
    assert_eq!(
        verdict_line("x", &verdict),
        "[selftest] FAIL x: placed footprint reference 'R1' doesn't match requested \
         'KONNECT_SELFTEST_FP'"
    );
    assert_eq!(verdict_line("x", &Ok(())), "[selftest] PASS x");
}

#[test]
fn the_probed_lengths_are_what_they_say() {
    for (bits, mm, nm) in [
        (0xc07f_4000_0000_0000u64, -500.0f64, -500_000_000i64),
        (0xc07e_f000_0000_0000, -495.0, -495_000_000),
        (0x3fd9_9999_9999_999a, 0.4, 400_000),
        (0x3fe9_9999_9999_999a, 0.8, 800_000),
    ] {
        assert_eq!(bits, mm.to_bits());
        assert_eq!((mm * 1_000_000.0) as i64, nm);
    }
}
