//! Footprints.
use konnect_ipc::client::KiCadIpcClient;
use konnect_ipc::talk::{
    DocumentSpecifier, IpcError, Item, ItemBody, ItemResult, Reply, StatusCode, Step,
};
use konnect_ipc::types::{
    Angle, BoardLayer, BoardText, Degrees, Field, Footprint, FootprintInstance, Kiid,
    LibraryIdentifier, LockedState, Mm, Real, Text, Vector2,
};
use konnect_ipc::wire::Any;

/// Leads a conversation with the given replies. Gives what was asked, and the result.
fn talk<T>(
    op: impl Fn(&Vec<Reply>) -> Step<T>,
    replies: Vec<Reply>,
) -> (Vec<String>, Result<T, String>) {
    let mut asked = vec![];
    let mut log: Vec<Reply> = vec![];
    let mut replies = replies.into_iter();
    loop {
        match op(&log) {
            Step::Ask(request) => {
                asked.push(format!("{request:?}"));
                log.push(replies.next().unwrap_or_else(|| panic!("no reply to {asked:?}")));
            }
            Step::Done(result, n) => {
                assert_eq!(n, log.len());
                assert!(replies.next().is_none(), "a reply was left over");
                return (asked, result.map_err(|e| e.text));
            }
        }
    }
}

fn client() -> KiCadIpcClient {
    KiCadIpcClient::new("ipc:///s".to_string(), None, false, 1)
}

fn board() -> DocumentSpecifier {
    DocumentSpecifier {
        handle: 7,
        board_filename: Some("b.kicad_pcb".to_string()),
        project_path: Some("/p".to_string()),
    }
}

fn documents() -> Reply {
    Reply::Documents(vec![board()])
}

fn failed(text: &str) -> Reply {
    Reply::Failed(IpcError { text: text.to_string() })
}

fn mm(value: f64) -> Mm {
    Mm {
        value: Real { bits: value.to_bits() },
        nm: (value * 1_000_000.0) as i64,
        text: value.to_string(),
    }
}

/// The replies to a splice that works, from the lock to its release.
fn good_splice() -> Vec<Reply> {
    let head = || Reply::Head(Some("kicad_pcb".to_string()));
    vec![
        Reply::Nothing,
        documents(),
        Reply::Text("/p/b.kicad_pcb".to_string()),
        Reply::Bytes(vec![1, 2]),
        documents(),
        Reply::Text("(kicad_pcb)".to_string()),
        head(),
        head(),
        Reply::Nothing,
        documents(),
        Reply::Nothing,
        Reply::Nothing,
    ]
}

fn degrees(value: f64) -> Degrees {
    Degrees { value: bits(value), text: value.to_string() }
}

fn bits(value: f64) -> Real {
    Real { bits: value.to_bits() }
}

fn field(text: &str) -> Option<Field> {
    Some(Field {
        text: Some(BoardText {
            id: None,
            text: Some(Text {
                position: None,
                attributes: None,
                text: text.to_string(),
                hyperlink: String::new(),
            }),
            layer: BoardLayer::BlFSilkS,
            knockout: false,
            locked: LockedState::LsUnknown,
        }),
    })
}

fn footprint(reference: &str, id: Option<&str>) -> FootprintInstance {
    FootprintInstance {
        id: id.map(|value| Kiid { value: value.to_string() }),
        position: Some(Vector2 { x_nm: 1_000_000, y_nm: 2_000_000 }),
        orientation: Some(Angle { value_degrees: bits(45.0) }),
        layer: BoardLayer::BlBCu,
        definition: Some(Footprint {
            id: Some(LibraryIdentifier {
                library_nickname: "Lib".to_string(),
                entry_name: "R_0603".to_string(),
            }),
        }),
        reference_field: field(reference),
        value_field: field("10k"),
    }
}

fn bare() -> FootprintInstance {
    FootprintInstance {
        id: None,
        position: None,
        orientation: None,
        layer: BoardLayer::BlUndefined,
        definition: None,
        reference_field: Some(Field { text: None }),
        value_field: None,
    }
}

fn items(footprints: Vec<FootprintInstance>) -> Reply {
    let mut all = vec![Item {
        any: Any { type_url: String::new(), value: vec![0] },
        body: ItemBody::Unreadable,
    }];
    all.extend(footprints.into_iter().map(|fp| Item {
        any: Any { type_url: "fp".to_string(), value: vec![3] },
        body: ItemBody::Footprint(fp),
    }));
    Reply::Items(all)
}

fn flag(b: bool) -> Reply {
    Reply::Flag(b)
}

fn text(t: &str) -> Reply {
    Reply::Text(t.to_string())
}

/// The replies to an update of one item that works.
fn good_update() -> Vec<Reply> {
    vec![
        documents(),
        Reply::Nothing,
        Reply::Edited {
            status: Some(StatusCode::Okay),
            results: vec![ItemResult {
                status: None,
                item: Some(Any { type_url: String::new(), value: vec![0x0a, 3, 0x0a, 1, b'k'] }),
            }],
        },
        Reply::Nothing,
        documents(),
        items(vec![]),
    ]
}

#[test]
fn footprints_are_listed() {
    let c = client();
    let (asked, result) = talk(
        |log: &Vec<Reply>| c.list_footprints(log, 0),
        vec![documents(), items(vec![footprint("R1", Some("k1")), bare()])],
    );
    assert!(asked[1].ends_with("kind: KotPcbFootprint })"));
    let seen = result.unwrap();
    assert_eq!(seen.len(), 2);
    assert_eq!(seen[0].reference, "R1");
    assert_eq!(seen[0].value, "10k");
    assert_eq!(seen[0].footprint, "Lib:R_0603");
    assert_eq!(seen[0].position, Vector2 { x_nm: 1_000_000, y_nm: 2_000_000 });
    assert_eq!(f64::from_bits(seen[0].rotation.bits), 45.0);
    assert_eq!(seen[0].layer, "B.Cu");
    assert_eq!(seen[0].kiid, "k1");
    assert_eq!(seen[1].reference, "");
    assert_eq!(seen[1].value, "");
    assert_eq!(seen[1].footprint, "");
    assert_eq!(seen[1].position, Vector2 { x_nm: 0, y_nm: 0 });
    assert_eq!(f64::from_bits(seen[1].rotation.bits), 0.0);
    assert_eq!(seen[1].layer, "Unknown");
    assert_eq!(seen[1].kiid, "");
}

#[test]
fn the_first_footprint_with_the_reference_is_found() {
    let c = client();
    let found = |reference: &'static str| {
        talk(
            |log: &Vec<Reply>| c.get_footprint(reference, log, 0),
            vec![
                documents(),
                items(vec![
                    footprint("R1", Some("a")),
                    footprint("R2", Some("b")),
                    footprint("R2", Some("c")),
                ]),
            ],
        )
        .1
        .unwrap()
    };
    assert_eq!(found("R2").unwrap().kiid, "b");
    assert!(found("R3").is_none());
}

#[test]
fn an_identifier_is_found_by_reference() {
    let c = client();
    let found = |reference: &'static str| {
        talk(
            |log: &Vec<Reply>| c.find_footprint_kiid(reference, log, 0),
            vec![documents(), items(vec![footprint("R1", None), footprint("R1", Some("k"))])],
        )
        .1
    };
    assert_eq!(found("R1"), Ok("k".to_string()));
    assert_eq!(found("R2"), Err("Footprint 'R2' not found on board".to_string()));
}

#[test]
fn a_footprint_is_deleted_by_reference() {
    let c = client();
    let (asked, result) = talk(
        |log: &Vec<Reply>| c.delete_footprint("R1", log, 0),
        vec![
            documents(),
            items(vec![footprint("R1", Some("k"))]),
            documents(),
            items(vec![]),
            documents(),
            Reply::Nothing,
            Reply::Deleted {
                status: Some(StatusCode::Okay),
                outcomes: vec![],
            },
            Reply::Nothing,
        ],
    );
    assert!(asked[3].ends_with("ids: [\"k\"] })"));
    assert!(asked[6].starts_with("Send(DeleteItems {"));
    assert_eq!(result, Ok(()));
    let (asked, result) = talk(
        |log: &Vec<Reply>| c.delete_footprint("R2", log, 0),
        vec![documents(), items(vec![])],
    );
    assert_eq!(asked.len(), 2);
    assert_eq!(result, Err("Footprint 'R2' not found on board".to_string()));
}

/// Moves `R1` to (3.5, -1), and finds `after`.
fn move_it(
    after: Vec<FootprintInstance>,
    end: Vec<Reply>,
) -> (Vec<String>, Result<String, String>) {
    let c = client();
    let mut replies = vec![
        documents(),
        items(vec![footprint("R2", None), footprint("R1", Some("k"))]),
        Reply::Bytes(vec![4]),
    ];
    replies.extend(good_update());
    replies.push(documents());
    replies.push(items(after));
    replies.extend(end);
    let (asked, result) = talk(
        |log: &Vec<Reply>| c.move_footprint("R1", &mm(3.5), &mm(-1.0), log, 0),
        replies,
    );
    (asked, result.map(|fp| fp.kiid))
}

#[test]
fn a_footprint_is_moved_and_found_again() {
    let (asked, result) = move_it(vec![footprint("R1", Some("again"))], vec![flag(true)]);
    assert_eq!(
        asked[2],
        "EditFootprint { item: Any { type_url: \"fp\", value: [3] }, edit: Move { position: \
         Vector2 { x_nm: 3500000, y_nm: -1000000 }, dx_nm: 2500000, dy_nm: -3000000 } }"
    );
    assert!(asked[5].ends_with(
        "items: [Any { type_url: \"type.googleapis.com/kiapi.board.types.FootprintInstance\", \
         value: [4] }] })"
    ));
    assert!(asked[8].ends_with("ids: [\"k\"] })"));
    let near = &asked[11];
    assert!(near.starts_with("NearMm { position: Vector2 { x_nm: 1000000, y_nm: 2000000 },"));
    assert!(near.contains(&format!("{}", 3.5f64.to_bits())));
    assert!(near.contains(&format!("{}", (-1.0f64).to_bits())));
    assert_eq!(result, Ok("again".to_string()));
}

#[test]
fn a_move_that_did_not_land_is_an_error() {
    let (asked, result) = move_it(
        vec![footprint("R1", None)],
        vec![flag(false), text("1"), text("2")],
    );
    assert_eq!(asked[12], "ShowMm { nm: 1000000 }");
    assert_eq!(asked[13], "ShowMm { nm: 2000000 }");
    assert_eq!(
        result.unwrap_err(),
        "move_footprint reported success for 'R1' but re-query shows it at (1, 2), not the \
         requested (3.5, -1)"
    );
    assert_eq!(
        move_it(vec![], vec![]).1.unwrap_err(),
        "moved 'R1' but it's no longer resolvable by reference afterward"
    );
}

#[test]
fn a_footprint_that_is_not_there_is_not_moved() {
    let c = client();
    let (asked, result) = talk(
        |log: &Vec<Reply>| c.move_footprint("R9", &mm(0.0), &mm(0.0), log, 0),
        vec![documents(), items(vec![footprint("R1", None)])],
    );
    assert_eq!(asked.len(), 2);
    assert_eq!(result.unwrap_err(), "Footprint 'R9' not found");
}

#[test]
fn a_footprint_that_cannot_be_changed_is_not_updated() {
    let c = client();
    let (asked, result) = talk(
        |log: &Vec<Reply>| c.move_footprint("R1", &mm(0.0), &mm(0.0), log, 0),
        vec![documents(), items(vec![footprint("R1", None)]), failed("no transform")],
    );
    assert_eq!(asked.len(), 3);
    assert_eq!(result.unwrap_err(), "no transform");
}

/// Turns `R1` to 90 degrees, and finds `after`.
fn rotate_it(
    before: FootprintInstance,
    after: Vec<FootprintInstance>,
    end: Vec<Reply>,
) -> (Vec<String>, Result<String, String>) {
    let c = client();
    let mut replies = vec![documents(), items(vec![before]), Reply::Bytes(vec![4])];
    replies.extend(good_update());
    replies.push(documents());
    replies.push(items(after));
    replies.extend(end);
    let (asked, result) = talk(
        |log: &Vec<Reply>| c.rotate_footprint("R1", &degrees(90.0), log, 0),
        replies,
    );
    (asked, result.map(|fp| fp.kiid))
}

#[test]
fn a_footprint_is_turned_around_its_position() {
    let (asked, result) = rotate_it(
        footprint("R1", None),
        vec![footprint("R1", Some("again"))],
        vec![flag(true)],
    );
    assert_eq!(
        asked[2],
        format!(
            "EditFootprint {{ item: Any {{ type_url: \"fp\", value: [3] }}, edit: Rotate {{ \
             angle: Real {{ bits: {} }}, from: Real {{ bits: {} }}, center: Vector2 {{ x_nm: \
             1000000, y_nm: 2000000 }} }} }}",
            90.0f64.to_bits(),
            45.0f64.to_bits()
        )
    );
    assert_eq!(
        asked[11],
        format!(
            "SameAngle {{ found: Real {{ bits: {} }}, wanted: Real {{ bits: {} }} }}",
            45.0f64.to_bits(),
            90.0f64.to_bits()
        )
    );
    assert_eq!(result, Ok("again".to_string()));
}

#[test]
fn a_footprint_without_angle_is_turned_from_zero() {
    let mut before = bare();
    before.reference_field = field("R1");
    let (asked, _) = rotate_it(before, vec![footprint("R1", None)], vec![flag(true)]);
    assert!(asked[2].contains("from: Real { bits: 0 }, center: Vector2 { x_nm: 0, y_nm: 0 }"));
}

#[test]
fn a_turn_that_did_not_land_is_an_error() {
    let (asked, result) = rotate_it(
        footprint("R1", None),
        vec![footprint("R1", None)],
        vec![flag(false), text("45")],
    );
    assert_eq!(asked[12], format!("ShowReal {{ value: Real {{ bits: {} }} }}", 45.0f64.to_bits()));
    assert_eq!(
        result.unwrap_err(),
        "rotate_footprint reported success for 'R1' but re-query shows rotation 45, not the \
         requested 90"
    );
    assert_eq!(
        rotate_it(footprint("R1", None), vec![], vec![]).1.unwrap_err(),
        "rotated 'R1' but it's no longer resolvable by reference afterward"
    );
}

/// Places `Lib:R` as `R7`, with this library file, and finds `after`.
fn place(raw: Reply, rest: Vec<Reply>) -> (Vec<String>, Result<String, String>) {
    let c = client();
    let table = "(lib (name \"Lib\")(uri \"/lib\"))";
    let mut replies = vec![text("/h"), text("/t"), text(table), text("/lib/R.kicad_mod"), raw];
    replies.extend(rest);
    let (asked, result) = talk(
        |log: &Vec<Reply>| {
            c.place_footprint("Lib:R", &mm(1.5), &mm(2.0), &degrees(90.0), "B.Cu", "R7", log, 0)
        },
        replies,
    );
    (asked, result.map(|fp| fp.kiid))
}

fn shown_and_spliced(after: Vec<FootprintInstance>) -> Vec<Reply> {
    let mut replies = vec![text("1.5"), text("2")];
    replies.extend(good_splice());
    replies.push(documents());
    replies.push(items(after));
    replies
}

const RAW: &str = "(footprint \"R\" (layer \"F.Cu\") (property \"Reference\" \"REF**\"))";

#[test]
fn a_footprint_is_placed_and_found_again() {
    let (asked, result) =
        place(text(RAW), shown_and_spliced(vec![footprint("R7", Some("new"))]));
    assert_eq!(asked[4], "ReadText { path: \"/lib/R.kicad_mod\" }");
    assert_eq!(asked[5], "ShowMm { nm: 1500000 }");
    assert_eq!(asked[6], "ShowMm { nm: 2000000 }");
    assert!(asked[15].contains(
        "(footprint \\\"R\\\" (layer \\\"B.Cu\\\")\\n\\t(at 1.5 2 90) (property \
         \\\"Reference\\\" \\\"R7\\\"))"
    ));
    assert_eq!(result, Ok("new".to_string()));
}

#[test]
fn a_footprint_that_is_not_there_after_placing_is_an_error() {
    let (_, result) = place(text(RAW), shown_and_spliced(vec![footprint("R8", None)]));
    assert_eq!(
        result.unwrap_err(),
        "placed 'R7' but it's not visible on the board after reload"
    );
}

#[test]
fn a_library_file_must_be_readable_and_well_formed() {
    let (_, result) = place(failed("gone"), vec![]);
    assert_eq!(result.unwrap_err(), "could not read footprint file /lib/R.kicad_mod");
    let (_, result) = place(text("(footprint)"), vec![text("1.5"), text("2")]);
    assert_eq!(result.unwrap_err(), "footprint file has no top-level layer clause");
}
