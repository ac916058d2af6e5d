//! Nets, layers, extents, tracks and vias.
use konnect_ipc::board::{board_layer_name, find_code};
use konnect_ipc::client::KiCadIpcClient;
use konnect_ipc::talk::{
    Box2, DocumentSpecifier, IpcError, Item, ItemBody, ItemResult, LayerId, Reply, StatusCode,
    Step,
};
use konnect_ipc::types::{
    BoardLayer, Distance, DrillProperties, IpcNet, Kiid, LockedState, Mm, Net, NetCode, PadStack,
    PadStackLayer, Real, Track, Vector2, Via,
};
use konnect_ipc::wire::Any;

/// Leads a conversation with the given replies. Gives what was asked, and the result.
fn talk<T>(
    op: impl Fn(&Vec<Reply>) -> Step<T>,
    replies: Vec<Reply>,
) -> (Vec<String>, Result<T, String>) {
    let mut asked = vec![];
    let mut log: Vec<Reply> = vec![];
    let mut replies = replies.into_iter();
    loop {
        match op(&log) {
            Step::Ask(request) => {
                asked.push(format!("{request:?}"));
                log.push(replies.next().unwrap_or_else(|| panic!("no reply to {asked:?}")));
            }
            Step::Done(result, n) => {
                assert_eq!(n, log.len());
                assert!(replies.next().is_none(), "a reply was left over");
                return (asked, result.map_err(|e| e.text));
            }
        }
    }
}

fn client() -> KiCadIpcClient {
    KiCadIpcClient::new("ipc:///s".to_string(), None, false, 1)
}

fn board() -> DocumentSpecifier {
    DocumentSpecifier {
        handle: 7,
        board_filename: Some("b.kicad_pcb".to_string()),
        project_path: Some("/p".to_string()),
    }
}

fn documents() -> Reply {
    Reply::Documents(vec![board()])
}

fn failed(text: &str) -> Reply {
    Reply::Failed(IpcError { text: text.to_string() })
}

fn mm(value: f64) -> Mm {
    Mm {
        value: Real { bits: value.to_bits() },
        nm: (value * 1_000_000.0) as i64,
        text: value.to_string(),
    }
}

/// The replies to a splice that works, from the lock to its release.
fn good_splice() -> Vec<Reply> {
    let head = || Reply::Head(Some("kicad_pcb".to_string()));
    vec![
        Reply::Nothing,
        documents(),
        Reply::Text("/p/b.kicad_pcb".to_string()),
        Reply::Bytes(vec![1, 2]),
        documents(),
        Reply::Text("(kicad_pcb)".to_string()),
        head(),
        head(),
        Reply::Nothing,
        documents(),
        Reply::Nothing,
        Reply::Nothing,
    ]
}

fn net(name: &str, code: Option<i32>) -> Net {
    Net { code: code.map(|value| NetCode { value }), name: name.to_string() }
}

fn nets() -> Reply {
    Reply::Nets(vec![net("", None), net("GND", Some(1)), net("VCC", Some(2)), net("GND", Some(9))])
}

fn at(x_nm: i64, y_nm: i64) -> Vector2 {
    Vector2 { x_nm, y_nm }
}

fn item(body: ItemBody) -> Item {
    Item { any: Any { type_url: String::new(), value: vec![] }, body }
}

#[test]
fn nets_are_listed_with_their_codes() {
    let c = client();
    let op = |log: &Vec<Reply>| c.get_nets(log, 0);
    let (asked, result) = talk(op, vec![documents(), nets()]);
    assert!(asked[1].starts_with("Send(GetNets { board: DocumentSpecifier { handle: 7"));
    assert!(asked[1].ends_with("netclass_filter: [] })"));
    let listed: Vec<(String, i32)> =
        result.unwrap().into_iter().map(|n| (n.name, n.netcode)).collect();
    assert_eq!(listed[0], (String::new(), 0));
    assert_eq!(listed[2], ("VCC".to_string(), 2));
    assert_eq!(talk(op, vec![documents(), Reply::Nothing]).1.unwrap().len(), 0);
    assert_eq!(
        talk(op, vec![documents(), Reply::Flag(true)]).1.unwrap_err(),
        "Failed to decode protobuf Any body"
    );
}

#[test]
fn a_net_is_found_by_its_name() {
    let c = client();
    let code = |name: &'static str| {
        talk(|log: &Vec<Reply>| c.resolve_net_code(name, log, 0), vec![documents(), nets()]).1
    };
    assert_eq!(code("GND"), Ok(1));
    assert_eq!(code(""), Ok(0));
    assert_eq!(code("X"), Err("Net 'X' not found on board".to_string()));
    let listed = vec![IpcNet { name: "a".to_string(), netcode: 5 }];
    assert_eq!(find_code(&listed, "a"), Some(5));
    assert_eq!(find_code(&listed, "b"), None);
}

#[test]
fn extents_are_those_of_the_first_box() {
    let c = client();
    let op = |log: &Vec<Reply>| c.get_board_extents(log, 0);
    let first = Box2 { position: Some(at(1, 2)), size: None };
    let second = Box2 { position: None, size: None };
    let (asked, result) = talk(op, vec![documents(), Reply::Boxes(vec![first, second])]);
    assert!(asked[1].starts_with("Send(GetBoundingBox {"));
    assert!(asked[1].ends_with("item_ids: [], mode: BbmItemOnly })"));
    let extents = result.unwrap();
    assert_eq!(extents.min, at(1, 2));
    assert_eq!(extents.size, at(0, 0));
    for reply in [Reply::Boxes(vec![]), Reply::Nothing] {
        assert_eq!(
            talk(op, vec![documents(), reply]).1.unwrap_err(),
            "No bounding box returned from KiCAD"
        );
    }
    assert_eq!(
        talk(op, vec![documents(), Reply::Unreadable]).1.unwrap_err(),
        "Failed to decode protobuf Any body"
    );
}

#[test]
fn layers_are_named_as_on_the_board() {
    let c = client();
    let op = |log: &Vec<Reply>| c.get_layers(log, 0);
    let layer = |id, name: Option<&str>| LayerId { id, name: name.map(str::to_string) };
    let (asked, result) = talk(
        op,
        vec![documents(), Reply::Layers(vec![layer(3, Some("BL_F_Cu")), layer(99, None)])],
    );
    assert!(asked[1].starts_with("Send(GetBoardEnabledLayers {"));
    let layers = result.unwrap();
    assert_eq!((layers[0].name.as_str(), layers[0].id), ("F.Cu", 3));
    assert_eq!((layers[1].name.as_str(), layers[1].id), ("UNDEFINED", 99));
    assert_eq!(layers[0].kind, "");
    assert_eq!(talk(op, vec![documents(), Reply::Nothing]).1.unwrap().len(), 0);
}

#[test]
fn prefixes_go_and_underscores_become_dots() {
    for name in ["BL_Edge_Cuts", "BL_BL_x", "BL", "BLx_", "xBL_", "", "BL_", "_BL__"] {
        assert_eq!(
            board_layer_name(name),
            name.trim_start_matches("BL_").replace('_', "."),
            "{name}"
        );
    }
}

fn track(net_name: Option<&str>, layer: BoardLayer) -> Item {
    item(ItemBody::Track(Track {
        id: None,
        start: Some(at(1, 2)),
        end: None,
        width: net_name.map(|_| Distance { value_nm: 150_000 }),
        locked: LockedState::LsUnknown,
        layer,
        net: net_name.map(|name| net(name, Some(1))),
    }))
}

fn tracks(net_filter: Option<&str>, layer_filter: Option<&str>) -> Vec<(String, String)> {
    let c = client();
    let items = vec![
        track(Some("GND"), BoardLayer::BlFCu),
        track(None, BoardLayer::BlBCu),
        item(ItemBody::Unreadable),
        track(Some("GND"), BoardLayer::BlOther(77)),
    ];
    let (asked, result) = talk(
        |log: &Vec<Reply>| c.get_tracks(net_filter, layer_filter, log, 0),
        vec![documents(), Reply::Items(items)],
    );
    assert!(asked[1].ends_with("kind: KotPcbTrace })"));
    let seen = result.unwrap();
    for t in &seen {
        assert_eq!(t.start, at(1, 2));
        assert_eq!(t.end, at(0, 0));
        assert_eq!(t.width_nm, if t.net_name.is_empty() { 250_000 } else { 150_000 });
    }
    seen.into_iter().map(|t| (t.net_name, t.layer)).collect()
}

#[test]
fn tracks_are_filtered_by_net_and_layer() {
    let row = |net: &str, layer: &str| (net.to_string(), layer.to_string());
    assert_eq!(
        tracks(None, None),
        vec![row("GND", "F.Cu"), row("", "B.Cu"), row("GND", "Unknown")]
    );
    assert_eq!(tracks(Some("GND"), None), vec![row("GND", "F.Cu"), row("GND", "Unknown")]);
    assert_eq!(tracks(None, Some("B.Cu")), vec![row("", "B.Cu")]);
    assert_eq!(tracks(Some(""), None), vec![row("", "B.Cu")]);
    assert_eq!(tracks(Some("GND"), Some("B.Cu")), vec![]);
}

#[test]
fn a_track_is_encoded_and_created() {
    let c = client();
    let op = |log: &Vec<Reply>| c.add_track("VCC", "F.Cu", 250_000, 1, 2, 3, 4, log, 0);
    let created = Reply::Edited {
        status: Some(StatusCode::Okay),
        results: vec![ItemResult {
            status: None,
            item: Some(Any { type_url: String::new(), value: vec![0x0a, 3, 0x0a, 1, b't'] }),
        }],
    };
    let (asked, result) = talk(
        op,
        vec![
            documents(),
            nets(),
            Reply::Bytes(vec![8, 8]),
            documents(),
            Reply::Nothing,
            created,
            Reply::Nothing,
            documents(),
            Reply::Items(vec![item(ItemBody::Unreadable)]),
        ],
    );
    assert!(asked[2].starts_with("EncodeTrack(Track { id: None, start: Some(Vector2 { x_nm: 1"));
    assert!(asked[2].contains("code: Some(NetCode { value: 2 }), name: \"VCC\""));
    assert!(asked[5].ends_with(
        "items: [Any { type_url: \"type.googleapis.com/kiapi.board.types.Track\", value: [8, 8] \
         }], container: None })"
    ));
    assert!(asked[8].ends_with("ids: [\"t\"] })"));
    assert_eq!(result, Ok(()));
    let (asked, result) = talk(
        |log: &Vec<Reply>| c.add_track("X", "F.Cu", 1, 1, 2, 3, 4, log, 0),
        vec![documents(), nets()],
    );
    assert_eq!(asked.len(), 2);
    assert_eq!(result, Err("Net 'X' not found on board".to_string()));
}

#[test]
fn a_track_is_deleted_by_its_identifier() {
    let c = client();
    let (asked, result) = talk(
        |log: &Vec<Reply>| c.delete_track("u1", log, 0),
        vec![documents(), Reply::Nothing],
    );
    assert!(asked[1].ends_with("ids: [\"u1\"] })"));
    assert!(result.unwrap_err().starts_with("DeleteItems requested 1 item(s) but only 0"));
}

fn stack(drill: Option<i64>, pads: &[Option<(i64, i64)>]) -> Option<PadStack> {
    Some(PadStack {
        drill: drill.map(|d| DrillProperties { diameter: Some(at(d, d)) }),
        copper_layers: pads
            .iter()
            .map(|p| PadStackLayer { size: p.map(|(x, y)| at(x, y)) })
            .collect(),
    })
}

fn via(position: Option<Vector2>, code: Option<i32>, pad_stack: Option<PadStack>) -> Item {
    item(ItemBody::Via(Via {
        id: Some(Kiid { value: format!("via-{code:?}") }),
        position,
        net: code.map(|c| net("GND", Some(c))),
        pad_stack,
    }))
}

/// Adds a via at (1.5, -2) on net 1; these vias are then found, and these texts shown.
fn add_via(found: Vec<Item>, shown: &[&str]) -> (Vec<String>, Result<String, String>) {
    let c = client();
    let mut replies = vec![documents(), nets(), Reply::Text("new-uuid".to_string())];
    replies.extend(good_splice());
    replies.push(documents());
    replies.push(Reply::Items(found));
    replies.extend(shown.iter().map(|t| Reply::Text(t.to_string())));
    talk(
        |log: &Vec<Reply>| {
            c.add_via("GND", &mm(1.5), &mm(-2.0), &mm(0.4), &mm(0.8), log, 0)
        },
        replies,
    )
}

fn place() -> Option<Vector2> {
    Some(at(1_500_000, -2_000_000))
}

const GOOD: Option<(i64, i64)> = Some((800_000, 800_000));

#[test]
fn a_via_is_spliced_in_and_found_again() {
    let found = vec![
        item(ItemBody::Unreadable),
        via(place(), Some(2), None),
        via(None, Some(1), None),
        via(place(), Some(1), stack(Some(400_000), &[GOOD, GOOD])),
    ];
    let (asked, result) = add_via(found, &[]);
    assert_eq!(asked[2], "NewUuid");
    assert_eq!(asked[3], "Lock");
    let written = &asked[11];
    assert!(written.starts_with("WriteText { path: \"/p/b.kicad_pcb\", text: \"(kicad_pcb\\n(via "));
    assert!(written.contains("(at 1.5 -2) (size 0.8) (drill 0.4)"));
    assert!(written.contains("(net \\\"GND\\\") (uuid \\\"new-uuid\\\")"));
    assert_eq!(asked[14], "Unlock");
    assert!(asked[16].ends_with("kind: KotPcbVia })"));
    assert_eq!(result, Ok("via-Some(1)".to_string()));
}

#[test]
fn a_via_without_net_is_on_net_zero() {
    let c = client();
    let mut replies = vec![documents(), nets(), Reply::Text("u".to_string())];
    replies.extend(good_splice());
    replies.push(documents());
    replies.push(Reply::Items(vec![via(
        Some(at(0, 0)),
        None,
        stack(Some(400_000), &[GOOD]),
    )]));
    let (_, result) = talk(
        |log: &Vec<Reply>| c.add_via("", &mm(0.0), &mm(0.0), &mm(0.4), &mm(0.8), log, 0),
        replies,
    );
    assert_eq!(result, Ok("via-None".to_string()));
}

#[test]
fn a_via_that_is_not_there_is_an_error() {
    assert_eq!(
        add_via(vec![], &[]).1.unwrap_err(),
        "placed via at (1.5, -2) on net 'GND' but it's not visible on the board after reload"
    );
}

#[test]
fn a_via_with_the_wrong_geometry_is_an_error() {
    let fails = |pad_stack, shown: &[&str]| {
        add_via(vec![via(place(), Some(1), pad_stack)], shown).1.unwrap_err()
    };
    assert_eq!(
        fails(None, &[]),
        "via at (1.5, -2) on net 'GND' matched position/net but has no pad_stack in the \
         re-queried item — can't confirm drill/pad size"
    );
    assert_eq!(
        fails(stack(None, &[GOOD]), &[]),
        "via at (1.5, -2) on net 'GND' has no drill diameter in its re-queried pad_stack — can't \
         confirm it matches the requested 0.4mm"
    );
    assert_eq!(
        fails(stack(Some(300_000), &[GOOD]), &["0.3"]),
        "via at (1.5, -2) on net 'GND' was created with drill 0.3mm, not the requested 0.4mm"
    );
    assert_eq!(
        fails(stack(Some(400_000), &[]), &[]),
        "via at (1.5, -2) on net 'GND' has no copper_layers in its re-queried pad_stack — can't \
         confirm pad size matches the requested 0.8mm"
    );
    assert_eq!(
        fails(stack(Some(400_000), &[GOOD, None]), &[]),
        "via at (1.5, -2) on net 'GND' has a copper_layers entry with no size — can't confirm \
         pad size matches the requested 0.8mm"
    );
    assert_eq!(
        fails(stack(Some(400_000), &[GOOD, Some((800_000, 700_000))]), &["0.8", "0.7"]),
        "via at (1.5, -2) on net 'GND' was created with pad size 0.8x0.7mm, not the requested \
         0.8mm"
    );
}

#[test]
fn the_actual_size_is_asked_for_in_millimetres() {
    let found = vec![via(place(), Some(1), stack(Some(400_000), &[Some((1, 2))]))];
    let (asked, _) = add_via(found, &["a", "b"]);
    assert_eq!(asked[17], "ShowMm { nm: 1 }");
    assert_eq!(asked[18], "ShowMm { nm: 2 }");
}

#[test]
fn only_the_first_via_that_fits_counts() {
    let found = vec![
        via(place(), Some(1), None),
        via(place(), Some(1), stack(Some(400_000), &[GOOD])),
    ];
    assert!(add_via(found, &[]).1.unwrap_err().contains("has no pad_stack"));
}
