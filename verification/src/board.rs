//! What is on the board: nets, layers, extents, tracks and vias.
use vstd::prelude::*;
use vstd::string::*;

use crate::builders::{build_track, layer_enum_to_name, layer_name, track_model};
use crate::client::KiCadIpcClient;
use crate::documents::{get_board_document_turn, make_header_turn};
use crate::items::{create_items_turn, delete_items_turn, fetch_items_turn};
use crate::laws::editing::the_requested_items_are_deleted;
use crate::sexp::{via_clause, via_sexp};
use crate::splice::save_splice_revert_turn;
use crate::talk::{
    error, exchange, hear, unreadable, unreadable_error, BoundingBoxMode, Command, CommandModel,
    DocumentSpecifier, IpcError, Item, ItemBody, ItemHeader, ItemList, KiCadObjectType, LayerId,
    Query, Reply, Request, Step, Turn,
};
use crate::text::{chars_of, copy_bytes, same_text};
use crate::types::{
    origin, position_or_origin, IpcBoardExtents, IpcLayer, IpcLayerModel, IpcNet, IpcNetModel,
    IpcTrack, IpcTrackModel, Mm, MmModel, Net, NetCode, PadStack, PadStackLayer, Track, Vector2,
    Via,
};
use crate::wire::{pack_any, packed, Any};

verus! {

// ------------------------------------------------------------ nets

/// The code of a net; 0 if it has none.
pub open spec fn net_code(code: Option<NetCode>) -> i32 {
    match code {
        Some(c) => c.value,
        None => 0,
    }
}

/// A net as callers see it.
pub open spec fn net_seen(net: Net) -> IpcNetModel {
    IpcNetModel { name: net.name@, netcode: net_code(net.code) }
}

/// The nets that a reply lists.
pub open spec fn nets_in(reply: Reply) -> Option<Seq<IpcNetModel>> {
    match reply {
        Reply::Nets(nets) => Some(nets@.map_values(|net: Net| net_seen(net))),
        Reply::Nothing => Some(seq![]),
        _ => None,
    }
}

/// The nets of the board.
pub open spec fn get_nets_turn(log: Seq<Reply>, at: int) -> Turn<Seq<IpcNetModel>> {
    get_board_document_turn(log, at).and_then(
        |board: DocumentSpecifier, n: int|
            exchange(
                Query::Send(CommandModel::GetNets { board, netclass_filter: seq![] }),
                log,
                n,
            ),
    ).and_then(
        |reply: Reply, n: int|
            match nets_in(reply) {
                Some(nets) => Turn::Done(Ok(nets), n),
                None => Turn::Done(Err(unreadable()), n),
            },
    )
}

/// The code of the first net with the given name.
pub open spec fn code_of(nets: Seq<IpcNetModel>, name: Seq<char>) -> Option<i32>
    decreases nets.len(),
{
    if nets.len() == 0 {
        None
    } else if nets[0].name == name {
        Some(nets[0].netcode)
    } else {
        code_of(nets.drop_first(), name)
    }
}

/// The text for a net that is not on the board.
pub open spec fn no_such_net(name: Seq<char>) -> Seq<char> {
    "Net '"@ + name + "' not found on board"@
}

/// The code of the net with the given name.
pub open spec fn resolve_net_code_turn(name: Seq<char>, log: Seq<Reply>, at: int) -> Turn<i32> {
    get_nets_turn(log, at).and_then(
        |nets: Seq<IpcNetModel>, n: int|
            match code_of(nets, name) {
                Some(code) => Turn::Done(Ok(code), n),
                None => Turn::Done(Err(no_such_net(name)), n),
            },
    )
}

// ------------------------------------------------------------ extents and layers

/// A position, or the origin.
pub open spec fn or_origin(position: Option<Vector2>) -> Vector2 {
    match position {
        Some(p) => p,
        None => origin(),
    }
}

/// The extents that a reply gives: those of the first box in it.
pub open spec fn extents_in(reply: Reply) -> Result<IpcBoardExtents, Seq<char>> {
    match reply {
        Reply::Boxes(boxes) => if boxes@.len() > 0 {
            Ok(
                IpcBoardExtents {
                    min: or_origin(boxes@[0].position),
                    size: or_origin(boxes@[0].size),
                },
            )
        } else {
            Err("No bounding box returned from KiCAD"@)
        },
        Reply::Nothing => Err("No bounding box returned from KiCAD"@),
        _ => Err(unreadable()),
    }
}

/// The bounding box of everything on the board.
pub open spec fn get_board_extents_turn(log: Seq<Reply>, at: int) -> Turn<IpcBoardExtents> {
    make_header_turn(log, at).and_then(
        |header: ItemHeader, n: int|
            exchange(
                Query::Send(
                    CommandModel::GetBoundingBox {
                        header,
                        item_ids: seq![],
                        mode: BoundingBoxMode::BbmItemOnly,
                    },
                ),
                log,
                n,
            ),
    ).and_then(|reply: Reply, n: int| Turn::Done(extents_in(reply), n))
}

/// `s` starts with `BL_`.
pub open spec fn has_prefix(s: Seq<char>) -> bool {
    s.len() >= 3 && s[0] == 'B' && s[1] == 'L' && s[2] == '_'
}

/// `s` without `BL_` at its start, as often as it stands there.
pub open spec fn without_prefix(s: Seq<char>) -> Seq<char>
    decreases s.len(),
{
    if has_prefix(s) {
        without_prefix(s.skip(3))
    } else {
        s
    }
}

/// `s` with a dot for each underscore.
pub open spec fn dotted(s: Seq<char>) -> Seq<char> {
    s.map_values(
        |c: char|
            if c == '_' {
                '.'
            } else {
                c
            },
    )
}

/// A layer as callers see it: named as on the board, not as in the protocol.
pub open spec fn layer_seen(layer: LayerId) -> IpcLayerModel {
    IpcLayerModel {
        name: dotted(
            without_prefix(
                match layer.name {
                    Some(name) => name@,
                    None => "BL_UNDEFINED"@,
                },
            ),
        ),
        id: layer.id,
        kind: seq![],
    }
}

/// The layers that a reply lists.
pub open spec fn layers_in(reply: Reply) -> Option<Seq<IpcLayerModel>> {
    match reply {
        Reply::Layers(layers) => Some(layers@.map_values(|layer: LayerId| layer_seen(layer))),
        Reply::Nothing => Some(seq![]),
        _ => None,
    }
}

/// The enabled layers of the board.
pub open spec fn get_layers_turn(log: Seq<Reply>, at: int) -> Turn<Seq<IpcLayerModel>> {
    get_board_document_turn(log, at).and_then(
        |board: DocumentSpecifier, n: int|
            exchange(Query::Send(CommandModel::GetBoardEnabledLayers { board }), log, n),
    ).and_then(
        |reply: Reply, n: int|
            match layers_in(reply) {
                Some(layers) => Turn::Done(Ok(layers), n),
                None => Turn::Done(Err(unreadable()), n),
            },
    )
}

// ------------------------------------------------------------ tracks

/// The width that stands for one that is absent.
pub const DEFAULT_WIDTH_NM: i64 = 250_000;

/// A track as callers see it.
pub open spec fn track_seen(track: Track) -> IpcTrackModel {
    IpcTrackModel {
        net_name: match track.net {
            Some(net) => net.name@,
            None => seq![],
        },
        layer: layer_name(track.layer),
        width_nm: match track.width {
            Some(width) => width.value_nm,
            None => DEFAULT_WIDTH_NM,
        },
        start: or_origin(track.start),
        end: or_origin(track.end),
    }
}

/// A filter that is absent, or is the text itself, lets a text pass.
pub open spec fn passes(filter: Option<Seq<char>>, text: Seq<char>) -> bool {
    match filter {
        Some(wanted) => text == wanted,
        None => true,
    }
}

/// The tracks among `items` on the given net and layer, in order.
pub open spec fn tracks_among(
    items: Seq<Item>,
    net_filter: Option<Seq<char>>,
    layer_filter: Option<Seq<char>>,
) -> Seq<IpcTrackModel>
    decreases items.len(),
{
    if items.len() == 0 {
        seq![]
    } else {
        let before = tracks_among(items.drop_last(), net_filter, layer_filter);
        match items.last().body {
            ItemBody::Track(track) => if passes(net_filter, track_seen(track).net_name) && passes(
                layer_filter,
                track_seen(track).layer,
            ) {
                before.push(track_seen(track))
            } else {
                before
            },
            _ => before,
        }
    }
}

/// The tracks of the board on the given net and layer.
pub open spec fn get_tracks_turn(
    net_filter: Option<Seq<char>>,
    layer_filter: Option<Seq<char>>,
    log: Seq<Reply>,
    at: int,
) -> Turn<Seq<IpcTrackModel>> {
    fetch_items_turn(KiCadObjectType::KotPcbTrace, log, at).and_then(
        |items: Seq<Item>, n: int|
            Turn::Done(Ok(tracks_among(items, net_filter, layer_filter)), n),
    )
}

/// Creating the item of the given type whose encoding a reply holds.
pub open spec fn create_encoded_turn(
    reply: Reply,
    message_type: Seq<char>,
    log: Seq<Reply>,
    at: int,
) -> Turn<()> {
    match reply {
        Reply::Bytes(bytes) => create_items_turn(seq![packed(bytes@, message_type)], log, at),
        _ => Turn::Done(Err(unreadable()), at),
    }
}

/// Adding a track.
pub open spec fn add_track_turn(
    net_name: Seq<char>,
    layer: Seq<char>,
    width_nm: i64,
    start: Vector2,
    end: Vector2,
    log: Seq<Reply>,
    at: int,
) -> Turn<()> {
    resolve_net_code_turn(net_name, log, at).and_then(
        |code: i32, n: int|
            exchange(
                Query::EncodeTrack(track_model(net_name, code, layer, width_nm, start, end)),
                log,
                n,
            ),
    ).and_then(
        |reply: Reply, n: int|
            create_encoded_turn(reply, "kiapi.board.types.Track"@, log, n),
    )
}

// ------------------------------------------------------------ vias

/// The reply holds a text.
pub open spec fn text_turn(query: Query, log: Seq<Reply>, at: int) -> Turn<Seq<char>> {
    exchange(query, log, at).and_then(
        |reply: Reply, n: int|
            match reply {
                Reply::Text(text) => Turn::Done(Ok(text@), n),
                _ => Turn::Done(Err(unreadable()), n),
            },
    )
}

/// Asks for a text.
pub fn ask_text(request: Request, log: &Vec<Reply>, at: usize) -> (s: Step<String>)
    requires
        at <= log@.len(),
    ensures
        s.deep_view() == text_turn(request.deep_view(), log@, at as int),
        s.within(at as int, log@),
{
    match hear(request, log, at) {
        Step::Ask(q) => Step::Ask(q),
        Step::Done(Err(e), n) => Step::Done(Err(e), n),
        Step::Done(Ok(Reply::Text(text)), n) => Step::Done(Ok(text.clone()), n),
        Step::Done(Ok(_), n) => Step::Done(Err(unreadable_error()), n),
    }
}

/// The item is a via at the given position, on the net with the given code.
pub open spec fn is_via_at(item: Item, position: Vector2, code: i32) -> bool {
    &&& item.body matches ItemBody::Via(via)
    &&& or_origin(via.position) == position
    &&& net_code(
        match via.net {
            Some(net) => net.code,
            None => None,
        },
    ) == code
}

/// Where the first via at the given position and on the given net is among `items`, from
/// `from` on.
pub open spec fn find_via(items: Seq<Item>, position: Vector2, code: i32, from: int) -> Option<int>
    decreases items.len() - from,
{
    if !(0 <= from < items.len()) {
        None
    } else if is_via_at(items[from], position, code) {
        Some(from)
    } else {
        find_via(items, position, code, from + 1)
    }
}

/// How a via is named in errors.
pub open spec fn via_named(net_name: Seq<char>, x: MmModel, y: MmModel) -> Seq<char> {
    "via at ("@ + x.text + ", "@ + y.text + ") on net '"@ + net_name + "'"@
}

/// The diameter of the drill in a pad stack.
pub open spec fn drill_in(stack: PadStack) -> Option<i64> {
    match stack.drill {
        Some(drill) => match drill.diameter {
            Some(diameter) => Some(diameter.x_nm),
            None => None,
        },
        None => None,
    }
}

/// Where the first layer is, from `from` on, whose pad is not `size_nm` wide and high.
pub open spec fn find_bad_layer(layers: Seq<PadStackLayer>, size_nm: i64, from: int) -> Option<int>
    decreases layers.len() - from,
{
    if !(0 <= from < layers.len()) {
        None
    } else if layers[from].size == Some(Vector2 { x_nm: size_nm, y_nm: size_nm }) {
        find_bad_layer(layers, size_nm, from + 1)
    } else {
        Some(from)
    }
}

/// The text for a via with another drill than the requested one.
pub open spec fn wrong_drill(name: Seq<char>, actual: Seq<char>, drill: Seq<char>) -> Seq<char> {
    name + " was created with drill "@ + actual + "mm, not the requested "@ + drill + "mm"@
}

/// The text for a via with another pad than the requested one.
pub open spec fn wrong_pad(
    name: Seq<char>,
    width: Seq<char>,
    height: Seq<char>,
    pad: Seq<char>,
) -> Seq<char> {
    name + " was created with pad size "@ + width + "x"@ + height + "mm, not the requested "@ + pad
        + "mm"@
}

/// The pads of a via, on every copper layer, must have the requested size.
pub open spec fn check_pads_turn(
    name: Seq<char>,
    layers: Seq<PadStackLayer>,
    pad: MmModel,
    log: Seq<Reply>,
    at: int,
) -> Turn<()> {
    if layers.len() == 0 {
        Turn::Done(
            Err(
                name
                    + " has no copper_layers in its re-queried pad_stack — can't confirm pad size matches the requested "@
                    + pad.text + "mm"@,
            ),
            at,
        )
    } else {
        match find_bad_layer(layers, pad.nm, 0) {
            None => Turn::Done(Ok(()), at),
            Some(i) => match layers[i].size {
                None => Turn::Done(
                    Err(
                        name
                            + " has a copper_layers entry with no size — can't confirm pad size matches the requested "@
                            + pad.text + "mm"@,
                    ),
                    at,
                ),
                Some(size) => text_turn(Query::ShowMm { nm: size.x_nm }, log, at).and_then(
                    |width: Seq<char>, n: int|
                        text_turn(Query::ShowMm { nm: size.y_nm }, log, n).and_then(
                            |height: Seq<char>, n: int|
                                Turn::Done(Err(wrong_pad(name, width, height, pad.text)), n),
                        ),
                ),
            },
        }
    }
}

/// The drill of a via must have the requested diameter.
pub open spec fn check_drill_turn(
    name: Seq<char>,
    stack: PadStack,
    drill: MmModel,
    log: Seq<Reply>,
    at: int,
) -> Turn<()> {
    match drill_in(stack) {
        None => Turn::Done(
            Err(
                name
                    + " has no drill diameter in its re-queried pad_stack — can't confirm it matches the requested "@
                    + drill.text + "mm"@,
            ),
            at,
        ),
        Some(actual) => if actual == drill.nm {
            Turn::Done(Ok(()), at)
        } else {
            text_turn(Query::ShowMm { nm: actual }, log, at).and_then(
                |shown: Seq<char>, n: int|
                    Turn::Done(Err(wrong_drill(name, shown, drill.text)), n),
            )
        },
    }
}

/// A via found on the board must have the requested drill and pads.
pub open spec fn check_via_turn(
    name: Seq<char>,
    via: Via,
    drill: MmModel,
    pad: MmModel,
    log: Seq<Reply>,
    at: int,
) -> Turn<()> {
    match via.pad_stack {
        None => Turn::Done(
            Err(
                name
                    + " matched position/net but has no pad_stack in the re-queried item — can't confirm drill/pad size"@,
            ),
            at,
        ),
        Some(stack) => check_drill_turn(name, stack, drill, log, at).and_then(
            |drilled: (), n: int| check_pads_turn(name, stack.copper_layers@, pad, log, n),
        ),
    }
}

/// The identifier of a via, or nothing.
pub open spec fn via_kiid(via: Via) -> Seq<char> {
    match via.id {
        Some(id) => id.value@,
        None => seq![],
    }
}

/// The text for a via that is not on the board.
pub open spec fn via_missing(net_name: Seq<char>, x: MmModel, y: MmModel) -> Seq<char> {
    "placed "@ + via_named(net_name, x, y) + " but it's not visible on the board after reload"@
}

/// Among the vias of the board there must be the requested one. The value is its identifier.
pub open spec fn confirm_via_turn(
    items: Seq<Item>,
    net_name: Seq<char>,
    code: i32,
    x: MmModel,
    y: MmModel,
    drill: MmModel,
    pad: MmModel,
    log: Seq<Reply>,
    at: int,
) -> Turn<Seq<char>> {
    match find_via(items, Vector2 { x_nm: x.nm, y_nm: y.nm }, code, 0) {
        None => Turn::Done(Err(via_missing(net_name, x, y)), at),
        Some(i) => match items[i].body {
            ItemBody::Via(via) => check_via_turn(
                via_named(net_name, x, y),
                via,
                drill,
                pad,
                log,
                at,
            ).and_then(|checked: (), n: int| Turn::Done(Ok(via_kiid(via)), n)),
            _ => Turn::Done(Err(via_missing(net_name, x, y)), at),
        },
    }
}

/// Putting a via on the board: its clause, with a fresh identifier, is spliced in and loaded. The
/// value is the code, which is handed on, and that identifier.
pub open spec fn splice_via_turn(
    net_name: Seq<char>,
    code: i32,
    x: MmModel,
    y: MmModel,
    drill: MmModel,
    pad: MmModel,
    log: Seq<Reply>,
    at: int,
) -> Turn<(i32, Seq<char>)> {
    text_turn(Query::NewUuid, log, at).and_then(
        |uuid: Seq<char>, n: int|
            save_splice_revert_turn(
                via_clause(net_name, x.text, y.text, drill.text, pad.text, uuid),
                log,
                n,
            ).and_then(|spliced: (), n: int| Turn::Done(Ok((code, uuid)), n)),
    )
}

/// Putting a via on the net with the given name on the board. The value is the code of the net,
/// and the identifier that the via was written with.
pub open spec fn load_via_turn(
    net_name: Seq<char>,
    x: MmModel,
    y: MmModel,
    drill: MmModel,
    pad: MmModel,
    log: Seq<Reply>,
    at: int,
) -> Turn<(i32, Seq<char>)> {
    resolve_net_code_turn(net_name, log, at).and_then(
        |code: i32, n: int| splice_via_turn(net_name, code, x, y, drill, pad, log, n),
    )
}

/// Looking for a via on the board. The value is the identifier of the via that is found.
pub open spec fn see_via_turn(
    net_name: Seq<char>,
    code: i32,
    x: MmModel,
    y: MmModel,
    drill: MmModel,
    pad: MmModel,
    log: Seq<Reply>,
    at: int,
) -> Turn<Seq<char>> {
    fetch_items_turn(KiCadObjectType::KotPcbVia, log, at).and_then(
        |items: Seq<Item>, n: int|
            confirm_via_turn(items, net_name, code, x, y, drill, pad, log, n),
    )
}

/// Adding a via. The value is the identifier of the via that is then found on the board.
pub open spec fn add_via_turn(
    net_name: Seq<char>,
    x: MmModel,
    y: MmModel,
    drill: MmModel,
    pad: MmModel,
    log: Seq<Reply>,
    at: int,
) -> Turn<Seq<char>> {
    load_via_turn(net_name, x, y, drill, pad, log, at).and_then(
        |loaded: (i32, Seq<char>), n: int|
            see_via_turn(net_name, loaded.0, x, y, drill, pad, log, n),
    )
}

// ------------------------------------------------------------ parts of the operations

fn see_nets(nets: &Vec<Net>) -> (r: Vec<IpcNet>)
    ensures
        r.deep_view() == nets@.map_values(|net: Net| net_seen(net)),
{
    let mut r: Vec<IpcNet> = Vec::new();
    let mut i: usize = 0;
    while i < nets.len()
        invariant
            i <= nets@.len(),
            r@.len() == i,
            forall|j: int| 0 <= j < i ==> (#[trigger] r@[j]).deep_view() == net_seen(nets@[j]),
        decreases nets@.len() - i,
    {
        let netcode: i32 = match &nets[i].code {
            Some(code) => code.value,
            None => 0,
        };
        r.push(IpcNet { name: nets[i].name.clone(), netcode });
        i = i + 1;
    }
    assert(r.deep_view() =~= nets@.map_values(|net: Net| net_seen(net)));
    r
}

/// The code of the first net with the given name.
pub fn find_code(nets: &Vec<IpcNet>, name: &str) -> (r: Option<i32>)
    ensures
        r == code_of(nets.deep_view(), name@),
{
    let mut i: usize = 0;
    assert(nets.deep_view().skip(0) =~= nets.deep_view());
    while i < nets.len()
        invariant
            i <= nets@.len(),
            nets.deep_view().len() == nets@.len(),
            code_of(nets.deep_view().skip(i as int), name@) == code_of(nets.deep_view(), name@),
        decreases nets@.len() - i,
    {
        assert(nets.deep_view().skip(i as int)[0] == nets@[i as int].deep_view());
        if same_text(nets[i].name.as_str(), name) {
            return Some(nets[i].netcode);
        }
        assert(nets.deep_view().skip(i as int).drop_first() =~= nets.deep_view().skip(i + 1));
        i = i + 1;
    }
    None
}

/// The name of a layer on the board, from its name in the protocol.
pub fn board_layer_name(name: &str) -> (r: String)
    ensures
        r@ == dotted(without_prefix(name@)),
{
    let cs = chars_of(name);
    let len: usize = cs.len();
    let mut start: usize = 0;
    assert(name@.skip(0) =~= name@);
    while len - start >= 3 && cs[start] == 'B' && cs[start + 1] == 'L' && cs[start + 2] == '_'
        invariant
            cs@ == name@,
            start <= len == cs@.len(),
            without_prefix(name@.skip(start as int)) == without_prefix(name@),
        decreases len - start,
    {
        assert(name@.skip(start as int).skip(3) =~= name@.skip(start + 3));
        start = start + 3;
    }
    let ghost rest = name@.skip(start as int);
    assert(without_prefix(name@) == rest);
    let mut r = String::new();
    let mut i: usize = start;
    assert(dotted(rest).take(0) =~= r@);
    while i < len
        invariant
            cs@ == name@,
            start <= i <= len == cs@.len(),
            rest == name@.skip(start as int),
            r@ == dotted(rest).take(i - start),
        decreases len - i,
    {
        assert(dotted(rest).take(i + 1 - start) =~= dotted(rest).take(i - start).push(
            dotted(rest)[i - start],
        ));
        if cs[i] == '_' {
            proof {
                reveal_strlit(".");
            }
            assert(r@ + "."@ =~= r@.push('.'));
            r.append(".");
        } else {
            let one = name.substring_char(i, i + 1);
            assert(r@ + one@ =~= r@.push(name@[i as int]));
            r.append(one);
        }
        i = i + 1;
    }
    assert(dotted(rest).take(i - start) =~= dotted(rest));
    r
}

fn see_layers(layers: &Vec<LayerId>) -> (r: Vec<IpcLayer>)
    ensures
        r.deep_view() == layers@.map_values(|layer: LayerId| layer_seen(layer)),
{
    let mut r: Vec<IpcLayer> = Vec::new();
    let mut i: usize = 0;
    while i < layers.len()
        invariant
            i <= layers@.len(),
            r@.len() == i,
            forall|j: int| 0 <= j < i ==> (#[trigger] r@[j]).deep_view() == layer_seen(layers@[j]),
        decreases layers@.len() - i,
    {
        let name = match &layers[i].name {
            Some(name) => board_layer_name(name.as_str()),
            None => board_layer_name("BL_UNDEFINED"),
        };
        let kind = String::new();
        assert(kind@ =~= seq![]);
        r.push(IpcLayer { name, id: layers[i].id, kind });
        i = i + 1;
    }
    assert(r.deep_view() =~= layers@.map_values(|layer: LayerId| layer_seen(layer)));
    r
}

fn see_track(track: &Track) -> (r: IpcTrack)
    ensures
        r.deep_view() == track_seen(*track),
{
    let net_name = match &track.net {
        Some(net) => net.name.clone(),
        None => String::new(),
    };
    assert(net_name@ =~= track_seen(*track).net_name);
    let width_nm: i64 = match &track.width {
        Some(width) => width.value_nm,
        None => DEFAULT_WIDTH_NM,
    };
    IpcTrack {
        net_name,
        layer: layer_enum_to_name(track.layer).to_string(),
        width_nm,
        start: position_or_origin(&track.start),
        end: position_or_origin(&track.end),
    }
}

fn lets_pass(filter: Option<&str>, text: &str) -> (b: bool)
    ensures
        b == passes(
            match filter {
                Some(wanted) => Some(wanted@),
                None => None,
            },
            text@,
        ),
{
    match filter {
        Some(wanted) => same_text(text, wanted),
        None => true,
    }
}

/// What a filter holds.
pub open spec fn filter_text(filter: Option<&str>) -> Option<Seq<char>> {
    match filter {
        Some(wanted) => Some(wanted@),
        None => None,
    }
}

/// The tracks among `items` on the given net and layer, in order.
pub fn pick_tracks(items: &ItemList, net_filter: Option<&str>, layer_filter: Option<&str>) -> (r:
    Vec<IpcTrack>)
    ensures
        r.deep_view() == tracks_among(
            items.deep_view(),
            filter_text(net_filter),
            filter_text(layer_filter),
        ),
{
    let mut r: Vec<IpcTrack> = Vec::new();
    let len: usize = items.len();
    let mut i: usize = 0;
    let ghost all = items.deep_view();
    assert(r.deep_view() =~= seq![]);
    assert(all.take(0) =~= seq![]);
    while i < len
        invariant
            i <= len == all.len(),
            all == items.deep_view(),
            r.deep_view() == tracks_among(
                all.take(i as int),
                filter_text(net_filter),
                filter_text(layer_filter),
            ),
        decreases len - i,
    {
        let item = items.get(i);
        let ghost before = r.deep_view();
        assert(all.take(i + 1).drop_last() =~= all.take(i as int));
        assert(all.take(i + 1).last() == *item);
        if let ItemBody::Track(track) = &item.body {
            let seen = see_track(track);
            if lets_pass(net_filter, seen.net_name.as_str()) && lets_pass(
                layer_filter,
                seen.layer.as_str(),
            ) {
                let ghost model = seen.deep_view();
                r.push(seen);
                assert(r.deep_view() =~= before.push(model));
            }
        }
        i = i + 1;
    }
    assert(all.take(i as int) =~= all);
    r
}

fn via_is_at(item: &Item, position: Vector2, code: i32) -> (b: bool)
    ensures
        b == is_via_at(*item, position, code),
{
    if let ItemBody::Via(via) = &item.body {
        let found = position_or_origin(&via.position);
        let found_code: i32 = match &via.net {
            Some(net) => match &net.code {
                Some(c) => c.value,
                None => 0,
            },
            None => 0,
        };
        found.x_nm == position.x_nm && found.y_nm == position.y_nm && found_code == code
    } else {
        false
    }
}

fn search_via(items: &ItemList, position: Vector2, code: i32) -> (r: Option<usize>)
    ensures
        match r {
            Some(i) => find_via(items.deep_view(), position, code, 0) == Some(i as int) && i
                < items.deep_view().len() && is_via_at(
                items.deep_view()[i as int],
                position,
                code,
            ),
            None => find_via(items.deep_view(), position, code, 0) is None,
        },
{
    let len: usize = items.len();
    let mut i: usize = 0;
    while i < len
        invariant
            i <= len == items.deep_view().len(),
            find_via(items.deep_view(), position, code, 0) == find_via(
                items.deep_view(),
                position,
                code,
                i as int,
            ),
        decreases len - i,
    {
        if via_is_at(items.get(i), position, code) {
            return Some(i);
        }
        i = i + 1;
    }
    None
}

fn search_bad_layer(layers: &Vec<PadStackLayer>, size_nm: i64) -> (r: Option<usize>)
    ensures
        match r {
            Some(i) => find_bad_layer(layers@, size_nm, 0) == Some(i as int) && i < layers@.len(),
            None => find_bad_layer(layers@, size_nm, 0) is None,
        },
{
    let mut i: usize = 0;
    while i < layers.len()
        invariant
            i <= layers@.len(),
            find_bad_layer(layers@, size_nm, 0) == find_bad_layer(layers@, size_nm, i as int),
        decreases layers@.len() - i,
    {
        let good = match &layers[i].size {
            Some(size) => size.x_nm == size_nm && size.y_nm == size_nm,
            None => false,
        };
        if !good {
            return Some(i);
        }
        i = i + 1;
    }
    None
}

fn name_via(net_name: &str, x: &Mm, y: &Mm) -> (name: String)
    ensures
        name@ == via_named(net_name@, x.deep_view(), y.deep_view()),
{
    let mut name = "via at (".to_string();
    name.append(x.text.as_str());
    name.append(", ");
    name.append(y.text.as_str());
    name.append(") on net '");
    name.append(net_name);
    name.append("'");
    name
}

/// `name`, and what is wrong with the via, up to the length that was requested.
fn complaint(name: &str, what: &str, requested: &Mm) -> (e: IpcError)
    ensures
        e@ == name@ + what@ + requested.text@ + "mm"@,
{
    let mut text = name.to_string();
    text.append(what);
    text.append(requested.text.as_str());
    text.append("mm");
    IpcError { text }
}

fn check_pads(
    name: &str,
    layers: &Vec<PadStackLayer>,
    pad: &Mm,
    log: &Vec<Reply>,
    at: usize,
) -> (s: Step<()>)
    requires
        at <= log@.len(),
    ensures
        s.deep_view() == check_pads_turn(name@, layers@, pad.deep_view(), log@, at as int),
        s.within(at as int, log@),
{
    if layers.len() == 0 {
        return Step::Done(
            Err(
                complaint(
                    name,
                    " has no copper_layers in its re-queried pad_stack — can't confirm pad size matches the requested ",
                    pad,
                ),
            ),
            at,
        );
    }
    let i: usize = match search_bad_layer(layers, pad.nm) {
        Some(i) => i,
        None => {
            return Step::Done(Ok(()), at);
        },
    };
    let size = match &layers[i].size {
        Some(size) => *size,
        None => {
            return Step::Done(
                Err(
                    complaint(
                        name,
                        " has a copper_layers entry with no size — can't confirm pad size matches the requested ",
                        pad,
                    ),
                ),
                at,
            );
        },
    };
    let (width, n) = match ask_text(Request::ShowMm { nm: size.x_nm }, log, at) {
        Step::Done(Ok(width), n) => (width, n),
        Step::Done(Err(e), n) => {
            return Step::Done(Err(e), n);
        },
        Step::Ask(q) => {
            return Step::Ask(q);
        },
    };
    let (height, n) = match ask_text(Request::ShowMm { nm: size.y_nm }, log, n) {
        Step::Done(Ok(height), n) => (height, n),
        Step::Done(Err(e), n) => {
            return Step::Done(Err(e), n);
        },
        Step::Ask(q) => {
            return Step::Ask(q);
        },
    };
    let mut text = name.to_string();
    text.append(" was created with pad size ");
    text.append(width.as_str());
    text.append("x");
    text.append(height.as_str());
    text.append("mm, not the requested ");
    text.append(pad.text.as_str());
    text.append("mm");
    Step::Done(Err(IpcError { text }), n)
}

fn check_drill(
    name: &str,
    stack: &PadStack,
    drill: &Mm,
    log: &Vec<Reply>,
    at: usize,
) -> (s: Step<()>)
    requires
        at <= log@.len(),
    ensures
        s.deep_view() == check_drill_turn(name@, *stack, drill.deep_view(), log@, at as int),
        s.within(at as int, log@),
{
    let diameter: Option<i64> = match &stack.drill {
        Some(found) => match &found.diameter {
            Some(d) => Some(d.x_nm),
            None => None,
        },
        None => None,
    };
    let actual: i64 = match diameter {
        Some(nm) => nm,
        None => {
            return Step::Done(
                Err(
                    complaint(
                        name,
                        " has no drill diameter in its re-queried pad_stack — can't confirm it matches the requested ",
                        drill,
                    ),
                ),
                at,
            );
        },
    };
    if actual == drill.nm {
        return Step::Done(Ok(()), at);
    }
    match ask_text(Request::ShowMm { nm: actual }, log, at) {
        Step::Ask(q) => Step::Ask(q),
        Step::Done(Err(e), n) => Step::Done(Err(e), n),
        Step::Done(Ok(shown), n) => {
            let mut text = name.to_string();
            text.append(" was created with drill ");
            text.append(shown.as_str());
            text.append("mm, not the requested ");
            text.append(drill.text.as_str());
            text.append("mm");
            Step::Done(Err(IpcError { text }), n)
        },
    }
}

fn check_via(
    name: &str,
    via: &Via,
    drill: &Mm,
    pad: &Mm,
    log: &Vec<Reply>,
    at: usize,
) -> (s: Step<()>)
    requires
        at <= log@.len(),
    ensures
        s.deep_view() == check_via_turn(
            name@,
            *via,
            drill.deep_view(),
            pad.deep_view(),
            log@,
            at as int,
        ),
        s.within(at as int, log@),
{
    match &via.pad_stack {
        None => {
            let mut text = name.to_string();
            text.append(
                " matched position/net but has no pad_stack in the re-queried item — can't confirm drill/pad size",
            );
            Step::Done(Err(IpcError { text }), at)
        },
        Some(stack) => match check_drill(name, stack, drill, log, at) {
            Step::Ask(q) => Step::Ask(q),
            Step::Done(Err(e), n) => Step::Done(Err(e), n),
            Step::Done(Ok(_), n) => check_pads(name, &stack.copper_layers, pad, log, n),
        },
    }
}

/// Looks for the requested via among the vias of the board, and checks what it finds.
pub fn confirm_via(
    items: &ItemList,
    net_name: &str,
    code: i32,
    x: &Mm,
    y: &Mm,
    drill: &Mm,
    pad: &Mm,
    log: &Vec<Reply>,
    at: usize,
) -> (s: Step<String>)
    requires
        at <= log@.len(),
    ensures
        s.deep_view() == confirm_via_turn(
            items.deep_view(),
            net_name@,
            code,
            x.deep_view(),
            y.deep_view(),
            drill.deep_view(),
            pad.deep_view(),
            log@,
            at as int,
        ),
        s.within(at as int, log@),
{
    let name = name_via(net_name, x, y);
    if let Some(i) = search_via(items, Vector2 { x_nm: x.nm, y_nm: y.nm }, code) {
        if let ItemBody::Via(via) = &items.get(i).body {
            return match check_via(name.as_str(), via, drill, pad, log, at) {
                Step::Ask(q) => Step::Ask(q),
                Step::Done(Err(e), n) => Step::Done(Err(e), n),
                Step::Done(Ok(_), n) => {
                    let id = match &via.id {
                        Some(id) => id.value.clone(),
                        None => String::new(),
                    };
                    assert(id@ =~= via_kiid(*via));
                    Step::Done(Ok(id), n)
                },
            };
        }
    }
    let mut text = "placed ".to_string();
    text.append(name.as_str());
    text.append(" but it's not visible on the board after reload");
    Step::Done(Err(IpcError { text }), at)
}

// ------------------------------------------------------------ the operations

impl KiCadIpcClient {
    /// The nets of the board.
    pub fn get_nets(&self, log: &Vec<Reply>, at: usize) -> (s: Step<Vec<IpcNet>>)
        requires
            at <= log@.len(),
        ensures
            s.deep_view() == get_nets_turn(log@, at as int),
            s.within(at as int, log@),
    {
        let (board, n) = match self.get_board_document(log, at) {
            Step::Done(Ok(board), n) => (board, n),
            Step::Done(Err(e), n) => {
                return Step::Done(Err(e), n);
            },
            Step::Ask(q) => {
                return Step::Ask(q);
            },
        };
        let netclass_filter: Vec<String> = Vec::new();
        assert(netclass_filter.deep_view() =~= seq![]);
        match hear(Request::Send(Command::GetNets { board, netclass_filter }), log, n) {
            Step::Ask(q) => Step::Ask(q),
            Step::Done(Err(e), n) => Step::Done(Err(e), n),
            Step::Done(Ok(Reply::Nets(nets)), n) => Step::Done(Ok(see_nets(nets)), n),
            Step::Done(Ok(Reply::Nothing), n) => {
                let none: Vec<IpcNet> = Vec::new();
                assert(none.deep_view() =~= seq![]);
                Step::Done(Ok(none), n)
            },
            Step::Done(Ok(_), n) => Step::Done(Err(unreadable_error()), n),
        }
    }

    /// The code of the net with the given name.
    pub fn resolve_net_code(&self, net_name: &str, log: &Vec<Reply>, at: usize) -> (s: Step<i32>)
        requires
            at <= log@.len(),
        ensures
            s.deep_view() == resolve_net_code_turn(net_name@, log@, at as int),
            s.within(at as int, log@),
    {
        match self.get_nets(log, at) {
            Step::Ask(q) => Step::Ask(q),
            Step::Done(Err(e), n) => Step::Done(Err(e), n),
            Step::Done(Ok(nets), n) => match find_code(&nets, net_name) {
                Some(code) => Step::Done(Ok(code), n),
                None => {
                    let mut text = "Net '".to_string();
                    text.append(net_name);
                    text.append("' not found on board");
                    Step::Done(Err(IpcError { text }), n)
                },
            },
        }
    }

    /// The bounding box of everything on the board.
    pub fn get_board_extents(&self, log: &Vec<Reply>, at: usize) -> (s: Step<IpcBoardExtents>)
        requires
            at <= log@.len(),
        ensures
            s.deep_view() == get_board_extents_turn(log@, at as int),
            s.within(at as int, log@),
    {
        let (header, n) = match self.make_header(log, at) {
            Step::Done(Ok(header), n) => (header, n),
            Step::Done(Err(e), n) => {
                return Step::Done(Err(e), n);
            },
            Step::Ask(q) => {
                return Step::Ask(q);
            },
        };
        let item_ids: Vec<String> = Vec::new();
        assert(item_ids.deep_view() =~= seq![]);
        let command = Command::GetBoundingBox {
            header,
            item_ids,
            mode: BoundingBoxMode::BbmItemOnly,
        };
        match hear(Request::Send(command), log, n) {
            Step::Ask(q) => Step::Ask(q),
            Step::Done(Err(e), n) => Step::Done(Err(e), n),
            Step::Done(Ok(Reply::Boxes(boxes)), n) => {
                if boxes.len() > 0 {
                    let extents = IpcBoardExtents {
                        min: position_or_origin(&boxes[0].position),
                        size: position_or_origin(&boxes[0].size),
                    };
                    Step::Done(Ok(extents), n)
                } else {
                    Step::Done(Err(error("No bounding box returned from KiCAD")), n)
                }
            },
            Step::Done(Ok(Reply::Nothing), n) => Step::Done(
                Err(error("No bounding box returned from KiCAD")),
                n,
            ),
            Step::Done(Ok(_), n) => Step::Done(Err(unreadable_error()), n),
        }
    }

    /// The enabled layers of the board.
    pub fn get_layers(&self, log: &Vec<Reply>, at: usize) -> (s: Step<Vec<IpcLayer>>)
        requires
            at <= log@.len(),
        ensures
            s.deep_view() == get_layers_turn(log@, at as int),
            s.within(at as int, log@),
    {
        let (board, n) = match self.get_board_document(log, at) {
            Step::Done(Ok(board), n) => (board, n),
            Step::Done(Err(e), n) => {
                return Step::Done(Err(e), n);
            },
            Step::Ask(q) => {
                return Step::Ask(q);
            },
        };
        match hear(Request::Send(Command::GetBoardEnabledLayers { board }), log, n) {
            Step::Ask(q) => Step::Ask(q),
            Step::Done(Err(e), n) => Step::Done(Err(e), n),
            Step::Done(Ok(Reply::Layers(layers)), n) => Step::Done(Ok(see_layers(layers)), n),
            Step::Done(Ok(Reply::Nothing), n) => {
                let none: Vec<IpcLayer> = Vec::new();
                assert(none.deep_view() =~= seq![]);
                Step::Done(Ok(none), n)
            },
            Step::Done(Ok(_), n) => Step::Done(Err(unreadable_error()), n),
        }
    }

    /// The tracks of the board; only those on the given net and layer, where these are given.
    pub fn get_tracks(
        &self,
        net_filter: Option<&str>,
        layer_filter: Option<&str>,
        log: &Vec<Reply>,
        at: usize,
    ) -> (s: Step<Vec<IpcTrack>>)
        requires
            at <= log@.len(),
        ensures
            s.deep_view() == get_tracks_turn(
                filter_text(net_filter),
                filter_text(layer_filter),
                log@,
                at as int,
            ),
            s.within(at as int, log@),
    {
        match self.fetch_items(KiCadObjectType::KotPcbTrace, log, at) {
            Step::Ask(q) => Step::Ask(q),
            Step::Done(Err(e), n) => Step::Done(Err(e), n),
            Step::Done(Ok(items), n) => Step::Done(
                Ok(pick_tracks(&items, net_filter, layer_filter)),
                n,
            ),
        }
    }

    /// Adds a track from (`x1`, `y1`) to (`x2`, `y2`), in nanometres.
    pub fn add_track(
        &self,
        net_name: &str,
        layer: &str,
        width_nm: i64,
        x1: i64,
        y1: i64,
        x2: i64,
        y2: i64,
        log: &Vec<Reply>,
        at: usize,
    ) -> (s: Step<()>)
        requires
            at <= log@.len(),
        ensures
            s.deep_view() == add_track_turn(
                net_name@,
                layer@,
                width_nm,
                Vector2 { x_nm: x1, y_nm: y1 },
                Vector2 { x_nm: x2, y_nm: y2 },
                log@,
                at as int,
            ),
            s.within(at as int, log@),
    {
        let (code, n) = match self.resolve_net_code(net_name, log, at) {
            Step::Done(Ok(code), n) => (code, n),
            Step::Done(Err(e), n) => {
                return Step::Done(Err(e), n);
            },
            Step::Ask(q) => {
                return Step::Ask(q);
            },
        };
        let track = build_track(net_name, code, layer, width_nm, x1, y1, x2, y2);
        match hear(Request::EncodeTrack(track), log, n) {
            Step::Ask(q) => Step::Ask(q),
            Step::Done(Err(e), n) => Step::Done(Err(e), n),
            Step::Done(Ok(Reply::Bytes(bytes)), n) => {
                let mut items: Vec<Any> = Vec::new();
                items.push(pack_any(copy_bytes(bytes), "kiapi.board.types.Track"));
                assert(items.deep_view() =~= seq![packed(bytes@, "kiapi.board.types.Track"@)]);
                self.create_items(&items, log, n)
            },
            Step::Done(Ok(_), n) => Step::Done(Err(unreadable_error()), n),
        }
    }

    /// Deletes the track with the given identifier.
    pub fn delete_track(&self, uuid: &str, log: &Vec<Reply>, at: usize) -> (s: Step<()>)
        requires
            at <= log@.len(),
        ensures
            s.deep_view() == delete_items_turn(seq![uuid@], log@, at as int),
            s.within(at as int, log@),
            s matches Step::Ask(Request::Send(Command::DeleteItems { header, ids })) ==> ids@.len()
                == 1 && ids@[0]@ == uuid@,
    {
        proof {
            the_requested_items_are_deleted(seq![uuid@], log@, at as int);
        }
        let mut ids: Vec<String> = Vec::new();
        ids.push(uuid.to_string());
        assert(ids.deep_view() =~= seq![uuid@]);
        let s = self.delete_items(&ids, log, at);
        proof {
            if let Step::Ask(Request::Send(Command::DeleteItems { ids: sent, .. })) = &s {
                assert(sent.deep_view() == seq![uuid@]);
                assert(sent.deep_view()[0] == sent@[0]@);
            }
        }
        s
    }

    /// Puts a via on the board. The value is the code of its net, and the identifier that it was
    /// written with.
    pub(crate) fn load_via(
        &self,
        net_name: &str,
        x: &Mm,
        y: &Mm,
        drill: &Mm,
        pad_size: &Mm,
        log: &Vec<Reply>,
        at: usize,
    ) -> (s: Step<(i32, String)>)
        requires
            at <= log@.len(),
        ensures
            s.deep_view() == load_via_turn(
                net_name@,
                x.deep_view(),
                y.deep_view(),
                drill.deep_view(),
                pad_size.deep_view(),
                log@,
                at as int,
            ),
            s.within(at as int, log@),
    {
        let (code, n) = match self.resolve_net_code(net_name, log, at) {
            Step::Done(Ok(code), n) => (code, n),
            Step::Done(Err(e), n) => {
                return Step::Done(Err(e), n);
            },
            Step::Ask(q) => {
                return Step::Ask(q);
            },
        };
        let (uuid, n) = match ask_text(Request::NewUuid, log, n) {
            Step::Done(Ok(uuid), n) => (uuid, n),
            Step::Done(Err(e), n) => {
                return Step::Done(Err(e), n);
            },
            Step::Ask(q) => {
                return Step::Ask(q);
            },
        };
        let clause = via_sexp(
            net_name,
            x.text.as_str(),
            y.text.as_str(),
            drill.text.as_str(),
            pad_size.text.as_str(),
            uuid.as_str(),
        );
        match self.save_splice_revert(clause.as_str(), log, n) {
            Step::Ask(q) => Step::Ask(q),
            Step::Done(Err(e), n) => Step::Done(Err(e), n),
            Step::Done(Ok(_), n) => Step::Done(Ok((code, uuid)), n),
        }
    }

    /// Makes sure that a via is on the board. The value is its identifier.
    pub(crate) fn see_via(
        &self,
        net_name: &str,
        code: i32,
        x: &Mm,
        y: &Mm,
        drill: &Mm,
        pad_size: &Mm,
        log: &Vec<Reply>,
        at: usize,
    ) -> (s: Step<String>)
        requires
            at <= log@.len(),
        ensures
            s.deep_view() == see_via_turn(
                net_name@,
                code,
                x.deep_view(),
                y.deep_view(),
                drill.deep_view(),
                pad_size.deep_view(),
                log@,
                at as int,
            ),
            s.within(at as int, log@),
    {
        match self.fetch_items(KiCadObjectType::KotPcbVia, log, at) {
            Step::Ask(q) => Step::Ask(q),
            Step::Done(Err(e), n) => Step::Done(Err(e), n),
            Step::Done(Ok(items), n) => confirm_via(
                &items,
                net_name,
                code,
                x,
                y,
                drill,
                pad_size,
                log,
                n,
            ),
        }
    }

    /// Adds a via, and makes sure that it is on the board: where it should be, on its net, and
    /// with the drill and the pads that were asked for. The value is its identifier.
    pub fn add_via(
        &self,
        net_name: &str,
        x: &Mm,
        y: &Mm,
        drill: &Mm,
        pad_size: &Mm,
        log: &Vec<Reply>,
        at: usize,
    ) -> (s: Step<String>)
        requires
            at <= log@.len(),
        ensures
            s.deep_view() == add_via_turn(
                net_name@,
                x.deep_view(),
                y.deep_view(),
                drill.deep_view(),
                pad_size.deep_view(),
                log@,
                at as int,
            ),
            s.within(at as int, log@),
    {
        let (loaded, n) = match self.load_via(net_name, x, y, drill, pad_size, log, at) {
            Step::Done(Ok(loaded), n) => (loaded, n),
            Step::Done(Err(e), n) => {
                return Step::Done(Err(e), n);
            },
            Step::Ask(q) => {
                return Step::Ask(q);
            },
        };
        self.see_via(net_name, loaded.0, x, y, drill, pad_size, log, n)
    }
}

} // verus!
