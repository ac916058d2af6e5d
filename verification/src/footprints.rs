//! Footprints: listing, moving, turning, deleting and placing them.
//!
//! A footprint that was moved, turned or placed is looked up again, and what is then found on
//! the board is the result.
use vstd::prelude::*;
use vstd::string::*;

use crate::board::{ask_text, or_origin, text_turn};
use crate::builders::{layer_enum_to_name, layer_name};
use crate::client::KiCadIpcClient;
use crate::items::{delete_items_turn, fetch_items_turn, update_items_turn};
use crate::library::{read_text, read_text_turn, resolve_footprint_file, resolve_footprint_turn};
use crate::sexp::{instantiate_footprint_sexp, placed_footprint};
use crate::splice::save_splice_revert_turn;
use crate::talk::{
    exchange, hear, unreadable, unreadable_error, Edit, IpcError, Item, ItemBody, ItemList,
    KiCadObjectType, Query, Reply, Request, Step, Turn,
};
use crate::text::{copy_bytes, same_text};
use crate::types::{
    position_or_origin, Angle, Degrees, DegreesModel, Field, Footprint, FootprintInstance,
    IpcFootprint, IpcFootprintModel, Mm, MmModel, Real, Vector2,
};
use crate::wire::{copy_any, pack_any, packed, Any, AnyModel};

verus! {

// ------------------------------------------------------------ what a footprint is

/// The text of a field; nothing, if it has none.
pub open spec fn field_text(field: Option<Field>) -> Seq<char> {
    match field {
        Some(f) => match f.text {
            Some(board_text) => match board_text.text {
                Some(t) => t.text@,
                None => seq![],
            },
            None => seq![],
        },
        None => seq![],
    }
}

/// The library and the name in it that a footprint comes from, with a colon between them.
pub open spec fn library_id(definition: Option<Footprint>) -> Seq<char> {
    match definition {
        Some(d) => match d.id {
            Some(id) => id.library_nickname@ + ":"@ + id.entry_name@,
            None => seq![],
        },
        None => seq![],
    }
}

/// The angle in degrees; zero, if there is none.
pub open spec fn degrees_of(orientation: Option<Angle>) -> Real {
    match orientation {
        Some(angle) => angle.value_degrees,
        None => Real { bits: 0 },
    }
}

/// A footprint as callers see it.
pub open spec fn footprint_seen(fp: FootprintInstance) -> IpcFootprintModel {
    IpcFootprintModel {
        reference: field_text(fp.reference_field),
        value: field_text(fp.value_field),
        footprint: library_id(fp.definition),
        position: or_origin(fp.position),
        rotation: degrees_of(fp.orientation),
        layer: layer_name(fp.layer),
        kiid: match fp.id {
            Some(id) => id.value@,
            None => seq![],
        },
    }
}

// ------------------------------------------------------------ finding footprints

/// The footprints among `items`, in order.
pub open spec fn footprints_among(items: Seq<Item>) -> Seq<IpcFootprintModel>
    decreases items.len(),
{
    if items.len() == 0 {
        seq![]
    } else {
        let before = footprints_among(items.drop_last());
        match items.last().body {
            ItemBody::Footprint(fp) => before.push(footprint_seen(fp)),
            _ => before,
        }
    }
}

/// The footprints of the board.
pub open spec fn list_footprints_turn(log: Seq<Reply>, at: int) -> Turn<Seq<IpcFootprintModel>> {
    fetch_items_turn(KiCadObjectType::KotPcbFootprint, log, at).and_then(
        |items: Seq<Item>, n: int| Turn::Done(Ok(footprints_among(items)), n),
    )
}

/// The first footprint with the given reference.
pub open spec fn first_named(
    footprints: Seq<IpcFootprintModel>,
    reference: Seq<char>,
) -> Option<IpcFootprintModel>
    decreases footprints.len(),
{
    if footprints.len() == 0 {
        None
    } else if footprints[0].reference == reference {
        Some(footprints[0])
    } else {
        first_named(footprints.drop_first(), reference)
    }
}

/// The footprint with the given reference.
pub open spec fn get_footprint_turn(
    reference: Seq<char>,
    log: Seq<Reply>,
    at: int,
) -> Turn<Option<IpcFootprintModel>> {
    list_footprints_turn(log, at).and_then(
        |footprints: Seq<IpcFootprintModel>, n: int|
            Turn::Done(Ok(first_named(footprints, reference)), n),
    )
}

/// The footprint with the given reference must be there, or the error is `missing`.
pub open spec fn require_footprint_turn(
    reference: Seq<char>,
    missing: Seq<char>,
    log: Seq<Reply>,
    at: int,
) -> Turn<IpcFootprintModel> {
    get_footprint_turn(reference, log, at).and_then(
        |found: Option<IpcFootprintModel>, n: int|
            match found {
                Some(fp) => Turn::Done(Ok(fp), n),
                None => Turn::Done(Err(missing), n),
            },
    )
}

/// The item is a footprint with the given reference.
pub open spec fn is_named(item: Item, reference: Seq<char>) -> bool {
    item.body matches ItemBody::Footprint(fp) && field_text(fp.reference_field) == reference
}

/// Where the first footprint with the given reference is among `items`, from `from` on.
pub open spec fn find_named(items: Seq<Item>, reference: Seq<char>, from: int) -> Option<int>
    decreases items.len() - from,
{
    if !(0 <= from < items.len()) {
        None
    } else if is_named(items[from], reference) {
        Some(from)
    } else {
        find_named(items, reference, from + 1)
    }
}

/// The identifier of an item that is a footprint with the given reference.
pub open spec fn named_kiid(item: Item, reference: Seq<char>) -> Option<Seq<char>> {
    match item.body {
        ItemBody::Footprint(fp) => if field_text(fp.reference_field) == reference {
            match fp.id {
                Some(id) => Some(id.value@),
                None => None,
            }
        } else {
            None
        },
        _ => None,
    }
}

/// The identifier of the first footprint among `items`, from `from` on, that has one and has
/// the given reference.
pub open spec fn find_kiid(items: Seq<Item>, reference: Seq<char>, from: int) -> Option<Seq<char>>
    decreases items.len() - from,
{
    if !(0 <= from < items.len()) {
        None
    } else if named_kiid(items[from], reference) is Some {
        named_kiid(items[from], reference)
    } else {
        find_kiid(items, reference, from + 1)
    }
}

/// The text for a footprint that is not on the board.
pub open spec fn not_on_board(reference: Seq<char>) -> Seq<char> {
    "Footprint '"@ + reference + "' not found on board"@
}

/// The identifier of the footprint with the given reference.
pub open spec fn find_footprint_kiid_turn(
    reference: Seq<char>,
    log: Seq<Reply>,
    at: int,
) -> Turn<Seq<char>> {
    fetch_items_turn(KiCadObjectType::KotPcbFootprint, log, at).and_then(
        |items: Seq<Item>, n: int|
            match find_kiid(items, reference, 0) {
                Some(id) => Turn::Done(Ok(id), n),
                None => Turn::Done(Err(not_on_board(reference)), n),
            },
    )
}

/// Deleting the footprint with the given reference.
pub open spec fn delete_footprint_turn(reference: Seq<char>, log: Seq<Reply>, at: int) -> Turn<()> {
    find_footprint_kiid_turn(reference, log, at).and_then(
        |id: Seq<char>, n: int| delete_items_turn(seq![id], log, n),
    )
}

// ------------------------------------------------------------ changing footprints

/// The text for a footprint that is not there to be changed.
pub open spec fn not_found(reference: Seq<char>) -> Seq<char> {
    "Footprint '"@ + reference + "' not found"@
}

/// The first item with the given reference, and the footprint that it is.
pub open spec fn named_item_turn(
    reference: Seq<char>,
    log: Seq<Reply>,
    at: int,
) -> Turn<(AnyModel, FootprintInstance)> {
    fetch_items_turn(KiCadObjectType::KotPcbFootprint, log, at).and_then(
        |items: Seq<Item>, n: int|
            match find_named(items, reference, 0) {
                None => Turn::Done(Err(not_found(reference)), n),
                Some(i) => match items[i].body {
                    ItemBody::Footprint(fp) => Turn::Done(Ok((items[i].any.deep_view(), fp)), n),
                    _ => Turn::Done(Err(not_found(reference)), n),
                },
            },
    )
}

/// Updating the footprint whose new encoding a reply holds.
pub open spec fn update_encoded_turn(reply: Reply, log: Seq<Reply>, at: int) -> Turn<()> {
    match reply {
        Reply::Bytes(bytes) => update_items_turn(
            seq![packed(bytes@, "kiapi.board.types.FootprintInstance"@)],
            log,
            at,
        ),
        _ => Turn::Done(Err(unreadable()), at),
    }
}

/// Changing a footprint on the board.
pub open spec fn edit_footprint_turn(
    item: AnyModel,
    edit: Edit,
    log: Seq<Reply>,
    at: int,
) -> Turn<()> {
    exchange(Query::EditFootprint { item, edit }, log, at).and_then(
        |reply: Reply, n: int| update_encoded_turn(reply, log, n),
    )
}

/// The move that brings a footprint to `position`: what it consists of moves as far as it does.
pub open spec fn move_edit(fp: FootprintInstance, position: Vector2) -> Edit {
    Edit::Move {
        position,
        dx_nm: position.x_nm.wrapping_sub(or_origin(fp.position).x_nm),
        dy_nm: position.y_nm.wrapping_sub(or_origin(fp.position).y_nm),
    }
}

/// The turn that brings a footprint to `angle`, around its own position.
pub open spec fn rotate_edit(fp: FootprintInstance, angle: Real) -> Edit {
    Edit::Rotate { angle, from: degrees_of(fp.orientation), center: or_origin(fp.position) }
}

/// The text for a footprint that is gone after something was done to it.
pub open spec fn gone(done: Seq<char>, reference: Seq<char>) -> Seq<char> {
    done + reference + "' but it's no longer resolvable by reference afterward"@
}

/// The text for a footprint that is somewhere else than where it was moved to.
pub open spec fn not_moved(
    reference: Seq<char>,
    x: Seq<char>,
    y: Seq<char>,
    to: (MmModel, MmModel),
) -> Seq<char> {
    "move_footprint reported success for '"@ + reference + "' but re-query shows it at ("@ + x
        + ", "@ + y + "), not the requested ("@ + to.0.text + ", "@ + to.1.text + ")"@
}

/// The footprint found after a move must be where it was moved to.
pub open spec fn confirm_move_turn(
    found: IpcFootprintModel,
    reference: Seq<char>,
    x: MmModel,
    y: MmModel,
    log: Seq<Reply>,
    at: int,
) -> Turn<IpcFootprintModel> {
    exchange(
        Query::NearMm { position: found.position, x: x.value, y: y.value },
        log,
        at,
    ).and_then(
        |reply: Reply, n: int|
            match reply {
                Reply::Flag(true) => Turn::Done(Ok(found), n),
                Reply::Flag(false) => text_turn(
                    Query::ShowMm { nm: found.position.x_nm },
                    log,
                    n,
                ).and_then(
                    |shown_x: Seq<char>, n: int|
                        text_turn(Query::ShowMm { nm: found.position.y_nm }, log, n).and_then(
                            |shown_y: Seq<char>, n: int|
                                Turn::Done(
                                    Err(not_moved(reference, shown_x, shown_y, (x, y))),
                                    n,
                                ),
                        ),
                ),
                _ => Turn::Done(Err(unreadable()), n),
            },
    )
}

/// Moving a footprint. The value is the footprint that is then found.
pub open spec fn move_footprint_turn(
    reference: Seq<char>,
    x: MmModel,
    y: MmModel,
    log: Seq<Reply>,
    at: int,
) -> Turn<IpcFootprintModel> {
    named_item_turn(reference, log, at).and_then(
        |found: (AnyModel, FootprintInstance), n: int|
            edit_footprint_turn(
                found.0,
                move_edit(found.1, Vector2 { x_nm: x.nm, y_nm: y.nm }),
                log,
                n,
            ),
    ).and_then(
        |updated: (), n: int|
            require_footprint_turn(reference, gone("moved '"@, reference), log, n),
    ).and_then(
        |found: IpcFootprintModel, n: int| confirm_move_turn(found, reference, x, y, log, n),
    )
}

/// The text for a footprint that has another angle than the one it was turned to.
pub open spec fn not_rotated(
    reference: Seq<char>,
    found: Seq<char>,
    angle: DegreesModel,
) -> Seq<char> {
    "rotate_footprint reported success for '"@ + reference + "' but re-query shows rotation "@
        + found + ", not the requested "@ + angle.text
}

/// The footprint found after a turn must have the angle it was turned to.
pub open spec fn confirm_rotation_turn(
    found: IpcFootprintModel,
    reference: Seq<char>,
    angle: DegreesModel,
    log: Seq<Reply>,
    at: int,
) -> Turn<IpcFootprintModel> {
    exchange(Query::SameAngle { found: found.rotation, wanted: angle.value }, log, at).and_then(
        |reply: Reply, n: int|
            match reply {
                Reply::Flag(true) => Turn::Done(Ok(found), n),
                Reply::Flag(false) => text_turn(
                    Query::ShowReal { value: found.rotation },
                    log,
                    n,
                ).and_then(
                    |shown: Seq<char>, n: int|
                        Turn::Done(Err(not_rotated(reference, shown, angle)), n),
                ),
                _ => Turn::Done(Err(unreadable()), n),
            },
    )
}

/// Turning a footprint. The value is the footprint that is then found.
pub open spec fn rotate_footprint_turn(
    reference: Seq<char>,
    angle: DegreesModel,
    log: Seq<Reply>,
    at: int,
) -> Turn<IpcFootprintModel> {
    named_item_turn(reference, log, at).and_then(
        |found: (AnyModel, FootprintInstance), n: int|
            edit_footprint_turn(found.0, rotate_edit(found.1, angle.value), log, n),
    ).and_then(
        |updated: (), n: int|
            require_footprint_turn(reference, gone("rotated '"@, reference), log, n),
    ).and_then(
        |found: IpcFootprintModel, n: int| confirm_rotation_turn(found, reference, angle, log, n),
    )
}

// ------------------------------------------------------------ placing footprints

/// The text for a footprint that is not on the board after it was placed.
pub open spec fn not_placed(reference: Seq<char>) -> Seq<char> {
    "placed '"@ + reference + "' but it's not visible on the board after reload"@
}

/// Placing the library footprint `raw` on the board.
pub open spec fn place_raw_turn(
    raw: Seq<char>,
    x: MmModel,
    y: MmModel,
    rotation: DegreesModel,
    layer: Seq<char>,
    reference: Seq<char>,
    log: Seq<Reply>,
    at: int,
) -> Turn<()> {
    text_turn(Query::ShowMm { nm: x.nm }, log, at).and_then(
        |shown_x: Seq<char>, n: int|
            text_turn(Query::ShowMm { nm: y.nm }, log, n).and_then(
                |shown_y: Seq<char>, n: int|
                    match placed_footprint(
                        raw,
                        shown_x,
                        shown_y,
                        rotation.text,
                        layer,
                        reference,
                    ) {
                        Err(e) => Turn::Done(Err(e), n),
                        Ok(clause) => save_splice_revert_turn(clause, log, n),
                    },
            ),
    )
}

/// Placing a footprint from a library. The value is the footprint that is then found.
pub open spec fn place_footprint_turn(
    lib_id: Seq<char>,
    x: MmModel,
    y: MmModel,
    rotation: DegreesModel,
    layer: Seq<char>,
    reference: Seq<char>,
    log: Seq<Reply>,
    at: int,
) -> Turn<IpcFootprintModel> {
    resolve_footprint_turn(lib_id, log, at).and_then(
        |path: Seq<char>, n: int| read_text_turn(path, "could not read footprint file "@, log, n),
    ).and_then(
        |raw: Seq<char>, n: int| place_raw_turn(raw, x, y, rotation, layer, reference, log, n),
    ).and_then(
        |spliced: (), n: int|
            require_footprint_turn(reference, not_placed(reference), log, n),
    )
}

// ------------------------------------------------------------ parts of the operations

fn read_field(field: &Option<Field>) -> (text: String)
    ensures
        text@ == field_text(*field),
{
    let text = match field {
        Some(f) => match &f.text {
            Some(board_text) => match &board_text.text {
                Some(t) => t.text.clone(),
                None => String::new(),
            },
            None => String::new(),
        },
        None => String::new(),
    };
    assert(text@ =~= field_text(*field));
    text
}

fn read_degrees(orientation: &Option<Angle>) -> (degrees: Real)
    ensures
        degrees == degrees_of(*orientation),
{
    match orientation {
        Some(angle) => angle.value_degrees,
        None => Real { bits: 0 },
    }
}

fn see_footprint(fp: &FootprintInstance) -> (r: IpcFootprint)
    ensures
        r.deep_view() == footprint_seen(*fp),
{
    let footprint = match &fp.definition {
        Some(d) => match &d.id {
            Some(id) => {
                let mut text = id.library_nickname.clone();
                text.append(":");
                text.append(id.entry_name.as_str());
                text
            },
            None => String::new(),
        },
        None => String::new(),
    };
    assert(footprint@ =~= library_id(fp.definition));
    let kiid = match &fp.id {
        Some(id) => id.value.clone(),
        None => String::new(),
    };
    assert(kiid@ =~= footprint_seen(*fp).kiid);
    IpcFootprint {
        reference: read_field(&fp.reference_field),
        value: read_field(&fp.value_field),
        footprint,
        position: position_or_origin(&fp.position),
        rotation: read_degrees(&fp.orientation),
        layer: layer_enum_to_name(fp.layer).to_string(),
        kiid,
    }
}

/// The footprints among `items`, in order.
pub fn pick_footprints(items: &ItemList) -> (r: Vec<IpcFootprint>)
    ensures
        r.deep_view() == footprints_among(items.deep_view()),
{
    let mut r: Vec<IpcFootprint> = Vec::new();
    let len: usize = items.len();
    let mut i: usize = 0;
    let ghost all = items.deep_view();
    assert(r.deep_view() =~= seq![]);
    assert(all.take(0) =~= seq![]);
    while i < len
        invariant
            i <= len == all.len(),
            all == items.deep_view(),
            r.deep_view() == footprints_among(all.take(i as int)),
        decreases len - i,
    {
        let item = items.get(i);
        let ghost before = r.deep_view();
        assert(all.take(i + 1).drop_last() =~= all.take(i as int));
        assert(all.take(i + 1).last() == *item);
        if let ItemBody::Footprint(fp) = &item.body {
            r.push(see_footprint(fp));
            assert(r.deep_view() =~= before.push(footprint_seen(*fp)));
        }
        i = i + 1;
    }
    assert(all.take(i as int) =~= all);
    r
}

fn copy_footprint(fp: &IpcFootprint) -> (r: IpcFootprint)
    ensures
        r.deep_view() == fp.deep_view(),
{
    IpcFootprint {
        reference: fp.reference.clone(),
        value: fp.value.clone(),
        footprint: fp.footprint.clone(),
        position: fp.position,
        rotation: fp.rotation,
        layer: fp.layer.clone(),
        kiid: fp.kiid.clone(),
    }
}

/// The first footprint with the given reference.
pub fn pick_named(footprints: &Vec<IpcFootprint>, reference: &str) -> (r: Option<IpcFootprint>)
    ensures
        r.deep_view() == first_named(footprints.deep_view(), reference@),
{
    let mut i: usize = 0;
    let ghost all = footprints.deep_view();
    assert(all.skip(0) =~= all);
    while i < footprints.len()
        invariant
            i <= footprints@.len() == all.len(),
            all == footprints.deep_view(),
            first_named(all.skip(i as int), reference@) == first_named(all, reference@),
        decreases footprints@.len() - i,
    {
        assert(all.skip(i as int)[0] == footprints@[i as int].deep_view());
        if same_text(footprints[i].reference.as_str(), reference) {
            return Some(copy_footprint(&footprints[i]));
        }
        assert(all.skip(i as int).drop_first() =~= all.skip(i + 1));
        i = i + 1;
    }
    None
}

fn search_named(items: &ItemList, reference: &str) -> (r: Option<usize>)
    ensures
        match r {
            Some(i) => find_named(items.deep_view(), reference@, 0) == Some(i as int) && i
                < items.deep_view().len(),
            None => find_named(items.deep_view(), reference@, 0) is None,
        },
{
    let len: usize = items.len();
    let mut i: usize = 0;
    while i < len
        invariant
            i <= len == items.deep_view().len(),
            find_named(items.deep_view(), reference@, 0) == find_named(
                items.deep_view(),
                reference@,
                i as int,
            ),
        decreases len - i,
    {
        if let ItemBody::Footprint(fp) = &items.get(i).body {
            if same_text(read_field(&fp.reference_field).as_str(), reference) {
                return Some(i);
            }
        }
        i = i + 1;
    }
    None
}

fn search_kiid(items: &ItemList, reference: &str) -> (r: Option<String>)
    ensures
        r.deep_view() == find_kiid(items.deep_view(), reference@, 0),
{
    let len: usize = items.len();
    let mut i: usize = 0;
    while i < len
        invariant
            i <= len == items.deep_view().len(),
            find_kiid(items.deep_view(), reference@, 0) == find_kiid(
                items.deep_view(),
                reference@,
                i as int,
            ),
        decreases len - i,
    {
        if let ItemBody::Footprint(fp) = &items.get(i).body {
            if same_text(read_field(&fp.reference_field).as_str(), reference) {
                if let Some(id) = &fp.id {
                    return Some(id.value.clone());
                }
            }
        }
        i = i + 1;
    }
    None
}

fn about(before: &str, reference: &str, after: &str) -> (e: IpcError)
    ensures
        e@ == before@ + reference@ + after@,
{
    let mut text = before.to_string();
    text.append(reference);
    text.append(after);
    IpcError { text }
}

fn confirm_move(
    found: IpcFootprint,
    reference: &str,
    x: &Mm,
    y: &Mm,
    log: &Vec<Reply>,
    at: usize,
) -> (s: Step<IpcFootprint>)
    requires
        at <= log@.len(),
    ensures
        s.deep_view() == confirm_move_turn(
            found.deep_view(),
            reference@,
            x.deep_view(),
            y.deep_view(),
            log@,
            at as int,
        ),
        s.within(at as int, log@),
{
    let (near, n) = match hear(
        Request::NearMm { position: found.position, x: x.value, y: y.value },
        log,
        at,
    ) {
        Step::Done(Ok(Reply::Flag(near)), n) => (*near, n),
        Step::Done(Ok(_), n) => {
            return Step::Done(Err(unreadable_error()), n);
        },
        Step::Done(Err(e), n) => {
            return Step::Done(Err(e), n);
        },
        Step::Ask(q) => {
            return Step::Ask(q);
        },
    };
    if near {
        return Step::Done(Ok(found), n);
    }
    let (shown_x, n) = match ask_text(Request::ShowMm { nm: found.position.x_nm }, log, n) {
        Step::Done(Ok(text), n) => (text, n),
        Step::Done(Err(e), n) => {
            return Step::Done(Err(e), n);
        },
        Step::Ask(q) => {
            return Step::Ask(q);
        },
    };
    let (shown_y, n) = match ask_text(Request::ShowMm { nm: found.position.y_nm }, log, n) {
        Step::Done(Ok(text), n) => (text, n),
        Step::Done(Err(e), n) => {
            return Step::Done(Err(e), n);
        },
        Step::Ask(q) => {
            return Step::Ask(q);
        },
    };
    let mut text = "move_footprint reported success for '".to_string();
    text.append(reference);
    text.append("' but re-query shows it at (");
    text.append(shown_x.as_str());
    text.append(", ");
    text.append(shown_y.as_str());
    text.append("), not the requested (");
    text.append(x.text.as_str());
    text.append(", ");
    text.append(y.text.as_str());
    text.append(")");
    Step::Done(Err(IpcError { text }), n)
}

fn confirm_rotation(
    found: IpcFootprint,
    reference: &str,
    angle: &Degrees,
    log: &Vec<Reply>,
    at: usize,
) -> (s: Step<IpcFootprint>)
    requires
        at <= log@.len(),
    ensures
        s.deep_view() == confirm_rotation_turn(
            found.deep_view(),
            reference@,
            angle.deep_view(),
            log@,
            at as int,
        ),
        s.within(at as int, log@),
{
    let (same, n) = match hear(
        Request::SameAngle { found: found.rotation, wanted: angle.value },
        log,
        at,
    ) {
        Step::Done(Ok(Reply::Flag(same)), n) => (*same, n),
        Step::Done(Ok(_), n) => {
            return Step::Done(Err(unreadable_error()), n);
        },
        Step::Done(Err(e), n) => {
            return Step::Done(Err(e), n);
        },
        Step::Ask(q) => {
            return Step::Ask(q);
        },
    };
    if same {
        return Step::Done(Ok(found), n);
    }
    match ask_text(Request::ShowReal { value: found.rotation }, log, n) {
        Step::Ask(q) => Step::Ask(q),
        Step::Done(Err(e), n) => Step::Done(Err(e), n),
        Step::Done(Ok(shown), n) => {
            let mut text = "rotate_footprint reported success for '".to_string();
            text.append(reference);
            text.append("' but re-query shows rotation ");
            text.append(shown.as_str());
            text.append(", not the requested ");
            text.append(angle.text.as_str());
            Step::Done(Err(IpcError { text }), n)
        },
    }
}

// ------------------------------------------------------------ the operations

impl KiCadIpcClient {
    /// The footprints of the board.
    pub fn list_footprints(&self, log: &Vec<Reply>, at: usize) -> (s: Step<Vec<IpcFootprint>>)
        requires
            at <= log@.len(),
        ensures
            s.deep_view() == list_footprints_turn(log@, at as int),
            s.within(at as int, log@),
    {
        match self.fetch_items(KiCadObjectType::KotPcbFootprint, log, at) {
            Step::Ask(q) => Step::Ask(q),
            Step::Done(Err(e), n) => Step::Done(Err(e), n),
            Step::Done(Ok(items), n) => Step::Done(Ok(pick_footprints(&items)), n),
        }
    }

    /// The footprint with the given reference.
    pub fn get_footprint(
        &self,
        reference: &str,
        log: &Vec<Reply>,
        at: usize,
    ) -> (s: Step<Option<IpcFootprint>>)
        requires
            at <= log@.len(),
        ensures
            s.deep_view() == get_footprint_turn(reference@, log@, at as int),
            s.within(at as int, log@),
    {
        match self.list_footprints(log, at) {
            Step::Ask(q) => Step::Ask(q),
            Step::Done(Err(e), n) => Step::Done(Err(e), n),
            Step::Done(Ok(footprints), n) => Step::Done(Ok(pick_named(&footprints, reference)), n),
        }
    }

    fn require_footprint(
        &self,
        reference: &str,
        missing: IpcError,
        log: &Vec<Reply>,
        at: usize,
    ) -> (s: Step<IpcFootprint>)
        requires
            at <= log@.len(),
        ensures
            s.deep_view() == require_footprint_turn(reference@, missing@, log@, at as int),
            s.within(at as int, log@),
    {
        match self.get_footprint(reference, log, at) {
            Step::Ask(q) => Step::Ask(q),
            Step::Done(Err(e), n) => Step::Done(Err(e), n),
            Step::Done(Ok(Some(fp)), n) => Step::Done(Ok(fp), n),
            Step::Done(Ok(None), n) => Step::Done(Err(missing), n),
        }
    }

    /// The identifier of the footprint with the given reference.
    pub fn find_footprint_kiid(
        &self,
        reference: &str,
        log: &Vec<Reply>,
        at: usize,
    ) -> (s: Step<String>)
        requires
            at <= log@.len(),
        ensures
            s.deep_view() == find_footprint_kiid_turn(reference@, log@, at as int),
            s.within(at as int, log@),
    {
        match self.fetch_items(KiCadObjectType::KotPcbFootprint, log, at) {
            Step::Ask(q) => Step::Ask(q),
            Step::Done(Err(e), n) => Step::Done(Err(e), n),
            Step::Done(Ok(items), n) => match search_kiid(&items, reference) {
                Some(id) => Step::Done(Ok(id), n),
                None => Step::Done(
                    Err(about("Footprint '", reference, "' not found on board")),
                    n,
                ),
            },
        }
    }

    /// Deletes the footprint with the given reference.
    pub fn delete_footprint(&self, reference: &str, log: &Vec<Reply>, at: usize) -> (s: Step<()>)
        requires
            at <= log@.len(),
        ensures
            s.deep_view() == delete_footprint_turn(reference@, log@, at as int),
            s.within(at as int, log@),
    {
        match self.find_footprint_kiid(reference, log, at) {
            Step::Ask(q) => Step::Ask(q),
            Step::Done(Err(e), n) => Step::Done(Err(e), n),
            Step::Done(Ok(id), n) => {
                let ghost model = id@;
                let mut ids: Vec<String> = Vec::new();
                ids.push(id);
                assert(ids.deep_view() =~= seq![model]);
                self.delete_items(&ids, log, n)
            },
        }
    }

    fn named_item<'a>(
        &self,
        reference: &str,
        log: &'a Vec<Reply>,
        at: usize,
    ) -> (s: Result<(&'a Item, usize),Step<()>>)
        requires
            at <= log@.len(),
        ensures
            match s {
                Ok((item, n)) => at <= n <= log@.len() && (item.body matches ItemBody::Footprint(
                    fp,
                ) && named_item_turn(reference@, log@, at as int) == Turn::Done(
                    Ok::<(AnyModel, FootprintInstance), Seq<char>>((item.any.deep_view(), fp)),
                    n as int,
                )),
                Err(Step::Ask(q)) => named_item_turn(reference@, log@, at as int) == Turn::<
                    (AnyModel, FootprintInstance),
                >::Ask(q.deep_view()),
                Err(Step::Done(Err(e), n)) => at <= n <= log@.len() && named_item_turn(
                    reference@,
                    log@,
                    at as int,
                ) == Turn::Done(Err::<(AnyModel, FootprintInstance), Seq<char>>(e@), n as int),
                Err(Step::Done(Ok(_), _)) => false,
            },
    {
        match self.fetch_items(KiCadObjectType::KotPcbFootprint, log, at) {
            Step::Ask(q) => Err(Step::Ask(q)),
            Step::Done(Err(e), n) => Err(Step::Done(Err(e), n)),
            Step::Done(Ok(items), n) => {
                if let Some(i) = search_named(&items, reference) {
                    let item = items.get(i);
                    if let ItemBody::Footprint(_) = &item.body {
                        return Ok((item, n));
                    }
                }
                Err(Step::Done(Err(about("Footprint '", reference, "' not found")), n))
            },
        }
    }

    fn edit_footprint(&self, item: &Any, edit: Edit, log: &Vec<Reply>, at: usize) -> (s: Step<()>)
        requires
            at <= log@.len(),
        ensures
            s.deep_view() == edit_footprint_turn(item.deep_view(), edit, log@, at as int),
            s.within(at as int, log@),
    {
        match hear(Request::EditFootprint { item: copy_any(item), edit }, log, at) {
            Step::Ask(q) => Step::Ask(q),
            Step::Done(Err(e), n) => Step::Done(Err(e), n),
            Step::Done(Ok(Reply::Bytes(bytes)), n) => {
                let mut items: Vec<Any> = Vec::new();
                items.push(pack_any(copy_bytes(bytes), "kiapi.board.types.FootprintInstance"));
                assert(items.deep_view() =~= seq![
                    packed(bytes@, "kiapi.board.types.FootprintInstance"@),
                ]);
                self.update_items(&items, log, n)
            },
            Step::Done(Ok(_), n) => Step::Done(Err(unreadable_error()), n),
        }
    }

    /// Moves a footprint. The value is the footprint that is then found on the board.
    pub fn move_footprint(
        &self,
        reference: &str,
        x: &Mm,
        y: &Mm,
        log: &Vec<Reply>,
        at: usize,
    ) -> (s: Step<IpcFootprint>)
        requires
            at <= log@.len(),
        ensures
            s.deep_view() == move_footprint_turn(
                reference@,
                x.deep_view(),
                y.deep_view(),
                log@,
                at as int,
            ),
            s.within(at as int, log@),
    {
        let (item, n) = match self.named_item(reference, log, at) {
            Ok((item, n)) => (item, n),
            Err(Step::Ask(q)) => {
                return Step::Ask(q);
            },
            Err(Step::Done(Err(e), n)) => {
                return Step::Done(Err(e), n);
            },
            Err(Step::Done(Ok(_), _)) => {
                return vstd::pervasive::unreached();
            },
        };
        let old = match &item.body {
            ItemBody::Footprint(fp) => position_or_origin(&fp.position),
            _ => vstd::pervasive::unreached(),
        };
        let edit = Edit::Move {
            position: Vector2 { x_nm: x.nm, y_nm: y.nm },
            dx_nm: x.nm.wrapping_sub(old.x_nm),
            dy_nm: y.nm.wrapping_sub(old.y_nm),
        };
        let n: usize = match self.edit_footprint(&item.any, edit, log, n) {
            Step::Done(Ok(_), n) => n,
            Step::Done(Err(e), n) => {
                return Step::Done(Err(e), n);
            },
            Step::Ask(q) => {
                return Step::Ask(q);
            },
        };
        let missing = about(
            "moved '",
            reference,
            "' but it's no longer resolvable by reference afterward",
        );
        match self.require_footprint(reference, missing, log, n) {
            Step::Ask(q) => Step::Ask(q),
            Step::Done(Err(e), n) => Step::Done(Err(e), n),
            Step::Done(Ok(found), n) => confirm_move(found, reference, x, y, log, n),
        }
    }

    /// Turns a footprint to an angle. The value is the footprint that is then found on the
    /// board.
    pub fn rotate_footprint(
        &self,
        reference: &str,
        angle: &Degrees,
        log: &Vec<Reply>,
        at: usize,
    ) -> (s: Step<IpcFootprint>)
        requires
            at <= log@.len(),
        ensures
            s.deep_view() == rotate_footprint_turn(reference@, angle.deep_view(), log@, at as int),
            s.within(at as int, log@),
    {
        let (item, n) = match self.named_item(reference, log, at) {
            Ok((item, n)) => (item, n),
            Err(Step::Ask(q)) => {
                return Step::Ask(q);
            },
            Err(Step::Done(Err(e), n)) => {
                return Step::Done(Err(e), n);
            },
            Err(Step::Done(Ok(_), _)) => {
                return vstd::pervasive::unreached();
            },
        };
        let edit = match &item.body {
            ItemBody::Footprint(fp) => Edit::Rotate {
                angle: angle.value,
                from: read_degrees(&fp.orientation),
                center: position_or_origin(&fp.position),
            },
            _ => vstd::pervasive::unreached(),
        };
        let n: usize = match self.edit_footprint(&item.any, edit, log, n) {
            Step::Done(Ok(_), n) => n,
            Step::Done(Err(e), n) => {
                return Step::Done(Err(e), n);
            },
            Step::Ask(q) => {
                return Step::Ask(q);
            },
        };
        let missing = about(
            "rotated '",
            reference,
            "' but it's no longer resolvable by reference afterward",
        );
        match self.require_footprint(reference, missing, log, n) {
            Step::Ask(q) => Step::Ask(q),
            Step::Done(Err(e), n) => Step::Done(Err(e), n),
            Step::Done(Ok(found), n) => confirm_rotation(found, reference, angle, log, n),
        }
    }

    fn place_raw(
        &self,
        raw: &str,
        x: &Mm,
        y: &Mm,
        rotation: &Degrees,
        layer: &str,
        reference: &str,
        log: &Vec<Reply>,
        at: usize,
    ) -> (s: Step<()>)
        requires
            at <= log@.len(),
        ensures
            s.deep_view() == place_raw_turn(
                raw@,
                x.deep_view(),
                y.deep_view(),
                rotation.deep_view(),
                layer@,
                reference@,
                log@,
                at as int,
            ),
            s.within(at as int, log@),
    {
        let (shown_x, n) = match ask_text(Request::ShowMm { nm: x.nm }, log, at) {
            Step::Done(Ok(text), n) => (text, n),
            Step::Done(Err(e), n) => {
                return Step::Done(Err(e), n);
            },
            Step::Ask(q) => {
                return Step::Ask(q);
            },
        };
        let (shown_y, n) = match ask_text(Request::ShowMm { nm: y.nm }, log, n) {
            Step::Done(Ok(text), n) => (text, n),
            Step::Done(Err(e), n) => {
                return Step::Done(Err(e), n);
            },
            Step::Ask(q) => {
                return Step::Ask(q);
            },
        };
        match instantiate_footprint_sexp(
            raw,
            shown_x.as_str(),
            shown_y.as_str(),
            rotation.text.as_str(),
            layer,
            reference,
        ) {
            Err(e) => Step::Done(Err(e), n),
            Ok(clause) => self.save_splice_revert(clause.as_str(), log, n),
        }
    }

    /// Places a footprint from a library, given as `Library:Footprint`. The value is the
    /// footprint that is then found on the board.
    pub fn place_footprint(
        &self,
        lib_id: &str,
        x: &Mm,
        y: &Mm,
        rotation: &Degrees,
        layer: &str,
        reference: &str,
        log: &Vec<Reply>,
        at: usize,
    ) -> (s: Step<IpcFootprint>)
        requires
            at <= log@.len(),
        ensures
            s.deep_view() == place_footprint_turn(
                lib_id@,
                x.deep_view(),
                y.deep_view(),
                rotation.deep_view(),
                layer@,
                reference@,
                log@,
                at as int,
            ),
            s.within(at as int, log@),
    {
        let (path, n) = match resolve_footprint_file(lib_id, log, at) {
            Step::Done(Ok(path), n) => (path, n),
            Step::Done(Err(e), n) => {
                return Step::Done(Err(e), n);
            },
            Step::Ask(q) => {
                return Step::Ask(q);
            },
        };
        let (raw, n) = match read_text(path.as_str(), "could not read footprint file ", log, n) {
            Step::Done(Ok(raw), n) => (raw, n),
            Step::Done(Err(e), n) => {
                return Step::Done(Err(e), n);
            },
            Step::Ask(q) => {
                return Step::Ask(q);
            },
        };
        let n: usize = match self.place_raw(
            raw.as_str(),
            x,
            y,
            rotation,
            layer,
            reference,
            log,
            n,
        ) {
            Step::Done(Ok(_), n) => n,
            Step::Done(Err(e), n) => {
                return Step::Done(Err(e), n);
            },
            Step::Ask(q) => {
                return Step::Ask(q);
            },
        };
        let missing = about(
            "placed '",
            reference,
            "' but it's not visible on the board after reload",
        );
        self.require_footprint(reference, missing, log, n)
    }
}

} // verus!
