//! What is written for vias and footprints that are placed, moved and turned, and what is made of
//! them when they are seen again, field by field.
use vstd::prelude::*;
use vstd::string::*;

use crate::board::{
    add_via_turn, check_drill_turn, check_pads_turn, confirm_via_turn, find_bad_layer, find_via,
    is_via_at, resolve_net_code_turn, see_via_turn, splice_via_turn,
};
use crate::footprints::{
    confirm_move_turn, confirm_rotation_turn, edit_footprint_turn, find_named, get_footprint_turn,
    is_named, move_footprint_turn, named_item_turn, place_footprint_turn, place_raw_turn,
    rotate_footprint_turn,
};
use crate::items::{fetch_items_turn, update_items_turn};
use crate::laws::found::the_first_via_that_fits_is_found;
use crate::laws::reading::{fails_at, has_reference, place_or_zero};
use crate::library::{read_text_turn, resolve_footprint_turn};
use crate::sexp::placed_footprint;
use crate::splice::save_splice_revert_turn;
use crate::talk::{Edit, Item, ItemBody, KiCadObjectType, Query, Reply, Turn};
use crate::types::{
    DegreesModel, FootprintInstance, IpcFootprintModel, MmModel, PadStack, PadStackLayer, Vector2,
    Via,
};
use crate::wire::AnyModel;

verus! {

/// `turn` asks what `first` asks, and fails with what it fails with.
pub open spec fn goes_by<T, U>(turn: Turn<U>, first: Turn<T>) -> bool {
    match first {
        Turn::Ask(q) => turn == Turn::<U>::Ask(q),
        Turn::Done(Err(e), n) => turn == Turn::<U>::Done(Err(e), n),
        Turn::Done(Ok(_), _) => true,
    }
}

/// `turn` puts the query at position `n`, and fails unless it is replied to with a text.
pub open spec fn wants_text<T>(turn: Turn<T>, query: Query, log: Seq<Reply>, n: int) -> bool {
    &&& log.len() <= n ==> turn == Turn::<T>::Ask(query)
    &&& log.len() > n && !(log[n] is Text) ==> fails_at(turn, log, n)
}

/// The reply at `n` is the text `shown`.
pub open spec fn is_text(log: Seq<Reply>, n: int, shown: Seq<char>) -> bool {
    0 <= n < log.len() && (log[n] matches Reply::Text(text) && text@ == shown)
}

// ------------------------------------------------------------ vias

/// The item is a via, it is at the position in both coordinates, and on the net with the code. A
/// position that is absent is the origin, and a code that is absent is 0.
pub open spec fn is_via_on(item: Item, x_nm: i64, y_nm: i64, code: i32) -> bool {
    &&& item.body matches ItemBody::Via(via)
    &&& match via.position {
        Some(place) => place.x_nm == x_nm && place.y_nm == y_nm,
        None => x_nm == 0 && y_nm == 0,
    }
    &&& match via.net {
        Some(net) => match net.code {
            Some(c) => c.value == code,
            None => code == 0,
        },
        None => code == 0,
    }
}

/// Item `i` is the first via at the position and on the net.
pub open spec fn is_first_via_on(items: Seq<Item>, i: int, x_nm: i64, y_nm: i64, code: i32) -> bool {
    &&& 0 <= i < items.len()
    &&& is_via_on(items[i], x_nm, y_nm, code)
    &&& forall|j: int| 0 <= j < i ==> !is_via_on(#[trigger] items[j], x_nm, y_nm, code)
}

/// `id` is the identifier of the via, or nothing if it has none.
pub open spec fn is_id_of(id: Seq<char>, via: Via) -> bool {
    match via.id {
        Some(own) => id == own.value@,
        None => id.len() == 0,
    }
}

/// The pad is a square of the given size.
pub open spec fn is_square(layer: PadStackLayer, size_nm: i64) -> bool {
    layer.size matches Some(size) && size.x_nm == size_nm && size.y_nm == size_nm
}

/// The via has a drill of the given diameter, at least one copper layer, and on every copper layer
/// a square pad of the given size.
pub open spec fn is_made(via: Via, drill_nm: i64, pad_nm: i64) -> bool {
    &&& via.pad_stack matches Some(stack)
    &&& stack.drill matches Some(drill)
    &&& drill.diameter matches Some(diameter)
    &&& diameter.x_nm == drill_nm
    &&& stack.copper_layers@.len() > 0
    &&& forall|i: int|
        0 <= i < stack.copper_layers@.len() ==> is_square(
            #[trigger] stack.copper_layers@[i],
            pad_nm,
        )
}

/// How a via is called in errors.
pub open spec fn via_at_text(net_name: Seq<char>, x: MmModel, y: MmModel) -> Seq<char> {
    "via at ("@ + x.text + ", "@ + y.text + ") on net '"@ + net_name + "'"@
}

proof fn fitting_is_being_there(item: Item, x_nm: i64, y_nm: i64, code: i32)
    ensures
        is_via_at(item, Vector2 { x_nm, y_nm }, code) == is_via_on(item, x_nm, y_nm, code),
{
}

proof fn the_first_via_is_found(items: Seq<Item>, x_nm: i64, y_nm: i64, code: i32)
    ensures
        match find_via(items, Vector2 { x_nm, y_nm }, code, 0) {
            Some(i) => is_first_via_on(items, i, x_nm, y_nm, code),
            None => forall|j: int|
                0 <= j < items.len() ==> !is_via_on(#[trigger] items[j], x_nm, y_nm, code),
        },
{
    let place = Vector2 { x_nm, y_nm };
    the_first_via_that_fits_is_found(items, place, code, 0);
    assert forall|j: int| 0 <= j < items.len() implies is_via_at(
        #[trigger] items[j],
        place,
        code,
    ) == is_via_on(items[j], x_nm, y_nm, code) by {
        fitting_is_being_there(items[j], x_nm, y_nm, code);
    }
}

proof fn the_first_bad_layer_is_found(layers: Seq<PadStackLayer>, size_nm: i64, from: int)
    requires
        0 <= from,
    ensures
        match find_bad_layer(layers, size_nm, from) {
            Some(i) => from <= i < layers.len() && !is_square(layers[i], size_nm) && forall|j: int|
                from <= j < i ==> is_square(#[trigger] layers[j], size_nm),
            None => forall|j: int|
                from <= j < layers.len() ==> is_square(#[trigger] layers[j], size_nm),
        },
    decreases layers.len() - from,
{
    if from < layers.len() {
        assert(is_square(layers[from], size_nm) <==> layers[from].size == Some(
            Vector2 { x_nm: size_nm, y_nm: size_nm },
        ));
        if is_square(layers[from], size_nm) {
            the_first_bad_layer_is_found(layers, size_nm, from + 1);
        }
    }
}

/// The drill of a via must be there, and must be the requested one to the nanometre.
pub proof fn a_drill_must_be_the_requested_one(
    name: Seq<char>,
    stack: PadStack,
    drill: MmModel,
    log: Seq<Reply>,
    at: int,
)
    requires
        0 <= at <= log.len(),
    ensures
        ({
            let turn = check_drill_turn(name, stack, drill, log, at);
            if stack.drill matches Some(d) && d.diameter is Some {
                let actual = stack.drill->0.diameter->0.x_nm;
                if actual == drill.nm {
                    turn == Turn::Done(Ok::<(), Seq<char>>(()), at)
                } else {
                    &&& wants_text(turn, Query::ShowMm { nm: actual }, log, at)
                    &&& forall|shown: Seq<char>| #[trigger]
                        is_text(log, at, shown) ==> turn == Turn::Done(
                            Err::<(), Seq<char>>(
                                name + " was created with drill "@ + shown
                                    + "mm, not the requested "@ + drill.text + "mm"@,
                            ),
                            at + 1,
                        )
                }
            } else {
                turn == Turn::Done(
                    Err::<(), Seq<char>>(
                        name
                            + " has no drill diameter in its re-queried pad_stack — can't confirm it matches the requested "@
                            + drill.text + "mm"@,
                    ),
                    at,
                )
            }
        }),
{
}

/// The pads of a via must be there, and on every copper layer they must be squares of the requested
/// size to the nanometre; the first that is not says so.
pub proof fn pads_must_be_the_requested_ones(
    name: Seq<char>,
    layers: Seq<PadStackLayer>,
    pad: MmModel,
    log: Seq<Reply>,
    at: int,
)
    requires
        0 <= at <= log.len(),
    ensures
        ({
            let turn = check_pads_turn(name, layers, pad, log, at);
            &&& layers.len() == 0 ==> turn == Turn::Done(
                Err::<(), Seq<char>>(
                    name
                        + " has no copper_layers in its re-queried pad_stack — can't confirm pad size matches the requested "@
                        + pad.text + "mm"@,
                ),
                at,
            )
            &&& layers.len() > 0 && (forall|i: int|
                0 <= i < layers.len() ==> is_square(#[trigger] layers[i], pad.nm)) ==> turn
                == Turn::Done(Ok::<(), Seq<char>>(()), at)
            &&& forall|i: int|
                0 <= i < layers.len() && !is_square(#[trigger] layers[i], pad.nm) && (forall|j: int|
                    0 <= j < i ==> is_square(#[trigger] layers[j], pad.nm)) ==> match layers[i].size {
                    None => turn == Turn::Done(
                        Err::<(), Seq<char>>(
                            name
                                + " has a copper_layers entry with no size — can't confirm pad size matches the requested "@
                                + pad.text + "mm"@,
                        ),
                        at,
                    ),
                    Some(size) => {
                        &&& wants_text(turn, Query::ShowMm { nm: size.x_nm }, log, at)
                        &&& forall|width: Seq<char>| #[trigger]
                            is_text(log, at, width) ==> wants_text(
                                turn,
                                Query::ShowMm { nm: size.y_nm },
                                log,
                                at + 1,
                            )
                        &&& forall|width: Seq<char>, height: Seq<char>| #[trigger]
                            is_text(log, at, width) && #[trigger] is_text(log, at + 1, height)
                                ==> turn == Turn::Done(
                                Err::<(), Seq<char>>(
                                    name + " was created with pad size "@ + width + "x"@ + height
                                        + "mm, not the requested "@ + pad.text + "mm"@,
                                ),
                                at + 2,
                            )
                    },
                }
        }),
{
    the_first_bad_layer_is_found(layers, pad.nm, 0);
    assert forall|i: int|
        0 <= i < layers.len() && !is_square(#[trigger] layers[i], pad.nm) && (forall|j: int|
            0 <= j < i ==> is_square(#[trigger] layers[j], pad.nm)) implies find_bad_layer(
        layers,
        pad.nm,
        0,
    ) == Some(i) by {
        if let Some(k) = find_bad_layer(layers, pad.nm, 0) {
            if k < i {
                assert(is_square(layers[k], pad.nm));
            }
        }
    }
}

/// A via is confirmed if the first via at the requested position, in both coordinates, and on the
/// requested net is made as requested; the result is the identifier of that via. Otherwise it fails
/// with what is wrong first.
#[verifier::spinoff_prover]
#[verifier::rlimit(40)]
pub proof fn a_via_is_confirmed_by_its_fields(
    items: Seq<Item>,
    net_name: Seq<char>,
    code: i32,
    x: MmModel,
    y: MmModel,
    drill: MmModel,
    pad: MmModel,
    log: Seq<Reply>,
    at: int,
)
    requires
        0 <= at <= log.len(),
    ensures
        ({
            let turn = confirm_via_turn(items, net_name, code, x, y, drill, pad, log, at);
            let name = via_at_text(net_name, x, y);
            &&& (forall|j: int|
                0 <= j < items.len() ==> !is_via_on(#[trigger] items[j], x.nm, y.nm, code)) ==> turn
                == Turn::Done(
                Err::<Seq<char>, Seq<char>>(
                    "placed "@ + name + " but it's not visible on the board after reload"@,
                ),
                at,
            )
            &&& forall|i: int| #[trigger]
                is_first_via_on(items, i, x.nm, y.nm, code) ==> {
                    let via = items[i].body->Via_0;
                    &&& is_made(via, drill.nm, pad.nm) ==> (turn matches Turn::Done(Ok(id), n) && n
                        == at && is_id_of(id, via))
                    &&& turn matches Turn::Done(Ok(_), _) ==> is_made(via, drill.nm, pad.nm)
                    &&& match via.pad_stack {
                        None => turn == Turn::Done(
                            Err::<Seq<char>, Seq<char>>(
                                name
                                    + " matched position/net but has no pad_stack in the re-queried item — can't confirm drill/pad size"@,
                            ),
                            at,
                        ),
                        Some(stack) => {
                            &&& goes_by(turn, check_drill_turn(name, stack, drill, log, at))
                            &&& check_drill_turn(name, stack, drill, log, at) matches Turn::Done(
                                Ok(_),
                                _,
                            ) ==> goes_by(
                                turn,
                                check_pads_turn(name, stack.copper_layers@, pad, log, at),
                            )
                        },
                    }
                }
        }),
{
    the_first_via_is_found(items, x.nm, y.nm, code);
    let name = via_at_text(net_name, x, y);
    let turn = confirm_via_turn(items, net_name, code, x, y, drill, pad, log, at);
    if let Some(i) = find_via(items, Vector2 { x_nm: x.nm, y_nm: y.nm }, code, 0) {
        assert(is_via_on(items[i], x.nm, y.nm, code));
        assert forall|k: int| #[trigger] is_first_via_on(items, k, x.nm, y.nm, code) implies k == i by {
            if k < i {
                assert(!is_via_on(items[k], x.nm, y.nm, code));
            } else if i < k {
                assert(!is_via_on(items[i], x.nm, y.nm, code));
            }
        }
        let via = items[i].body->Via_0;
        if let Some(stack) = via.pad_stack {
            a_drill_must_be_the_requested_one(name, stack, drill, log, at);
            pads_must_be_the_requested_ones(name, stack.copper_layers@, pad, log, at);
            the_first_bad_layer_is_found(stack.copper_layers@, pad.nm, 0);
            if turn matches Turn::Done(Ok(_), _) {
                assert(check_drill_turn(name, stack, drill, log, at) matches Turn::Done(Ok(_), _));
                assert(find_bad_layer(stack.copper_layers@, pad.nm, 0) is None);
                assert(is_made(via, drill.nm, pad.nm));
            }
        }
    } else {
        assert forall|k: int| !#[trigger] is_first_via_on(items, k, x.nm, y.nm, code) by {
            if is_first_via_on(items, k, x.nm, y.nm, code) {
                assert(is_via_on(items[k], x.nm, y.nm, code));
            }
        }
    }
}

/// `add_via` looks up the code of the net, takes a new identifier, and has a clause spliced into
/// the board that has everything that was requested in its place. It then lists the vias of the
/// board, and what it makes of them is its result.
#[verifier::spinoff_prover]
#[verifier::rlimit(40)]
pub proof fn the_requested_via_is_written_and_looked_for(
    net_name: Seq<char>,
    x: MmModel,
    y: MmModel,
    drill: MmModel,
    pad: MmModel,
    log: Seq<Reply>,
    at: int,
)
    requires
        0 <= at <= log.len(),
    ensures
        ({
            let turn = add_via_turn(net_name, x, y, drill, pad, log, at);
            &&& goes_by(turn, resolve_net_code_turn(net_name, log, at))
            &&& resolve_net_code_turn(net_name, log, at) matches Turn::Done(Ok(code), n) ==> {
                &&& wants_text(turn, Query::NewUuid, log, n)
                &&& forall|id: Seq<char>| #[trigger]
                    is_text(log, n, id) ==> {
                        let clause = "(via (at "@ + x.text + " "@ + y.text + ") (size "@ + pad.text
                            + ") (drill "@ + drill.text
                            + ") (layers \"F.Cu\" \"B.Cu\") (net \""@ + net_name + "\") (uuid \""@
                            + id + "\"))"@;
                        &&& goes_by(turn, save_splice_revert_turn(clause, log, n + 1))
                        &&& save_splice_revert_turn(clause, log, n + 1) matches Turn::Done(Ok(_), m)
                            ==> {
                            let seen = fetch_items_turn(KiCadObjectType::KotPcbVia, log, m);
                            &&& goes_by(turn, seen)
                            &&& seen matches Turn::Done(Ok(items), k) ==> turn == confirm_via_turn(
                                items,
                                net_name,
                                code,
                                x,
                                y,
                                drill,
                                pad,
                                log,
                                k,
                            )
                        }
                    }
            }
        }),
{
    crate::replay::resolve_net_code_replays(net_name, log, log, at);
    if let Turn::Done(Ok(code), n) = resolve_net_code_turn(net_name, log, at) {
        assert(add_via_turn(net_name, x, y, drill, pad, log, at) == splice_via_turn(
            net_name,
            code,
            x,
            y,
            drill,
            pad,
            log,
            n,
        ).and_then(
            |loaded: (i32, Seq<char>), n: int|
                see_via_turn(net_name, loaded.0, x, y, drill, pad, log, n),
        ));
    }
}

/// If `add_via` gives an identifier, then it has listed the vias of the board, up to the last reply
/// that it has used, and the first among them that is at the requested position, in both
/// coordinates, and on the requested net is made as requested and has that identifier.
#[verifier::spinoff_prover]
#[verifier::rlimit(40)]
pub proof fn an_added_via_was_listed(
    net_name: Seq<char>,
    x: MmModel,
    y: MmModel,
    drill: MmModel,
    pad: MmModel,
    log: Seq<Reply>,
    at: int,
)
    requires
        0 <= at <= log.len(),
    ensures
        add_via_turn(net_name, x, y, drill, pad, log, at) matches Turn::Done(Ok(id), n) ==> {
            &&& resolve_net_code_turn(net_name, log, at) matches Turn::Done(Ok(code), _)
            &&& exists|m: int|
                {
                    &&& at < m
                    &&& (#[trigger] fetch_items_turn(KiCadObjectType::KotPcbVia, log, m)) matches
                        Turn::Done(Ok(items), k)
                    &&& k == n
                    &&& exists|i: int|
                        {
                            &&& #[trigger] is_first_via_on(items, i, x.nm, y.nm, code)
                            &&& items[i].body matches ItemBody::Via(via)
                            &&& is_made(via, drill.nm, pad.nm)
                            &&& is_id_of(id, via)
                        }
                }
        },
{
    the_requested_via_is_written_and_looked_for(net_name, x, y, drill, pad, log, at);
    crate::replay::resolve_net_code_replays(net_name, log, log, at);
    if let Turn::Done(Ok(id), n) = add_via_turn(net_name, x, y, drill, pad, log, at) {
        let code = resolve_net_code_turn(net_name, log, at)->Done_0->Ok_0;
        let k = resolve_net_code_turn(net_name, log, at)->Done_1;
        let uuid = log[k]->Text_0@;
        assert(is_text(log, k, uuid));
        let clause = "(via (at "@ + x.text + " "@ + y.text + ") (size "@ + pad.text + ") (drill "@
            + drill.text + ") (layers \"F.Cu\" \"B.Cu\") (net \""@ + net_name + "\") (uuid \""@
            + uuid + "\"))"@;
        crate::replay::save_splice_revert_replays(clause, log, log, k + 1);
        let m = save_splice_revert_turn(clause, log, k + 1)->Done_1;
        crate::replay::fetch_items_replays(KiCadObjectType::KotPcbVia, log, log, m);
        let items = fetch_items_turn(KiCadObjectType::KotPcbVia, log, m)->Done_0->Ok_0;
        let last = fetch_items_turn(KiCadObjectType::KotPcbVia, log, m)->Done_1;
        a_via_is_confirmed_by_its_fields(items, net_name, code, x, y, drill, pad, log, last);
        the_first_via_is_found(items, x.nm, y.nm, code);
        let i = find_via(items, Vector2 { x_nm: x.nm, y_nm: y.nm }, code, 0)->0;
        assert(is_first_via_on(items, i, x.nm, y.nm, code));
    }
}

// ------------------------------------------------------------ moving and turning

/// Going `by` from `from` leads to `to`: exactly, if the way is short enough for a number of 64
/// bits, and up to a multiple of two to the 64th in any case.
pub open spec fn leads_to(from: i64, by: i64, to: i64) -> bool {
    &&& i64::MIN <= to - from <= i64::MAX ==> from + by == to
    &&& from + by == to || from + by == to + 0x1_0000_0000_0000_0000 || from + by == to
        - 0x1_0000_0000_0000_0000
}

/// Item `i` is the first footprint with the reference.
pub open spec fn is_first_named(items: Seq<Item>, i: int, reference: Seq<char>) -> bool {
    &&& 0 <= i < items.len()
    &&& has_reference(items[i], reference)
    &&& forall|j: int| 0 <= j < i ==> !has_reference(#[trigger] items[j], reference)
}

proof fn the_first_named_is_found(items: Seq<Item>, reference: Seq<char>, from: int)
    requires
        0 <= from,
        forall|j: int| 0 <= j < from && j < items.len() ==> !has_reference(#[trigger] items[j], reference),
    ensures
        match find_named(items, reference, from) {
            Some(i) => is_first_named(items, i, reference),
            None => forall|j: int|
                0 <= j < items.len() ==> !has_reference(#[trigger] items[j], reference),
        },
    decreases items.len() - from,
{
    if from < items.len() {
        assert(is_named(items[from], reference) == has_reference(items[from], reference));
        if !is_named(items[from], reference) {
            the_first_named_is_found(items, reference, from + 1);
        }
    }
}

/// The footprint that is to be changed is the first one with the reference, among those listed.
pub proof fn the_footprint_to_change_is_the_first_named(
    reference: Seq<char>,
    log: Seq<Reply>,
    at: int,
)
    requires
        0 <= at <= log.len(),
    ensures
        ({
            let seen = fetch_items_turn(KiCadObjectType::KotPcbFootprint, log, at);
            let turn = named_item_turn(reference, log, at);
            &&& goes_by(turn, seen)
            &&& seen matches Turn::Done(Ok(items), n) ==> {
                &&& (forall|j: int|
                    0 <= j < items.len() ==> !has_reference(#[trigger] items[j], reference)) ==> turn
                    == Turn::Done(
                    Err::<(AnyModel, FootprintInstance), Seq<char>>(
                        "Footprint '"@ + reference + "' not found"@,
                    ),
                    n,
                )
                &&& forall|i: int| #[trigger]
                    is_first_named(items, i, reference) ==> {
                        &&& turn matches Turn::Done(Ok(found), k)
                        &&& k == n
                        &&& found.0.type_url == items[i].any.type_url@
                        &&& found.0.value == items[i].any.value@
                        &&& items[i].body matches ItemBody::Footprint(fp)
                        &&& found.1 == fp
                    }
            }
        }),
{
    let seen = fetch_items_turn(KiCadObjectType::KotPcbFootprint, log, at);
    if let Turn::Done(Ok(items), n) = seen {
        the_first_named_is_found(items, reference, 0);
        if let Some(i) = find_named(items, reference, 0) {
            assert forall|k: int| #[trigger] is_first_named(items, k, reference) implies k == i by {
                if k < i {
                    assert(!has_reference(items[k], reference));
                } else if i < k {
                    assert(!has_reference(items[i], reference));
                }
            }
            assert(has_reference(items[i], reference));
        } else {
            assert forall|k: int| !#[trigger] is_first_named(items, k, reference) by {
                if is_first_named(items, k, reference) {
                    assert(has_reference(items[k], reference));
                }
            }
        }
    }
}

/// The new encoding of a footprint is sent, as the encoding of a footprint, to take the place of
/// the old one.
pub proof fn an_edited_footprint_is_sent(
    item: AnyModel,
    edit: Edit,
    items: Seq<AnyModel>,
    log: Seq<Reply>,
    at: int,
)
    requires
        0 <= at <= log.len(),
    ensures
        log.len() == at ==> edit_footprint_turn(item, edit, log, at) == Turn::<()>::Ask(
            Query::EditFootprint { item, edit },
        ),
        log.len() > at ==> match log[at] {
            Reply::Bytes(bytes) => items.len() == 1 && items[0].type_url == "type.googleapis.com/"@
                + "kiapi.board.types.FootprintInstance"@ && items[0].value == bytes@
                ==> edit_footprint_turn(item, edit, log, at) == update_items_turn(items, log, at + 1),
            _ => fails_at(edit_footprint_turn(item, edit, log, at), log, at),
        },
{
    if log.len() > at {
        if let Reply::Bytes(bytes) = log[at] {
            let sent = crate::wire::packed(bytes@, "kiapi.board.types.FootprintInstance"@);
            if items.len() == 1 && items[0].type_url == "type.googleapis.com/"@
                + "kiapi.board.types.FootprintInstance"@ && items[0].value == bytes@ {
                assert(items[0] == sent);
                assert(items =~= seq![sent]);
            }
        }
    }
}

/// The edit sets the position that is asked for, and shifts the parts from where the footprint was
/// exactly as far as the footprint itself goes, in whichever direction that is.
pub open spec fn moves_all(edit: Edit, fp: FootprintInstance, x_nm: i64, y_nm: i64) -> bool {
    &&& edit matches Edit::Move { position, dx_nm, dy_nm }
    &&& position.x_nm == x_nm
    &&& position.y_nm == y_nm
    &&& leads_to(place_or_zero(fp.position).x_nm, dx_nm, x_nm)
    &&& leads_to(place_or_zero(fp.position).y_nm, dy_nm, y_nm)
}

/// The edit sets the angle that is asked for, and turns the parts from the angle that the footprint
/// had, around the place where it is.
pub open spec fn turns_all(edit: Edit, fp: FootprintInstance, angle_bits: u64) -> bool {
    &&& edit matches Edit::Rotate { angle, from, center }
    &&& angle.bits == angle_bits
    &&& from.bits == if fp.orientation is Some {
        fp.orientation->0.value_degrees.bits
    } else {
        0
    }
    &&& center == place_or_zero(fp.position)
}

/// What `move_footprint` asks to be done with the footprint: the parts go as far as the footprint
/// itself, and the whole ends where it was asked for. The footprint is then looked up again.
pub proof fn a_move_takes_the_parts_along(
    reference: Seq<char>,
    x: MmModel,
    y: MmModel,
    log: Seq<Reply>,
    at: int,
)
    requires
        0 <= at <= log.len(),
    ensures
        ({
            let turn = move_footprint_turn(reference, x, y, log, at);
            &&& goes_by(turn, named_item_turn(reference, log, at))
            &&& named_item_turn(reference, log, at) matches Turn::Done(Ok(found), n) ==> exists|
                edit: Edit,
            |
                {
                    &&& moves_all(edit, found.1, x.nm, y.nm)
                    &&& goes_by(turn, #[trigger] edit_footprint_turn(found.0, edit, log, n))
                    &&& edit_footprint_turn(found.0, edit, log, n) matches Turn::Done(Ok(_), m) ==> {
                        let again = get_footprint_turn(reference, log, m);
                        &&& goes_by(turn, again)
                        &&& again matches Turn::Done(Ok(None), k) ==> turn == Turn::Done(
                            Err::<IpcFootprintModel, Seq<char>>(
                                "moved '"@ + reference
                                    + "' but it's no longer resolvable by reference afterward"@,
                            ),
                            k,
                        )
                        &&& again matches Turn::Done(Ok(Some(seen)), k) ==> turn
                            == confirm_move_turn(seen, reference, x, y, log, k)
                    }
                }
        }),
{
    if let Turn::Done(Ok(found), n) = named_item_turn(reference, log, at) {
        let edit = crate::footprints::move_edit(found.1, Vector2 { x_nm: x.nm, y_nm: y.nm });
        assert(moves_all(edit, found.1, x.nm, y.nm));
        let edited = edit_footprint_turn(found.0, edit, log, n);
        assert(goes_by(move_footprint_turn(reference, x, y, log, at), edited));
    }
}

/// Whenever `move_footprint` asks for a footprint to be changed, it is the first one listed with
/// the reference, and the change takes the parts along.
pub proof fn the_named_footprint_is_moved(
    reference: Seq<char>,
    x: MmModel,
    y: MmModel,
    log: Seq<Reply>,
    at: int,
)
    requires
        0 <= at <= log.len(),
    ensures
        fetch_items_turn(KiCadObjectType::KotPcbFootprint, log, at) matches Turn::Done(Ok(items), n)
            ==> forall|i: int| #[trigger]
            is_first_named(items, i, reference) && log.len() <= n ==> {
                let turn = move_footprint_turn(reference, x, y, log, at);
                &&& turn is Ask
                &&& turn->Ask_0 matches Query::EditFootprint { item, edit }
                &&& item.type_url == items[i].any.type_url@
                &&& item.value == items[i].any.value@
                &&& items[i].body matches ItemBody::Footprint(fp)
                &&& moves_all(edit, fp, x.nm, y.nm)
            },
{
    crate::replay::fetch_items_replays(KiCadObjectType::KotPcbFootprint, log, log, at);
    the_footprint_to_change_is_the_first_named(reference, log, at);
    a_move_takes_the_parts_along(reference, x, y, log, at);
}

/// `turn` does not ask for a footprint to be changed.
pub open spec fn changes_no_footprint<T>(turn: Turn<T>) -> bool {
    !(turn is Ask && turn->Ask_0 is EditFootprint)
}

proof fn an_update_of_items_changes_no_footprint(items: Seq<AnyModel>, log: Seq<Reply>, at: int)
    ensures
        changes_no_footprint(update_items_turn(items, log, at)),
{
}

proof fn looking_changes_no_footprint(reference: Seq<char>, log: Seq<Reply>, at: int)
    ensures
        changes_no_footprint(named_item_turn(reference, log, at)),
        changes_no_footprint(get_footprint_turn(reference, log, at)),
{
}

/// Whenever `move_footprint` asks for a footprint to be changed, the change takes the first one that
/// was listed with the reference to the requested position, and its parts exactly as far.
#[verifier::spinoff_prover]
#[verifier::rlimit(40)]
pub proof fn every_change_of_a_move_is_that_move(
    reference: Seq<char>,
    x: MmModel,
    y: MmModel,
    log: Seq<Reply>,
    at: int,
)
    requires
        0 <= at <= log.len(),
    ensures
        move_footprint_turn(reference, x, y, log, at) matches Turn::Ask(
            Query::EditFootprint { item, edit },
        ) ==> {
            &&& fetch_items_turn(KiCadObjectType::KotPcbFootprint, log, at) matches Turn::Done(
                Ok(items),
                n,
            )
            &&& n == log.len()
            &&& exists|i: int|
                {
                    &&& #[trigger] is_first_named(items, i, reference)
                    &&& item.type_url == items[i].any.type_url@
                    &&& item.value == items[i].any.value@
                    &&& items[i].body matches ItemBody::Footprint(fp)
                    &&& moves_all(edit, fp, x.nm, y.nm)
                }
        },
{
    let turn = move_footprint_turn(reference, x, y, log, at);
    if !changes_no_footprint(turn) {
        crate::replay::fetch_items_replays(KiCadObjectType::KotPcbFootprint, log, log, at);
        looking_changes_no_footprint(reference, log, at);
        a_move_takes_the_parts_along(reference, x, y, log, at);
        the_footprint_to_change_is_the_first_named(reference, log, at);
        let found = named_item_turn(reference, log, at)->Done_0->Ok_0;
        let n = named_item_turn(reference, log, at)->Done_1;
        let items = fetch_items_turn(KiCadObjectType::KotPcbFootprint, log, at)->Done_0->Ok_0;
        the_first_named_is_found(items, reference, 0);
        let i = find_named(items, reference, 0)->0;
        assert(is_first_named(items, i, reference));
        let edit = crate::footprints::move_edit(found.1, Vector2 { x_nm: x.nm, y_nm: y.nm });
        let edited = edit_footprint_turn(found.0, edit, log, n);
        if n < log.len() {
            if let Reply::Bytes(bytes) = log[n] {
                let sent = seq![
                    crate::wire::packed(bytes@, "kiapi.board.types.FootprintInstance"@),
                ];
                an_edited_footprint_is_sent(found.0, edit, sent, log, n);
                an_update_of_items_changes_no_footprint(sent, log, n + 1);
            }
            if let Turn::Done(Ok(_), m) = edited {
                looking_changes_no_footprint(reference, log, m);
            }
            assert(false);
        }
    }
}

/// Where a moved footprint is seen is held against the position that was asked for.
pub proof fn a_moved_footprint_is_looked_at(
    seen: IpcFootprintModel,
    reference: Seq<char>,
    x: MmModel,
    y: MmModel,
    log: Seq<Reply>,
    at: int,
)
    requires
        0 <= at <= log.len(),
    ensures
        ({
            let turn = confirm_move_turn(seen, reference, x, y, log, at);
            &&& log.len() == at ==> turn == Turn::<IpcFootprintModel>::Ask(
                Query::NearMm { position: seen.position, x: x.value, y: y.value },
            )
            &&& log.len() > at ==> match log[at] {
                Reply::Flag(near) => if near {
                    turn == Turn::Done(Ok::<IpcFootprintModel, Seq<char>>(seen), at + 1)
                } else {
                    &&& wants_text(turn, Query::ShowMm { nm: seen.position.x_nm }, log, at + 1)
                    &&& forall|shown_x: Seq<char>| #[trigger]
                        is_text(log, at + 1, shown_x) ==> wants_text(
                            turn,
                            Query::ShowMm { nm: seen.position.y_nm },
                            log,
                            at + 2,
                        )
                    &&& forall|shown_x: Seq<char>, shown_y: Seq<char>| #[trigger]
                        is_text(log, at + 1, shown_x) && #[trigger] is_text(log, at + 2, shown_y)
                            ==> turn == Turn::Done(
                            Err::<IpcFootprintModel, Seq<char>>(
                                "move_footprint reported success for '"@ + reference
                                    + "' but re-query shows it at ("@ + shown_x + ", "@ + shown_y
                                    + "), not the requested ("@ + x.text + ", "@ + y.text + ")"@,
                            ),
                            at + 3,
                        )
                },
                _ => fails_at(turn, log, at),
            }
        }),
{
}

/// What `rotate_footprint` asks to be done with the footprint: the parts turn with it, and the
/// whole ends at the angle that was asked for. The footprint is then looked up again.
pub proof fn a_rotation_takes_the_parts_along(
    reference: Seq<char>,
    angle: DegreesModel,
    log: Seq<Reply>,
    at: int,
)
    requires
        0 <= at <= log.len(),
    ensures
        ({
            let turn = rotate_footprint_turn(reference, angle, log, at);
            &&& goes_by(turn, named_item_turn(reference, log, at))
            &&& named_item_turn(reference, log, at) matches Turn::Done(Ok(found), n) ==> exists|
                edit: Edit,
            |
                {
                    &&& turns_all(edit, found.1, angle.value.bits)
                    &&& goes_by(turn, #[trigger] edit_footprint_turn(found.0, edit, log, n))
                    &&& edit_footprint_turn(found.0, edit, log, n) matches Turn::Done(Ok(_), m) ==> {
                        let again = get_footprint_turn(reference, log, m);
                        &&& goes_by(turn, again)
                        &&& again matches Turn::Done(Ok(None), k) ==> turn == Turn::Done(
                            Err::<IpcFootprintModel, Seq<char>>(
                                "rotated '"@ + reference
                                    + "' but it's no longer resolvable by reference afterward"@,
                            ),
                            k,
                        )
                        &&& again matches Turn::Done(Ok(Some(seen)), k) ==> turn
                            == confirm_rotation_turn(seen, reference, angle, log, k)
                    }
                }
        }),
{
    if let Turn::Done(Ok(found), n) = named_item_turn(reference, log, at) {
        let edit = crate::footprints::rotate_edit(found.1, angle.value);
        assert(turns_all(edit, found.1, angle.value.bits));
        let edited = edit_footprint_turn(found.0, edit, log, n);
        assert(goes_by(rotate_footprint_turn(reference, angle, log, at), edited));
    }
}

/// Whenever `rotate_footprint` asks for a footprint to be changed, it is the first one listed with
/// the reference, and the change turns the parts with it.
pub proof fn the_named_footprint_is_turned(
    reference: Seq<char>,
    angle: DegreesModel,
    log: Seq<Reply>,
    at: int,
)
    requires
        0 <= at <= log.len(),
    ensures
        fetch_items_turn(KiCadObjectType::KotPcbFootprint, log, at) matches Turn::Done(Ok(items), n)
            ==> forall|i: int| #[trigger]
            is_first_named(items, i, reference) && log.len() <= n ==> {
                let turn = rotate_footprint_turn(reference, angle, log, at);
                &&& turn is Ask
                &&& turn->Ask_0 matches Query::EditFootprint { item, edit }
                &&& item.type_url == items[i].any.type_url@
                &&& item.value == items[i].any.value@
                &&& items[i].body matches ItemBody::Footprint(fp)
                &&& turns_all(edit, fp, angle.value.bits)
            },
{
    crate::replay::fetch_items_replays(KiCadObjectType::KotPcbFootprint, log, log, at);
    the_footprint_to_change_is_the_first_named(reference, log, at);
    a_rotation_takes_the_parts_along(reference, angle, log, at);
}

/// Whenever `rotate_footprint` asks for a footprint to be changed, the change turns the first one
/// that was listed with the reference to the requested angle, and its parts with it.
#[verifier::spinoff_prover]
#[verifier::rlimit(40)]
pub proof fn every_change_of_a_rotation_is_that_rotation(
    reference: Seq<char>,
    angle: DegreesModel,
    log: Seq<Reply>,
    at: int,
)
    requires
        0 <= at <= log.len(),
    ensures
        rotate_footprint_turn(reference, angle, log, at) matches Turn::Ask(
            Query::EditFootprint { item, edit },
        ) ==> {
            &&& fetch_items_turn(KiCadObjectType::KotPcbFootprint, log, at) matches Turn::Done(
                Ok(items),
                n,
            )
            &&& n == log.len()
            &&& exists|i: int|
                {
                    &&& #[trigger] is_first_named(items, i, reference)
                    &&& item.type_url == items[i].any.type_url@
                    &&& item.value == items[i].any.value@
                    &&& items[i].body matches ItemBody::Footprint(fp)
                    &&& turns_all(edit, fp, angle.value.bits)
                }
        },
{
    let turn = rotate_footprint_turn(reference, angle, log, at);
    if !changes_no_footprint(turn) {
        crate::replay::fetch_items_replays(KiCadObjectType::KotPcbFootprint, log, log, at);
        looking_changes_no_footprint(reference, log, at);
        a_rotation_takes_the_parts_along(reference, angle, log, at);
        the_footprint_to_change_is_the_first_named(reference, log, at);
        let found = named_item_turn(reference, log, at)->Done_0->Ok_0;
        let n = named_item_turn(reference, log, at)->Done_1;
        let items = fetch_items_turn(KiCadObjectType::KotPcbFootprint, log, at)->Done_0->Ok_0;
        the_first_named_is_found(items, reference, 0);
        let i = find_named(items, reference, 0)->0;
        assert(is_first_named(items, i, reference));
        let edit = crate::footprints::rotate_edit(found.1, angle.value);
        let edited = edit_footprint_turn(found.0, edit, log, n);
        if n < log.len() {
            if let Reply::Bytes(bytes) = log[n] {
                let sent = seq![
                    crate::wire::packed(bytes@, "kiapi.board.types.FootprintInstance"@),
                ];
                an_edited_footprint_is_sent(found.0, edit, sent, log, n);
                an_update_of_items_changes_no_footprint(sent, log, n + 1);
            }
            if let Turn::Done(Ok(_), m) = edited {
                looking_changes_no_footprint(reference, log, m);
            }
            assert(false);
        }
    }
}

/// The angle that a turned footprint is seen at is held against the one that was asked for.
pub proof fn a_turned_footprint_is_looked_at(
    seen: IpcFootprintModel,
    reference: Seq<char>,
    angle: DegreesModel,
    log: Seq<Reply>,
    at: int,
)
    requires
        0 <= at <= log.len(),
    ensures
        ({
            let turn = confirm_rotation_turn(seen, reference, angle, log, at);
            &&& log.len() == at ==> turn == Turn::<IpcFootprintModel>::Ask(
                Query::SameAngle { found: seen.rotation, wanted: angle.value },
            )
            &&& log.len() > at ==> match log[at] {
                Reply::Flag(same) => if same {
                    turn == Turn::Done(Ok::<IpcFootprintModel, Seq<char>>(seen), at + 1)
                } else {
                    &&& wants_text(turn, Query::ShowReal { value: seen.rotation }, log, at + 1)
                    &&& forall|shown: Seq<char>| #[trigger]
                        is_text(log, at + 1, shown) ==> turn == Turn::Done(
                            Err::<IpcFootprintModel, Seq<char>>(
                                "rotate_footprint reported success for '"@ + reference
                                    + "' but re-query shows rotation "@ + shown
                                    + ", not the requested "@ + angle.text,
                            ),
                            at + 2,
                        )
                },
                _ => fails_at(turn, log, at),
            }
        }),
{
}

// ------------------------------------------------------------ placing

/// A footprint is placed from its file: the position is shown in millimetres, and what is spliced
/// into the board is the footprint with that position, the rotation, the layer and the reference
/// that were asked for.
pub proof fn the_requested_footprint_is_written(
    raw: Seq<char>,
    x: MmModel,
    y: MmModel,
    rotation: DegreesModel,
    layer: Seq<char>,
    reference: Seq<char>,
    log: Seq<Reply>,
    at: int,
)
    requires
        0 <= at <= log.len(),
    ensures
        ({
            let turn = place_raw_turn(raw, x, y, rotation, layer, reference, log, at);
            &&& wants_text(turn, Query::ShowMm { nm: x.nm }, log, at)
            &&& forall|shown_x: Seq<char>| #[trigger]
                is_text(log, at, shown_x) ==> wants_text(
                    turn,
                    Query::ShowMm { nm: y.nm },
                    log,
                    at + 1,
                )
            &&& forall|shown_x: Seq<char>, shown_y: Seq<char>| #[trigger]
                is_text(log, at, shown_x) && #[trigger] is_text(log, at + 1, shown_y) ==> (
                match placed_footprint(raw, shown_x, shown_y, rotation.text, layer, reference) {
                    Err(e) => turn == Turn::Done(Err::<(), Seq<char>>(e), at + 2),
                    Ok(clause) => turn == save_splice_revert_turn(clause, log, at + 2),
                })
        }),
{
}

/// `place_footprint` finds the file of the footprint, reads it, and places what it holds; then the
/// footprint is looked up by its reference, and that is the result.
pub proof fn a_footprint_is_placed_from_its_file(
    lib_id: Seq<char>,
    x: MmModel,
    y: MmModel,
    rotation: DegreesModel,
    layer: Seq<char>,
    reference: Seq<char>,
    log: Seq<Reply>,
    at: int,
)
    requires
        0 <= at <= log.len(),
    ensures
        ({
            let turn = place_footprint_turn(lib_id, x, y, rotation, layer, reference, log, at);
            &&& goes_by(turn, resolve_footprint_turn(lib_id, log, at))
            &&& resolve_footprint_turn(lib_id, log, at) matches Turn::Done(Ok(path), n) ==> {
                let read = read_text_turn(path, "could not read footprint file "@, log, n);
                &&& goes_by(turn, read)
                &&& read matches Turn::Done(Ok(raw), m) ==> {
                    let placed = place_raw_turn(raw, x, y, rotation, layer, reference, log, m);
                    &&& goes_by(turn, placed)
                    &&& placed matches Turn::Done(Ok(_), k) ==> {
                        let again = get_footprint_turn(reference, log, k);
                        &&& goes_by(turn, again)
                        &&& again matches Turn::Done(Ok(None), j) ==> turn == Turn::Done(
                            Err::<IpcFootprintModel, Seq<char>>(
                                "placed '"@ + reference
                                    + "' but it's not visible on the board after reload"@,
                            ),
                            j,
                        )
                        &&& again matches Turn::Done(Ok(Some(seen)), j) ==> turn == Turn::Done(
                            Ok::<IpcFootprintModel, Seq<char>>(seen),
                            j,
                        )
                    }
                }
            }
        }),
{
}

} // verus!
