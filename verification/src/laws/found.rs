//! What operations report is what was found on the board.
use vstd::prelude::*;

use crate::board::{
    add_via_turn, code_of, confirm_via_turn, drill_in, find_bad_layer, find_via, is_via_at, passes,
    resolve_net_code_turn, text_turn, tracks_among, via_kiid,
};
use crate::documents::{board_file_path_turn, verify_board_turn};
use crate::footprints::{
    edit_footprint_turn, first_named, gone, list_footprints_turn, move_edit, move_footprint_turn,
    named_item_turn, not_placed, place_footprint_turn, place_raw_turn, require_footprint_turn,
    rotate_edit, rotate_footprint_turn,
};
use crate::items::fetch_items_turn;
use crate::library::{read_text_turn, resolve_footprint_turn};
use crate::replay::{
    board_file_path_replays, edit_footprint_replays, named_item_replays, require_footprint_replays,
};
use crate::sexp::via_clause;
use crate::splice::save_splice_revert_turn;
use crate::talk::{Item, ItemBody, KiCadObjectType, Query, Reply, Turn};
use crate::types::{
    DegreesModel, IpcFootprintModel, IpcNetModel, IpcTrackModel, MmModel, PadStackLayer, Vector2,
};

verus! {

// ------------------------------------------------------------ the open board

/// `verify_board_matches` succeeds exactly if the open board's file was found to be the
/// requested one: that is the last thing it asks.
pub proof fn a_verified_board_is_the_open_one(requested: Seq<char>, log: Seq<Reply>, at: int)
    requires
        0 <= at <= log.len(),
    ensures
        verify_board_turn(requested, log, at) matches Turn::Done(Ok(_), n) ==> {
            &&& at < n <= log.len()
            &&& log[n - 1] == Reply::Flag(true)
            &&& board_file_path_turn(log, at) matches Turn::Done(Ok(open), k)
            &&& k == n - 1
            &&& verify_board_turn(requested, log.take(n - 1), at) == Turn::<()>::Ask(
                Query::SameFile { requested, open },
            )
        },
        board_file_path_turn(log, at) matches Turn::Done(Ok(_), k) ==> (k < log.len() && log[k]
            == Reply::Flag(true) ==> verify_board_turn(requested, log, at) == Turn::Done(
            Ok::<(), Seq<char>>(()),
            k + 1,
        )),
{
    board_file_path_replays(log, log, at);
    if let Turn::Done(Ok(_), k) = board_file_path_turn(log, at) {
        board_file_path_replays(log.take(k), log, at);
    }
}

// ------------------------------------------------------------ nets and tracks

/// A net is found exactly if there is one with the name, and it is the first.
pub proof fn the_first_net_with_the_name_is_found(nets: Seq<IpcNetModel>, name: Seq<char>)
    ensures
        match code_of(nets, name) {
            Some(code) => exists|i: int|
                0 <= i < nets.len() && (#[trigger] nets[i]).name == name && nets[i].netcode == code
                    && forall|j: int| 0 <= j < i ==> (#[trigger] nets[j]).name != name,
            None => forall|i: int| 0 <= i < nets.len() ==> (#[trigger] nets[i]).name != name,
        },
    decreases nets.len(),
{
    if nets.len() > 0 && nets[0].name != name {
        let rest = nets.drop_first();
        the_first_net_with_the_name_is_found(rest, name);
        match code_of(rest, name) {
            Some(code) => {
                let i = choose|i: int|
                    0 <= i < rest.len() && (#[trigger] rest[i]).name == name && rest[i].netcode
                        == code && forall|j: int| 0 <= j < i ==> (#[trigger] rest[j]).name != name;
                assert(nets[i + 1] == rest[i]);
                assert forall|j: int| 0 <= j < i + 1 implies (#[trigger] nets[j]).name != name by {
                    if j > 0 {
                        assert(rest[j - 1].name != name);
                    }
                }
            },
            None => {
                assert forall|i: int| 0 <= i < nets.len() implies (#[trigger] nets[i]).name
                    != name by {
                    if i > 0 {
                        assert(rest[i - 1].name != name);
                    }
                }
            },
        }
    }
}

/// Asking for the tracks on a net and a layer gives those of all the tracks that are on both, in
/// the same order.
pub proof fn filters_pick_from_all_tracks(
    items: Seq<Item>,
    net_filter: Option<Seq<char>>,
    layer_filter: Option<Seq<char>>,
)
    ensures
        tracks_among(items, net_filter, layer_filter) == tracks_among(items, None, None).filter(
            |track: IpcTrackModel|
                passes(net_filter, track.net_name) && passes(layer_filter, track.layer),
        ),
    decreases items.len(),
{
    let picked = |track: IpcTrackModel|
        passes(net_filter, track.net_name) && passes(layer_filter, track.layer);
    reveal(Seq::filter);
    if items.len() > 0 {
        let before = items.drop_last();
        filters_pick_from_all_tracks(before, net_filter, layer_filter);
        let all = tracks_among(items, None, None);
        if items.last().body is Track {
            assert(all.drop_last() =~= tracks_among(before, None, None));
        }
    }
}

// ------------------------------------------------------------ vias

/// The item is a via at the position and on the net, with a drill of the given diameter and, on
/// every copper layer, of which there is at least one, a pad of the given size. `id` is its
/// identifier.
pub open spec fn is_good_via(
    item: Item,
    position: Vector2,
    code: i32,
    drill_nm: i64,
    pad_nm: i64,
    id: Seq<char>,
) -> bool {
    &&& is_via_at(item, position, code)
    &&& item.body matches ItemBody::Via(via)
    &&& via.pad_stack matches Some(stack)
    &&& drill_in(stack) == Some(drill_nm)
    &&& stack.copper_layers@.len() > 0
    &&& forall|i: int|
        0 <= i < stack.copper_layers@.len() ==> (#[trigger] stack.copper_layers@[i]).size == Some(
            Vector2 { x_nm: pad_nm, y_nm: pad_nm },
        )
    &&& via_kiid(via) == id
}

/// A search for a via stops at the first one that fits.
pub proof fn the_first_via_that_fits_is_found(
    items: Seq<Item>,
    position: Vector2,
    code: i32,
    from: int,
)
    requires
        0 <= from,
    ensures
        match find_via(items, position, code, from) {
            Some(i) => from <= i < items.len() && is_via_at(items[i], position, code)
                && forall|j: int| from <= j < i ==> !is_via_at(#[trigger] items[j], position, code),
            None => forall|j: int|
                from <= j < items.len() ==> !is_via_at(#[trigger] items[j], position, code),
        },
    decreases items.len() - from,
{
    if from < items.len() && !is_via_at(items[from], position, code) {
        the_first_via_that_fits_is_found(items, position, code, from + 1);
    }
}

/// If no layer is found whose pad is wrong, all of them are right.
pub proof fn no_bad_layer_means_all_are_good(layers: Seq<PadStackLayer>, size_nm: i64, from: int)
    requires
        0 <= from,
        find_bad_layer(layers, size_nm, from) is None,
    ensures
        forall|i: int|
            from <= i < layers.len() ==> (#[trigger] layers[i]).size == Some(
                Vector2 { x_nm: size_nm, y_nm: size_nm },
            ),
    decreases layers.len() - from,
{
    if from < layers.len() {
        no_bad_layer_means_all_are_good(layers, size_nm, from + 1);
    }
}

proof fn a_confirmed_via_is_good(
    items: Seq<Item>,
    net_name: Seq<char>,
    code: i32,
    x: MmModel,
    y: MmModel,
    drill: MmModel,
    pad: MmModel,
    log: Seq<Reply>,
    at: int,
)
    requires
        0 <= at <= log.len(),
    ensures
        confirm_via_turn(items, net_name, code, x, y, drill, pad, log, at) matches Turn::Done(
            Ok(id),
            n,
        ) ==> n == at && exists|i: int|
            0 <= i < items.len() && is_good_via(
                #[trigger] items[i],
                Vector2 { x_nm: x.nm, y_nm: y.nm },
                code,
                drill.nm,
                pad.nm,
                id,
            ),
{
    let position = Vector2 { x_nm: x.nm, y_nm: y.nm };
    the_first_via_that_fits_is_found(items, position, code, 0);
    if let Turn::Done(Ok(id), _) = confirm_via_turn(
        items,
        net_name,
        code,
        x,
        y,
        drill,
        pad,
        log,
        at,
    ) {
        let i = find_via(items, position, code, 0)->0;
        if let ItemBody::Via(via) = items[i].body {
            if let Some(stack) = via.pad_stack {
                no_bad_layer_means_all_are_good(stack.copper_layers@, pad.nm, 0);
                assert(is_good_via(items[i], position, code, drill.nm, pad.nm, id));
            }
        }
    }
}

/// The vias of the board were looked at, up to position `n` of the log, and among them is a good
/// one.
pub open spec fn seen_via(
    position: Vector2,
    code: i32,
    drill_nm: i64,
    pad_nm: i64,
    id: Seq<char>,
    log: Seq<Reply>,
    n: int,
) -> bool {
    exists|m: int|
        {
            &&& (#[trigger] fetch_items_turn(KiCadObjectType::KotPcbVia, log, m)) matches
                Turn::Done(Ok(items), k)
            &&& k == n
            &&& exists|i: int|
                0 <= i < items.len() && is_good_via(
                    #[trigger] items[i],
                    position,
                    code,
                    drill_nm,
                    pad_nm,
                    id,
                )
        }
}

/// If `add_via` succeeds, the last thing it saw of the vias on the board is a via at the
/// requested position, on the requested net, with the requested drill and pads, and the value is
/// the identifier of that via.
pub proof fn an_added_via_is_on_the_board(
    net_name: Seq<char>,
    x: MmModel,
    y: MmModel,
    drill: MmModel,
    pad: MmModel,
    log: Seq<Reply>,
    at: int,
)
    requires
        0 <= at <= log.len(),
    ensures
        add_via_turn(net_name, x, y, drill, pad, log, at) matches Turn::Done(Ok(id), n) ==> (
        resolve_net_code_turn(net_name, log, at) matches Turn::Done(Ok(code), _) && seen_via(
            Vector2 { x_nm: x.nm, y_nm: y.nm },
            code,
            drill.nm,
            pad.nm,
            id,
            log,
            n,
        )),
{
    crate::replay::resolve_net_code_replays(net_name, log, log, at);
    if let Turn::Done(Ok(code), n) = resolve_net_code_turn(net_name, log, at) {
        if let Turn::Done(Ok(uuid), m) = text_turn(Query::NewUuid, log, n) {
            let clause = via_clause(net_name, x.text, y.text, drill.text, pad.text, uuid);
            crate::replay::save_splice_revert_replays(clause, log, log, m);
            if let Turn::Done(Ok(_), k) = save_splice_revert_turn(clause, log, m) {
                crate::replay::fetch_items_replays(KiCadObjectType::KotPcbVia, log, log, k);
                if let Turn::Done(Ok(items), j) = fetch_items_turn(
                    KiCadObjectType::KotPcbVia,
                    log,
                    k,
                ) {
                    a_confirmed_via_is_good(items, net_name, code, x, y, drill, pad, log, j);
                }
            }
        }
    }
}

// ------------------------------------------------------------ footprints

/// A footprint is found exactly if there is one with the reference, and it is the first.
pub proof fn the_first_footprint_with_the_reference_is_found(
    footprints: Seq<IpcFootprintModel>,
    reference: Seq<char>,
)
    ensures
        match first_named(footprints, reference) {
            Some(fp) => exists|i: int|
                0 <= i < footprints.len() && #[trigger] footprints[i] == fp && fp.reference
                    == reference && forall|j: int|
                    0 <= j < i ==> (#[trigger] footprints[j]).reference != reference,
            None => forall|i: int|
                0 <= i < footprints.len() ==> (#[trigger] footprints[i]).reference != reference,
        },
    decreases footprints.len(),
{
    if footprints.len() > 0 && footprints[0].reference != reference {
        let rest = footprints.drop_first();
        the_first_footprint_with_the_reference_is_found(rest, reference);
        match first_named(rest, reference) {
            Some(fp) => {
                let i = choose|i: int|
                    0 <= i < rest.len() && #[trigger] rest[i] == fp && fp.reference == reference
                        && forall|j: int|
                        0 <= j < i ==> (#[trigger] rest[j]).reference != reference;
                assert(footprints[i + 1] == fp);
                assert forall|j: int| 0 <= j < i + 1 implies (#[trigger] footprints[j]).reference
                    != reference by {
                    if j > 0 {
                        assert(rest[j - 1].reference != reference);
                    }
                }
            },
            None => {
                assert forall|i: int| 0 <= i < footprints.len() implies (
                #[trigger] footprints[i]).reference != reference by {
                    if i > 0 {
                        assert(rest[i - 1].reference != reference);
                    }
                }
            },
        }
    }
}

/// The footprints of the board were looked at, up to position `n` of the log, and `fp` is the
/// first among them with the given reference.
pub open spec fn seen_footprint(
    fp: IpcFootprintModel,
    reference: Seq<char>,
    log: Seq<Reply>,
    n: int,
) -> bool {
    &&& fp.reference == reference
    &&& exists|m: int|
        (#[trigger] list_footprints_turn(log, m)) matches Turn::Done(Ok(footprints), k) && k == n
            && first_named(footprints, reference) == Some(fp)
}

proof fn a_required_footprint_is_seen(
    reference: Seq<char>,
    missing: Seq<char>,
    log: Seq<Reply>,
    at: int,
)
    ensures
        require_footprint_turn(reference, missing, log, at) matches Turn::Done(Ok(fp), n)
            ==> seen_footprint(fp, reference, log, n),
{
    if let Turn::Done(Ok(footprints), n) = list_footprints_turn(log, at) {
        the_first_footprint_with_the_reference_is_found(footprints, reference);
    }
}

/// If `place_footprint` succeeds, the value is a footprint with the requested reference that was
/// seen on the board after the board was loaded again.
pub proof fn a_placed_footprint_is_on_the_board(
    lib_id: Seq<char>,
    x: MmModel,
    y: MmModel,
    rotation: DegreesModel,
    layer: Seq<char>,
    reference: Seq<char>,
    log: Seq<Reply>,
    at: int,
)
    requires
        0 <= at <= log.len(),
    ensures
        place_footprint_turn(lib_id, x, y, rotation, layer, reference, log, at) matches Turn::Done(
            Ok(fp),
            n,
        ) ==> seen_footprint(fp, reference, log, n),
{
    if let Turn::Done(Ok(path), n) = resolve_footprint_turn(lib_id, log, at) {
        if let Turn::Done(Ok(raw), m) = read_text_turn(
            path,
            "could not read footprint file "@,
            log,
            n,
        ) {
            if let Turn::Done(Ok(_), k) = place_raw_turn(
                raw,
                x,
                y,
                rotation,
                layer,
                reference,
                log,
                m,
            ) {
                a_required_footprint_is_seen(reference, not_placed(reference), log, k);
            }
        }
    }
}

/// If `move_footprint` succeeds, the value is a footprint with the requested reference that was
/// seen on the board after the move, and the last reply says that its position is near the
/// requested one.
pub proof fn a_moved_footprint_is_where_it_should_be(
    reference: Seq<char>,
    x: MmModel,
    y: MmModel,
    log: Seq<Reply>,
    at: int,
)
    requires
        0 <= at <= log.len(),
    ensures
        move_footprint_turn(reference, x, y, log, at) matches Turn::Done(Ok(fp), n) ==> {
            &&& 0 < n <= log.len()
            &&& seen_footprint(fp, reference, log, n - 1)
            &&& log[n - 1] == Reply::Flag(true)
            &&& move_footprint_turn(reference, x, y, log.take(n - 1), at) == Turn::<
                IpcFootprintModel,
            >::Ask(Query::NearMm { position: fp.position, x: x.value, y: y.value })
        },
{
    named_item_replays(reference, log, log, at);
    if let Turn::Done(Ok(item), n) = named_item_turn(reference, log, at) {
        let edit = move_edit(item.1, Vector2 { x_nm: x.nm, y_nm: y.nm });
        edit_footprint_replays(item.0, edit, log, log, n);
        if let Turn::Done(Ok(_), m) = edit_footprint_turn(item.0, edit, log, n) {
            let missing = gone("moved '"@, reference);
            require_footprint_replays(reference, missing, log, log, m);
            a_required_footprint_is_seen(reference, missing, log, m);
            if let Turn::Done(Ok(_), k) = require_footprint_turn(reference, missing, log, m) {
                let short = log.take(k);
                named_item_replays(reference, short, log, at);
                edit_footprint_replays(item.0, edit, short, log, n);
                require_footprint_replays(reference, missing, short, log, m);
            }
        }
    }
}

/// If `rotate_footprint` succeeds, the value is a footprint with the requested reference that
/// was seen on the board after the turn, and the last reply says that its angle is the requested
/// one.
pub proof fn a_rotated_footprint_has_the_requested_angle(
    reference: Seq<char>,
    angle: DegreesModel,
    log: Seq<Reply>,
    at: int,
)
    requires
        0 <= at <= log.len(),
    ensures
        rotate_footprint_turn(reference, angle, log, at) matches Turn::Done(Ok(fp), n) ==> {
            &&& 0 < n <= log.len()
            &&& seen_footprint(fp, reference, log, n - 1)
            &&& log[n - 1] == Reply::Flag(true)
            &&& rotate_footprint_turn(reference, angle, log.take(n - 1), at) == Turn::<
                IpcFootprintModel,
            >::Ask(Query::SameAngle { found: fp.rotation, wanted: angle.value })
        },
{
    named_item_replays(reference, log, log, at);
    if let Turn::Done(Ok(item), n) = named_item_turn(reference, log, at) {
        let edit = rotate_edit(item.1, angle.value);
        edit_footprint_replays(item.0, edit, log, log, n);
        if let Turn::Done(Ok(_), m) = edit_footprint_turn(item.0, edit, log, n) {
            let missing = gone("rotated '"@, reference);
            require_footprint_replays(reference, missing, log, log, m);
            a_required_footprint_is_seen(reference, missing, log, m);
            if let Turn::Done(Ok(_), k) = require_footprint_turn(reference, missing, log, m) {
                let short = log.take(k);
                named_item_replays(reference, short, log, at);
                edit_footprint_replays(item.0, edit, short, log, n);
                require_footprint_replays(reference, missing, short, log, m);
            }
        }
    }
}

} // verus!
