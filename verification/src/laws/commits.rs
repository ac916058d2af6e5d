//! Edits and commits.
//!
//! Each law is about what is asked: after the replies `log.take(k)` the operation asks for
//! something, and `log[k]` is the reply to it.
use vstd::prelude::*;

use crate::board::{
    add_track_turn, add_via_turn, load_via_turn, resolve_net_code_turn, text_turn,
};
use crate::commits::{commit_in, mutate_turn};
use crate::documents::{board_file_path_turn, get_board_document_turn};
use crate::library::{
    expand_turn, home_of, join_turn, library_uri, locate_turn, name_end, read_text_turn,
    resolve_footprint_turn, variable_at, variable_value,
};
use crate::footprints::{
    confirm_move_turn, confirm_rotation_turn, delete_footprint_turn, edit_footprint_turn,
    find_footprint_kiid_turn, gone, move_edit, move_footprint_turn, named_item_turn, not_placed,
    place_footprint_turn, place_raw_turn, require_footprint_turn, rotate_edit,
    rotate_footprint_turn,
};
use crate::items::{
    await_fill_turn, create_items_turn, delete_items_turn, fetch_items_turn, poll_turn,
    refill_zones_turn, update_items_turn,
};
use crate::replay::{
    board_file_path_replays, delete_footprint_replays, edit_footprint_replays, fetch_items_replays,
    find_footprint_kiid_replays, get_board_document_replays, load_probe_replays,
    named_item_replays, place_probe_replays, probe_place_footprint_replays,
    resolve_footprint_file_replays, resolve_net_code_replays, see_probe_replays,
    send_mutating_command_replays,
};
use crate::selftest::{
    left_behind, load_probe_turn, no_rotation, place_probe_turn, probe_add_via_turn, probe_drill,
    probe_pad, probe_place, probe_place_footprint_turn, probe_reference, probe_via_place,
    run_selftest_turn, see_probe_turn,
};
use crate::sexp::{placed_footprint, via_clause};
use crate::splice::{save_splice_revert_turn, splice_with_backup_turn, spliced_board_turn};
use crate::talk::{CommandModel, CommitAction, Edit, KiCadObjectType, Query, Reply, Turn};
use crate::types::{DegreesModel, MmModel, Vector2};
use crate::text::{find_text, find_text_is_first};
use crate::wire::{packed, AnyModel};

verus! {

/// A command sent as an edit stands in a commit of its own. If the edit succeeds, its commit was
/// begun before it and is ended after it so that the changes stay. If it fails once the commit
/// is begun, the last thing that was asked is to end the commit so that the changes are rolled
/// back, and the error is that of the request before. So a commit that was begun does not stay
/// open, whatever fails after it.
pub proof fn an_edit_has_its_own_commit(
    command: CommandModel,
    description: Seq<char>,
    log: Seq<Reply>,
    at: int,
)
    requires
        0 <= at <= log.len(),
    ensures
        match mutate_turn(command, description, log, at) {
            Turn::Ask(_) => true,
            Turn::Done(Ok(reply), n) => {
                &&& n == at + 3
                &&& reply == log[at + 1]
                &&& commit_in(log[at]) matches Some(id)
                &&& mutate_turn(command, description, log.take(at), at) == Turn::<Reply>::Ask(
                    Query::Send(CommandModel::BeginCommit),
                )
                &&& mutate_turn(command, description, log.take(at + 1), at) == Turn::<Reply>::Ask(
                    Query::Send(command),
                )
                &&& mutate_turn(command, description, log.take(at + 2), at) == Turn::<Reply>::Ask(
                    Query::Send(
                        CommandModel::EndCommit {
                            id,
                            action: CommitAction::CmaCommit,
                            message: description,
                        },
                    ),
                )
            },
            Turn::Done(Err(e), n) => {
                ||| n == at + 1 && commit_in(log[at]) is None
                ||| commit_in(log[at]) matches Some(id) && mutate_turn(
                    command,
                    description,
                    log.take(n - 1),
                    at,
                ) == Turn::<Reply>::Ask(
                    Query::Send(
                        CommandModel::EndCommit { id, action: CommitAction::CmaDrop, message: ""@ },
                    ),
                ) && (log[n - 2] matches Reply::Failed(f) && f@ == e)
            },
        },
{
}

/// The operation asks neither for an edit nor for a commit to be begun.
pub open spec fn asks_no_edit<T>(turn: Turn<T>) -> bool {
    turn matches Turn::Ask(Query::Send(command)) ==> !command.is_edit() && !(command is BeginCommit)
}

/// `turn` is what an operation that starts at `at` does after the replies `log`, and `before`
/// what it does without the last of them: if it asks for an edit, it has just asked for a commit
/// to be begun, and got one.
pub open spec fn edits_in_commit<T>(
    turn: Turn<T>,
    before: Turn<T>,
    log: Seq<Reply>,
    at: int,
) -> bool {
    turn matches Turn::Ask(Query::Send(command)) && command.is_edit() ==> {
        &&& at < log.len()
        &&& commit_in(log.last()) is Some
        &&& before == Turn::<T>::Ask(Query::Send(CommandModel::BeginCommit))
    }
}

/// `create_items` asks for an edit only inside a commit.
pub proof fn create_items_edits_in_a_commit(items: Seq<AnyModel>, log: Seq<Reply>, at: int)
    requires
        0 <= at <= log.len(),
    ensures
        edits_in_commit(
            create_items_turn(items, log, at),
            create_items_turn(items, log.drop_last(), at),
            log,
            at,
        ),
{
}

/// `update_items` asks for an edit only inside a commit.
pub proof fn update_items_edits_in_a_commit(items: Seq<AnyModel>, log: Seq<Reply>, at: int)
    requires
        0 <= at <= log.len(),
    ensures
        edits_in_commit(
            update_items_turn(items, log, at),
            update_items_turn(items, log.drop_last(), at),
            log,
            at,
        ),
{
}

/// `delete_items` asks for an edit only inside a commit.
pub proof fn delete_items_edits_in_a_commit(ids: Seq<Seq<char>>, log: Seq<Reply>, at: int)
    requires
        0 <= at <= log.len(),
    ensures
        edits_in_commit(
            delete_items_turn(ids, log, at),
            delete_items_turn(ids, log.drop_last(), at),
            log,
            at,
        ),
{
}

/// Watching zones is no edit.
proof fn poll_asks_no_edit(log: Seq<Reply>, at: int)
    requires
        0 <= at <= log.len(),
    ensures
        asks_no_edit(poll_turn(log, at)),
    decreases log.len() - at,
{
    fetch_items_replays(KiCadObjectType::KotPcbZone, log, log, at);
    match fetch_items_turn(KiCadObjectType::KotPcbZone, log, at) {
        Turn::Done(Ok(_), n) => {
            if n + 1 < log.len() {
                poll_asks_no_edit(log, n + 2);
            }
        },
        _ => {},
    }
}

/// Waiting for zones to be filled is no edit.
proof fn await_fill_asks_no_edit(log: Seq<Reply>, at: int)
    requires
        0 <= at <= log.len(),
    ensures
        asks_no_edit(await_fill_turn(log, at)),
{
    fetch_items_replays(KiCadObjectType::KotPcbZone, log, log, at);
    match fetch_items_turn(KiCadObjectType::KotPcbZone, log, at) {
        Turn::Done(Ok(_), n) => {
            if n < log.len() {
                poll_asks_no_edit(log, n + 1);
            }
        },
        _ => {},
    }
}

/// `refill_zones` asks for an edit only inside a commit.
pub proof fn refill_zones_edits_in_a_commit(log: Seq<Reply>, at: int)
    requires
        0 <= at <= log.len(),
    ensures
        edits_in_commit(
            refill_zones_turn(log, at),
            refill_zones_turn(log.drop_last(), at),
            log,
            at,
        ),
{
    get_board_document_replays(log, log, at);
    match get_board_document_turn(log, at) {
        Turn::Done(Ok(board), n) => {
            let command = CommandModel::RefillZones { board, zones: seq![] };
            send_mutating_command_replays(command, "Refill zones"@, log, log, n);
            match mutate_turn(command, "Refill zones"@, log, n) {
                Turn::Done(Ok(_), m) => {
                    await_fill_asks_no_edit(log, m);
                },
                _ => {},
            }
        },
        _ => {},
    }
}

/// `add_track` asks for an edit only inside a commit.
pub proof fn add_track_edits_in_a_commit(
    net_name: Seq<char>,
    layer: Seq<char>,
    width_nm: i64,
    start: Vector2,
    end: Vector2,
    log: Seq<Reply>,
    at: int,
)
    requires
        0 <= at <= log.len(),
    ensures
        edits_in_commit(
            add_track_turn(net_name, layer, width_nm, start, end, log, at),
            add_track_turn(net_name, layer, width_nm, start, end, log.drop_last(), at),
            log,
            at,
        ),
{
    resolve_net_code_replays(net_name, log, log, at);
    match resolve_net_code_turn(net_name, log, at) {
        Turn::Done(Ok(_), n) => {
            if n < log.len() {
                resolve_net_code_replays(net_name, log.drop_last(), log, at);
                if let Reply::Bytes(bytes) = log[n] {
                    let items = seq![packed(bytes@, "kiapi.board.types.Track"@)];
                    create_items_edits_in_a_commit(items, log, n + 1);
                }
            }
        },
        _ => {},
    }
}

/// `delete_footprint` asks for an edit only inside a commit.
pub proof fn delete_footprint_edits_in_a_commit(reference: Seq<char>, log: Seq<Reply>, at: int)
    requires
        0 <= at <= log.len(),
    ensures
        edits_in_commit(
            delete_footprint_turn(reference, log, at),
            delete_footprint_turn(reference, log.drop_last(), at),
            log,
            at,
        ),
{
    find_footprint_kiid_replays(reference, log, log, at);
    match find_footprint_kiid_turn(reference, log, at) {
        Turn::Done(Ok(id), n) => {
            delete_items_edits_in_a_commit(seq![id], log, n);
            if n < log.len() {
                find_footprint_kiid_replays(reference, log.drop_last(), log, at);
            }
        },
        _ => {},
    }
}

/// `edit_footprint` asks for an edit only inside a commit.
proof fn edit_footprint_edits_in_a_commit(item: AnyModel, edit: Edit, log: Seq<Reply>, at: int)
    requires
        0 <= at <= log.len(),
    ensures
        edits_in_commit(
            edit_footprint_turn(item, edit, log, at),
            edit_footprint_turn(item, edit, log.drop_last(), at),
            log,
            at,
        ),
{
    if at < log.len() {
        if let Reply::Bytes(bytes) = log[at] {
            let items = seq![packed(bytes@, "kiapi.board.types.FootprintInstance"@)];
            update_items_edits_in_a_commit(items, log, at + 1);
        }
    }
}

/// `move_footprint` asks for an edit only inside a commit.
pub proof fn move_footprint_edits_in_a_commit(
    reference: Seq<char>,
    x: MmModel,
    y: MmModel,
    log: Seq<Reply>,
    at: int,
)
    requires
        0 <= at <= log.len(),
    ensures
        edits_in_commit(
            move_footprint_turn(reference, x, y, log, at),
            move_footprint_turn(reference, x, y, log.drop_last(), at),
            log,
            at,
        ),
{
    named_item_replays(reference, log, log, at);
    match named_item_turn(reference, log, at) {
        Turn::Done(Ok(item), n) => {
            let edit = move_edit(item.1, Vector2 { x_nm: x.nm, y_nm: y.nm });
            edit_footprint_edits_in_a_commit(item.0, edit, log, n);
            if n < log.len() {
                named_item_replays(reference, log.drop_last(), log, at);
            }
            edit_footprint_replays(item.0, edit, log, log, n);
            match edit_footprint_turn(item.0, edit, log, n) {
                Turn::Done(Ok(_), m) => {
                    let missing = gone("moved '"@, reference);
                    assert(asks_no_edit(require_footprint_turn(reference, missing, log, m)));
                    match require_footprint_turn(reference, missing, log, m) {
                        Turn::Done(Ok(found), k) => {
                            let check = confirm_move_turn(found, reference, x, y, log, k);
                            assert(asks_no_edit(check));
                        },
                        _ => {},
                    }
                },
                _ => {},
            }
        },
        _ => {},
    }
}

/// `rotate_footprint` asks for an edit only inside a commit.
pub proof fn rotate_footprint_edits_in_a_commit(
    reference: Seq<char>,
    angle: DegreesModel,
    log: Seq<Reply>,
    at: int,
)
    requires
        0 <= at <= log.len(),
    ensures
        edits_in_commit(
            rotate_footprint_turn(reference, angle, log, at),
            rotate_footprint_turn(reference, angle, log.drop_last(), at),
            log,
            at,
        ),
{
    named_item_replays(reference, log, log, at);
    match named_item_turn(reference, log, at) {
        Turn::Done(Ok(item), n) => {
            let edit = rotate_edit(item.1, angle.value);
            edit_footprint_edits_in_a_commit(item.0, edit, log, n);
            if n < log.len() {
                named_item_replays(reference, log.drop_last(), log, at);
            }
            edit_footprint_replays(item.0, edit, log, log, n);
            match edit_footprint_turn(item.0, edit, log, n) {
                Turn::Done(Ok(_), m) => {
                    let missing = gone("rotated '"@, reference);
                    assert(asks_no_edit(require_footprint_turn(reference, missing, log, m)));
                    match require_footprint_turn(reference, missing, log, m) {
                        Turn::Done(Ok(found), k) => {
                            let check = confirm_rotation_turn(found, reference, angle, log, k);
                            assert(asks_no_edit(check));
                        },
                        _ => {},
                    }
                },
                _ => {},
            }
        },
        _ => {},
    }
}

/// Splicing into the contents of the board is no edit.
proof fn spliced_board_asks_no_edit(path: Seq<char>, block: Seq<char>, log: Seq<Reply>, at: int)
    requires
        0 <= at <= log.len(),
    ensures
        asks_no_edit(spliced_board_turn(path, block, log, at)),
{
}

/// Putting a clause into the board's file is no edit.
proof fn splice_with_backup_asks_no_edit(block: Seq<char>, log: Seq<Reply>, at: int)
    requires
        0 <= at <= log.len(),
    ensures
        asks_no_edit(splice_with_backup_turn(block, log, at)),
{
    board_file_path_replays(log, log, at);
    match board_file_path_turn(log, at) {
        Turn::Done(Ok(path), n) => {
            if n < log.len() {
                spliced_board_asks_no_edit(path, block, log, n + 1);
            }
        },
        _ => {},
    }
}

/// `save_splice_revert` asks for no edit: it goes by the board's file.
pub proof fn save_splice_revert_asks_no_edit(block: Seq<char>, log: Seq<Reply>, at: int)
    requires
        0 <= at <= log.len(),
    ensures
        asks_no_edit(save_splice_revert_turn(block, log, at)),
{
    if at < log.len() {
        splice_with_backup_asks_no_edit(block, log, at + 1);
    }
}

/// Putting a via on the board asks for no edit: it goes by the board's file.
pub proof fn load_via_asks_no_edit(
    net_name: Seq<char>,
    x: MmModel,
    y: MmModel,
    drill: MmModel,
    pad: MmModel,
    log: Seq<Reply>,
    at: int,
)
    requires
        0 <= at <= log.len(),
    ensures
        asks_no_edit(load_via_turn(net_name, x, y, drill, pad, log, at)),
{
    resolve_net_code_replays(net_name, log, log, at);
    if let Turn::Done(Ok(code), n) = resolve_net_code_turn(net_name, log, at) {
        if let Turn::Done(Ok(uuid), m) = text_turn(Query::NewUuid, log, n) {
            let clause = via_clause(net_name, x.text, y.text, drill.text, pad.text, uuid);
            save_splice_revert_asks_no_edit(clause, log, m);
        }
    }
}

/// `add_via` asks for no edit: it goes by the board's file.
pub proof fn add_via_asks_no_edit(
    net_name: Seq<char>,
    x: MmModel,
    y: MmModel,
    drill: MmModel,
    pad: MmModel,
    log: Seq<Reply>,
    at: int,
)
    requires
        0 <= at <= log.len(),
    ensures
        asks_no_edit(add_via_turn(net_name, x, y, drill, pad, log, at)),
{
    load_via_asks_no_edit(net_name, x, y, drill, pad, log, at);
}

/// Asking for variables is no edit.
proof fn expand_asks_no_edit(s: Seq<char>, i: int, out: Seq<char>, log: Seq<Reply>, at: int)
    requires
        0 <= at <= log.len(),
    ensures
        asks_no_edit(expand_turn(s, i, out, log, at)),
    decreases s.len() + 1 - i,
{
    if 0 <= i < s.len() {
        if variable_at(s, i) {
            find_text_is_first(s, "}"@, i + 2);
            if at < log.len() {
                let value = variable_value(log[at]);
                expand_asks_no_edit(s, name_end(s, i) + 1, out + value, log, at + 1);
            }
        } else {
            expand_asks_no_edit(s, i + 1, out.push(s[i]), log, at);
        }
    }
}

/// Finding the file of a footprint is no edit.
proof fn locate_asks_no_edit(library: Seq<char>, footprint: Seq<char>, log: Seq<Reply>, at: int)
    requires
        0 <= at <= log.len(),
    ensures
        asks_no_edit(locate_turn(library, footprint, log, at)),
{
    if at < log.len() {
        let file = ".config/kicad/10.0/fp-lib-table"@;
        match join_turn(home_of(log[at]), file, log, at + 1) {
            Turn::Done(Ok(path), n) => {
                match read_text_turn(path, "could not read fp-lib-table at "@, log, n) {
                    Turn::Done(Ok(table), m) => {
                        if let Ok(uri) = library_uri(table, library) {
                            expand_asks_no_edit(uri, 0, seq![], log, m);
                        }
                    },
                    _ => {},
                }
            },
            _ => {},
        }
    }
}

/// Placing a library footprint is no edit.
proof fn place_raw_asks_no_edit(
    raw: Seq<char>,
    x: MmModel,
    y: MmModel,
    rotation: DegreesModel,
    layer: Seq<char>,
    reference: Seq<char>,
    log: Seq<Reply>,
    at: int,
)
    requires
        0 <= at <= log.len(),
    ensures
        asks_no_edit(place_raw_turn(raw, x, y, rotation, layer, reference, log, at)),
{
    match text_turn(Query::ShowMm { nm: x.nm }, log, at) {
        Turn::Done(Ok(shown_x), n) => {
            match text_turn(Query::ShowMm { nm: y.nm }, log, n) {
                Turn::Done(Ok(shown_y), m) => {
                    if let Ok(clause) = placed_footprint(
                        raw,
                        shown_x,
                        shown_y,
                        rotation.text,
                        layer,
                        reference,
                    ) {
                        save_splice_revert_asks_no_edit(clause, log, m);
                    }
                },
                _ => {},
            }
        },
        _ => {},
    }
}

/// `place_footprint` asks for no edit: it goes by the board's file.
#[verifier::spinoff_prover]
#[verifier::rlimit(40)]
pub proof fn place_footprint_asks_no_edit(
    lib_id: Seq<char>,
    x: MmModel,
    y: MmModel,
    rotation: DegreesModel,
    layer: Seq<char>,
    reference: Seq<char>,
    log: Seq<Reply>,
    at: int,
)
    requires
        0 <= at <= log.len(),
    ensures
        asks_no_edit(place_footprint_turn(lib_id, x, y, rotation, layer, reference, log, at)),
{
    if let Some(colon) = find_text(lib_id, ":"@, 0) {
        let library = lib_id.subrange(0, colon);
        let footprint = lib_id.subrange(colon + 1, lib_id.len() as int);
        locate_asks_no_edit(library, footprint, log, at);
    }
    resolve_footprint_file_replays(lib_id, log, log, at);
    match resolve_footprint_turn(lib_id, log, at) {
        Turn::Done(Ok(path), n) => {
            let what = "could not read footprint file "@;
            match read_text_turn(path, what, log, n) {
                Turn::Done(Ok(raw), m) => {
                    place_raw_asks_no_edit(raw, x, y, rotation, layer, reference, log, m);
                    match place_raw_turn(raw, x, y, rotation, layer, reference, log, m) {
                        Turn::Done(Ok(_), k) => {
                            let missing = not_placed(reference);
                            let found = require_footprint_turn(reference, missing, log, k);
                            assert(asks_no_edit(found));
                        },
                        _ => {},
                    }
                },
                _ => {},
            }
        },
        _ => {},
    }
}

/// `probe_place_footprint` asks for an edit only inside a commit.
pub proof fn probe_place_footprint_edits_in_a_commit(log: Seq<Reply>, at: int)
    requires
        0 <= at <= log.len(),
    ensures
        edits_in_commit(
            probe_place_footprint_turn(log, at),
            probe_place_footprint_turn(log.drop_last(), at),
            log,
            at,
        ),
{
    delete_footprint_edits_in_a_commit(probe_reference(), log, at);
    delete_footprint_replays(probe_reference(), log, log, at);
    match delete_footprint_turn(probe_reference(), log, at) {
        Turn::Done(_, n) => {
            place_footprint_asks_no_edit(
                "Resistor_SMD:R_0603_1608Metric"@,
                probe_place(),
                probe_place(),
                no_rotation(),
                "F.Cu"@,
                probe_reference(),
                log,
                n,
            );
            place_probe_replays(log, log, n);
            match place_probe_turn(log, n) {
                Turn::Done(_, m) => {
                    delete_footprint_edits_in_a_commit(probe_reference(), log, m);
                    if m < log.len() {
                        delete_footprint_replays(probe_reference(), log.drop_last(), log, at);
                        place_probe_replays(log.drop_last(), log, n);
                    }
                },
                _ => {},
            }
        },
        _ => {},
    }
}

/// `probe_add_via` asks for an edit only inside a commit.
#[verifier::spinoff_prover]
#[verifier::rlimit(40)]
pub proof fn probe_add_via_edits_in_a_commit(log: Seq<Reply>, at: int)
    requires
        0 <= at <= log.len(),
    ensures
        edits_in_commit(
            probe_add_via_turn(log, at),
            probe_add_via_turn(log.drop_last(), at),
            log,
            at,
        ),
{
    let place = probe_via_place();
    load_via_asks_no_edit(""@, place, place, probe_drill(), probe_pad(), log, at);
    load_probe_replays(log, log, at);
    if let Turn::Done(Ok(loaded), n) = load_probe_turn(log, at) {
        see_probe_replays(loaded.0, log, log, n);
        if let Turn::Done(seen, m) = see_probe_turn(loaded.0, log, n) {
            delete_items_edits_in_a_commit(seq![left_behind(seen, loaded.1)], log, m);
            if m < log.len() {
                load_probe_replays(log.drop_last(), log, at);
                see_probe_replays(loaded.0, log.drop_last(), log, n);
            }
        }
    }
}

/// `run_selftest` asks for an edit only inside a commit.
pub proof fn run_selftest_edits_in_a_commit(log: Seq<Reply>, at: int)
    requires
        0 <= at <= log.len(),
    ensures
        edits_in_commit(
            run_selftest_turn(log, at),
            run_selftest_turn(log.drop_last(), at),
            log,
            at,
        ),
{
    if at < log.len() {
        probe_place_footprint_edits_in_a_commit(log, at + 1);
        probe_place_footprint_replays(log, log, at + 1);
        match probe_place_footprint_turn(log, at + 1) {
            Turn::Done(_, n) => {
                if n < log.len() {
                    probe_add_via_edits_in_a_commit(log, n + 1);
                    if n + 1 < log.len() {
                        probe_place_footprint_replays(log.drop_last(), log, at + 1);
                    }
                }
            },
            Turn::Ask(_) => {},
        }
    }
}

} // verus!
