//! Conversations can be replayed.
//!
//! An operation is a function of the replies so far. These laws say what makes that work: once
//! an operation is done, more replies change nothing, and as long as it is not, it has used
//! every reply and asks for the next one. So a conversation is led by asking the operation again
//! after each reply, and each reply is an answer to what was asked last.
use vstd::prelude::*;

use crate::board::{
    add_track_turn, add_via_turn, confirm_via_turn, get_board_extents_turn, get_layers_turn,
    get_nets_turn, get_tracks_turn, load_via_turn, resolve_net_code_turn, see_via_turn,
    splice_via_turn, text_turn,
};
use crate::commits::{begin_commit_turn, end_commit_turn, mutate_turn};
use crate::documents::{
    board_file_path_turn, get_board_document_turn, get_open_documents_turn, make_header_turn,
    order_turn, ping_turn, revert_document_turn, save_board_to_string_turn, save_board_turn,
    verify_board_turn,
};
use crate::footprints::{
    confirm_move_turn, confirm_rotation_turn, delete_footprint_turn, edit_footprint_turn,
    find_footprint_kiid_turn, get_footprint_turn, gone, list_footprints_turn, move_edit,
    move_footprint_turn, named_item_turn, not_placed, place_footprint_turn, place_raw_turn,
    require_footprint_turn, rotate_edit, rotate_footprint_turn,
};
use crate::items::{
    await_fill_turn, confirm_items_turn, create_items_turn, delete_items_turn, fetch_items_turn,
    get_items_by_id_turn, get_items_turn, poll_turn, refill_zones_turn, update_items_turn,
};
use crate::library::{
    expand_turn, home_of, join_turn, library_uri, locate_turn, name_end, read_text_turn,
    resolve_footprint_turn, variable_at, variable_value,
};
use crate::selftest::{
    finish_selftest_turn, left_behind, load_probe_turn, no_rotation, place_probe_turn,
    probe_add_via_turn, probe_drill, probe_pad, probe_place, probe_place_footprint_turn,
    probe_reference, probe_via_place, run_selftest_turn, see_probe_turn,
};
use crate::sexp::{placed_footprint, splice_turn, via_clause};
use crate::splice::{
    save_splice_revert_turn, splice_and_reload_turn, splice_with_backup_turn, spliced_board_turn,
    write_board_turn,
};
use crate::talk::{CommandModel, CommitAction, Edit, Item, KiCadObjectType, Query, Reply, Turn};
use crate::types::{DegreesModel, IpcFootprintModel, MmModel, Vector2};
use crate::text::{find_text, find_text_is_first};
use crate::wire::{packed, AnyModel};

verus! {

/// `longer` goes on where `log` ends, and `at` is a position in `log`.
pub open spec fn extends(log: Seq<Reply>, longer: Seq<Reply>, at: int) -> bool {
    &&& 0 <= at <= log.len() <= longer.len()
    &&& forall|i: int| 0 <= i < log.len() ==> log[i] == longer[i]
}

/// `short` is what an operation does after the replies `log`, and `long` what it does after the
/// replies `longer`: a result comes at a position from `at` on, and stays; and an operation that
/// asks has used all of `log`, so that a result comes after it.
pub open spec fn replays<T>(
    short: Turn<T>,
    long: Turn<T>,
    log: Seq<Reply>,
    longer: Seq<Reply>,
    at: int,
) -> bool {
    &&& short matches Turn::Done(_, n) ==> at <= n <= log.len() && long == short
    &&& long matches Turn::Done(_, n) ==> at <= n <= longer.len()
    &&& short is Ask ==> (long matches Turn::Done(_, n) ==> log.len() < n)
}

/// The shorter of the two that reaches position `n`.
spec fn reaching(log: Seq<Reply>, longer: Seq<Reply>, n: int) -> Seq<Reply> {
    if n <= log.len() {
        log
    } else {
        longer
    }
}

/// Sending a command that is only acknowledged can be replayed.
pub proof fn order_replays(command: CommandModel, log: Seq<Reply>, longer: Seq<Reply>, at: int)
    requires
        extends(log, longer, at),
    ensures
        replays(order_turn(command, log, at), order_turn(command, longer, at), log, longer, at),
{
}

/// `ping` can be replayed.
pub proof fn ping_replays(log: Seq<Reply>, longer: Seq<Reply>, at: int)
    requires
        extends(log, longer, at),
    ensures
        replays(ping_turn(log, at), ping_turn(longer, at), log, longer, at),
{
}

/// `get_open_documents` can be replayed.
pub proof fn get_open_documents_replays(log: Seq<Reply>, longer: Seq<Reply>, at: int)
    requires
        extends(log, longer, at),
    ensures
        replays(
            get_open_documents_turn(log, at),
            get_open_documents_turn(longer, at),
            log,
            longer,
            at,
        ),
{
}

/// `get_board_document` can be replayed.
pub proof fn get_board_document_replays(log: Seq<Reply>, longer: Seq<Reply>, at: int)
    requires
        extends(log, longer, at),
    ensures
        replays(
            get_board_document_turn(log, at),
            get_board_document_turn(longer, at),
            log,
            longer,
            at,
        ),
{
}

/// `make_header` can be replayed.
pub proof fn make_header_replays(log: Seq<Reply>, longer: Seq<Reply>, at: int)
    requires
        extends(log, longer, at),
    ensures
        replays(make_header_turn(log, at), make_header_turn(longer, at), log, longer, at),
{
}

/// `save_board` can be replayed.
pub proof fn save_board_replays(log: Seq<Reply>, longer: Seq<Reply>, at: int)
    requires
        extends(log, longer, at),
    ensures
        replays(save_board_turn(log, at), save_board_turn(longer, at), log, longer, at),
{
}

/// `save_board_to_string` can be replayed.
pub proof fn save_board_to_string_replays(log: Seq<Reply>, longer: Seq<Reply>, at: int)
    requires
        extends(log, longer, at),
    ensures
        replays(
            save_board_to_string_turn(log, at),
            save_board_to_string_turn(longer, at),
            log,
            longer,
            at,
        ),
{
}

/// `board_file_path` can be replayed.
pub proof fn board_file_path_replays(log: Seq<Reply>, longer: Seq<Reply>, at: int)
    requires
        extends(log, longer, at),
    ensures
        replays(board_file_path_turn(log, at), board_file_path_turn(longer, at), log, longer, at),
{
}

/// `verify_board_matches` can be replayed.
pub proof fn verify_board_matches_replays(
    requested: Seq<char>,
    log: Seq<Reply>,
    longer: Seq<Reply>,
    at: int,
)
    requires
        extends(log, longer, at),
    ensures
        replays(
            verify_board_turn(requested, log, at),
            verify_board_turn(requested, longer, at),
            log,
            longer,
            at,
        ),
{
}

/// `revert_document` can be replayed.
pub proof fn revert_document_replays(log: Seq<Reply>, longer: Seq<Reply>, at: int)
    requires
        extends(log, longer, at),
    ensures
        replays(revert_document_turn(log, at), revert_document_turn(longer, at), log, longer, at),
{
}

/// Reading a text file can be replayed.
pub proof fn read_text_replays(
    path: Seq<char>,
    what: Seq<char>,
    log: Seq<Reply>,
    longer: Seq<Reply>,
    at: int,
)
    requires
        extends(log, longer, at),
    ensures
        replays(
            read_text_turn(path, what, log, at),
            read_text_turn(path, what, longer, at),
            log,
            longer,
            at,
        ),
{
}

/// `begin_commit` can be replayed.
pub proof fn begin_commit_replays(log: Seq<Reply>, longer: Seq<Reply>, at: int)
    requires
        extends(log, longer, at),
    ensures
        replays(begin_commit_turn(log, at), begin_commit_turn(longer, at), log, longer, at),
{
}

/// `end_commit` can be replayed.
pub proof fn end_commit_replays(
    id: Seq<char>,
    action: CommitAction,
    message: Seq<char>,
    log: Seq<Reply>,
    longer: Seq<Reply>,
    at: int,
)
    requires
        extends(log, longer, at),
    ensures
        replays(
            end_commit_turn(id, action, message, log, at),
            end_commit_turn(id, action, message, longer, at),
            log,
            longer,
            at,
        ),
{
}

/// `send_mutating_command` can be replayed.
pub proof fn send_mutating_command_replays(
    command: CommandModel,
    description: Seq<char>,
    log: Seq<Reply>,
    longer: Seq<Reply>,
    at: int,
)
    requires
        extends(log, longer, at),
    ensures
        replays(
            mutate_turn(command, description, log, at),
            mutate_turn(command, description, longer, at),
            log,
            longer,
            at,
        ),
{
}

/// `fetch_items` can be replayed.
pub proof fn fetch_items_replays(
    kind: KiCadObjectType,
    log: Seq<Reply>,
    longer: Seq<Reply>,
    at: int,
)
    requires
        extends(log, longer, at),
    ensures
        replays(
            fetch_items_turn(kind, log, at),
            fetch_items_turn(kind, longer, at),
            log,
            longer,
            at,
        ),
{
}

/// `get_items` can be replayed.
pub proof fn get_items_replays(kind: KiCadObjectType, log: Seq<Reply>, longer: Seq<Reply>, at: int)
    requires
        extends(log, longer, at),
    ensures
        replays(get_items_turn(kind, log, at), get_items_turn(kind, longer, at), log, longer, at),
{
}

/// `get_items_by_id` can be replayed.
pub proof fn get_items_by_id_replays(
    ids: Seq<Seq<char>>,
    log: Seq<Reply>,
    longer: Seq<Reply>,
    at: int,
)
    requires
        extends(log, longer, at),
    ensures
        replays(
            get_items_by_id_turn(ids, log, at),
            get_items_by_id_turn(ids, longer, at),
            log,
            longer,
            at,
        ),
{
}

/// `confirm_items_exist` can be replayed.
pub proof fn confirm_items_exist_replays(
    ids: Seq<Seq<char>>,
    op: Seq<char>,
    log: Seq<Reply>,
    longer: Seq<Reply>,
    at: int,
)
    requires
        extends(log, longer, at),
    ensures
        replays(
            confirm_items_turn(ids, op, log, at),
            confirm_items_turn(ids, op, longer, at),
            log,
            longer,
            at,
        ),
{
}

/// `splice_sexp_into_string` can be replayed.
pub proof fn splice_sexp_into_string_replays(
    contents: Seq<char>,
    block: Seq<char>,
    log: Seq<Reply>,
    longer: Seq<Reply>,
    at: int,
)
    requires
        extends(log, longer, at),
    ensures
        replays(
            splice_turn(contents, block, log, at),
            splice_turn(contents, block, longer, at),
            log,
            longer,
            at,
        ),
{
}

/// `get_nets` can be replayed.
pub proof fn get_nets_replays(log: Seq<Reply>, longer: Seq<Reply>, at: int)
    requires
        extends(log, longer, at),
    ensures
        replays(get_nets_turn(log, at), get_nets_turn(longer, at), log, longer, at),
{
}

/// `resolve_net_code` can be replayed.
pub proof fn resolve_net_code_replays(name: Seq<char>, log: Seq<Reply>, longer: Seq<Reply>, at: int)
    requires
        extends(log, longer, at),
    ensures
        replays(
            resolve_net_code_turn(name, log, at),
            resolve_net_code_turn(name, longer, at),
            log,
            longer,
            at,
        ),
{
}

/// `get_board_extents` can be replayed.
pub proof fn get_board_extents_replays(log: Seq<Reply>, longer: Seq<Reply>, at: int)
    requires
        extends(log, longer, at),
    ensures
        replays(
            get_board_extents_turn(log, at),
            get_board_extents_turn(longer, at),
            log,
            longer,
            at,
        ),
{
}

/// `get_layers` can be replayed.
pub proof fn get_layers_replays(log: Seq<Reply>, longer: Seq<Reply>, at: int)
    requires
        extends(log, longer, at),
    ensures
        replays(get_layers_turn(log, at), get_layers_turn(longer, at), log, longer, at),
{
}

/// `get_tracks` can be replayed.
pub proof fn get_tracks_replays(
    net: Option<Seq<char>>,
    layer: Option<Seq<char>>,
    log: Seq<Reply>,
    longer: Seq<Reply>,
    at: int,
)
    requires
        extends(log, longer, at),
    ensures
        replays(
            get_tracks_turn(net, layer, log, at),
            get_tracks_turn(net, layer, longer, at),
            log,
            longer,
            at,
        ),
{
}

/// `list_footprints` can be replayed.
pub proof fn list_footprints_replays(log: Seq<Reply>, longer: Seq<Reply>, at: int)
    requires
        extends(log, longer, at),
    ensures
        replays(list_footprints_turn(log, at), list_footprints_turn(longer, at), log, longer, at),
{
}

/// `get_footprint` can be replayed.
pub proof fn get_footprint_replays(
    reference: Seq<char>,
    log: Seq<Reply>,
    longer: Seq<Reply>,
    at: int,
)
    requires
        extends(log, longer, at),
    ensures
        replays(
            get_footprint_turn(reference, log, at),
            get_footprint_turn(reference, longer, at),
            log,
            longer,
            at,
        ),
{
}

/// `find_footprint_kiid` can be replayed.
pub proof fn find_footprint_kiid_replays(
    reference: Seq<char>,
    log: Seq<Reply>,
    longer: Seq<Reply>,
    at: int,
)
    requires
        extends(log, longer, at),
    ensures
        replays(
            find_footprint_kiid_turn(reference, log, at),
            find_footprint_kiid_turn(reference, longer, at),
            log,
            longer,
            at,
        ),
{
}

/// `create_items` can be replayed.
pub proof fn create_items_replays(
    items: Seq<AnyModel>,
    log: Seq<Reply>,
    longer: Seq<Reply>,
    at: int,
)
    requires
        extends(log, longer, at),
    ensures
        replays(
            create_items_turn(items, log, at),
            create_items_turn(items, longer, at),
            log,
            longer,
            at,
        ),
{
}

/// `update_items` can be replayed.
pub proof fn update_items_replays(
    items: Seq<AnyModel>,
    log: Seq<Reply>,
    longer: Seq<Reply>,
    at: int,
)
    requires
        extends(log, longer, at),
    ensures
        replays(
            update_items_turn(items, log, at),
            update_items_turn(items, longer, at),
            log,
            longer,
            at,
        ),
{
}

/// `delete_items` can be replayed.
pub proof fn delete_items_replays(ids: Seq<Seq<char>>, log: Seq<Reply>, longer: Seq<Reply>, at: int)
    requires
        extends(log, longer, at),
    ensures
        replays(
            delete_items_turn(ids, log, at),
            delete_items_turn(ids, longer, at),
            log,
            longer,
            at,
        ),
{
}

/// `confirm_via` can be replayed.
pub proof fn confirm_via_replays(
    items: Seq<Item>,
    net_name: Seq<char>,
    code: i32,
    x: MmModel,
    y: MmModel,
    drill: MmModel,
    pad: MmModel,
    log: Seq<Reply>,
    longer: Seq<Reply>,
    at: int,
)
    requires
        extends(log, longer, at),
    ensures
        replays(
            confirm_via_turn(items, net_name, code, x, y, drill, pad, log, at),
            confirm_via_turn(items, net_name, code, x, y, drill, pad, longer, at),
            log,
            longer,
            at,
        ),
{
}

/// `poll_until_filled` can be replayed.
pub proof fn poll_until_filled_replays(log: Seq<Reply>, longer: Seq<Reply>, at: int)
    requires
        extends(log, longer, at),
    ensures
        replays(poll_turn(log, at), poll_turn(longer, at), log, longer, at),
    decreases longer.len() - at,
{
    fetch_items_replays(KiCadObjectType::KotPcbZone, log, longer, at);
    match fetch_items_turn(KiCadObjectType::KotPcbZone, longer, at) {
        Turn::Done(Ok(_), n) => {
            if n + 1 < log.len() {
                poll_until_filled_replays(log, longer, n + 2);
            } else if n + 1 < longer.len() {
                poll_until_filled_replays(longer, longer, n + 2);
            }
        },
        _ => {},
    }
}

/// Waiting for the zones to be filled can be replayed.
pub proof fn await_fill_replays(log: Seq<Reply>, longer: Seq<Reply>, at: int)
    requires
        extends(log, longer, at),
    ensures
        replays(await_fill_turn(log, at), await_fill_turn(longer, at), log, longer, at),
{
    fetch_items_replays(KiCadObjectType::KotPcbZone, log, longer, at);
    match fetch_items_turn(KiCadObjectType::KotPcbZone, longer, at) {
        Turn::Done(Ok(_), n) => {
            if n < log.len() {
                poll_until_filled_replays(log, longer, n + 1);
            } else if n < longer.len() {
                poll_until_filled_replays(longer, longer, n + 1);
            }
        },
        _ => {},
    }
}

/// `refill_zones` can be replayed.
pub proof fn refill_zones_replays(log: Seq<Reply>, longer: Seq<Reply>, at: int)
    requires
        extends(log, longer, at),
    ensures
        replays(refill_zones_turn(log, at), refill_zones_turn(longer, at), log, longer, at),
{
    get_board_document_replays(log, longer, at);
    match get_board_document_turn(longer, at) {
        Turn::Done(Ok(board), n) => {
            let command = CommandModel::RefillZones { board, zones: seq![] };
            let shorter = reaching(log, longer, n);
        send_mutating_command_replays(command, "Refill zones"@, shorter, longer, n);
            match mutate_turn(command, "Refill zones"@, longer, n) {
                Turn::Done(Ok(_), m) => {
                    if m <= log.len() {
                        await_fill_replays(log, longer, m);
                    } else {
                        await_fill_replays(longer, longer, m);
                    }
                },
                _ => {},
            }
        },
        _ => {},
    }
}

/// `expand_env_vars` can be replayed.
pub proof fn expand_env_vars_replays(
    s: Seq<char>,
    i: int,
    out: Seq<char>,
    log: Seq<Reply>,
    longer: Seq<Reply>,
    at: int,
)
    requires
        extends(log, longer, at),
    ensures
        replays(
            expand_turn(s, i, out, log, at),
            expand_turn(s, i, out, longer, at),
            log,
            longer,
            at,
        ),
    decreases s.len() + 1 - i,
{
    if 0 <= i < s.len() {
        if variable_at(s, i) {
            find_text_is_first(s, "}"@, i + 2);
            if at < longer.len() {
                let value = variable_value(longer[at]);
                if at < log.len() {
                    expand_env_vars_replays(
                        s,
                        name_end(s, i) + 1,
                        out + value,
                        log,
                        longer,
                        at + 1,
                    );
                } else {
                    expand_env_vars_replays(
                        s,
                        name_end(s, i) + 1,
                        out + value,
                        longer,
                        longer,
                        at + 1,
                    );
                }
            }
        } else {
            expand_env_vars_replays(s, i + 1, out.push(s[i]), log, longer, at);
        }
    }
}

/// Finding the file of a footprint can be replayed.
pub proof fn locate_replays(
    library: Seq<char>,
    footprint: Seq<char>,
    log: Seq<Reply>,
    longer: Seq<Reply>,
    at: int,
)
    requires
        extends(log, longer, at),
    ensures
        replays(
            locate_turn(library, footprint, log, at),
            locate_turn(library, footprint, longer, at),
            log,
            longer,
            at,
        ),
{
    if at < longer.len() {
        let file = ".config/kicad/10.0/fp-lib-table"@;
        let home = home_of(longer[at]);
        match join_turn(home, file, longer, at + 1) {
            Turn::Done(Ok(path), n) => {
                let what = "could not read fp-lib-table at "@;
                match read_text_turn(path, what, longer, n) {
                    Turn::Done(Ok(table), m) => {
                        if let Ok(uri) = library_uri(table, library) {
                            expand_env_vars_replays(
                                uri,
                                0,
                                seq![],
                                reaching(log, longer, m),
                                longer,
                                m,
                            );
                        }
                    },
                    _ => {},
                }
            },
            _ => {},
        }
    }
}

/// `resolve_footprint_file` can be replayed.
pub proof fn resolve_footprint_file_replays(
    lib_id: Seq<char>,
    log: Seq<Reply>,
    longer: Seq<Reply>,
    at: int,
)
    requires
        extends(log, longer, at),
    ensures
        replays(
            resolve_footprint_turn(lib_id, log, at),
            resolve_footprint_turn(lib_id, longer, at),
            log,
            longer,
            at,
        ),
{
    if let Some(colon) = find_text(lib_id, ":"@, 0) {
        locate_replays(
            lib_id.subrange(0, colon),
            lib_id.subrange(colon + 1, lib_id.len() as int),
            log,
            longer,
            at,
        );
    }
}

/// Splicing into the contents of the board can be replayed.
pub proof fn spliced_board_replays(
    path: Seq<char>,
    block: Seq<char>,
    log: Seq<Reply>,
    longer: Seq<Reply>,
    at: int,
)
    requires
        extends(log, longer, at),
    ensures
        replays(
            spliced_board_turn(path, block, log, at),
            spliced_board_turn(path, block, longer, at),
            log,
            longer,
            at,
        ),
{
    save_board_to_string_replays(log, longer, at);
    match save_board_to_string_turn(longer, at) {
        Turn::Done(Ok(contents), n) => {
            splice_sexp_into_string_replays(contents, block, reaching(log, longer, n), longer, n);
        },
        Turn::Done(Err(_), n) => {
            save_board_replays(reaching(log, longer, n), longer, n);
            match save_board_turn(longer, n) {
                Turn::Done(Ok(_), m) => {
                    let what = "could not read board file "@;
                    read_text_replays(path, what, reaching(log, longer, m), longer, m);
                    match read_text_turn(path, what, longer, m) {
                        Turn::Done(Ok(contents), k) => {
                            splice_sexp_into_string_replays(
                                contents,
                                block,
                                reaching(log, longer, k),
                                longer,
                                k,
                            );
                        },
                        _ => {},
                    }
                },
                _ => {},
            }
        },
        _ => {},
    }
}

/// Splicing, writing and loading can be replayed.
pub proof fn splice_and_reload_replays(
    path: Seq<char>,
    block: Seq<char>,
    log: Seq<Reply>,
    longer: Seq<Reply>,
    at: int,
)
    requires
        extends(log, longer, at),
    ensures
        replays(
            splice_and_reload_turn(path, block, log, at),
            splice_and_reload_turn(path, block, longer, at),
            log,
            longer,
            at,
        ),
{
    spliced_board_replays(path, block, log, longer, at);
    match spliced_board_turn(path, block, longer, at) {
        Turn::Done(Ok(text), n) => {
            match write_board_turn(path, text, longer, n) {
                Turn::Done(Ok(_), m) => {
                    revert_document_replays(reaching(log, longer, m), longer, m);
                },
                _ => {},
            }
        },
        _ => {},
    }
}

/// Splicing with a backup can be replayed.
pub proof fn splice_with_backup_replays(
    block: Seq<char>,
    log: Seq<Reply>,
    longer: Seq<Reply>,
    at: int,
)
    requires
        extends(log, longer, at),
    ensures
        replays(
            splice_with_backup_turn(block, log, at),
            splice_with_backup_turn(block, longer, at),
            log,
            longer,
            at,
        ),
{
    board_file_path_replays(log, longer, at);
    match board_file_path_turn(longer, at) {
        Turn::Done(Ok(path), n) => {
            if n < longer.len() {
                splice_and_reload_replays(path, block, reaching(log, longer, n + 1), longer, n + 1);
            }
        },
        _ => {},
    }
}

/// `save_splice_revert` can be replayed.
pub proof fn save_splice_revert_replays(
    block: Seq<char>,
    log: Seq<Reply>,
    longer: Seq<Reply>,
    at: int,
)
    requires
        extends(log, longer, at),
    ensures
        replays(
            save_splice_revert_turn(block, log, at),
            save_splice_revert_turn(block, longer, at),
            log,
            longer,
            at,
        ),
{
    if at < longer.len() {
        splice_with_backup_replays(block, reaching(log, longer, at + 1), longer, at + 1);
    }
}

/// `add_track` can be replayed.
pub proof fn add_track_replays(
    net_name: Seq<char>,
    layer: Seq<char>,
    width_nm: i64,
    start: Vector2,
    end: Vector2,
    log: Seq<Reply>,
    longer: Seq<Reply>,
    at: int,
)
    requires
        extends(log, longer, at),
    ensures
        replays(
            add_track_turn(net_name, layer, width_nm, start, end, log, at),
            add_track_turn(net_name, layer, width_nm, start, end, longer, at),
            log,
            longer,
            at,
        ),
{
    resolve_net_code_replays(net_name, log, longer, at);
    match resolve_net_code_turn(net_name, longer, at) {
        Turn::Done(Ok(_), n) => {
            if n < longer.len() {
                if let Reply::Bytes(bytes) = longer[n] {
                    create_items_replays(
                        seq![packed(bytes@, "kiapi.board.types.Track"@)],
                        reaching(log, longer, n + 1),
                        longer,
                        n + 1,
                    );
                }
            }
        },
        _ => {},
    }
}

/// Splicing a via in can be replayed.
pub proof fn splice_via_replays(
    net_name: Seq<char>,
    code: i32,
    x: MmModel,
    y: MmModel,
    drill: MmModel,
    pad: MmModel,
    log: Seq<Reply>,
    longer: Seq<Reply>,
    at: int,
)
    requires
        extends(log, longer, at),
    ensures
        replays(
            splice_via_turn(net_name, code, x, y, drill, pad, log, at),
            splice_via_turn(net_name, code, x, y, drill, pad, longer, at),
            log,
            longer,
            at,
        ),
{
    if let Turn::Done(Ok(uuid), n) = text_turn(Query::NewUuid, longer, at) {
        let clause = via_clause(net_name, x.text, y.text, drill.text, pad.text, uuid);
        save_splice_revert_replays(clause, reaching(log, longer, n), longer, n);
    }
}

/// Putting a via on the board can be replayed.
pub proof fn load_via_replays(
    net_name: Seq<char>,
    x: MmModel,
    y: MmModel,
    drill: MmModel,
    pad: MmModel,
    log: Seq<Reply>,
    longer: Seq<Reply>,
    at: int,
)
    requires
        extends(log, longer, at),
    ensures
        replays(
            load_via_turn(net_name, x, y, drill, pad, log, at),
            load_via_turn(net_name, x, y, drill, pad, longer, at),
            log,
            longer,
            at,
        ),
{
    resolve_net_code_replays(net_name, log, longer, at);
    if let Turn::Done(Ok(code), n) = resolve_net_code_turn(net_name, longer, at) {
        let short = reaching(log, longer, n);
        splice_via_replays(net_name, code, x, y, drill, pad, short, longer, n);
    }
}

/// Looking for a via can be replayed.
pub proof fn see_via_replays(
    net_name: Seq<char>,
    code: i32,
    x: MmModel,
    y: MmModel,
    drill: MmModel,
    pad: MmModel,
    log: Seq<Reply>,
    longer: Seq<Reply>,
    at: int,
)
    requires
        extends(log, longer, at),
    ensures
        replays(
            see_via_turn(net_name, code, x, y, drill, pad, log, at),
            see_via_turn(net_name, code, x, y, drill, pad, longer, at),
            log,
            longer,
            at,
        ),
{
    let kind = KiCadObjectType::KotPcbVia;
    fetch_items_replays(kind, log, longer, at);
    if let Turn::Done(Ok(items), n) = fetch_items_turn(kind, longer, at) {
        let short = reaching(log, longer, n);
        confirm_via_replays(items, net_name, code, x, y, drill, pad, short, longer, n);
    }
}

/// `add_via` can be replayed.
pub proof fn add_via_replays(
    net_name: Seq<char>,
    x: MmModel,
    y: MmModel,
    drill: MmModel,
    pad: MmModel,
    log: Seq<Reply>,
    longer: Seq<Reply>,
    at: int,
)
    requires
        extends(log, longer, at),
    ensures
        replays(
            add_via_turn(net_name, x, y, drill, pad, log, at),
            add_via_turn(net_name, x, y, drill, pad, longer, at),
            log,
            longer,
            at,
        ),
{
    load_via_replays(net_name, x, y, drill, pad, log, longer, at);
    if let Turn::Done(Ok(loaded), n) = load_via_turn(net_name, x, y, drill, pad, longer, at) {
        let short = reaching(log, longer, n);
        see_via_replays(net_name, loaded.0, x, y, drill, pad, short, longer, n);
    }
}

/// `delete_footprint` can be replayed.
pub proof fn delete_footprint_replays(
    reference: Seq<char>,
    log: Seq<Reply>,
    longer: Seq<Reply>,
    at: int,
)
    requires
        extends(log, longer, at),
    ensures
        replays(
            delete_footprint_turn(reference, log, at),
            delete_footprint_turn(reference, longer, at),
            log,
            longer,
            at,
        ),
{
    find_footprint_kiid_replays(reference, log, longer, at);
    match find_footprint_kiid_turn(reference, longer, at) {
        Turn::Done(Ok(id), n) => {
            delete_items_replays(seq![id], reaching(log, longer, n), longer, n);
        },
        _ => {},
    }
}

/// Finding a footprint to change can be replayed.
pub proof fn named_item_replays(reference: Seq<char>, log: Seq<Reply>, longer: Seq<Reply>, at: int)
    requires
        extends(log, longer, at),
    ensures
        replays(
            named_item_turn(reference, log, at),
            named_item_turn(reference, longer, at),
            log,
            longer,
            at,
        ),
{
}

/// Changing a footprint can be replayed.
pub proof fn edit_footprint_replays(
    item: AnyModel,
    edit: Edit,
    log: Seq<Reply>,
    longer: Seq<Reply>,
    at: int,
)
    requires
        extends(log, longer, at),
    ensures
        replays(
            edit_footprint_turn(item, edit, log, at),
            edit_footprint_turn(item, edit, longer, at),
            log,
            longer,
            at,
        ),
{
    if at < longer.len() {
        if let Reply::Bytes(bytes) = longer[at] {
            update_items_replays(
                seq![packed(bytes@, "kiapi.board.types.FootprintInstance"@)],
                reaching(log, longer, at + 1),
                longer,
                at + 1,
            );
        }
    }
}

/// Looking a footprint up again can be replayed.
pub proof fn require_footprint_replays(
    reference: Seq<char>,
    missing: Seq<char>,
    log: Seq<Reply>,
    longer: Seq<Reply>,
    at: int,
)
    requires
        extends(log, longer, at),
    ensures
        replays(
            require_footprint_turn(reference, missing, log, at),
            require_footprint_turn(reference, missing, longer, at),
            log,
            longer,
            at,
        ),
{
    get_footprint_replays(reference, log, longer, at);
}

/// Checking a move can be replayed.
pub proof fn confirm_move_replays(
    found: IpcFootprintModel,
    reference: Seq<char>,
    x: MmModel,
    y: MmModel,
    log: Seq<Reply>,
    longer: Seq<Reply>,
    at: int,
)
    requires
        extends(log, longer, at),
    ensures
        replays(
            confirm_move_turn(found, reference, x, y, log, at),
            confirm_move_turn(found, reference, x, y, longer, at),
            log,
            longer,
            at,
        ),
{
}

/// Checking a turn can be replayed.
pub proof fn confirm_rotation_replays(
    found: IpcFootprintModel,
    reference: Seq<char>,
    angle: DegreesModel,
    log: Seq<Reply>,
    longer: Seq<Reply>,
    at: int,
)
    requires
        extends(log, longer, at),
    ensures
        replays(
            confirm_rotation_turn(found, reference, angle, log, at),
            confirm_rotation_turn(found, reference, angle, longer, at),
            log,
            longer,
            at,
        ),
{
}

/// `move_footprint` can be replayed.
pub proof fn move_footprint_replays(
    reference: Seq<char>,
    x: MmModel,
    y: MmModel,
    log: Seq<Reply>,
    longer: Seq<Reply>,
    at: int,
)
    requires
        extends(log, longer, at),
    ensures
        replays(
            move_footprint_turn(reference, x, y, log, at),
            move_footprint_turn(reference, x, y, longer, at),
            log,
            longer,
            at,
        ),
{
    named_item_replays(reference, log, longer, at);
    match named_item_turn(reference, longer, at) {
        Turn::Done(Ok(item), n) => {
            let edit = move_edit(item.1, Vector2 { x_nm: x.nm, y_nm: y.nm });
            edit_footprint_replays(item.0, edit, reaching(log, longer, n), longer, n);
            match edit_footprint_turn(item.0, edit, longer, n) {
                Turn::Done(Ok(_), m) => {
                    let missing = gone("moved '"@, reference);
                    require_footprint_replays(
                        reference,
                        missing,
                        reaching(log, longer, m),
                        longer,
                        m,
                    );
                    match require_footprint_turn(reference, missing, longer, m) {
                        Turn::Done(Ok(found), k) => {
                            confirm_move_replays(
                                found,
                                reference,
                                x,
                                y,
                                reaching(log, longer, k),
                                longer,
                                k,
                            );
                        },
                        _ => {},
                    }
                },
                _ => {},
            }
        },
        _ => {},
    }
}

/// `rotate_footprint` can be replayed.
pub proof fn rotate_footprint_replays(
    reference: Seq<char>,
    angle: DegreesModel,
    log: Seq<Reply>,
    longer: Seq<Reply>,
    at: int,
)
    requires
        extends(log, longer, at),
    ensures
        replays(
            rotate_footprint_turn(reference, angle, log, at),
            rotate_footprint_turn(reference, angle, longer, at),
            log,
            longer,
            at,
        ),
{
    named_item_replays(reference, log, longer, at);
    match named_item_turn(reference, longer, at) {
        Turn::Done(Ok(item), n) => {
            let edit = rotate_edit(item.1, angle.value);
            edit_footprint_replays(item.0, edit, reaching(log, longer, n), longer, n);
            match edit_footprint_turn(item.0, edit, longer, n) {
                Turn::Done(Ok(_), m) => {
                    let missing = gone("rotated '"@, reference);
                    require_footprint_replays(
                        reference,
                        missing,
                        reaching(log, longer, m),
                        longer,
                        m,
                    );
                    match require_footprint_turn(reference, missing, longer, m) {
                        Turn::Done(Ok(found), k) => {
                            confirm_rotation_replays(
                                found,
                                reference,
                                angle,
                                reaching(log, longer, k),
                                longer,
                                k,
                            );
                        },
                        _ => {},
                    }
                },
                _ => {},
            }
        },
        _ => {},
    }
}

/// Placing a library footprint can be replayed.
pub proof fn place_raw_replays(
    raw: Seq<char>,
    x: MmModel,
    y: MmModel,
    rotation: DegreesModel,
    layer: Seq<char>,
    reference: Seq<char>,
    log: Seq<Reply>,
    longer: Seq<Reply>,
    at: int,
)
    requires
        extends(log, longer, at),
    ensures
        replays(
            place_raw_turn(raw, x, y, rotation, layer, reference, log, at),
            place_raw_turn(raw, x, y, rotation, layer, reference, longer, at),
            log,
            longer,
            at,
        ),
{
    match text_turn(Query::ShowMm { nm: x.nm }, longer, at) {
        Turn::Done(Ok(shown_x), n) => {
            match text_turn(Query::ShowMm { nm: y.nm }, longer, n) {
                Turn::Done(Ok(shown_y), m) => {
                    if let Ok(clause) = placed_footprint(
                        raw,
                        shown_x,
                        shown_y,
                        rotation.text,
                        layer,
                        reference,
                    ) {
                        save_splice_revert_replays(clause, reaching(log, longer, m), longer, m);
                    }
                },
                _ => {},
            }
        },
        _ => {},
    }
}

/// `place_footprint` can be replayed.
pub proof fn place_footprint_replays(
    lib_id: Seq<char>,
    x: MmModel,
    y: MmModel,
    rotation: DegreesModel,
    layer: Seq<char>,
    reference: Seq<char>,
    log: Seq<Reply>,
    longer: Seq<Reply>,
    at: int,
)
    requires
        extends(log, longer, at),
    ensures
        replays(
            place_footprint_turn(lib_id, x, y, rotation, layer, reference, log, at),
            place_footprint_turn(lib_id, x, y, rotation, layer, reference, longer, at),
            log,
            longer,
            at,
        ),
{
    resolve_footprint_file_replays(lib_id, log, longer, at);
    match resolve_footprint_turn(lib_id, longer, at) {
        Turn::Done(Ok(path), n) => {
            let what = "could not read footprint file "@;
            read_text_replays(path, what, reaching(log, longer, n), longer, n);
            match read_text_turn(path, what, longer, n) {
                Turn::Done(Ok(raw), m) => {
                    place_raw_replays(
                        raw,
                        x,
                        y,
                        rotation,
                        layer,
                        reference,
                        reaching(log, longer, m),
                        longer,
                        m,
                    );
                    match place_raw_turn(raw, x, y, rotation, layer, reference, longer, m) {
                        Turn::Done(Ok(_), k) => {
                            require_footprint_replays(
                                reference,
                                not_placed(reference),
                                reaching(log, longer, k),
                                longer,
                                k,
                            );
                        },
                        _ => {},
                    }
                },
                _ => {},
            }
        },
        _ => {},
    }
}

/// Placing the probed footprint can be replayed.
pub proof fn place_probe_replays(log: Seq<Reply>, longer: Seq<Reply>, at: int)
    requires
        extends(log, longer, at),
    ensures
        replays(place_probe_turn(log, at), place_probe_turn(longer, at), log, longer, at),
{
    place_footprint_replays(
        "Resistor_SMD:R_0603_1608Metric"@,
        probe_place(),
        probe_place(),
        no_rotation(),
        "F.Cu"@,
        probe_reference(),
        log,
        longer,
        at,
    );
}

/// `probe_place_footprint` can be replayed.
pub proof fn probe_place_footprint_replays(log: Seq<Reply>, longer: Seq<Reply>, at: int)
    requires
        extends(log, longer, at),
    ensures
        replays(
            probe_place_footprint_turn(log, at),
            probe_place_footprint_turn(longer, at),
            log,
            longer,
            at,
        ),
{
    delete_footprint_replays(probe_reference(), log, longer, at);
    match delete_footprint_turn(probe_reference(), longer, at) {
        Turn::Done(_, n) => {
            place_probe_replays(reaching(log, longer, n), longer, n);
            match place_probe_turn(longer, n) {
                Turn::Done(_, m) => {
                    delete_footprint_replays(
                        probe_reference(),
                        reaching(log, longer, m),
                        longer,
                        m,
                    );
                },
                _ => {},
            }
        },
        _ => {},
    }
}

/// Putting the probed via on the board can be replayed.
pub proof fn load_probe_replays(log: Seq<Reply>, longer: Seq<Reply>, at: int)
    requires
        extends(log, longer, at),
    ensures
        replays(load_probe_turn(log, at), load_probe_turn(longer, at), log, longer, at),
{
    let place = probe_via_place();
    load_via_replays(""@, place, place, probe_drill(), probe_pad(), log, longer, at);
}

/// Looking for the probed via can be replayed.
pub proof fn see_probe_replays(code: i32, log: Seq<Reply>, longer: Seq<Reply>, at: int)
    requires
        extends(log, longer, at),
    ensures
        replays(see_probe_turn(code, log, at), see_probe_turn(code, longer, at), log, longer, at),
{
    let place = probe_via_place();
    see_via_replays(""@, code, place, place, probe_drill(), probe_pad(), log, longer, at);
}

/// `probe_add_via` can be replayed.
pub proof fn probe_add_via_replays(log: Seq<Reply>, longer: Seq<Reply>, at: int)
    requires
        extends(log, longer, at),
    ensures
        replays(probe_add_via_turn(log, at), probe_add_via_turn(longer, at), log, longer, at),
{
    load_probe_replays(log, longer, at);
    if let Turn::Done(Ok(loaded), n) = load_probe_turn(longer, at) {
        see_probe_replays(loaded.0, reaching(log, longer, n), longer, n);
        if let Turn::Done(seen, m) = see_probe_turn(loaded.0, longer, n) {
            let id = left_behind(seen, loaded.1);
            delete_items_replays(seq![id], reaching(log, longer, m), longer, m);
        }
    }
}

/// The second half of the self-test can be replayed.
pub proof fn finish_selftest_replays(
    first: Result<(), Seq<char>>,
    log: Seq<Reply>,
    longer: Seq<Reply>,
    at: int,
)
    requires
        extends(log, longer, at),
    ensures
        replays(
            finish_selftest_turn(first, log, at),
            finish_selftest_turn(first, longer, at),
            log,
            longer,
            at,
        ),
{
    probe_add_via_replays(log, longer, at);
}

/// `run_selftest` can be replayed.
pub proof fn run_selftest_replays(log: Seq<Reply>, longer: Seq<Reply>, at: int)
    requires
        extends(log, longer, at),
    ensures
        replays(run_selftest_turn(log, at), run_selftest_turn(longer, at), log, longer, at),
{
    if at < longer.len() {
        probe_place_footprint_replays(reaching(log, longer, at + 1), longer, at + 1);
        match probe_place_footprint_turn(longer, at + 1) {
            Turn::Done(first, n) => {
                if n < longer.len() {
                    finish_selftest_replays(first, reaching(log, longer, n + 1), longer, n + 1);
                }
            },
            _ => {},
        }
    }
}

} // verus!
