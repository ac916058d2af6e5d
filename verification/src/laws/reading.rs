//! What reading operations ask KiCAD for, and what they make of its replies, field by field.
use vstd::prelude::*;
use vstd::string::*;

use crate::board::{
    filter_text, get_board_extents_turn, get_layers_turn, get_nets_turn, get_tracks_turn,
    resolve_net_code_turn, tracks_among,
};
use crate::documents::{
    board_file_path_turn, get_board_document_turn, get_open_documents_turn, make_header_turn,
    order_turn, ping_turn, revert_document_turn, save_board_to_string_turn, save_board_turn,
    verify_board_turn,
};
use crate::footprints::{
    find_footprint_kiid_turn, footprints_among, get_footprint_turn, list_footprints_turn,
};
use crate::items::{fetch_items_turn, get_items_by_id_turn, get_items_turn};
use crate::laws::found::the_first_footprint_with_the_reference_is_found;
use crate::laws::texts::holds;
use crate::talk::{
    BoundingBoxMode, CommandModel, DocumentSpecifier, DocumentType, Item, ItemBody, ItemHeader,
    KiCadObjectType, Query, Reply, Turn,
};
use crate::types::{BoardLayer, FootprintInstance, IpcFootprintModel, IpcTrackModel, Track, Vector2};

verus! {

// ------------------------------------------------------------ the open board

/// The reply at `at` lists open boards, and there is at least one.
pub open spec fn has_board(log: Seq<Reply>, at: int) -> bool {
    &&& 0 <= at < log.len()
    &&& log[at] matches Reply::Documents(documents)
    &&& documents@.len() > 0
}

/// The first board in the reply at `at`.
pub open spec fn board_at(log: Seq<Reply>, at: int) -> DocumentSpecifier {
    log[at]->Documents_0@[0]
}

/// All the fields of all the items of the first board in the reply at `at`.
pub open spec fn all_of_board(log: Seq<Reply>, at: int) -> ItemHeader {
    ItemHeader { document: board_at(log, at), container: None, field_mask: None }
}

/// An operation that starts at `at` asks for the open boards first, and fails if there is none,
/// or if that cannot be found out.
pub open spec fn needs_board<T>(turn: Turn<T>, log: Seq<Reply>, at: int) -> bool {
    &&& at == log.len() ==> turn == Turn::<T>::Ask(
        Query::Send(CommandModel::GetOpenDocuments { document_type: DocumentType::DoctypePcb }),
    )
    &&& at < log.len() ==> match log[at] {
        Reply::Failed(e) => turn == Turn::<T>::Done(Err(e.text@), at + 1),
        Reply::Documents(documents) => documents@.len() == 0 ==> turn == Turn::<T>::Done(
            Err("No PCB document is open in KiCAD. Open a board file first."@),
            at + 1,
        ),
        Reply::Nothing => turn == Turn::<T>::Done(
            Err("No PCB document is open in KiCAD. Open a board file first."@),
            at + 1,
        ),
        _ => turn == Turn::<T>::Done(Err("Failed to decode protobuf Any body"@), at + 1),
    }
}

/// `turn` fails with what the reply at `at` fails with, or because it cannot be read.
pub open spec fn fails_at<T>(turn: Turn<T>, log: Seq<Reply>, at: int) -> bool {
    match log[at] {
        Reply::Failed(e) => turn == Turn::<T>::Done(Err(e.text@), at + 1),
        _ => turn == Turn::<T>::Done(Err("Failed to decode protobuf Any body"@), at + 1),
    }
}

/// The open boards are those that KiCAD lists, and the board is the first of them.
pub proof fn the_board_is_the_first_open_one(log: Seq<Reply>, at: int)
    requires
        0 <= at <= log.len(),
    ensures
        needs_board(get_board_document_turn(log, at), log, at),
        needs_board(make_header_turn(log, at), log, at),
        has_board(log, at) ==> {
            &&& get_board_document_turn(log, at) == Turn::Done(
                Ok::<DocumentSpecifier, Seq<char>>(board_at(log, at)),
                at + 1,
            )
            &&& make_header_turn(log, at) == Turn::Done(
                Ok::<ItemHeader, Seq<char>>(all_of_board(log, at)),
                at + 1,
            )
        },
        at == log.len() ==> get_open_documents_turn(log, at) == Turn::<Seq<DocumentSpecifier>>::Ask(
            Query::Send(CommandModel::GetOpenDocuments { document_type: DocumentType::DoctypePcb }),
        ),
        at < log.len() ==> match log[at] {
            Reply::Documents(documents) => get_open_documents_turn(log, at) == Turn::Done(
                Ok::<Seq<DocumentSpecifier>, Seq<char>>(documents@),
                at + 1,
            ),
            Reply::Nothing => get_open_documents_turn(log, at) == Turn::Done(
                Ok::<Seq<DocumentSpecifier>, Seq<char>>(seq![]),
                at + 1,
            ),
            _ => fails_at(get_open_documents_turn(log, at), log, at),
        },
{
}

/// A command that is only acknowledged is sent as it is, and any reply but a failure will do.
pub proof fn an_order_is_acknowledged(command: CommandModel, log: Seq<Reply>, at: int)
    requires
        0 <= at <= log.len(),
    ensures
        at == log.len() ==> order_turn(command, log, at) == Turn::<()>::Ask(Query::Send(command)),
        at < log.len() ==> match log[at] {
            Reply::Failed(e) => order_turn(command, log, at) == Turn::Done(
                Err::<(), Seq<char>>(e.text@),
                at + 1,
            ),
            _ => order_turn(command, log, at) == Turn::Done(Ok::<(), Seq<char>>(()), at + 1),
        },
{
}

/// `ping` sends a ping, and says whether it was answered.
pub proof fn ping_says_whether_it_was_answered(log: Seq<Reply>, at: int)
    requires
        0 <= at <= log.len(),
    ensures
        at == log.len() ==> ping_turn(log, at) == Turn::<bool>::Ask(Query::Send(CommandModel::Ping)),
        at < log.len() ==> ping_turn(log, at) == Turn::Done(
            Ok::<bool, Seq<char>>(!(log[at] is Failed)),
            at + 1,
        ),
{
}

/// Saving and loading name the open board, and nothing but a failure keeps them from success.
pub proof fn the_open_board_is_saved_and_loaded(log: Seq<Reply>, at: int)
    requires
        0 <= at <= log.len(),
    ensures
        needs_board(save_board_turn(log, at), log, at),
        needs_board(revert_document_turn(log, at), log, at),
        has_board(log, at) && log.len() == at + 1 ==> {
            &&& save_board_turn(log, at) == Turn::<()>::Ask(
                Query::Send(CommandModel::SaveDocument { document: board_at(log, at) }),
            )
            &&& revert_document_turn(log, at) == Turn::<()>::Ask(
                Query::Send(CommandModel::RevertDocument { document: board_at(log, at) }),
            )
        },
        has_board(log, at) && log.len() > at + 1 ==> {
            let result = match log[at + 1] {
                Reply::Failed(e) => Err::<(), Seq<char>>(e.text@),
                _ => Ok(()),
            };
            &&& save_board_turn(log, at) == Turn::Done(result, at + 2)
            &&& revert_document_turn(log, at) == Turn::Done(result, at + 2)
        },
{
}

/// The contents of the board are the text that KiCAD hands over, and that is not empty.
pub proof fn the_contents_are_those_handed_over(log: Seq<Reply>, at: int)
    requires
        0 <= at <= log.len(),
    ensures
        needs_board(save_board_to_string_turn(log, at), log, at),
        has_board(log, at) && log.len() == at + 1 ==> save_board_to_string_turn(log, at) == Turn::<
            Seq<char>,
        >::Ask(Query::Send(CommandModel::SaveDocumentToString { document: board_at(log, at) })),
        has_board(log, at) && log.len() > at + 1 ==> {
            let turn = save_board_to_string_turn(log, at);
            let nothing = Turn::Done(
                Err::<Seq<char>, Seq<char>>(
                    "SaveDocumentToString returned empty contents — likely unimplemented on this KiCAD version"@,
                ),
                at + 2,
            );
            match log[at + 1] {
                Reply::Text(text) => if text@.len() > 0 {
                    turn == Turn::Done(Ok::<Seq<char>, Seq<char>>(text@), at + 2)
                } else {
                    turn == nothing
                },
                Reply::Nothing => turn == nothing,
                _ => fails_at(turn, log, at + 1),
            }
        },
{
}

/// The board's file is its file name in the directory of its project, if both are known.
pub proof fn the_file_is_in_the_project(log: Seq<Reply>, at: int)
    requires
        0 <= at <= log.len(),
    ensures
        needs_board(board_file_path_turn(log, at), log, at),
        has_board(log, at) ==> {
            let turn = board_file_path_turn(log, at);
            let board = board_at(log, at);
            match board.board_filename {
                None => turn == Turn::Done(
                    Err::<Seq<char>, Seq<char>>("open board document has no board_filename"@),
                    at + 1,
                ),
                Some(file) => match board.project_path {
                    Some(dir) => if dir@.len() == 0 {
                        turn == Turn::Done(
                            Err::<Seq<char>, Seq<char>>("open board document has no project path"@),
                            at + 1,
                        )
                    } else if log.len() == at + 1 {
                        turn == Turn::<Seq<char>>::Ask(
                            Query::JoinPath { dir: dir@, file: file@ },
                        )
                    } else {
                        match log[at + 1] {
                            Reply::Text(path) => turn == Turn::Done(
                                Ok::<Seq<char>, Seq<char>>(path@),
                                at + 2,
                            ),
                            _ => fails_at(turn, log, at + 1),
                        }
                    },
                    None => turn == Turn::Done(
                        Err::<Seq<char>, Seq<char>>("open board document has no project path"@),
                        at + 1,
                    ),
                },
            }
        },
{
}

/// Whether the requested board is the open one is asked of the two paths; if it is not, the error
/// names them both.
pub proof fn another_board_is_refused(requested: Seq<char>, log: Seq<Reply>, at: int)
    requires
        0 <= at <= log.len(),
    ensures
        match board_file_path_turn(log, at) {
            Turn::Ask(q) => verify_board_turn(requested, log, at) == Turn::<()>::Ask(q),
            Turn::Done(Err(e), n) => verify_board_turn(requested, log, at) == Turn::Done(
                Err::<(), Seq<char>>(e),
                n,
            ),
            Turn::Done(Ok(open), n) => {
                let turn = verify_board_turn(requested, log, at);
                if log.len() <= n {
                    turn == Turn::<()>::Ask(Query::SameFile { requested, open })
                } else {
                    match log[n] {
                        Reply::Flag(same) => if same {
                            turn == Turn::Done(Ok::<(), Seq<char>>(()), n + 1)
                        } else {
                            turn == Turn::Done(
                                Err::<(), Seq<char>>(
                                    "requested board '"@ + requested
                                        + "' is not the board KiCAD currently has open ('"@ + open
                                        + "'). KiCAD's IPC API drives a single open document -- this call would otherwise silently mutate the open board instead of the requested file. Open '"@
                                        + requested
                                        + "' in the KiCAD GUI (or restart the konnect container with only that project present under /work) before retrying."@,
                                ),
                                n + 1,
                            )
                        },
                        _ => fails_at(turn, log, n),
                    }
                }
            },
        },
{
    the_file_is_in_the_project(log, at);
}

// ------------------------------------------------------------ items

/// The items of a kind are those that KiCAD lists for the open board and that kind.
pub proof fn items_are_those_listed(kind: KiCadObjectType, log: Seq<Reply>, at: int)
    requires
        0 <= at <= log.len(),
    ensures
        needs_board(fetch_items_turn(kind, log, at), log, at),
        has_board(log, at) && log.len() == at + 1 ==> fetch_items_turn(kind, log, at) == Turn::<
            Seq<Item>,
        >::Ask(Query::Send(CommandModel::GetItems { header: all_of_board(log, at), kind })),
        has_board(log, at) && log.len() > at + 1 ==> match log[at + 1] {
            Reply::Items(items) => fetch_items_turn(kind, log, at) == Turn::Done(
                Ok::<Seq<Item>, Seq<char>>(items@),
                at + 2,
            ),
            Reply::Nothing => fetch_items_turn(kind, log, at) == Turn::Done(
                Ok::<Seq<Item>, Seq<char>>(seq![]),
                at + 2,
            ),
            _ => fails_at(fetch_items_turn(kind, log, at), log, at + 1),
        },
{
}

/// `get_items` gives the packed messages of these items, each as it came.
pub proof fn packed_items_are_those_listed(kind: KiCadObjectType, log: Seq<Reply>, at: int)
    ensures
        match fetch_items_turn(kind, log, at) {
            Turn::Ask(q) => get_items_turn(kind, log, at) is Ask && get_items_turn(kind, log, at)
                ->Ask_0 == q,
            Turn::Done(Err(e), n) => get_items_turn(kind, log, at) matches Turn::Done(Err(f), m)
                && f == e && m == n,
            Turn::Done(Ok(items), n) => {
                &&& get_items_turn(kind, log, at) matches Turn::Done(Ok(packed), m)
                &&& m == n
                &&& packed.len() == items.len()
                &&& forall|i: int|
                    0 <= i < items.len() ==> (#[trigger] packed[i]).type_url
                        == items[i].any.type_url@ && packed[i].value == items[i].any.value@
            },
        },
{
}

/// A look-up by identifiers asks for exactly these identifiers. Without identifiers nothing is
/// asked; and a refusal as a bad request is an answer: nothing was found.
pub proof fn items_are_looked_up_by_their_identifiers(
    ids: Seq<Seq<char>>,
    log: Seq<Reply>,
    at: int,
)
    requires
        0 <= at <= log.len(),
    ensures
        ids.len() == 0 ==> get_items_by_id_turn(ids, log, at) == Turn::Done(
            Ok::<Seq<Item>, Seq<char>>(seq![]),
            at,
        ),
        ids.len() > 0 ==> needs_board(get_items_by_id_turn(ids, log, at), log, at),
        ids.len() > 0 && has_board(log, at) && log.len() == at + 1 ==> get_items_by_id_turn(
            ids,
            log,
            at,
        ) == Turn::<Seq<Item>>::Ask(
            Query::Send(CommandModel::GetItemsById { header: all_of_board(log, at), ids }),
        ),
        ids.len() > 0 && has_board(log, at) && log.len() > at + 1 ==> {
            let turn = get_items_by_id_turn(ids, log, at);
            match log[at + 1] {
                Reply::Items(items) => turn == Turn::Done(
                    Ok::<Seq<Item>, Seq<char>>(items@),
                    at + 2,
                ),
                Reply::Nothing => turn == Turn::Done(Ok::<Seq<Item>, Seq<char>>(seq![]), at + 2),
                Reply::Failed(e) => if holds(e.text@, "AS_BAD_REQUEST"@) {
                    turn == Turn::Done(Ok::<Seq<Item>, Seq<char>>(seq![]), at + 2)
                } else {
                    turn == Turn::Done(Err::<Seq<Item>, Seq<char>>(e.text@), at + 2)
                },
                _ => fails_at(turn, log, at + 1),
            }
        },
{
    if let Reply::Failed(e) = log[at + 1] {
        crate::laws::texts::a_text_is_contained_if_it_stands_there(e.text@, "AS_BAD_REQUEST"@);
    }
}

// ------------------------------------------------------------ nets, extents, layers

/// The nets are those that KiCAD lists for the open board, each with its name and code, whatever
/// their class; a net without code has code 0.
pub proof fn nets_are_those_listed(log: Seq<Reply>, at: int)
    requires
        0 <= at <= log.len(),
    ensures
        needs_board(get_nets_turn(log, at), log, at),
        has_board(log, at) && log.len() == at + 1 ==> get_nets_turn(log, at) is Ask && (
        get_nets_turn(log, at)->Ask_0 matches Query::Send(
            CommandModel::GetNets { board, netclass_filter },
        ) && board == board_at(log, at) && netclass_filter.len() == 0),
        has_board(log, at) && log.len() > at + 1 ==> match log[at + 1] {
            Reply::Nets(nets) => {
                &&& get_nets_turn(log, at) matches Turn::Done(Ok(seen), n)
                &&& n == at + 2
                &&& seen.len() == nets@.len()
                &&& forall|i: int|
                    0 <= i < nets@.len() ==> (#[trigger] seen[i]).name == nets@[i].name@
                        && seen[i].netcode == match nets@[i].code {
                        Some(code) => code.value,
                        None => 0,
                    }
            },
            Reply::Nothing => get_nets_turn(log, at) matches Turn::Done(Ok(seen), n) && n == at + 2
                && seen.len() == 0,
            _ => fails_at(get_nets_turn(log, at), log, at + 1),
        },
{
}

/// The code of a net is that of the first net on the board with the name.
pub proof fn a_code_is_that_of_the_first_net_with_the_name(
    name: Seq<char>,
    log: Seq<Reply>,
    at: int,
)
    requires
        0 <= at <= log.len(),
    ensures
        needs_board(resolve_net_code_turn(name, log, at), log, at),
        has_board(log, at) && log.len() == at + 1 ==> resolve_net_code_turn(name, log, at) is Ask
            && (resolve_net_code_turn(name, log, at)->Ask_0 matches Query::Send(
            CommandModel::GetNets { board, netclass_filter },
        ) && board == board_at(log, at) && netclass_filter.len() == 0),
        has_board(log, at) && log.len() > at + 1 ==> match log[at + 1] {
            Reply::Nets(nets) => match resolve_net_code_turn(name, log, at) {
                Turn::Ask(_) => false,
                Turn::Done(Ok(code), n) => n == at + 2 && exists|i: int|
                    {
                        &&& 0 <= i < nets@.len()
                        &&& (#[trigger] nets@[i]).name@ == name
                        &&& code == match nets@[i].code {
                            Some(c) => c.value,
                            None => 0,
                        }
                        &&& forall|j: int| 0 <= j < i ==> (#[trigger] nets@[j]).name@ != name
                    },
                Turn::Done(Err(e), n) => n == at + 2 && e == "Net '"@ + name
                    + "' not found on board"@ && forall|i: int|
                    0 <= i < nets@.len() ==> (#[trigger] nets@[i]).name@ != name,
            },
            Reply::Nothing => resolve_net_code_turn(name, log, at) == Turn::Done(
                Err::<i32, Seq<char>>("Net '"@ + name + "' not found on board"@),
                at + 2,
            ),
            _ => fails_at(resolve_net_code_turn(name, log, at), log, at + 1),
        },
{
    nets_are_those_listed(log, at);
    if let Turn::Done(Ok(seen), _) = get_nets_turn(log, at) {
        crate::laws::found::the_first_net_with_the_name_is_found(seen, name);
        if log.len() > at + 1 {
            if let Reply::Nets(nets) = log[at + 1] {
                assert forall|i: int| 0 <= i < nets@.len() implies (#[trigger] nets@[i]).name@
                    == seen[i].name by {}
                if let Turn::Done(Ok(code), _) = resolve_net_code_turn(name, log, at) {
                    let i = choose|i: int|
                        0 <= i < seen.len() && (#[trigger] seen[i]).name == name && seen[i].netcode
                            == code && forall|j: int|
                            0 <= j < i ==> (#[trigger] seen[j]).name != name;
                    assert(nets@[i].name@ == name);
                    assert forall|j: int| 0 <= j < i implies (#[trigger] nets@[j]).name@
                        != name by {
                        assert(seen[j].name != name);
                    }
                }
                if let Turn::Done(Err(_), _) = resolve_net_code_turn(name, log, at) {
                    assert forall|j: int| 0 <= j < nets@.len() implies (#[trigger] nets@[j]).name@
                        != name by {
                        assert(seen[j].name != name);
                    }
                }
            }
        }
    }
}

/// The extents are the corner and the size of the first box that KiCAD gives for all items of the
/// open board; what is absent of it is zero.
pub proof fn extents_are_those_of_the_first_box(log: Seq<Reply>, at: int)
    requires
        0 <= at <= log.len(),
    ensures
        needs_board(get_board_extents_turn(log, at), log, at),
        has_board(log, at) && log.len() == at + 1 ==> get_board_extents_turn(log, at) is Ask && (
        get_board_extents_turn(log, at)->Ask_0 matches Query::Send(
            CommandModel::GetBoundingBox { header, item_ids, mode },
        ) && header == all_of_board(log, at) && item_ids.len() == 0 && mode
            == BoundingBoxMode::BbmItemOnly),
        has_board(log, at) && log.len() > at + 1 ==> {
            let turn = get_board_extents_turn(log, at);
            match log[at + 1] {
                Reply::Boxes(boxes) => if boxes@.len() == 0 {
                    turn matches Turn::Done(Err(e), n) && n == at + 2 && e
                        == "No bounding box returned from KiCAD"@
                } else {
                    &&& turn matches Turn::Done(Ok(extents), n)
                    &&& n == at + 2
                    &&& extents.min == place_or_zero(boxes@[0].position)
                    &&& extents.size == place_or_zero(boxes@[0].size)
                },
                Reply::Nothing => turn matches Turn::Done(Err(e), n) && n == at + 2 && e
                    == "No bounding box returned from KiCAD"@,
                _ => fails_at(turn, log, at + 1),
            }
        },
{
}

/// A place, with zero for both of its coordinates if it is absent.
pub open spec fn place_or_zero(place: Option<Vector2>) -> Vector2 {
    Vector2 {
        x_nm: if place is Some {
            place->0.x_nm
        } else {
            0
        },
        y_nm: if place is Some {
            place->0.y_nm
        } else {
            0
        },
    }
}

/// `shown` is how the layer called `name` in the protocol is called on the board: `BL_` is taken
/// away at the start as often as it stands there, and each underscore becomes a dot.
pub open spec fn called_on_board(shown: Seq<char>, name: Seq<char>) -> bool {
    exists|k: int| #[trigger] called_without(shown, name, k)
}

/// As `called_on_board`, where `BL_` stands at the start `k` times.
pub open spec fn called_without(shown: Seq<char>, name: Seq<char>, k: int) -> bool {
    &&& 0 <= k
    &&& shown.len() + 3 * k == name.len()
    &&& forall|i: int|
        0 <= i < k ==> #[trigger] name[3 * i] == 'B' && name[3 * i + 1] == 'L' && name[3 * i + 2]
            == '_'
    &&& !(shown.len() >= 3 && name[3 * k] == 'B' && name[3 * k + 1] == 'L' && name[3 * k + 2]
        == '_')
    &&& forall|i: int|
        0 <= i < shown.len() ==> #[trigger] shown[i] == (if name[3 * k + i] == '_' {
            '.'
        } else {
            name[3 * k + i]
        })
}

proof fn prefixes_go(name: Seq<char>)
    ensures
        called_on_board(crate::board::dotted(crate::board::without_prefix(name)), name),
    decreases name.len(),
{
    let shown = crate::board::dotted(crate::board::without_prefix(name));
    if crate::board::has_prefix(name) {
        let rest = name.skip(3);
        prefixes_go(rest);
        let k = choose|k: int| #[trigger] called_without(shown, rest, k);
        assert forall|i: int| 0 <= i < k + 1 implies #[trigger] name[3 * i] == 'B' && name[3 * i + 1]
            == 'L' && name[3 * i + 2] == '_' by {
            if i > 0 {
                assert(rest[3 * (i - 1)] == 'B');
                assert(rest[3 * (i - 1)] == name[3 * i]);
                assert(rest[3 * (i - 1) + 1] == name[3 * i + 1]);
                assert(rest[3 * (i - 1) + 2] == name[3 * i + 2]);
            }
        }
        assert forall|i: int| 0 <= i < shown.len() implies #[trigger] shown[i] == (if name[3 * (k
            + 1) + i] == '_' {
            '.'
        } else {
            name[3 * (k + 1) + i]
        }) by {
            assert(rest[3 * k + i] == name[3 * (k + 1) + i]);
        }
        if shown.len() >= 3 {
            assert(rest[3 * k] == name[3 * (k + 1)]);
            assert(rest[3 * k + 1] == name[3 * (k + 1) + 1]);
            assert(rest[3 * k + 2] == name[3 * (k + 1) + 2]);
        }
        assert(called_without(shown, name, k + 1));
    } else {
        assert(called_without(shown, name, 0));
    }
}

/// The layers are those that KiCAD lists for the open board, each with its number, and called as
/// on the board. A number without name is called `UNDEFINED`.
pub proof fn layers_are_those_listed(log: Seq<Reply>, at: int)
    requires
        0 <= at <= log.len(),
    ensures
        needs_board(get_layers_turn(log, at), log, at),
        has_board(log, at) && log.len() == at + 1 ==> get_layers_turn(log, at) is Ask && (
        get_layers_turn(log, at)->Ask_0 matches Query::Send(
            CommandModel::GetBoardEnabledLayers { board },
        ) && board == board_at(log, at)),
        has_board(log, at) && log.len() > at + 1 ==> match log[at + 1] {
            Reply::Layers(layers) => {
                &&& get_layers_turn(log, at) matches Turn::Done(Ok(seen), n)
                &&& n == at + 2
                &&& seen.len() == layers@.len()
                &&& forall|i: int|
                    0 <= i < layers@.len() ==> (#[trigger] seen[i]).id == layers@[i].id
                        && seen[i].kind.len() == 0 && called_on_board(
                        seen[i].name,
                        match layers@[i].name {
                            Some(name) => name@,
                            None => "BL_UNDEFINED"@,
                        },
                    )
            },
            Reply::Nothing => get_layers_turn(log, at) matches Turn::Done(Ok(seen), n) && n == at
                + 2 && seen.len() == 0,
            _ => fails_at(get_layers_turn(log, at), log, at + 1),
        },
{
    if has_board(log, at) && log.len() > at + 1 {
        if let Reply::Layers(layers) = log[at + 1] {
            assert forall|i: int| 0 <= i < layers@.len() implies called_on_board(
                (#[trigger] crate::board::layer_seen(layers@[i])).name,
                match layers@[i].name {
                    Some(name) => name@,
                    None => "BL_UNDEFINED"@,
                },
            ) by {
                match layers@[i].name {
                    Some(name) => prefixes_go(name@),
                    None => prefixes_go("BL_UNDEFINED"@),
                }
            }
            let seen = layers@.map_values(
                |layer: crate::talk::LayerId| crate::board::layer_seen(layer),
            );
            assert forall|i: int| 0 <= i < layers@.len() implies (#[trigger] seen[i])
                == crate::board::layer_seen(layers@[i]) by {}
        }
    }
}

// ------------------------------------------------------------ tracks

/// What a layer is called.
pub open spec fn is_called(layer: BoardLayer, name: Seq<char>) -> bool {
    match layer {
        BoardLayer::BlFCu => name == "F.Cu"@,
        BoardLayer::BlBCu => name == "B.Cu"@,
        BoardLayer::BlIn1Cu => name == "In1.Cu"@,
        BoardLayer::BlIn2Cu => name == "In2.Cu"@,
        BoardLayer::BlFSilkS => name == "F.SilkS"@,
        BoardLayer::BlBSilkS => name == "B.SilkS"@,
        BoardLayer::BlFMask => name == "F.Mask"@,
        BoardLayer::BlBMask => name == "B.Mask"@,
        BoardLayer::BlFPaste => name == "F.Paste"@,
        BoardLayer::BlBPaste => name == "B.Paste"@,
        BoardLayer::BlFCrtYd => name == "F.CrtYd"@,
        BoardLayer::BlBCrtYd => name == "B.CrtYd"@,
        BoardLayer::BlFFab => name == "F.Fab"@,
        BoardLayer::BlBFab => name == "B.Fab"@,
        BoardLayer::BlEdgeCuts => name == "Edge.Cuts"@,
        _ => name == "Unknown"@,
    }
}

/// A filter that is given is the text that is looked for, even if it is empty; without one
/// everything is wanted.
pub proof fn a_filter_is_the_text_that_is_given(filter: Option<&str>)
    ensures
        match filter {
            Some(wanted) => filter_text(filter) == Some(wanted@),
            None => filter_text(filter) is None,
        },
{
}

/// `seen` has the fields of `track`; what is absent is replaced by nothing, by zero, or by a
/// quarter of a millimetre.
pub open spec fn shows_track(seen: IpcTrackModel, track: Track) -> bool {
    &&& seen.start == place_or_zero(track.start)
    &&& seen.end == place_or_zero(track.end)
    &&& track.width matches Some(width) ==> seen.width_nm == width.value_nm
    &&& track.width is None ==> seen.width_nm == 250_000
    &&& track.net matches Some(net) ==> seen.net_name == net.name@
    &&& track.net is None ==> seen.net_name.len() == 0
    &&& is_called(track.layer, seen.layer)
}

/// The filter wants nothing, or this text.
pub open spec fn wants(filter: Option<Seq<char>>, text: Seq<char>) -> bool {
    filter matches Some(wanted) ==> wanted == text
}

/// Of a single item, `get_tracks` shows the fields of the track that it is, if both filters want
/// it; of any other item nothing. What it shows of a list is what it shows of its parts, in order.
pub proof fn tracks_are_shown_field_by_field(
    item: Item,
    before: Seq<Item>,
    after: Seq<Item>,
    net_filter: Option<Seq<char>>,
    layer_filter: Option<Seq<char>>,
)
    ensures
        match item.body {
            ItemBody::Track(track) => {
                &&& tracks_among(seq![item], None, None).len() == 1
                &&& shows_track(tracks_among(seq![item], None, None)[0], track)
                &&& {
                    let seen = tracks_among(seq![item], None, None)[0];
                    if wants(net_filter, seen.net_name) && wants(layer_filter, seen.layer) {
                        tracks_among(seq![item], net_filter, layer_filter) == seq![seen]
                    } else {
                        tracks_among(seq![item], net_filter, layer_filter).len() == 0
                    }
                }
            },
            _ => tracks_among(seq![item], net_filter, layer_filter).len() == 0,
        },
        tracks_among(before + after, net_filter, layer_filter) == tracks_among(
            before,
            net_filter,
            layer_filter,
        ) + tracks_among(after, net_filter, layer_filter),
        tracks_among(Seq::<Item>::empty(), net_filter, layer_filter).len() == 0,
    decreases after.len(),
{
    let one = seq![item];
    assert(one.drop_last() =~= Seq::<Item>::empty());
    reveal_with_fuel(tracks_among, 2);
    if after.len() > 0 {
        tracks_are_shown_field_by_field(
            item,
            before,
            after.drop_last(),
            net_filter,
            layer_filter,
        );
        assert((before + after).drop_last() =~= before + after.drop_last());
    } else {
        assert(before + after =~= before);
    }
}

/// `get_tracks` asks for the tracks of the open board, and gives what is to be shown of them.
pub proof fn tracks_are_those_of_the_board(
    net_filter: Option<Seq<char>>,
    layer_filter: Option<Seq<char>>,
    log: Seq<Reply>,
    at: int,
)
    requires
        0 <= at <= log.len(),
    ensures
        needs_board(get_tracks_turn(net_filter, layer_filter, log, at), log, at),
        has_board(log, at) && log.len() == at + 1 ==> get_tracks_turn(
            net_filter,
            layer_filter,
            log,
            at,
        ) == Turn::<Seq<IpcTrackModel>>::Ask(
            Query::Send(
                CommandModel::GetItems {
                    header: all_of_board(log, at),
                    kind: KiCadObjectType::KotPcbTrace,
                },
            ),
        ),
        has_board(log, at) && log.len() > at + 1 ==> match log[at + 1] {
            Reply::Items(items) => get_tracks_turn(net_filter, layer_filter, log, at) == Turn::Done(
                Ok::<Seq<IpcTrackModel>, Seq<char>>(
                    tracks_among(items@, net_filter, layer_filter),
                ),
                at + 2,
            ),
            Reply::Nothing => get_tracks_turn(net_filter, layer_filter, log, at) matches Turn::Done(
                Ok(seen),
                n,
            ) && n == at + 2 && seen.len() == 0,
            _ => fails_at(get_tracks_turn(net_filter, layer_filter, log, at), log, at + 1),
        },
{
}

/// Each track that is listed comes from an item of the list that is a track, has its fields, and
/// is wanted by both filters; and each such item is listed.
pub proof fn listed_tracks_are_tracks_of_the_board(
    items: Seq<Item>,
    net_filter: Option<Seq<char>>,
    layer_filter: Option<Seq<char>>,
)
    ensures
        forall|k: int|
            0 <= k < tracks_among(items, net_filter, layer_filter).len() ==> {
                let seen = #[trigger] tracks_among(items, net_filter, layer_filter)[k];
                &&& wants(net_filter, seen.net_name)
                &&& wants(layer_filter, seen.layer)
                &&& exists|i: int|
                    0 <= i < items.len() && (#[trigger] items[i].body matches ItemBody::Track(track)
                        && shows_track(seen, track))
            },
        forall|i: int|
            0 <= i < items.len() ==> (#[trigger] items[i].body matches ItemBody::Track(track) ==> (
            forall|seen: IpcTrackModel| #[trigger]
                shows_track(seen, track) && wants(net_filter, seen.net_name) && wants(
                    layer_filter,
                    seen.layer,
                ) ==> tracks_among(items, net_filter, layer_filter).contains(seen))),
    decreases items.len(),
{
    if items.len() > 0 {
        let before = items.drop_last();
        listed_tracks_are_tracks_of_the_board(before, net_filter, layer_filter);
        let all = tracks_among(items, net_filter, layer_filter);
        let some = tracks_among(before, net_filter, layer_filter);
        assert forall|k: int| 0 <= k < all.len() implies {
            let seen = #[trigger] all[k];
            &&& wants(net_filter, seen.net_name)
            &&& wants(layer_filter, seen.layer)
            &&& exists|i: int|
                0 <= i < items.len() && (#[trigger] items[i].body matches ItemBody::Track(track)
                    && shows_track(seen, track))
        } by {
            if k < some.len() {
                assert(all[k] == some[k]);
                let i = choose|i: int|
                    0 <= i < before.len() && (#[trigger] before[i].body matches ItemBody::Track(
                        track,
                    ) && shows_track(some[k], track));
                assert(items[i].body == before[i].body);
            } else {
                assert(items[items.len() - 1].body is Track);
            }
        }
        assert forall|i: int| 0 <= i < items.len() implies (#[trigger] items[i].body matches
            ItemBody::Track(track) ==> (forall|seen: IpcTrackModel| #[trigger]
            shows_track(seen, track) && wants(net_filter, seen.net_name) && wants(
                layer_filter,
                seen.layer,
            ) ==> all.contains(seen))) by {
            if let ItemBody::Track(track) = items[i].body {
                assert forall|seen: IpcTrackModel| #[trigger]
                    shows_track(seen, track) && wants(net_filter, seen.net_name) && wants(
                        layer_filter,
                        seen.layer,
                    ) implies all.contains(seen) by {
                    if i < before.len() {
                        assert(before[i].body == items[i].body);
                        assert(some.contains(seen));
                        let k = choose|k: int| 0 <= k < some.len() && some[k] == seen;
                        assert(all[k] == seen);
                    } else {
                        let own = crate::board::track_seen(track);
                        assert(seen.net_name =~= own.net_name);
                        assert(seen == own);
                        assert(all == some.push(own));
                        assert(all[some.len() as int] == seen);
                    }
                }
            }
        }
    }
}

// ------------------------------------------------------------ footprints

/// The text of the reference of a footprint; nothing, if it has none.
pub open spec fn reference_of(fp: FootprintInstance) -> Seq<char> {
    if fp.reference_field matches Some(field) && (field.text matches Some(text) && text.text is Some)
    {
        fp.reference_field->0.text->0.text->0.text@
    } else {
        seq![]
    }
}

/// `seen` has the fields of `fp`; what is absent is replaced by nothing or by zero.
pub open spec fn shows_footprint(seen: IpcFootprintModel, fp: FootprintInstance) -> bool {
    &&& seen.reference == reference_of(fp)
    &&& seen.value == if fp.value_field matches Some(field) && (field.text matches Some(text)
        && text.text is Some) {
        fp.value_field->0.text->0.text->0.text@
    } else {
        seq![]
    }
    &&& seen.footprint == if fp.definition matches Some(definition) && definition.id is Some {
        fp.definition->0.id->0.library_nickname@ + ":"@ + fp.definition->0.id->0.entry_name@
    } else {
        seq![]
    }
    &&& seen.position == place_or_zero(fp.position)
    &&& seen.rotation.bits == if fp.orientation is Some {
        fp.orientation->0.value_degrees.bits
    } else {
        0
    }
    &&& is_called(fp.layer, seen.layer)
    &&& seen.kiid == if fp.id is Some {
        fp.id->0.value@
    } else {
        seq![]
    }
}

/// Of a single item, `list_footprints` shows the fields of the footprint that it is; of any other
/// item nothing. What it shows of a list is what it shows of its parts, in order.
pub proof fn footprints_are_shown_field_by_field(
    item: Item,
    before: Seq<Item>,
    after: Seq<Item>,
)
    ensures
        match item.body {
            ItemBody::Footprint(fp) => {
                &&& footprints_among(seq![item]).len() == 1
                &&& shows_footprint(footprints_among(seq![item])[0], fp)
            },
            _ => footprints_among(seq![item]).len() == 0,
        },
        footprints_among(before + after) == footprints_among(before) + footprints_among(after),
        footprints_among(Seq::<Item>::empty()).len() == 0,
    decreases after.len(),
{
    let one = seq![item];
    assert(one.drop_last() =~= Seq::<Item>::empty());
    reveal_with_fuel(footprints_among, 2);
    if after.len() > 0 {
        footprints_are_shown_field_by_field(item, before, after.drop_last());
        assert((before + after).drop_last() =~= before + after.drop_last());
    } else {
        assert(before + after =~= before);
    }
}

/// `list_footprints` asks for the footprints of the open board, and gives what is to be shown of
/// them.
pub proof fn footprints_are_those_of_the_board(log: Seq<Reply>, at: int)
    requires
        0 <= at <= log.len(),
    ensures
        needs_board(list_footprints_turn(log, at), log, at),
        has_board(log, at) && log.len() == at + 1 ==> list_footprints_turn(log, at) == Turn::<
            Seq<IpcFootprintModel>,
        >::Ask(
            Query::Send(
                CommandModel::GetItems {
                    header: all_of_board(log, at),
                    kind: KiCadObjectType::KotPcbFootprint,
                },
            ),
        ),
        has_board(log, at) && log.len() > at + 1 ==> match log[at + 1] {
            Reply::Items(items) => list_footprints_turn(log, at) == Turn::Done(
                Ok::<Seq<IpcFootprintModel>, Seq<char>>(footprints_among(items@)),
                at + 2,
            ),
            Reply::Nothing => list_footprints_turn(log, at) matches Turn::Done(Ok(seen), n) && n
                == at + 2 && seen.len() == 0,
            _ => fails_at(list_footprints_turn(log, at), log, at + 1),
        },
{
}

/// `item` is a footprint with this reference.
pub open spec fn has_reference(item: Item, reference: Seq<char>) -> bool {
    item.body matches ItemBody::Footprint(fp) && reference_of(fp) == reference
}

/// `seen` shows the first footprint in the list that has the reference.
pub open spec fn shows_first(
    seen: IpcFootprintModel,
    reference: Seq<char>,
    items: Seq<Item>,
) -> bool {
    exists|i: int|
        {
            &&& 0 <= i < items.len()
            &&& #[trigger] items[i].body matches ItemBody::Footprint(fp)
            &&& reference_of(fp) == reference
            &&& shows_footprint(seen, fp)
            &&& forall|j: int| 0 <= j < i ==> !has_reference(#[trigger] items[j], reference)
        }
}

proof fn the_first_shown_is_the_first_listed(items: Seq<Item>, reference: Seq<char>)
    ensures
        match crate::footprints::first_named(footprints_among(items), reference) {
            Some(seen) => shows_first(seen, reference, items),
            None => forall|i: int| 0 <= i < items.len() ==> !has_reference(items[i], reference),
        },
    decreases items.len(),
{
    if items.len() > 0 {
        let before = items.drop_last();
        let last = items.last();
        the_first_shown_is_the_first_listed(before, reference);
        let some = footprints_among(before);
        let all = footprints_among(items);
        the_first_footprint_with_the_reference_is_found(some, reference);
        the_first_footprint_with_the_reference_is_found(all, reference);
        assert forall|i: int| 0 <= i < before.len() implies #[trigger] items[i] == before[i] by {}
        assert forall|k: int| 0 <= k < some.len() implies #[trigger] some[k] == all[k] by {}
        match crate::footprints::first_named(some, reference) {
            Some(seen) => {
                let k = choose|k: int|
                    0 <= k < some.len() && #[trigger] some[k] == seen && seen.reference
                        == reference && forall|j: int|
                        0 <= j < k ==> (#[trigger] some[j]).reference != reference;
                assert(all[k] == seen);
                if let Some(other) = crate::footprints::first_named(all, reference) {
                    let m = choose|m: int|
                        0 <= m < all.len() && #[trigger] all[m] == other && other.reference
                            == reference && forall|j: int|
                            0 <= j < m ==> (#[trigger] all[j]).reference != reference;
                    assert(all[m].reference == reference && all[k].reference == reference);
                    if m < k {
                        assert(some[m].reference != reference);
                    }
                    assert(m == k);
                }
                let i = choose|i: int|
                    {
                        &&& 0 <= i < before.len()
                        &&& #[trigger] before[i].body matches ItemBody::Footprint(fp)
                        &&& reference_of(fp) == reference
                        &&& shows_footprint(seen, fp)
                        &&& forall|j: int|
                            0 <= j < i ==> !has_reference(#[trigger] before[j], reference)
                    };
                assert(items[i].body == before[i].body);
                assert forall|j: int| 0 <= j < i implies !has_reference(
                    #[trigger] items[j],
                    reference,
                ) by {
                    assert(!has_reference(before[j], reference));
                }
            },
            None => {
                assert forall|j: int| 0 <= j < before.len() implies !has_reference(
                    #[trigger] items[j],
                    reference,
                ) by {
                    assert(!has_reference(before[j], reference));
                }
                if let Some(seen) = crate::footprints::first_named(all, reference) {
                    let m = choose|m: int|
                        0 <= m < all.len() && #[trigger] all[m] == seen && seen.reference
                            == reference && forall|j: int|
                            0 <= j < m ==> (#[trigger] all[j]).reference != reference;
                    if m < some.len() {
                        assert(some[m].reference != reference);
                    }
                    assert(items[items.len() - 1].body is Footprint);
                    assert(shows_first(seen, reference, items));
                } else if last.body is Footprint {
                    assert(all[some.len() as int].reference != reference);
                }
            },
        }
    }
}

/// `get_footprint` gives what is to be shown of the first footprint of the board with the
/// reference, and nothing exactly if there is none.
pub proof fn a_footprint_is_the_first_with_the_reference(
    reference: Seq<char>,
    log: Seq<Reply>,
    at: int,
)
    requires
        0 <= at <= log.len(),
    ensures
        needs_board(get_footprint_turn(reference, log, at), log, at),
        has_board(log, at) && log.len() == at + 1 ==> get_footprint_turn(reference, log, at)
            == Turn::<Option<IpcFootprintModel>>::Ask(
            Query::Send(
                CommandModel::GetItems {
                    header: all_of_board(log, at),
                    kind: KiCadObjectType::KotPcbFootprint,
                },
            ),
        ),
        has_board(log, at) && log.len() > at + 1 ==> match log[at + 1] {
            Reply::Items(items) => {
                &&& get_footprint_turn(reference, log, at) matches Turn::Done(Ok(found), n)
                &&& n == at + 2
                &&& match found {
                    Some(seen) => shows_first(seen, reference, items@),
                    None => forall|i: int|
                        0 <= i < items@.len() ==> !has_reference(
                            #[trigger] items@[i],
                            reference,
                        ),
                }
            },
            Reply::Nothing => get_footprint_turn(reference, log, at) matches Turn::Done(
                Ok(found),
                n,
            ) && n == at + 2 && found is None,
            _ => fails_at(get_footprint_turn(reference, log, at), log, at + 1),
        },
{
    if has_board(log, at) && log.len() > at + 1 {
        if let Reply::Items(items) = log[at + 1] {
            the_first_shown_is_the_first_listed(items@, reference);
        }
    }
}

/// `id` is the identifier of the first footprint in the list that has the reference and an
/// identifier.
pub open spec fn is_first_identifier(id: Seq<char>, reference: Seq<char>, items: Seq<Item>) -> bool {
    exists|i: int|
        {
            &&& 0 <= i < items.len()
            &&& #[trigger] items[i].body matches ItemBody::Footprint(fp)
            &&& reference_of(fp) == reference
            &&& fp.id matches Some(kiid)
            &&& kiid.value@ == id
            &&& forall|j: int|
                0 <= j < i ==> !(has_reference(#[trigger] items[j], reference) && (items[j].body
                    matches ItemBody::Footprint(other) && other.id is Some))
        }
}

proof fn the_first_identifier_is_found(items: Seq<Item>, reference: Seq<char>, from: int)
    requires
        0 <= from <= items.len(),
        forall|j: int|
            0 <= j < from ==> !(has_reference(#[trigger] items[j], reference) && (items[j].body
                matches ItemBody::Footprint(other) && other.id is Some)),
    ensures
        match crate::footprints::find_kiid(items, reference, from) {
            Some(id) => is_first_identifier(id, reference, items),
            None => forall|j: int|
                0 <= j < items.len() ==> !(has_reference(#[trigger] items[j], reference) && (
                items[j].body matches ItemBody::Footprint(other) && other.id is Some)),
        },
    decreases items.len() - from,
{
    if from < items.len() {
        if let ItemBody::Footprint(fp) = items[from].body {
            assert(crate::footprints::field_text(fp.reference_field) =~= reference_of(fp));
        }
        if crate::footprints::named_kiid(items[from], reference) is None {
            the_first_identifier_is_found(items, reference, from + 1);
        } else {
            assert(items[from].body is Footprint);
        }
    }
}

/// The identifier of a footprint is that of the first footprint of the board that has the
/// reference and an identifier.
pub proof fn an_identifier_is_that_of_the_first_with_the_reference(
    reference: Seq<char>,
    log: Seq<Reply>,
    at: int,
)
    requires
        0 <= at <= log.len(),
    ensures
        needs_board(find_footprint_kiid_turn(reference, log, at), log, at),
        has_board(log, at) && log.len() == at + 1 ==> find_footprint_kiid_turn(reference, log, at)
            == Turn::<Seq<char>>::Ask(
            Query::Send(
                CommandModel::GetItems {
                    header: all_of_board(log, at),
                    kind: KiCadObjectType::KotPcbFootprint,
                },
            ),
        ),
        has_board(log, at) && log.len() > at + 1 ==> match log[at + 1] {
            Reply::Items(items) => match find_footprint_kiid_turn(reference, log, at) {
                Turn::Ask(_) => false,
                Turn::Done(Ok(id), n) => n == at + 2 && is_first_identifier(id, reference, items@),
                Turn::Done(Err(e), n) => n == at + 2 && e == "Footprint '"@ + reference
                    + "' not found on board"@ && forall|j: int|
                    0 <= j < items@.len() ==> !(has_reference(#[trigger] items@[j], reference) && (
                    items@[j].body matches ItemBody::Footprint(other) && other.id is Some)),
            },
            Reply::Nothing => find_footprint_kiid_turn(reference, log, at) == Turn::Done(
                Err::<Seq<char>, Seq<char>>("Footprint '"@ + reference + "' not found on board"@),
                at + 2,
            ),
            _ => fails_at(find_footprint_kiid_turn(reference, log, at), log, at + 1),
        },
{
    if has_board(log, at) && log.len() > at + 1 {
        if let Reply::Items(items) = log[at + 1] {
            the_first_identifier_is_found(items@, reference, 0);
        }
    }
}

} // verus!
