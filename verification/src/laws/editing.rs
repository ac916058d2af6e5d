//! What edits send to KiCAD, and what the answers amount to, field by field.
use vstd::prelude::*;
use vstd::string::*;

use crate::board::{add_track_turn, resolve_net_code_turn};
use crate::commits::{
    begin_commit_turn, drop_commit_turn, end_commit_turn, mutate_turn, push_commit_turn,
};
use crate::footprints::{delete_footprint_turn, find_footprint_kiid_turn};
use crate::items::{
    all_filled, await_fill_turn, confirm_items_turn, create_items_turn, delete_items_turn,
    fetch_items_turn, get_items_by_id_turn, poll_turn, refill_zones_turn, settle_turn,
    update_items_turn,
};
use crate::laws::items::{all_deleted_means_every_one, good_results_are_good_for_every_item};
use crate::laws::reading::{
    all_of_board, board_at, fails_at, has_board, items_are_looked_up_by_their_identifiers,
    needs_board,
};
use crate::status::{
    all_deleted, deletion_status, identifiers_match_items, item_status, reported_kiids,
    request_status, result_count, result_kiid,
};
use crate::talk::{
    CommandModel, CommitAction, Item, ItemBody, ItemResult, ItemStatus, KiCadObjectType, Query,
    Reply, StatusCode, Turn,
};
use crate::text::decimal;
use crate::types::{LockedState, Vector2};
use crate::wire::{item_kiid, AnyModel};

verus! {

// ------------------------------------------------------------ commits

/// The reply says that a commit was begun.
pub open spec fn is_begun(reply: Reply) -> bool {
    reply is Commit || reply is Nothing
}

/// The identifier of the commit that was begun; nothing, if the reply does not say it.
pub open spec fn begun_id(reply: Reply) -> Seq<char> {
    if reply is Commit && reply->id is Some {
        reply->id->0.value@
    } else {
        seq![]
    }
}

/// A commit is known by the identifier that KiCAD gives it, and ended under it, so that its
/// changes stay or are rolled back.
pub proof fn a_commit_is_ended_under_its_identifier(
    id: Seq<char>,
    action: CommitAction,
    message: Seq<char>,
    log: Seq<Reply>,
    at: int,
)
    requires
        0 <= at <= log.len(),
    ensures
        at == log.len() ==> {
            &&& begin_commit_turn(log, at) == Turn::<Seq<char>>::Ask(
                Query::Send(CommandModel::BeginCommit),
            )
            &&& end_commit_turn(id, action, message, log, at) == Turn::<()>::Ask(
                Query::Send(CommandModel::EndCommit { id, action, message }),
            )
            &&& push_commit_turn(id, message, log, at) == Turn::<()>::Ask(
                Query::Send(
                    CommandModel::EndCommit { id, action: CommitAction::CmaCommit, message },
                ),
            )
            &&& drop_commit_turn(id, log, at) is Ask
            &&& drop_commit_turn(id, log, at)->Ask_0 matches Query::Send(
                CommandModel::EndCommit { id: dropped, action: end, message: none },
            )
            &&& dropped == id && end == CommitAction::CmaDrop && none == ""@
        },
        at < log.len() ==> {
            let ended = match log[at] {
                Reply::Failed(e) => Err::<(), Seq<char>>(e.text@),
                _ => Ok(()),
            };
            &&& end_commit_turn(id, action, message, log, at) == Turn::Done(ended, at + 1)
            &&& push_commit_turn(id, message, log, at) == Turn::Done(ended, at + 1)
            &&& drop_commit_turn(id, log, at) == Turn::Done(ended, at + 1)
            &&& if is_begun(log[at]) {
                begin_commit_turn(log, at) == Turn::Done(
                    Ok::<Seq<char>, Seq<char>>(begun_id(log[at])),
                    at + 1,
                )
            } else {
                fails_at(begin_commit_turn(log, at), log, at)
            }
        },
{
}

/// An edit is sent between the beginning and the end of a commit. The commit is kept if the edit
/// is accepted, and rolled back if the edit is refused or the commit cannot be kept. The result is
/// the reply to the edit, or what was refused first.
pub proof fn an_edit_is_sent_in_its_commit(
    command: CommandModel,
    description: Seq<char>,
    log: Seq<Reply>,
    at: int,
)
    requires
        0 <= at <= log.len(),
    ensures
        ({
            let turn = mutate_turn(command, description, log, at);
            let id = begun_id(log[at]);
            let ask = |query: CommandModel| Turn::<Reply>::Ask(Query::Send(query));
            let keep = CommandModel::EndCommit {
                id,
                action: CommitAction::CmaCommit,
                message: description,
            };
            let roll_back = CommandModel::EndCommit {
                id,
                action: CommitAction::CmaDrop,
                message: ""@,
            };
            if log.len() == at {
                turn == ask(CommandModel::BeginCommit)
            } else if !is_begun(log[at]) {
                fails_at(turn, log, at)
            } else if log.len() == at + 1 {
                turn == ask(command)
            } else {
                match log[at + 1] {
                    Reply::Failed(e) => if log.len() == at + 2 {
                        turn == ask(roll_back)
                    } else {
                        turn == Turn::Done(Err::<Reply, Seq<char>>(e.text@), at + 3)
                    },
                    _ => if log.len() == at + 2 {
                        turn == ask(keep)
                    } else {
                        match log[at + 2] {
                            Reply::Failed(e) => if log.len() == at + 3 {
                                turn == ask(roll_back)
                            } else {
                                turn == Turn::Done(Err::<Reply, Seq<char>>(e.text@), at + 4)
                            },
                            _ => turn == Turn::Done(
                                Ok::<Reply, Seq<char>>(log[at + 1]),
                                at + 3,
                            ),
                        }
                    },
                }
            }
        }),
{
}

// ------------------------------------------------------------ answers to edits

/// The item has fared well: nothing is said about it, or that all is well.
pub open spec fn fared_well(result: ItemResult) -> bool {
    result.status matches Some(status) ==> status.code == Some(StatusCode::Okay)
}

/// What is wrong with an item: the message, or else the name of the code, or else that the code
/// has no name.
pub open spec fn complaint(status: ItemStatus) -> Seq<char> {
    if status.error_message@.len() > 0 {
        status.error_message@
    } else if status.code matches Some(StatusCode::Other(name)) {
        status.code->0->0@
    } else {
        "ISC_UNKNOWN"@
    }
}

/// The item came back with an identifier.
pub open spec fn is_identified(result: ItemResult) -> bool {
    result.item matches Some(any) && item_kiid(any.value@) is Some
}

/// How many items came back with an identifier.
pub open spec fn how_many_identified(results: Seq<ItemResult>) -> nat
    decreases results.len(),
{
    if results.len() == 0 {
        0
    } else {
        how_many_identified(results.drop_first()) + (if is_identified(results[0]) {
            1nat
        } else {
            0
        })
    }
}

/// `ids` are the identifiers that the items came back with, one for each.
pub open spec fn are_identifiers(ids: Seq<Seq<char>>, results: Seq<ItemResult>) -> bool {
    &&& ids.len() == results.len()
    &&& forall|i: int|
        0 <= i < results.len() ==> ((#[trigger] results[i]).item matches Some(any) && item_kiid(
            any.value@,
        ) == Some(ids[i]))
}

/// What a request failed with, by its status.
pub open spec fn refusal(op: Seq<char>, status: Option<StatusCode>) -> Seq<char> {
    op + " request failed: "@ + match status {
        Some(StatusCode::Other(name)) => name@,
        _ => "IRS_UNKNOWN"@,
    }
}

proof fn how_many_of_more(results: Seq<ItemResult>)
    requires
        results.len() > 0,
    ensures
        how_many_identified(results) == how_many_identified(results.drop_last()) + (
        if is_identified(results.last()) {
            1nat
        } else {
            0
        }),
    decreases results.len(),
{
    if results.len() > 1 {
        let rest = results.drop_first();
        how_many_of_more(rest);
        assert(rest.drop_last() =~= results.drop_last().drop_first());
        reveal_with_fuel(how_many_identified, 2);
    } else {
        assert(results.drop_first() =~= seq![]);
        assert(results.drop_last() =~= seq![]);
        reveal_with_fuel(how_many_identified, 2);
    }
}

proof fn reported_is_how_many(results: Seq<ItemResult>, op: Seq<char>)
    ensures
        reported_kiids(results, op) matches Ok(ids) ==> ids.len() == how_many_identified(results),
    decreases results.len(),
{
    if results.len() > 0 {
        reported_is_how_many(results.drop_last(), op);
        how_many_of_more(results);
    }
}

/// A status is good if it says that all is well; otherwise the error names it, or says that it is
/// not known.
pub proof fn a_status_is_good_or_is_named(
    status: Option<StatusCode>,
    item: Option<ItemStatus>,
    op: Seq<char>,
)
    ensures
        request_status(status, op) == if status == Some(StatusCode::Okay) {
            Ok::<(), Seq<char>>(())
        } else {
            Err(refusal(op, status))
        },
        deletion_status(status, op) == if status == Some(StatusCode::Okay) {
            Ok::<(), Seq<char>>(())
        } else {
            Err(
                op + " failed for an item: "@ + match status {
                    Some(StatusCode::Other(name)) => name@,
                    _ => "IDS_UNKNOWN"@,
                },
            )
        },
        item_status(item, op) == if item matches Some(s) && s.code != Some(StatusCode::Okay) {
            Err::<(), Seq<char>>(op + " failed for an item: "@ + complaint(item->0))
        } else {
            Ok(())
        },
{
}

/// There must be at least as many results as items that were requested.
pub proof fn there_must_be_a_result_for_each_item(requested: nat, returned: nat, op: Seq<char>)
    ensures
        returned >= requested ==> result_count(requested, returned, op) is Ok,
        returned < requested ==> result_count(requested, returned, op) == Err::<(), Seq<char>>(
            op + " requested "@ + decimal(requested)
                + " item(s) but KiCAD only returned a result for "@ + decimal(returned)
                + " — the rest don't exist (or are otherwise unresolvable) on the board"@,
        ),
{
}

/// Items exist if as many are found by the identifiers as there are identifiers. Where there are
/// none, nothing is asked.
pub proof fn items_exist_if_they_are_found(
    ids: Seq<Seq<char>>,
    op: Seq<char>,
    log: Seq<Reply>,
    at: int,
)
    ensures
        ({
            let turn = confirm_items_turn(ids, op, log, at);
            match get_items_by_id_turn(ids, log, at) {
                Turn::Ask(q) => turn == Turn::<()>::Ask(q),
                Turn::Done(Err(e), n) => turn == Turn::Done(Err::<(), Seq<char>>(e), n),
                Turn::Done(Ok(found), n) => if found.len() < ids.len() {
                    turn == Turn::Done(
                        Err::<(), Seq<char>>(
                            op + " reported success but only "@ + decimal(found.len()) + " of "@
                                + decimal(ids.len())
                                + " item(s) independently re-resolved by KIID afterward — the mutation did not fully land"@,
                        ),
                        n,
                    )
                } else {
                    turn == Turn::Done(Ok::<(), Seq<char>>(()), n)
                },
            }
        }),
{
}

/// What follows the answer to a creation or an update of `requested` items. Everything about it
/// is looked at in order: the status of the request, the number of results, how each item fared,
/// whether each came with an identifier; and then exactly these identifiers are looked up.
#[verifier::spinoff_prover]
#[verifier::rlimit(40)]
pub proof fn an_answer_to_an_edit_is_looked_at(
    requested: nat,
    reply: Reply,
    op: Seq<char>,
    log: Seq<Reply>,
    at: int,
)
    requires
        0 <= at <= log.len(),
    ensures
        ({
            let turn = settle_turn(requested, reply, op, log, at);
            let fails = |e: Seq<char>| turn == Turn::Done(Err::<(), Seq<char>>(e), at);
            match reply {
                Reply::Nothing => fails(op + " returned no response body"@),
                Reply::Edited { status, results } => if status != Some(StatusCode::Okay) {
                    fails(refusal(op, status))
                } else if results@.len() < requested {
                    fails(
                        op + " requested "@ + decimal(requested)
                            + " item(s) but KiCAD only returned a result for "@ + decimal(
                            results@.len(),
                        )
                            + " — the rest don't exist (or are otherwise unresolvable) on the board"@,
                    )
                } else {
                    &&& forall|i: int|
                        0 <= i < results@.len() && !fared_well(#[trigger] results@[i]) && (forall|
                            j: int,
                        |
                            0 <= j < i ==> fared_well(#[trigger] results@[j])) ==> fails(
                            op + " failed for an item: "@ + complaint(results@[i].status->0),
                        )
                    &&& (forall|i: int| 0 <= i < results@.len() ==> fared_well(#[trigger] results@[i]))
                        && how_many_identified(results@) < results@.len() ==> fails(
                        op + " reported success but only "@ + decimal(how_many_identified(results@))
                            + " of "@ + decimal(results@.len())
                            + " item(s) came with a KIID — the rest cannot be re-resolved"@,
                    )
                    &&& forall|ids: Seq<Seq<char>>| #[trigger]
                        are_identifiers(ids, results@) && (forall|i: int|
                            0 <= i < results@.len() ==> fared_well(#[trigger] results@[i])) ==> (
                        match get_items_by_id_turn(ids, log, at) {
                            Turn::Ask(q) => turn == Turn::<()>::Ask(q),
                            Turn::Done(Err(e), n) => turn == Turn::Done(
                                Err::<(), Seq<char>>(e),
                                n,
                            ),
                            Turn::Done(Ok(found), n) => if found.len() < results@.len() {
                                turn == Turn::Done(
                                    Err::<(), Seq<char>>(
                                        op + " reported success but only "@ + decimal(found.len())
                                            + " of "@ + decimal(results@.len())
                                            + " item(s) independently re-resolved by KIID afterward — the mutation did not fully land"@,
                                    ),
                                    n,
                                )
                            } else {
                                turn == Turn::Done(Ok::<(), Seq<char>>(()), n)
                            },
                        })
                },
                _ => fails("Failed to decode protobuf Any body"@),
            }
        }),
{
    if let Reply::Edited { status, results } = reply {
        let results = results@;
        good_results_are_good_for_every_item(results, op);
        identifiers_match_items(results, op);
        reported_is_how_many(results, op);
        assert forall|i: int| 0 <= i < results.len() implies (fared_well(#[trigger] results[i])
            <==> item_status(results[i].status, op) is Ok) by {}
        assert forall|i: int| 0 <= i < results.len() && !fared_well(#[trigger] results[i]) implies
            item_status(results[i].status, op) == Err::<(), Seq<char>>(
            op + " failed for an item: "@ + complaint(results[i].status->0),
        ) by {}
        if status == Some(StatusCode::Okay) && results.len() >= requested {
            assert forall|i: int|
                0 <= i < results.len() && !fared_well(#[trigger] results[i]) && (forall|j: int|
                    0 <= j < i ==> fared_well(#[trigger] results[j])) implies crate::status::result_kiids(
                results,
                op,
            ) == Err::<Seq<Seq<char>>, Seq<char>>(
                op + " failed for an item: "@ + complaint(results[i].status->0),
            ) by {
                first_bad_is_this(results, op, i);
            }
            assert forall|ids: Seq<Seq<char>>| #[trigger]
                are_identifiers(ids, results) && (forall|i: int|
                    0 <= i < results.len() ==> fared_well(
                        #[trigger] results[i],
                    )) implies crate::status::result_kiids(results, op) == Ok::<
                Seq<Seq<char>>,
                Seq<char>,
            >(ids) by {
                assert forall|i: int| 0 <= i < results.len() implies result_kiid(
                    #[trigger] results[i],
                ) == Some(ids[i]) by {}
                if let Ok(found) = crate::status::result_kiids(results, op) {
                    assert forall|i: int| 0 <= i < ids.len() implies found[i] == ids[i] by {
                        assert(result_kiid(results[i]) == Some(found[i]));
                    }
                    assert(found =~= ids);
                }
            }
            if results.len() == 0 {
                let none: Seq<Seq<char>> = seq![];
                assert forall|ids: Seq<Seq<char>>| #[trigger]
                    are_identifiers(ids, results) implies ids == none by {
                    assert(ids =~= none);
                }
                items_are_looked_up_by_their_identifiers(none, log, at);
            }
        }
    }
}

proof fn first_bad_is_this(results: Seq<ItemResult>, op: Seq<char>, i: int)
    requires
        0 <= i < results.len(),
        item_status(results[i].status, op) is Err,
        forall|j: int| 0 <= j < i ==> item_status((#[trigger] results[j]).status, op) is Ok,
    ensures
        reported_kiids(results, op) == Err::<Seq<Seq<char>>, Seq<char>>(
            item_status(results[i].status, op)->Err_0,
        ),
    decreases results.len(),
{
    let before = results.drop_last();
    if i < before.len() {
        assert(before[i] == results[i]);
        assert forall|j: int| 0 <= j < i implies item_status(
            (#[trigger] before[j]).status,
            op,
        ) is Ok by {
            assert(before[j] == results[j]);
        }
        first_bad_is_this(before, op, i);
    } else {
        crate::laws::items::good_results_are_good_for_every_item(before, op);
        if let Err(e) = reported_kiids(before, op) {
            assert(crate::laws::items::first_bad_status(before, op, e));
            let k = choose|k: int|
                0 <= k < before.len() && item_status(#[trigger] before[k].status, op) == Err::<
                    (),
                    Seq<char>,
                >(e) && forall|j: int|
                    0 <= j < k ==> item_status(#[trigger] before[j].status, op) is Ok;
            assert(results[k] == before[k]);
            assert(item_status(results[k].status, op) is Ok);
        }
    }
}

// ------------------------------------------------------------ creating and updating

/// `create_items` sends all the items, in order and as they are, to be created on the open board;
/// what comes back is looked at against their number.
pub proof fn all_items_are_created(items: Seq<AnyModel>, log: Seq<Reply>, at: int)
    requires
        0 <= at <= log.len(),
    ensures
        needs_board(create_items_turn(items, log, at), log, at),
        has_board(log, at) ==> match mutate_turn(
            CommandModel::CreateItems { header: all_of_board(log, at), items, container: None },
            "Create items"@,
            log,
            at + 1,
        ) {
            Turn::Ask(q) => create_items_turn(items, log, at) == Turn::<()>::Ask(q),
            Turn::Done(Err(e), n) => create_items_turn(items, log, at) == Turn::Done(
                Err::<(), Seq<char>>(e),
                n,
            ),
            Turn::Done(Ok(reply), n) => create_items_turn(items, log, at) == settle_turn(
                items.len(),
                reply,
                "CreateItems"@,
                log,
                n,
            ),
        },
        create_items_turn(items, log, at) matches Turn::Ask(
            Query::Send(CommandModel::CreateItems { header, items: sent, container }),
        ) ==> has_board(log, at) && header == all_of_board(log, at) && sent == items && container
            is None,
        create_items_turn(items, log, at) matches Turn::Ask(Query::Send(command)) ==> !(
        command is UpdateItems || command is DeleteItems || command is RefillZones),
{
}

/// `update_items` sends all the items, in order and as they are, to be updated on the open board;
/// what comes back is looked at against their number.
pub proof fn all_items_are_updated(items: Seq<AnyModel>, log: Seq<Reply>, at: int)
    requires
        0 <= at <= log.len(),
    ensures
        needs_board(update_items_turn(items, log, at), log, at),
        has_board(log, at) ==> match mutate_turn(
            CommandModel::UpdateItems { header: all_of_board(log, at), items },
            "Update items"@,
            log,
            at + 1,
        ) {
            Turn::Ask(q) => update_items_turn(items, log, at) == Turn::<()>::Ask(q),
            Turn::Done(Err(e), n) => update_items_turn(items, log, at) == Turn::Done(
                Err::<(), Seq<char>>(e),
                n,
            ),
            Turn::Done(Ok(reply), n) => update_items_turn(items, log, at) == settle_turn(
                items.len(),
                reply,
                "UpdateItems"@,
                log,
                n,
            ),
        },
        update_items_turn(items, log, at) matches Turn::Ask(
            Query::Send(CommandModel::UpdateItems { header, items: sent }),
        ) ==> has_board(log, at) && header == all_of_board(log, at) && sent == items,
        update_items_turn(items, log, at) matches Turn::Ask(Query::Send(command)) ==> !(
        command is CreateItems || command is DeleteItems || command is RefillZones),
{
}

// ------------------------------------------------------------ deleting

/// What the answer to a deletion amounts to.
pub open spec fn is_answer_to_deletion(reply: Reply, result: Result<(), Seq<char>>) -> bool {
    match reply {
        Reply::Nothing => result == Err::<(), Seq<char>>(
            "DeleteItems"@ + " returned no response body"@,
        ),
        Reply::Deleted { status, outcomes } => if status != Some(StatusCode::Okay) {
            result == Err::<(), Seq<char>>(refusal("DeleteItems"@, status))
        } else {
            &&& result is Ok <==> forall|i: int|
                0 <= i < outcomes@.len() ==> #[trigger] outcomes@[i] == Some(StatusCode::Okay)
            &&& forall|i: int|
                0 <= i < outcomes@.len() && #[trigger] outcomes@[i] != Some(StatusCode::Okay) && (
                forall|j: int|
                    0 <= j < i ==> #[trigger] outcomes@[j] == Some(StatusCode::Okay)) ==> result
                    == Err::<(), Seq<char>>(
                    "DeleteItems"@ + " failed for an item: "@ + match outcomes@[i] {
                        Some(StatusCode::Other(name)) => name@,
                        _ => "IDS_UNKNOWN"@,
                    },
                )
        },
        _ => result == Err::<(), Seq<char>>("Failed to decode protobuf Any body"@),
    }
}

proof fn the_first_that_was_not_deleted_counts(
    outcomes: Seq<Option<StatusCode>>,
    op: Seq<char>,
    i: int,
)
    requires
        0 <= i < outcomes.len(),
        outcomes[i] != Some(StatusCode::Okay),
        forall|j: int| 0 <= j < i ==> #[trigger] outcomes[j] == Some(StatusCode::Okay),
    ensures
        all_deleted(outcomes, op) == Err::<(), Seq<char>>(
            op + " failed for an item: "@ + match outcomes[i] {
                Some(StatusCode::Other(name)) => name@,
                _ => "IDS_UNKNOWN"@,
            },
        ),
    decreases outcomes.len(),
{
    if i > 0 {
        let rest = outcomes.drop_first();
        assert(outcomes[0] == Some(StatusCode::Okay));
        assert forall|j: int| 0 <= j < i - 1 implies #[trigger] rest[j] == Some(
            StatusCode::Okay,
        ) by {
            assert(outcomes[j + 1] == Some(StatusCode::Okay));
        }
        the_first_that_was_not_deleted_counts(rest, op, i - 1);
    }
}

proof fn an_answer_to_a_deletion_is_looked_at(reply: Reply)
    ensures
        is_answer_to_deletion(reply, crate::items::deleted(reply)),
{
    if let Reply::Deleted { status, outcomes } = reply {
        let outcomes = outcomes@;
        let op = "DeleteItems"@;
        all_deleted_means_every_one(outcomes, op);
        if status == Some(StatusCode::Okay) {
            if all_deleted(outcomes, op) is Ok {
                assert forall|i: int| 0 <= i < outcomes.len() implies #[trigger] outcomes[i] == Some(
                    StatusCode::Okay,
                ) by {
                    assert(crate::status::is_ok(outcomes[i]));
                }
            }
            if forall|i: int|
                0 <= i < outcomes.len() ==> #[trigger] outcomes[i] == Some(StatusCode::Okay) {
                assert forall|i: int| 0 <= i < outcomes.len() implies crate::status::is_ok(
                    #[trigger] outcomes[i],
                ) by {}
            }
            assert forall|i: int|
                0 <= i < outcomes.len() && #[trigger] outcomes[i] != Some(StatusCode::Okay) && (
                forall|j: int|
                    0 <= j < i ==> #[trigger] outcomes[j] == Some(
                        StatusCode::Okay,
                    )) implies all_deleted(outcomes, op) == Err::<(), Seq<char>>(
                op + " failed for an item: "@ + match outcomes[i] {
                    Some(StatusCode::Other(name)) => name@,
                    _ => "IDS_UNKNOWN"@,
                },
            ) by {
                the_first_that_was_not_deleted_counts(outcomes, op, i);
            }
        }
    }
}

/// `delete_items` looks all the identifiers up, and if as many items are found, sends exactly
/// these identifiers, in order, to be deleted from the open board.
#[verifier::spinoff_prover]
#[verifier::rlimit(40)]
pub proof fn all_items_are_deleted(ids: Seq<Seq<char>>, log: Seq<Reply>, at: int)
    requires
        0 <= at <= log.len(),
    ensures
        match get_items_by_id_turn(ids, log, at) {
            Turn::Ask(q) => delete_items_turn(ids, log, at) == Turn::<()>::Ask(q),
            Turn::Done(Err(e), n) => delete_items_turn(ids, log, at) == Turn::Done(
                Err::<(), Seq<char>>(e),
                n,
            ),
            Turn::Done(Ok(found), n) => if found.len() < ids.len() {
                delete_items_turn(ids, log, at) == Turn::Done(
                    Err::<(), Seq<char>>(
                        "DeleteItems requested "@ + decimal(ids.len()) + " item(s) but only "@
                            + decimal(found.len())
                            + " of them exist on the board — the rest are bogus/nonexistent KIIDs"@,
                    ),
                    n,
                )
            } else {
                &&& needs_board(delete_items_turn(ids, log, at), log, n)
                &&& has_board(log, n) ==> match mutate_turn(
                    CommandModel::DeleteItems { header: all_of_board(log, n), ids },
                    "Delete items"@,
                    log,
                    n + 1,
                ) {
                    Turn::Ask(q) => delete_items_turn(ids, log, at) == Turn::<()>::Ask(q),
                    Turn::Done(Err(e), m) => delete_items_turn(ids, log, at) == Turn::Done(
                        Err::<(), Seq<char>>(e),
                        m,
                    ),
                    Turn::Done(Ok(reply), m) => delete_items_turn(ids, log, at) matches Turn::Done(
                        result,
                        k,
                    ) && k == m && is_answer_to_deletion(reply, result),
                }
            },
        },
{
    items_are_looked_up_by_their_identifiers(ids, log, at);
    crate::replay::get_items_by_id_replays(ids, log, log, at);
    if let Turn::Done(Ok(found), n) = get_items_by_id_turn(ids, log, at) {
        if has_board(log, n) {
            let command = CommandModel::DeleteItems { header: all_of_board(log, n), ids };
            if let Turn::Done(Ok(reply), _) = mutate_turn(command, "Delete items"@, log, n + 1) {
                an_answer_to_a_deletion_is_looked_at(reply);
            }
        }
    }
}

/// Whenever `delete_items` asks for items to be deleted, it is for the requested ones, all of them
/// and in order; and if it succeeds, that is what was sent, and it was answered well.
#[verifier::spinoff_prover]
#[verifier::rlimit(40)]
pub proof fn the_requested_items_are_deleted(ids: Seq<Seq<char>>, log: Seq<Reply>, at: int)
    requires
        0 <= at <= log.len(),
    ensures
        delete_items_turn(ids, log, at) matches Turn::Ask(
            Query::Send(CommandModel::DeleteItems { header, ids: sent }),
        ) ==> sent == ids && has_board(log, log.len() - 2) && header == all_of_board(
            log,
            log.len() - 2,
        ),
        delete_items_turn(ids, log, at) matches Turn::Ask(Query::Send(command)) ==> !(
        command is CreateItems || command is UpdateItems || command is RefillZones),
        delete_items_turn(ids, log, at) matches Turn::Done(Ok(_), n) ==> {
            &&& at + 4 <= n <= log.len()
            &&& delete_items_turn(ids, log.take(n - 2), at) == Turn::<()>::Ask(
                Query::Send(CommandModel::DeleteItems { header: all_of_board(log, n - 4), ids }),
            )
            &&& log[n - 2] matches Reply::Deleted { status, outcomes }
            &&& status == Some(StatusCode::Okay)
            &&& forall|i: int|
                0 <= i < outcomes@.len() ==> #[trigger] outcomes@[i] == Some(StatusCode::Okay)
        },
{
    all_items_are_deleted(ids, log, at);
    crate::replay::get_items_by_id_replays(ids, log, log, at);
    if let Turn::Done(Ok(found), n) = get_items_by_id_turn(ids, log, at) {
        if found.len() >= ids.len() && has_board(log, n) {
            let command = CommandModel::DeleteItems { header: all_of_board(log, n), ids };
            an_edit_is_sent_in_its_commit(command, "Delete items"@, log, n + 1);
            if let Turn::Done(Ok(reply), m) = mutate_turn(command, "Delete items"@, log, n + 1) {
                let short = log.take(m - 2);
                assert(m == n + 4);
                crate::replay::get_items_by_id_replays(ids, short, log, at);
                assert(has_board(short, n));
                all_items_are_deleted(ids, short, at);
                an_edit_is_sent_in_its_commit(command, "Delete items"@, short, n + 1);
            }
        }
    }
}

/// `delete_footprint` deletes the item with the identifier that was found by the reference, and
/// no other.
pub proof fn the_named_footprint_is_deleted(reference: Seq<char>, log: Seq<Reply>, at: int)
    ensures
        match find_footprint_kiid_turn(reference, log, at) {
            Turn::Ask(q) => delete_footprint_turn(reference, log, at) == Turn::<()>::Ask(q),
            Turn::Done(Err(e), n) => delete_footprint_turn(reference, log, at) == Turn::Done(
                Err::<(), Seq<char>>(e),
                n,
            ),
            Turn::Done(Ok(id), n) => delete_footprint_turn(reference, log, at)
                == delete_items_turn(seq![id], log, n),
        },
{
}

// ------------------------------------------------------------ zones

/// Zones are filled exactly if each item is a zone that says so.
pub proof fn zones_are_filled_if_each_says_so(items: Seq<Item>)
    ensures
        all_filled(items) <==> forall|i: int|
            0 <= i < items.len() ==> ((#[trigger] items[i]).body matches ItemBody::Zone(zone)
                && zone.filled),
{
    if all_filled(items) {
        assert forall|i: int| 0 <= i < items.len() implies ((#[trigger] items[i]).body matches
            ItemBody::Zone(zone) && zone.filled) by {
            assert(crate::items::is_filled(items[i]));
        }
    }
}

/// `refill_zones` has all zones of the open board filled, as an edit, and then waits for it.
pub proof fn all_zones_are_filled(log: Seq<Reply>, at: int)
    requires
        0 <= at <= log.len(),
    ensures
        needs_board(refill_zones_turn(log, at), log, at),
        has_board(log, at) ==> forall|none: Seq<Seq<char>>|
            none.len() == 0 ==> match #[trigger] mutate_turn(
                CommandModel::RefillZones { board: board_at(log, at), zones: none },
                "Refill zones"@,
                log,
                at + 1,
            ) {
                Turn::Ask(q) => refill_zones_turn(log, at) == Turn::<()>::Ask(q),
                Turn::Done(Err(e), n) => refill_zones_turn(log, at) == Turn::Done(
                    Err::<(), Seq<char>>(e),
                    n,
                ),
                Turn::Done(Ok(_), n) => refill_zones_turn(log, at) == await_fill_turn(log, n),
            },
{
    if has_board(log, at) {
        assert forall|none: Seq<Seq<char>>| none.len() == 0 implies none == Seq::<Seq<char>>::empty() by {
            assert(none =~= Seq::<Seq<char>>::empty());
        }
    }
}

/// Waiting for zones reads them first; there is nothing to wait for if there are none. Otherwise
/// the time is taken, and they are watched until they are filled or the time is up.
pub proof fn filling_is_waited_for(log: Seq<Reply>, at: int)
    requires
        0 <= at <= log.len(),
    ensures
        match fetch_items_turn(KiCadObjectType::KotPcbZone, log, at) {
            Turn::Ask(q) => await_fill_turn(log, at) == Turn::<()>::Ask(q),
            Turn::Done(Err(e), n) => await_fill_turn(log, at) == Turn::Done(
                Err::<(), Seq<char>>(e),
                n,
            ),
            Turn::Done(Ok(zones), n) => if zones.len() == 0 {
                await_fill_turn(log, at) == Turn::Done(Ok::<(), Seq<char>>(()), n)
            } else if log.len() <= n {
                await_fill_turn(log, at) == Turn::<()>::Ask(Query::StartTimer)
            } else if log[n] is Failed {
                fails_at(await_fill_turn(log, at), log, n)
            } else {
                match poll_turn(log, n + 1) {
                    Turn::Ask(q) => await_fill_turn(log, at) == Turn::<()>::Ask(q),
                    Turn::Done(Err(e), m) => await_fill_turn(log, at) == Turn::Done(
                        Err::<(), Seq<char>>(e),
                        m,
                    ),
                    Turn::Done(Ok(true), m) => await_fill_turn(log, at) == Turn::Done(
                        Ok::<(), Seq<char>>(()),
                        m,
                    ),
                    Turn::Done(Ok(false), m) => await_fill_turn(log, at) == Turn::Done(
                        Err::<(), Seq<char>>(
                            "RefillZones was accepted by KiCAD but the fill did not complete within 15s of polling — KiCAD defers the actual fill to a later event-loop tick when running with a GUI frame, and it never reported all zones filled"@,
                        ),
                        m,
                    ),
                }
            },
        },
{
    crate::replay::fetch_items_replays(KiCadObjectType::KotPcbZone, log, log, at);
}

/// The zones are watched every 200 milliseconds for 15 seconds: each time they are read, and that
/// is the end of it if all are filled, or if the time is up.
pub proof fn zones_are_watched(log: Seq<Reply>, at: int)
    requires
        0 <= at <= log.len(),
    ensures
        match fetch_items_turn(KiCadObjectType::KotPcbZone, log, at) {
            Turn::Ask(q) => poll_turn(log, at) == Turn::<bool>::Ask(q),
            Turn::Done(Err(e), n) => poll_turn(log, at) == Turn::Done(
                Err::<bool, Seq<char>>(e),
                n,
            ),
            Turn::Done(Ok(zones), n) => if forall|i: int|
                0 <= i < zones.len() ==> ((#[trigger] zones[i]).body matches ItemBody::Zone(zone)
                    && zone.filled) {
                poll_turn(log, at) == Turn::Done(Ok::<bool, Seq<char>>(true), n)
            } else if log.len() <= n {
                poll_turn(log, at) == Turn::<bool>::Ask(Query::Expired { millis: 15_000 })
            } else {
                match log[n] {
                    Reply::Flag(expired) => if expired {
                        poll_turn(log, at) == Turn::Done(Ok::<bool, Seq<char>>(false), n + 1)
                    } else if log.len() == n + 1 {
                        poll_turn(log, at) == Turn::<bool>::Ask(Query::Sleep { millis: 200 })
                    } else {
                        poll_turn(log, at) == poll_turn(log, n + 2)
                    },
                    _ => fails_at(poll_turn(log, at), log, n),
                }
            },
        },
{
    crate::replay::fetch_items_replays(KiCadObjectType::KotPcbZone, log, log, at);
    if let Turn::Done(Ok(zones), _) = fetch_items_turn(KiCadObjectType::KotPcbZone, log, at) {
        zones_are_filled_if_each_says_so(zones);
    }
}

// ------------------------------------------------------------ tracks

/// `add_track` has a track encoded that runs from the one point to the other, has the width, is
/// unlocked, and is on the layer and the net; the code is that of the net. The encoding is then
/// created as a track.
pub proof fn the_requested_track_is_created(
    net_name: Seq<char>,
    layer: Seq<char>,
    width_nm: i64,
    start: Vector2,
    end: Vector2,
    log: Seq<Reply>,
    at: int,
)
    requires
        0 <= at <= log.len(),
    ensures
        ({
            let turn = add_track_turn(net_name, layer, width_nm, start, end, log, at);
            match resolve_net_code_turn(net_name, log, at) {
                Turn::Ask(q) => turn == Turn::<()>::Ask(q),
                Turn::Done(Err(e), n) => turn == Turn::Done(Err::<(), Seq<char>>(e), n),
                Turn::Done(Ok(code), n) => if log.len() <= n {
                    &&& turn is Ask
                    &&& turn->Ask_0 matches Query::EncodeTrack(track)
                    &&& track.id is None
                    &&& track.start == Some(start)
                    &&& track.end == Some(end)
                    &&& track.width matches Some(width) && width.value_nm == width_nm
                    &&& track.locked == LockedState::LsUnlocked
                    &&& crate::laws::shapes::is_layer_for(track.layer, layer)
                    &&& track.net matches Some(net) && net.name == net_name && (net.code matches
                        Some(c) && c.value == code)
                } else {
                    match log[n] {
                        Reply::Bytes(bytes) => exists|items: Seq<AnyModel>|
                            {
                                &&& items.len() == 1
                                &&& items[0].type_url
                                    == "type.googleapis.com/"@ + "kiapi.board.types.Track"@
                                &&& items[0].value == bytes@
                                &&& turn == #[trigger] create_items_turn(items, log, n + 1)
                            },
                        _ => fails_at(turn, log, n),
                    }
                },
            }
        }),
{
    crate::replay::resolve_net_code_replays(net_name, log, log, at);
    crate::laws::shapes::a_layer_is_the_one_named(layer);
    if let Turn::Done(Ok(code), n) = resolve_net_code_turn(net_name, log, at) {
        if n < log.len() {
            if let Reply::Bytes(bytes) = log[n] {
                let items = seq![crate::wire::packed(bytes@, "kiapi.board.types.Track"@)];
                assert(items[0].value == bytes@);
                assert(add_track_turn(net_name, layer, width_nm, start, end, log, at)
                    == create_items_turn(items, log, n + 1));
            }
        }
    }
}

} // verus!
