//! What success means for board items.
use vstd::prelude::*;

use crate::commits::mutate_turn;
use crate::documents::{get_board_document_turn, make_header_turn};
use crate::items::{
    all_filled, await_fill_turn, create_items_turn, delete_items_turn, fetch_items_turn,
    find_by_id_turn, get_items_by_id_turn, not_there, poll_turn, refill_zones_turn,
    update_items_turn, FILL_TIMEOUT_MILLIS,
};
use crate::replay::{fetch_items_replays, get_board_document_replays, send_mutating_command_replays};
use crate::status::{
    all_deleted, identifiers_match_items, is_ok, item_status, not_identified, reported_kiids,
    result_kiid, result_kiids,
};
use crate::talk::{
    CommandModel, Item, ItemHeader, ItemResult, KiCadObjectType, Query, Reply, StatusCode, Turn,
};
use crate::text::contains;
use crate::wire::AnyModel;

verus! {

// ------------------------------------------------------------ creating and updating

/// A list of results is good exactly if every item in it has fared well and comes with an
/// identifier; the identifiers collected are then those of the items, one for each, in order. If
/// an item has fared badly, the first such item says what is wrong; if all have fared well but
/// some come without identifier, that is what is wrong.
pub proof fn good_results_are_good_for_every_item(results: Seq<ItemResult>, op: Seq<char>)
    ensures
        result_kiids(results, op) matches Ok(ids) ==> {
            &&& ids.len() == results.len()
            &&& forall|i: int|
                0 <= i < results.len() ==> result_kiid(#[trigger] results[i]) == Some(ids[i])
        },
        result_kiids(results, op) is Ok <==> forall|i: int|
            0 <= i < results.len() ==> item_status((#[trigger] results[i]).status, op) is Ok
                && result_kiid(results[i]) is Some,
        result_kiids(results, op) matches Err(e) ==> first_bad_status(results, op, e) || (forall|
            i: int,
        |
            0 <= i < results.len() ==> item_status((#[trigger] results[i]).status, op) is Ok) && (
        reported_kiids(results, op) matches Ok(ids) && e == not_identified(
            op,
            ids.len(),
            results.len(),
        )),
{
    identifiers_match_items(results, op);
    reported_means_every_status_is_good(results, op);
}

/// `e` is what the first item says that has fared badly.
pub open spec fn first_bad_status(results: Seq<ItemResult>, op: Seq<char>, e: Seq<char>) -> bool {
    exists|i: int|
        0 <= i < results.len() && item_status(#[trigger] results[i].status, op) == Err::<
            (),
            Seq<char>,
        >(e) && forall|j: int| 0 <= j < i ==> item_status(#[trigger] results[j].status, op) is Ok
}

proof fn reported_means_every_status_is_good(results: Seq<ItemResult>, op: Seq<char>)
    ensures
        match reported_kiids(results, op) {
            Ok(_) => forall|i: int|
                0 <= i < results.len() ==> item_status((#[trigger] results[i]).status, op) is Ok,
            Err(e) => first_bad_status(results, op, e),
        },
    decreases results.len(),
{
    if results.len() > 0 {
        let before = results.drop_last();
        reported_means_every_status_is_good(before, op);
        assert forall|i: int| 0 <= i < before.len() implies before[i] == results[i] by {}
        match reported_kiids(before, op) {
            Err(e) => {
                let i = choose|i: int|
                    0 <= i < before.len() && item_status(#[trigger] before[i].status, op) == Err::<
                        (),
                        Seq<char>,
                    >(e) && forall|j: int|
                        0 <= j < i ==> item_status(#[trigger] before[j].status, op) is Ok;
                assert(item_status(results[i].status, op) == Err::<(), Seq<char>>(e));
                assert forall|j: int| 0 <= j < i implies item_status(
                    #[trigger] results[j].status,
                    op,
                ) is Ok by {
                    assert(item_status(before[j].status, op) is Ok);
                }
            },
            Ok(_) => {
                let last = results.len() - 1;
                assert forall|j: int| 0 <= j < last implies item_status(
                    (#[trigger] results[j]).status,
                    op,
                ) is Ok by {
                    assert(item_status(before[j].status, op) is Ok);
                }
                if let Err(e) = item_status(results[last].status, op) {
                    assert(first_bad_status(results, op, e));
                }
            },
        }
    }
}

/// `reply` is a good answer to an edit of `requested` items: there is a result for every one of
/// them, no item has failed, each comes with an identifier, and as many items as there are
/// identifiers are found again, from position `m` of the log to position `n`.
pub open spec fn landed(
    requested: nat,
    reply: Reply,
    op: Seq<char>,
    log: Seq<Reply>,
    m: int,
    n: int,
) -> bool {
    &&& reply matches Reply::Edited { status, results }
    &&& is_ok(status)
    &&& results@.len() >= requested
    &&& forall|i: int|
        0 <= i < results@.len() ==> item_status((#[trigger] results@[i]).status, op) is Ok
    &&& result_kiids(results@, op) matches Ok(ids)
    &&& ids.len() == results@.len()
    &&& forall|i: int|
        0 <= i < results@.len() ==> result_kiid(#[trigger] results@[i]) == Some(ids[i])
    &&& get_items_by_id_turn(ids, log, m) matches Turn::Done(Ok(found), k)
    &&& k == n
    &&& found.len() >= results@.len()
}

/// If `create_items` succeeds, KiCAD has accepted the command, has reported a result for every
/// item, no item has failed, each was reported with an identifier, and they were all found on
/// the board afterwards.
pub proof fn created_items_are_on_the_board(items: Seq<AnyModel>, log: Seq<Reply>, at: int)
    requires
        create_items_turn(items, log, at) matches Turn::Done(Ok(_), _),
    ensures
        make_header_turn(log, at) matches Turn::Done(Ok(header), k) && (mutate_turn(
            CommandModel::CreateItems { header, items, container: None },
            "Create items"@,
            log,
            k,
        ) matches Turn::Done(Ok(reply), m) && (create_items_turn(items, log, at) matches Turn::Done(
            _,
            n,
        ) && landed(items.len(), reply, "CreateItems"@, log, m, n))),
{
    if let Turn::Done(Ok(header), k) = make_header_turn(log, at) {
        let command = CommandModel::CreateItems { header, items, container: None };
        if let Turn::Done(Ok(reply), m) = mutate_turn(command, "Create items"@, log, k) {
            if let Reply::Edited { status, results } = reply {
                good_results_are_good_for_every_item(results@, "CreateItems"@);
            }
        }
    }
}

/// If `update_items` succeeds, KiCAD has accepted the command, has reported a result for every
/// item, no item has failed, each was reported with an identifier, and they were all found on
/// the board afterwards.
pub proof fn updated_items_are_on_the_board(items: Seq<AnyModel>, log: Seq<Reply>, at: int)
    requires
        update_items_turn(items, log, at) matches Turn::Done(Ok(_), _),
    ensures
        make_header_turn(log, at) matches Turn::Done(Ok(header), k) && (mutate_turn(
            CommandModel::UpdateItems { header, items },
            "Update items"@,
            log,
            k,
        ) matches Turn::Done(Ok(reply), m) && (update_items_turn(items, log, at) matches Turn::Done(
            _,
            n,
        ) && landed(items.len(), reply, "UpdateItems"@, log, m, n))),
{
    if let Turn::Done(Ok(header), k) = make_header_turn(log, at) {
        let command = CommandModel::UpdateItems { header, items };
        if let Turn::Done(Ok(reply), m) = mutate_turn(command, "Update items"@, log, k) {
            if let Reply::Edited { status, results } = reply {
                good_results_are_good_for_every_item(results@, "UpdateItems"@);
            }
        }
    }
}

// ------------------------------------------------------------ deleting

/// A look-up that KiCAD answers with `AS_BAD_REQUEST` finds nothing, and is no failure.
pub proof fn a_bad_request_finds_nothing(
    header: ItemHeader,
    ids: Seq<Seq<char>>,
    log: Seq<Reply>,
    at: int,
)
    requires
        0 <= at < log.len(),
        log[at] matches Reply::Failed(e) && contains(e@, "AS_BAD_REQUEST"@),
    ensures
        find_by_id_turn(header, ids, log, at) == Turn::Done(
            Ok::<Seq<Item>, Seq<char>>(seq![]),
            at + 1,
        ),
{
}

/// `delete_items` touches the board only if as many items were found as are to be deleted: it
/// asks for a commit or a deletion, or succeeds, only then. If fewer were found it stops at
/// once.
pub proof fn only_items_on_the_board_are_deleted(ids: Seq<Seq<char>>, log: Seq<Reply>, at: int)
    ensures
        match get_items_by_id_turn(ids, log, at) {
            Turn::Done(Ok(found), n) => found.len() < ids.len() ==> delete_items_turn(ids, log, at)
                == Turn::Done(Err::<(), Seq<char>>(not_there(ids.len(), found.len())), n),
            Turn::Done(Err(e), n) => delete_items_turn(ids, log, at) == Turn::Done(
                Err::<(), Seq<char>>(e),
                n,
            ),
            Turn::Ask(q) => delete_items_turn(ids, log, at) == Turn::<()>::Ask(q) && !(q matches
                Query::Send(command) && (command.is_edit() || command is BeginCommit)),
        },
{
}

/// If every outcome of a deletion is good, so is the whole, and the other way round.
pub proof fn all_deleted_means_every_one(outcomes: Seq<Option<StatusCode>>, op: Seq<char>)
    ensures
        all_deleted(outcomes, op) is Ok <==> forall|i: int|
            0 <= i < outcomes.len() ==> is_ok(#[trigger] outcomes[i]),
    decreases outcomes.len(),
{
    if outcomes.len() > 0 {
        let rest = outcomes.drop_first();
        all_deleted_means_every_one(rest, op);
        if all_deleted(outcomes, op) is Ok {
            assert forall|i: int| 0 <= i < outcomes.len() implies is_ok(#[trigger] outcomes[i]) by {
                if i > 0 {
                    assert(is_ok(rest[i - 1]));
                }
            }
        }
        if forall|i: int| 0 <= i < outcomes.len() ==> is_ok(#[trigger] outcomes[i]) {
            assert(is_ok(outcomes[0]));
            assert forall|i: int| 0 <= i < rest.len() implies is_ok(#[trigger] rest[i]) by {
                assert(is_ok(outcomes[i + 1]));
            }
        }
    }
}

// ------------------------------------------------------------ filling zones

/// The zones were looked at, up to position `n` of the log, and all of them were filled.
pub open spec fn seen_filled(log: Seq<Reply>, n: int) -> bool {
    exists|m: int|
        (#[trigger] fetch_items_turn(KiCadObjectType::KotPcbZone, log, m)) matches Turn::Done(
            Ok(zones),
            k,
        ) && k == n && all_filled(zones)
}

proof fn a_good_poll_saw_filled_zones(log: Seq<Reply>, at: int)
    requires
        0 <= at <= log.len(),
    ensures
        poll_turn(log, at) matches Turn::Done(Ok(true), n) ==> seen_filled(log, n),
    decreases log.len() - at,
{
    fetch_items_replays(KiCadObjectType::KotPcbZone, log, log, at);
    if let Turn::Done(Ok(zones), n) = fetch_items_turn(KiCadObjectType::KotPcbZone, log, at) {
        if !all_filled(zones) && n + 1 < log.len() {
            a_good_poll_saw_filled_zones(log, n + 2);
        }
    }
}

/// Watching the zones is given up only once the time is up: that is the last thing that was
/// asked, and the reply to it.
pub proof fn zones_are_watched_until_the_time_is_up(log: Seq<Reply>, at: int)
    requires
        0 <= at <= log.len(),
    ensures
        poll_turn(log, at) matches Turn::Done(Ok(false), n) ==> {
            &&& at < n <= log.len()
            &&& log[n - 1] == Reply::Flag(true)
            &&& poll_turn(log.take(n - 1), at) == Turn::<bool>::Ask(
                Query::Expired { millis: FILL_TIMEOUT_MILLIS },
            )
        },
    decreases log.len() - at,
{
    let kind = KiCadObjectType::KotPcbZone;
    fetch_items_replays(kind, log, log, at);
    if let Turn::Done(Ok(zones), n) = fetch_items_turn(kind, log, at) {
        if !all_filled(zones) {
            fetch_items_replays(kind, log.take(n), log, at);
            if n + 1 < log.len() {
                zones_are_watched_until_the_time_is_up(log, n + 2);
                if let Turn::Done(Ok(false), m) = poll_turn(log, n + 2) {
                    fetch_items_replays(kind, log.take(m - 1), log, at);
                }
            }
        }
    }
}

proof fn a_good_wait_saw_filled_zones(log: Seq<Reply>, at: int)
    requires
        0 <= at <= log.len(),
    ensures
        await_fill_turn(log, at) matches Turn::Done(Ok(_), n) ==> seen_filled(log, n),
{
    fetch_items_replays(KiCadObjectType::KotPcbZone, log, log, at);
    if let Turn::Done(Ok(zones), n) = fetch_items_turn(KiCadObjectType::KotPcbZone, log, at) {
        if n < log.len() {
            a_good_poll_saw_filled_zones(log, n + 1);
        }
    }
}

/// If `refill_zones` succeeds, the last thing it saw of the zones was that all of them are
/// filled. (There may be none.)
pub proof fn refilled_zones_are_filled(log: Seq<Reply>, at: int)
    requires
        0 <= at <= log.len(),
    ensures
        refill_zones_turn(log, at) matches Turn::Done(Ok(_), n) ==> seen_filled(log, n),
{
    get_board_document_replays(log, log, at);
    if let Turn::Done(Ok(board), n) = get_board_document_turn(log, at) {
        let command = CommandModel::RefillZones { board, zones: seq![] };
        send_mutating_command_replays(command, "Refill zones"@, log, log, n);
        if let Turn::Done(Ok(_), m) = mutate_turn(command, "Refill zones"@, log, n) {
            a_good_wait_saw_filled_zones(log, m);
        }
    }
}

} // verus!
