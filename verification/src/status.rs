//! What KiCAD says about the items of a command, and whether it amounts to success.
//!
//! A command can be accepted as a whole while items of it fail, and an item that does not
//! exist is not reported at all. So the state of the request, the number of results and the
//! state of each item are all looked at.
use vstd::prelude::*;
use vstd::string::*;

use crate::talk::{outcome, IpcError, ItemResult, ItemStatus, StatusCode};
use crate::text::{decimal, decimal_text};
use crate::wire::{extract_item_kiid, item_kiid};

verus! {

/// A looked-up state says that all is well.
pub open spec fn is_ok(status: Option<StatusCode>) -> bool {
    status matches Some(StatusCode::Okay)
}

/// The name of a code that does not say that all is well, or `unknown` for a number that has none.
pub open spec fn name_or(status: Option<StatusCode>, unknown: Seq<char>) -> Seq<char> {
    match status {
        Some(StatusCode::Other(name)) => name@,
        _ => unknown,
    }
}

fn status_ok(status: &Option<StatusCode>) -> (b: bool)
    ensures
        b == is_ok(*status),
{
    match status {
        Some(StatusCode::Okay) => true,
        _ => false,
    }
}

fn append_name(text: &mut String, status: &Option<StatusCode>, unknown: &str)
    ensures
        final(text)@ == old(text)@ + name_or(*status, unknown@),
{
    match status {
        Some(StatusCode::Other(name)) => text.append(name.as_str()),
        _ => text.append(unknown),
    }
}

/// The request as a whole must have been accepted.
pub open spec fn request_status(status: Option<StatusCode>, op: Seq<char>) -> Result<(),Seq<char>> {
    if is_ok(status) {
        Ok(())
    } else {
        Err(op + " request failed: "@ + name_or(status, "IRS_UNKNOWN"@))
    }
}

/// Checks the state of a request as a whole.
pub fn check_item_request_status(status: &Option<StatusCode>, op: &str) -> (r: Result<(),IpcError>)
    ensures
        outcome(r) == request_status(*status, op@),
{
    if status_ok(status) {
        Ok(())
    } else {
        let mut text = op.to_string();
        text.append(" request failed: ");
        append_name(&mut text, status, "IRS_UNKNOWN");
        Err(IpcError { text })
    }
}

/// An item must have fared well, if anything is said about it.
pub open spec fn item_status(status: Option<ItemStatus>, op: Seq<char>) -> Result<(), Seq<char>> {
    match status {
        Some(s) if !is_ok(s.code) => Err(
            op + " failed for an item: "@ + (if s.error_message@.len() == 0 {
                name_or(s.code, "ISC_UNKNOWN"@)
            } else {
                s.error_message@
            }),
        ),
        _ => Ok(()),
    }
}

/// Checks the state of an item that was to be created or updated.
pub fn check_item_status(status: &Option<ItemStatus>, op: &str) -> (r: Result<(), IpcError>)
    ensures
        outcome(r) == item_status(*status, op@),
{
    match status {
        Some(s) => {
            if status_ok(&s.code) {
                Ok(())
            } else {
                let mut text = op.to_string();
                text.append(" failed for an item: ");
                if s.error_message.as_str().is_empty() {
                    append_name(&mut text, &s.code, "ISC_UNKNOWN");
                } else {
                    text.append(s.error_message.as_str());
                }
                Err(IpcError { text })
            }
        },
        None => Ok(()),
    }
}

/// An item must have been deleted.
pub open spec fn deletion_status(
    status: Option<StatusCode>,
    op: Seq<char>,
) -> Result<(),Seq<char>> {
    if is_ok(status) {
        Ok(())
    } else {
        Err(op + " failed for an item: "@ + name_or(status, "IDS_UNKNOWN"@))
    }
}

/// Checks the state of an item that was to be deleted.
pub fn check_deletion_status(status: &Option<StatusCode>, op: &str) -> (r: Result<(), IpcError>)
    ensures
        outcome(r) == deletion_status(*status, op@),
{
    if status_ok(status) {
        Ok(())
    } else {
        let mut text = op.to_string();
        text.append(" failed for an item: ");
        append_name(&mut text, status, "IDS_UNKNOWN");
        Err(IpcError { text })
    }
}

/// There must be a result for every item.
pub open spec fn result_count(
    requested: nat,
    returned: nat,
    op: Seq<char>,
) -> Result<(),Seq<char>> {
    if returned < requested {
        Err(
            op + " requested "@ + decimal(requested)
                + " item(s) but KiCAD only returned a result for "@ + decimal(returned)
                + " — the rest don't exist (or are otherwise unresolvable) on the board"@,
        )
    } else {
        Ok(())
    }
}

/// Checks that there is a result for every item.
pub fn check_result_count(requested: usize, returned: usize, op: &str) -> (r: Result<(),IpcError>)
    ensures
        outcome(r) == result_count(requested as nat, returned as nat, op@),
{
    if returned < requested {
        let mut text = op.to_string();
        text.append(" requested ");
        text.append(decimal_text(requested as u64).as_str());
        text.append(" item(s) but KiCAD only returned a result for ");
        text.append(decimal_text(returned as u64).as_str());
        text.append(" — the rest don't exist (or are otherwise unresolvable) on the board");
        Err(IpcError { text })
    } else {
        Ok(())
    }
}

// ------------------------------------------------------------ all items of a command

/// The identifier of a created or updated item.
pub open spec fn result_kiid(result: ItemResult) -> Option<Seq<char>> {
    match result.item {
        Some(any) => item_kiid(any.value@),
        None => None,
    }
}

/// The identifiers that created or updated items come with, in order. The first item that fared
/// badly makes the whole fail.
pub open spec fn reported_kiids(
    results: Seq<ItemResult>,
    op: Seq<char>,
) -> Result<Seq<Seq<char>>,Seq<char>>
    decreases results.len(),
{
    if results.len() == 0 {
        Ok(seq![])
    } else {
        match reported_kiids(results.drop_last(), op) {
            Err(e) => Err(e),
            Ok(ids) => match item_status(results.last().status, op) {
                Err(e) => Err(e),
                Ok(_) => match result_kiid(results.last()) {
                    Some(id) => Ok(ids.push(id)),
                    None => Ok(ids),
                },
            },
        }
    }
}

/// The text for items that come without identifier.
pub open spec fn not_identified(op: Seq<char>, identified: nat, reported: nat) -> Seq<char> {
    op + " reported success but only "@ + decimal(identified) + " of "@ + decimal(reported)
        + " item(s) came with a KIID — the rest cannot be re-resolved"@
}

/// The identifiers of the created or updated items, one for each, in order. The first item that
/// fared badly makes the whole fail, and then any item without identifier does: it could not be
/// looked up again.
pub open spec fn result_kiids(
    results: Seq<ItemResult>,
    op: Seq<char>,
) -> Result<Seq<Seq<char>>,Seq<char>> {
    match reported_kiids(results, op) {
        Err(e) => Err(e),
        Ok(ids) => if ids.len() < results.len() {
            Err(not_identified(op, ids.len(), results.len()))
        } else {
            Ok(ids)
        },
    }
}

/// Once an item has fared badly, what follows makes no difference.
pub proof fn reported_kiids_keeps_error(results: Seq<ItemResult>, op: Seq<char>, n: int)
    requires
        0 <= n <= results.len(),
        reported_kiids(results.take(n), op) is Err,
    ensures
        reported_kiids(results, op) == reported_kiids(results.take(n), op),
    decreases results.len(),
{
    if n < results.len() {
        assert(results.drop_last().take(n) =~= results.take(n));
        reported_kiids_keeps_error(results.drop_last(), op, n);
    } else {
        assert(results.take(n) =~= results);
    }
}

/// There are as many identifiers as there are items exactly if each item has one, and they are
/// then in the order of the items.
pub proof fn identifiers_match_items(results: Seq<ItemResult>, op: Seq<char>)
    ensures
        reported_kiids(results, op) matches Ok(ids) ==> {
            &&& ids.len() <= results.len()
            &&& ids.len() == results.len() <==> forall|i: int|
                0 <= i < results.len() ==> result_kiid(#[trigger] results[i]) is Some
            &&& ids.len() == results.len() ==> forall|i: int|
                0 <= i < results.len() ==> result_kiid(#[trigger] results[i]) == Some(ids[i])
        },
    decreases results.len(),
{
    if results.len() > 0 {
        let before = results.drop_last();
        identifiers_match_items(before, op);
        assert forall|i: int| 0 <= i < before.len() implies before[i] == results[i] by {}
        if let Ok(ids) = reported_kiids(results, op) {
            if forall|i: int| 0 <= i < results.len() ==> result_kiid(#[trigger] results[i]) is Some {
                assert(result_kiid(results[results.len() - 1]) is Some);
                assert forall|i: int| 0 <= i < before.len() implies result_kiid(
                    #[trigger] before[i],
                ) is Some by {
                    assert(result_kiid(results[i]) is Some);
                }
            }
            if ids.len() == results.len() {
                assert forall|i: int| 0 <= i < results.len() implies result_kiid(
                    #[trigger] results[i],
                ) == Some(ids[i]) by {
                    if i < before.len() {
                        assert(result_kiid(before[i]) == Some(ids.drop_last()[i]));
                    }
                }
            }
        }
    }
}

/// Checks each created or updated item, and collects their identifiers.
pub fn collect_kiids(results: &Vec<ItemResult>, op: &str) -> (r: Result<Vec<String>, IpcError>)
    ensures
        outcome(r) == result_kiids(results@, op@),
        r matches Ok(ids) ==> ids@.len() == results@.len() && forall|i: int|
            0 <= i < results@.len() ==> result_kiid(#[trigger] results@[i]) == Some(ids@[i]@),
{
    let mut ids: Vec<String> = Vec::new();
    let mut i: usize = 0;
    assert(ids.deep_view() =~= seq![]);
    assert(results@.take(0) =~= seq![]);
    while i < results.len()
        invariant
            i <= results@.len(),
            reported_kiids(results@.take(i as int), op@) == Ok::<Seq<Seq<char>>, Seq<char>>(
                ids.deep_view(),
            ),
        decreases results@.len() - i,
    {
        let ghost before = ids.deep_view();
        let result = &results[i];
        assert(results@.take(i + 1).drop_last() =~= results@.take(i as int));
        assert(results@.take(i + 1).last() == *result);
        if let Err(e) = check_item_status(&result.status, op) {
            proof {
                reported_kiids_keeps_error(results@, op@, i + 1);
            }
            return Err(e);
        }
        if let Some(any) = &result.item {
            if let Some(id) = extract_item_kiid(any) {
                ids.push(id);
                assert(ids.deep_view() =~= before.push(id@));
            }
        }
        i = i + 1;
    }
    assert(results@.take(i as int) =~= results@);
    if ids.len() < results.len() {
        let mut text = op.to_string();
        text.append(" reported success but only ");
        text.append(decimal_text(ids.len() as u64).as_str());
        text.append(" of ");
        text.append(decimal_text(results.len() as u64).as_str());
        text.append(" item(s) came with a KIID — the rest cannot be re-resolved");
        return Err(IpcError { text });
    }
    proof {
        identifiers_match_items(results@, op@);
        assert forall|i: int| 0 <= i < results@.len() implies result_kiid(#[trigger] results@[i])
            == Some(ids@[i]@) by {
            assert(ids.deep_view()[i] == ids@[i]@);
        }
    }
    Ok(ids)
}

/// Every item must have been deleted; the first that was not makes the whole fail.
pub open spec fn all_deleted(
    outcomes: Seq<Option<StatusCode>>,
    op: Seq<char>,
) -> Result<(),Seq<char>>
    decreases outcomes.len(),
{
    if outcomes.len() == 0 {
        Ok(())
    } else {
        match deletion_status(outcomes[0], op) {
            Err(e) => Err(e),
            Ok(_) => all_deleted(outcomes.drop_first(), op),
        }
    }
}

/// Checks that every item was deleted.
pub fn check_all_deleted(outcomes: &Vec<Option<StatusCode>>, op: &str) -> (r: Result<(), IpcError>)
    ensures
        outcome(r) == all_deleted(outcomes@, op@),
{
    let mut i: usize = 0;
    assert(outcomes@.skip(0) =~= outcomes@);
    while i < outcomes.len()
        invariant
            i <= outcomes@.len(),
            all_deleted(outcomes@.skip(i as int), op@) == all_deleted(outcomes@, op@),
        decreases outcomes@.len() - i,
    {
        if let Err(e) = check_deletion_status(&outcomes[i], op) {
            return Err(e);
        }
        assert(outcomes@.skip(i as int).drop_first() =~= outcomes@.skip(i + 1));
        i = i + 1;
    }
    Ok(())
}

} // verus!
