//! Board items in general: reading, creating, updating and deleting them, and filling zones.
//!
//! An edit is not taken to have worked because KiCAD says so. Created and updated items are
//! looked up again afterwards, items to be deleted are looked up before, and zones are watched
//! until they are filled.
use vstd::prelude::*;
use vstd::string::*;

use crate::client::KiCadIpcClient;
use crate::commits::mutate_turn;
use crate::documents::{get_board_document_turn, make_header_turn};
use crate::laws::editing::the_requested_items_are_deleted;
use crate::status::{
    all_deleted, check_all_deleted, check_item_request_status, check_result_count, collect_kiids,
    request_status, result_count, result_kiids,
};
use crate::talk::{
    error, exchange, hear, unreadable, unreadable_error, Command, CommandModel, DocumentSpecifier,
    IpcError, Item, ItemBody, ItemHeader, ItemList, KiCadObjectType, Query, Reply, Request, Step,
    Turn,
};
use crate::text::{contains, copy_texts, decimal, decimal_text, text_contains};
use crate::wire::{copy_any, copy_anys, Any, AnyModel};

verus! {

// ------------------------------------------------------------ reading

/// The items that a reply lists.
pub open spec fn items_in(reply: Reply) -> Option<Seq<Item>> {
    match reply {
        Reply::Items(items) => Some(items@),
        Reply::Nothing => Some(seq![]),
        _ => None,
    }
}

/// The items that a reply lists, as a value.
pub open spec fn listed(reply: Reply, n: int) -> Turn<Seq<Item>> {
    match items_in(reply) {
        Some(items) => Turn::Done(Ok(items), n),
        None => Turn::Done(Err(unreadable()), n),
    }
}

/// The items of a kind.
pub open spec fn fetch_items_turn(
    kind: KiCadObjectType,
    log: Seq<Reply>,
    at: int,
) -> Turn<Seq<Item>> {
    make_header_turn(log, at).and_then(
        |header: ItemHeader, n: int|
            exchange(Query::Send(CommandModel::GetItems { header, kind }), log, n),
    ).and_then(|reply: Reply, n: int| listed(reply, n))
}

/// The packed messages of items.
pub open spec fn packed_items(items: Seq<Item>) -> Seq<AnyModel> {
    items.map_values(|item: Item| item.any.deep_view())
}

/// The items of a kind, packed.
pub open spec fn get_items_turn(
    kind: KiCadObjectType,
    log: Seq<Reply>,
    at: int,
) -> Turn<Seq<AnyModel>> {
    fetch_items_turn(kind, log, at).and_then(
        |items: Seq<Item>, n: int| Turn::Done(Ok(packed_items(items)), n),
    )
}

/// The items with the given identifiers. KiCAD refuses the command where it finds none of
/// them: that is no failure here.
pub open spec fn get_items_by_id_turn(
    ids: Seq<Seq<char>>,
    log: Seq<Reply>,
    at: int,
) -> Turn<Seq<Item>> {
    if ids.len() == 0 {
        Turn::Done(Ok(seq![]), at)
    } else {
        make_header_turn(log, at).and_then(
            |header: ItemHeader, n: int| find_by_id_turn(header, ids, log, n),
        )
    }
}

/// Asking for the items with the given identifiers.
pub open spec fn find_by_id_turn(
    header: ItemHeader,
    ids: Seq<Seq<char>>,
    log: Seq<Reply>,
    at: int,
) -> Turn<Seq<Item>> {
    match exchange(Query::Send(CommandModel::GetItemsById { header, ids }), log, at) {
        Turn::Ask(q) => Turn::Ask(q),
        Turn::Done(Ok(reply), n) => listed(reply, n),
        Turn::Done(Err(e), n) => if contains(e, "AS_BAD_REQUEST"@) {
            Turn::Done(Ok(seq![]), n)
        } else {
            Turn::Done(Err(e), n)
        },
    }
}

// ------------------------------------------------------------ creating and updating

/// The text for items that are not there after an edit.
pub open spec fn not_landed(op: Seq<char>, found: nat, expected: nat) -> Seq<char> {
    op + " reported success but only "@ + decimal(found) + " of "@ + decimal(expected)
        + " item(s) independently re-resolved by KIID afterward — the mutation did not fully land"@
}

/// All the items with the given identifiers must be there.
pub open spec fn confirm_items_turn(
    ids: Seq<Seq<char>>,
    op: Seq<char>,
    log: Seq<Reply>,
    at: int,
) -> Turn<()> {
    if ids.len() == 0 {
        Turn::Done(Ok(()), at)
    } else {
        get_items_by_id_turn(ids, log, at).and_then(
            |found: Seq<Item>, n: int|
                if found.len() < ids.len() {
                    Turn::Done(Err(not_landed(op, found.len(), ids.len())), n)
                } else {
                    Turn::Done(Ok(()), n)
                },
        )
    }
}

/// The text for an edit that was answered with nothing.
pub open spec fn no_body(op: Seq<char>) -> Seq<char> {
    op + " returned no response body"@
}

/// The identifiers that the answer to a creation or an update reports, if all is well in it:
/// the request, the number of results, and each of them.
pub open spec fn edited_kiids(
    requested: nat,
    reply: Reply,
    op: Seq<char>,
) -> Result<Seq<Seq<char>>,Seq<char>> {
    match reply {
        Reply::Nothing => Err(no_body(op)),
        Reply::Edited { status, results } => match request_status(status, op) {
            Err(e) => Err(e),
            Ok(_) => match result_count(requested, results@.len(), op) {
                Err(e) => Err(e),
                Ok(_) => result_kiids(results@, op),
            },
        },
        _ => Err(unreadable()),
    }
}

/// What follows the answer to a creation or an update of `requested` items.
pub open spec fn settle_turn(
    requested: nat,
    reply: Reply,
    op: Seq<char>,
    log: Seq<Reply>,
    at: int,
) -> Turn<()> {
    match edited_kiids(requested, reply, op) {
        Err(e) => Turn::Done(Err(e), at),
        Ok(ids) => confirm_items_turn(ids, op, log, at),
    }
}

/// Creating items.
pub open spec fn create_items_turn(items: Seq<AnyModel>, log: Seq<Reply>, at: int) -> Turn<()> {
    make_header_turn(log, at).and_then(
        |header: ItemHeader, n: int|
            mutate_turn(
                CommandModel::CreateItems { header, items, container: None },
                "Create items"@,
                log,
                n,
            ),
    ).and_then(
        |reply: Reply, n: int| settle_turn(items.len(), reply, "CreateItems"@, log, n),
    )
}

/// Updating items.
pub open spec fn update_items_turn(items: Seq<AnyModel>, log: Seq<Reply>, at: int) -> Turn<()> {
    make_header_turn(log, at).and_then(
        |header: ItemHeader, n: int|
            mutate_turn(CommandModel::UpdateItems { header, items }, "Update items"@, log, n),
    ).and_then(
        |reply: Reply, n: int| settle_turn(items.len(), reply, "UpdateItems"@, log, n),
    )
}

// ------------------------------------------------------------ deleting

/// The text for identifiers that are not on the board.
pub open spec fn not_there(requested: nat, found: nat) -> Seq<char> {
    "DeleteItems requested "@ + decimal(requested) + " item(s) but only "@ + decimal(found)
        + " of them exist on the board — the rest are bogus/nonexistent KIIDs"@
}

/// What the answer to a deletion amounts to.
pub open spec fn deleted(reply: Reply) -> Result<(), Seq<char>> {
    match reply {
        Reply::Nothing => Err(no_body("DeleteItems"@)),
        Reply::Deleted { status, outcomes } => match request_status(status, "DeleteItems"@) {
            Err(e) => Err(e),
            Ok(_) => all_deleted(outcomes@, "DeleteItems"@),
        },
        _ => Err(unreadable()),
    }
}

/// Deleting items. They must all be there before.
pub open spec fn delete_items_turn(ids: Seq<Seq<char>>, log: Seq<Reply>, at: int) -> Turn<()> {
    get_items_by_id_turn(ids, log, at).and_then(
        |found: Seq<Item>, n: int|
            if found.len() < ids.len() {
                Turn::Done(Err(not_there(ids.len(), found.len())), n)
            } else {
                make_header_turn(log, n)
            },
    ).and_then(
        |header: ItemHeader, n: int|
            mutate_turn(CommandModel::DeleteItems { header, ids }, "Delete items"@, log, n),
    ).and_then(|reply: Reply, n: int| Turn::Done(deleted(reply), n))
}

// ------------------------------------------------------------ filling zones

/// The item is a zone that is filled.
pub open spec fn is_filled(item: Item) -> bool {
    item.body matches ItemBody::Zone(zone) && zone.filled
}

/// Every item is a zone that is filled.
pub open spec fn all_filled(items: Seq<Item>) -> bool {
    forall|i: int| 0 <= i < items.len() ==> is_filled(#[trigger] items[i])
}

/// How long zones are watched, and how often.
pub const FILL_TIMEOUT_MILLIS: u64 = 15_000;

pub const FILL_INTERVAL_MILLIS: u64 = 200;

/// Watching the zones until they are all filled, or the time is up.
pub open spec fn poll_turn(log: Seq<Reply>, at: int) -> Turn<bool>
    decreases log.len() - at,
{
    match fetch_items_turn(KiCadObjectType::KotPcbZone, log, at) {
        Turn::Ask(q) => Turn::Ask(q),
        Turn::Done(Err(e), n) => Turn::Done(Err(e), n),
        Turn::Done(Ok(zones), n) => if all_filled(zones) {
            Turn::Done(Ok(true), n)
        } else {
            match exchange(Query::Expired { millis: FILL_TIMEOUT_MILLIS }, log, n) {
                Turn::Ask(q) => Turn::Ask(q),
                Turn::Done(Err(e), n) => Turn::Done(Err(e), n),
                Turn::Done(Ok(Reply::Flag(true)), n) => Turn::Done(Ok(false), n),
                Turn::Done(Ok(Reply::Flag(false)), n) => if n < log.len() {
                    poll_turn(log, n + 1)
                } else {
                    Turn::Ask(Query::Sleep { millis: FILL_INTERVAL_MILLIS })
                },
                Turn::Done(Ok(_), n) => Turn::Done(Err(unreadable()), n),
            }
        },
    }
}

/// The text for zones that were not filled in time.
pub open spec fn not_filled() -> Seq<char> {
    "RefillZones was accepted by KiCAD but the fill did not complete within 15s of polling — KiCAD defers the actual fill to a later event-loop tick when running with a GUI frame, and it never reported all zones filled"@
}

/// Waiting for the zones to be filled.
pub open spec fn await_fill_turn(log: Seq<Reply>, at: int) -> Turn<()> {
    fetch_items_turn(KiCadObjectType::KotPcbZone, log, at).and_then(
        |zones: Seq<Item>, n: int|
            if zones.len() == 0 {
                Turn::Done(Ok(()), n)
            } else {
                exchange(Query::StartTimer, log, n).and_then(
                    |reply: Reply, n: int| poll_turn(log, n),
                ).and_then(
                    |filled: bool, n: int|
                        if filled {
                            Turn::Done(Ok(()), n)
                        } else {
                            Turn::Done(Err(not_filled()), n)
                        },
                )
            },
    )
}

/// Filling the zones of the board.
pub open spec fn refill_zones_turn(log: Seq<Reply>, at: int) -> Turn<()> {
    get_board_document_turn(log, at).and_then(
        |board: DocumentSpecifier, n: int|
            mutate_turn(
                CommandModel::RefillZones { board, zones: seq![] },
                "Refill zones"@,
                log,
                n,
            ),
    ).and_then(|reply: Reply, n: int| await_fill_turn(log, n))
}

// ------------------------------------------------------------ the operations

fn list_items<'a>(reply: &'a Reply, n: usize) -> (s: Step<ItemList<'a>>)
    ensures
        s.deep_view() == listed(*reply, n as int),
        s matches Step::Done(_, m) && m == n,
{
    match reply {
        Reply::Items(items) => Step::Done(Ok(ItemList { items: Some(items) }), n),
        Reply::Nothing => Step::Done(Ok(ItemList { items: None }), n),
        _ => Step::Done(Err(unreadable_error()), n),
    }
}

fn count_filled(items: &ItemList) -> (n: usize)
    ensures
        n <= items.deep_view().len(),
        n == items.deep_view().len() <==> all_filled(items.deep_view()),
{
    let len: usize = items.len();
    let mut n: usize = 0;
    let mut i: usize = 0;
    while i < len
        invariant
            n <= i <= len == items.deep_view().len(),
            n == i <==> forall|j: int| 0 <= j < i ==> is_filled(#[trigger] items.deep_view()[j]),
        decreases len - i,
    {
        if let ItemBody::Zone(zone) = &items.get(i).body {
            if zone.filled {
                n = n + 1;
            }
        }
        i = i + 1;
    }
    n
}

/// What the answer to a creation or an update reports, if all is well in it.
pub fn read_edited(requested: usize, reply: &Reply, op: &str) -> (r: Result<Vec<String>, IpcError>)
    ensures
        crate::talk::outcome(r) == edited_kiids(requested as nat, *reply, op@),
{
    match reply {
        Reply::Nothing => {
            let mut text = op.to_string();
            text.append(" returned no response body");
            Err(IpcError { text })
        },
        Reply::Edited { status, results } => {
            if let Err(e) = check_item_request_status(status, op) {
                return Err(e);
            }
            if let Err(e) = check_result_count(requested, results.len(), op) {
                return Err(e);
            }
            collect_kiids(results, op)
        },
        _ => Err(unreadable_error()),
    }
}

/// What the answer to a deletion amounts to.
pub fn read_deleted(reply: &Reply) -> (r: Result<(), IpcError>)
    ensures
        crate::talk::outcome(r) == deleted(*reply),
{
    match reply {
        Reply::Nothing => {
            let mut text = "DeleteItems".to_string();
            text.append(" returned no response body");
            Err(IpcError { text })
        },
        Reply::Deleted { status, outcomes } => {
            if let Err(e) = check_item_request_status(status, "DeleteItems") {
                return Err(e);
            }
            check_all_deleted(outcomes, "DeleteItems")
        },
        _ => Err(unreadable_error()),
    }
}

impl KiCadIpcClient {
    /// The items of a kind.
    pub fn fetch_items<'a>(
        &self,
        kind: KiCadObjectType,
        log: &'a Vec<Reply>,
        at: usize,
    ) -> (s: Step<ItemList<'a>>)
        requires
            at <= log@.len(),
        ensures
            s.deep_view() == fetch_items_turn(kind, log@, at as int),
            s.within(at as int, log@),
            s matches Step::Done(Ok(_), n) ==> at < n,
    {
        let (header, n) = match self.make_header(log, at) {
            Step::Done(Ok(header), n) => (header, n),
            Step::Done(Err(e), n) => {
                return Step::Done(Err(e), n);
            },
            Step::Ask(q) => {
                return Step::Ask(q);
            },
        };
        match hear(Request::Send(Command::GetItems { header, kind }), log, n) {
            Step::Ask(q) => Step::Ask(q),
            Step::Done(Err(e), n) => Step::Done(Err(e), n),
            Step::Done(Ok(reply), n) => list_items(reply, n),
        }
    }

    /// The items of a kind, packed.
    pub fn get_items(
        &self,
        item_type: KiCadObjectType,
        log: &Vec<Reply>,
        at: usize,
    ) -> (s: Step<Vec<Any>>)
        requires
            at <= log@.len(),
        ensures
            s.deep_view() == get_items_turn(item_type, log@, at as int),
            s.within(at as int, log@),
    {
        match self.fetch_items(item_type, log, at) {
            Step::Ask(q) => Step::Ask(q),
            Step::Done(Err(e), n) => Step::Done(Err(e), n),
            Step::Done(Ok(items), n) => {
                let mut anys: Vec<Any> = Vec::new();
                let mut i: usize = 0;
                let len: usize = items.len();
                while i < len
                    invariant
                        i <= len == items.deep_view().len(),
                        anys@.len() == i,
                        forall|j: int|
                            0 <= j < i ==> (#[trigger] anys@[j]).deep_view()
                                == items.deep_view()[j].any.deep_view(),
                    decreases len - i,
                {
                    anys.push(copy_any(&items.get(i).any));
                    i = i + 1;
                }
                assert(anys.deep_view() =~= packed_items(items.deep_view()));
                Step::Done(Ok(anys), n)
            },
        }
    }

    /// The items with the given identifiers, of whatever kind.
    pub fn get_items_by_id<'a>(
        &self,
        ids: &Vec<String>,
        log: &'a Vec<Reply>,
        at: usize,
    ) -> (s: Step<ItemList<'a>>)
        requires
            at <= log@.len(),
        ensures
            s.deep_view() == get_items_by_id_turn(ids.deep_view(), log@, at as int),
            s.within(at as int, log@),
    {
        if ids.len() == 0 {
            return Step::Done(Ok(ItemList { items: None }), at);
        }
        let (header, n) = match self.make_header(log, at) {
            Step::Done(Ok(header), n) => (header, n),
            Step::Done(Err(e), n) => {
                return Step::Done(Err(e), n);
            },
            Step::Ask(q) => {
                return Step::Ask(q);
            },
        };
        match hear(Request::Send(Command::GetItemsById { header, ids: copy_texts(ids) }), log, n) {
            Step::Ask(q) => Step::Ask(q),
            Step::Done(Ok(reply), n) => list_items(reply, n),
            Step::Done(Err(e), n) => {
                if text_contains(e.text.as_str(), "AS_BAD_REQUEST") {
                    Step::Done(Ok(ItemList { items: None }), n)
                } else {
                    Step::Done(Err(e), n)
                }
            },
        }
    }

    /// Makes sure that all the items with the given identifiers are there after an edit.
    pub fn confirm_items_exist(
        &self,
        kiids: &Vec<String>,
        op: &str,
        log: &Vec<Reply>,
        at: usize,
    ) -> (s: Step<()>)
        requires
            at <= log@.len(),
        ensures
            s.deep_view() == confirm_items_turn(kiids.deep_view(), op@, log@, at as int),
            s.within(at as int, log@),
    {
        if kiids.len() == 0 {
            return Step::Done(Ok(()), at);
        }
        match self.get_items_by_id(kiids, log, at) {
            Step::Ask(q) => Step::Ask(q),
            Step::Done(Err(e), n) => Step::Done(Err(e), n),
            Step::Done(Ok(found), n) => {
                if found.len() < kiids.len() {
                    let mut text = op.to_string();
                    text.append(" reported success but only ");
                    text.append(decimal_text(found.len() as u64).as_str());
                    text.append(" of ");
                    text.append(decimal_text(kiids.len() as u64).as_str());
                    text.append(
                        " item(s) independently re-resolved by KIID afterward — the mutation did not fully land",
                    );
                    Step::Done(Err(IpcError { text }), n)
                } else {
                    Step::Done(Ok(()), n)
                }
            },
        }
    }

    fn settle(
        &self,
        requested: usize,
        reply: &Reply,
        op: &str,
        log: &Vec<Reply>,
        at: usize,
    ) -> (s: Step<()>)
        requires
            at <= log@.len(),
        ensures
            s.deep_view() == settle_turn(requested as nat, *reply, op@, log@, at as int),
            s.within(at as int, log@),
    {
        match read_edited(requested, reply, op) {
            Err(e) => Step::Done(Err(e), at),
            Ok(ids) => self.confirm_items_exist(&ids, op, log, at),
        }
    }

    /// Creates items, and makes sure that they are there afterwards.
    pub fn create_items(&self, items: &Vec<Any>, log: &Vec<Reply>, at: usize) -> (s: Step<()>)
        requires
            at <= log@.len(),
        ensures
            s.deep_view() == create_items_turn(items.deep_view(), log@, at as int),
            s.within(at as int, log@),
    {
        let (header, n) = match self.make_header(log, at) {
            Step::Done(Ok(header), n) => (header, n),
            Step::Done(Err(e), n) => {
                return Step::Done(Err(e), n);
            },
            Step::Ask(q) => {
                return Step::Ask(q);
            },
        };
        match self.send_mutating_command(
            Command::CreateItems { header, items: copy_anys(items), container: None },
            "Create items",
            log,
            n,
        ) {
            Step::Ask(q) => Step::Ask(q),
            Step::Done(Err(e), n) => Step::Done(Err(e), n),
            Step::Done(Ok(reply), n) => self.settle(items.len(), reply, "CreateItems", log, n),
        }
    }

    /// Updates items, each of which has its identifier in it, and makes sure that they are
    /// there afterwards.
    pub fn update_items(&self, items: &Vec<Any>, log: &Vec<Reply>, at: usize) -> (s: Step<()>)
        requires
            at <= log@.len(),
        ensures
            s.deep_view() == update_items_turn(items.deep_view(), log@, at as int),
            s.within(at as int, log@),
    {
        let (header, n) = match self.make_header(log, at) {
            Step::Done(Ok(header), n) => (header, n),
            Step::Done(Err(e), n) => {
                return Step::Done(Err(e), n);
            },
            Step::Ask(q) => {
                return Step::Ask(q);
            },
        };
        match self.send_mutating_command(
            Command::UpdateItems { header, items: copy_anys(items) },
            "Update items",
            log,
            n,
        ) {
            Step::Ask(q) => Step::Ask(q),
            Step::Done(Err(e), n) => Step::Done(Err(e), n),
            Step::Done(Ok(reply), n) => self.settle(items.len(), reply, "UpdateItems", log, n),
        }
    }

    /// Deletes items, after making sure that they are all there. The answer to a deletion is
    /// the same whether an item was there or not.
    pub fn delete_items(&self, ids: &Vec<String>, log: &Vec<Reply>, at: usize) -> (s: Step<()>)
        requires
            at <= log@.len(),
        ensures
            s.deep_view() == delete_items_turn(ids.deep_view(), log@, at as int),
            s.within(at as int, log@),
            s matches Step::Ask(Request::Send(Command::DeleteItems { header, ids: sent }))
                ==> sent.deep_view() == ids.deep_view(),
    {
        proof {
            the_requested_items_are_deleted(ids.deep_view(), log@, at as int);
        }
        let (found, n) = match self.get_items_by_id(ids, log, at) {
            Step::Done(Ok(found), n) => (found, n),
            Step::Done(Err(e), n) => {
                return Step::Done(Err(e), n);
            },
            Step::Ask(q) => {
                return Step::Ask(q);
            },
        };
        if found.len() < ids.len() {
            let mut text = "DeleteItems requested ".to_string();
            text.append(decimal_text(ids.len() as u64).as_str());
            text.append(" item(s) but only ");
            text.append(decimal_text(found.len() as u64).as_str());
            text.append(" of them exist on the board — the rest are bogus/nonexistent KIIDs");
            return Step::Done(Err(IpcError { text }), n);
        }
        let (header, n) = match self.make_header(log, n) {
            Step::Done(Ok(header), n) => (header, n),
            Step::Done(Err(e), n) => {
                return Step::Done(Err(e), n);
            },
            Step::Ask(q) => {
                return Step::Ask(q);
            },
        };
        match self.send_mutating_command(
            Command::DeleteItems { header, ids: copy_texts(ids) },
            "Delete items",
            log,
            n,
        ) {
            Step::Ask(q) => Step::Ask(q),
            Step::Done(Err(e), n) => Step::Done(Err(e), n),
            Step::Done(Ok(reply), n) => Step::Done(read_deleted(reply), n),
        }
    }

    /// Watches the zones until they are all filled, or the time is up.
    pub fn poll_until_filled(&self, log: &Vec<Reply>, at: usize) -> (s: Step<bool>)
        requires
            at <= log@.len(),
        ensures
            s.deep_view() == poll_turn(log@, at as int),
            s.within(at as int, log@),
        decreases log@.len() - at,
    {
        let (zones, n) = match self.fetch_items(KiCadObjectType::KotPcbZone, log, at) {
            Step::Done(Ok(zones), n) => (zones, n),
            Step::Done(Err(e), n) => {
                return Step::Done(Err(e), n);
            },
            Step::Ask(q) => {
                return Step::Ask(q);
            },
        };
        if count_filled(&zones) == zones.len() {
            return Step::Done(Ok(true), n);
        }
        match hear(Request::Expired { millis: FILL_TIMEOUT_MILLIS }, log, n) {
            Step::Ask(q) => Step::Ask(q),
            Step::Done(Err(e), n) => Step::Done(Err(e), n),
            Step::Done(Ok(Reply::Flag(expired)), n) => {
                if *expired {
                    Step::Done(Ok(false), n)
                } else if n < log.len() {
                    self.poll_until_filled(log, n + 1)
                } else {
                    Step::Ask(Request::Sleep { millis: FILL_INTERVAL_MILLIS })
                }
            },
            Step::Done(Ok(_), n) => Step::Done(Err(unreadable_error()), n),
        }
    }

    /// Fills the zones of the board. KiCAD answers before it has filled them, so they are
    /// watched until they are.
    pub fn refill_zones(&self, log: &Vec<Reply>, at: usize) -> (s: Step<()>)
        requires
            at <= log@.len(),
        ensures
            s.deep_view() == refill_zones_turn(log@, at as int),
            s.within(at as int, log@),
    {
        let (board, n) = match self.get_board_document(log, at) {
            Step::Done(Ok(board), n) => (board, n),
            Step::Done(Err(e), n) => {
                return Step::Done(Err(e), n);
            },
            Step::Ask(q) => {
                return Step::Ask(q);
            },
        };
        let zones: Vec<String> = Vec::new();
        assert(zones.deep_view() =~= seq![]);
        let n: usize = match self.send_mutating_command(
            Command::RefillZones { board, zones },
            "Refill zones",
            log,
            n,
        ) {
            Step::Done(Ok(_), n) => n,
            Step::Done(Err(e), n) => {
                return Step::Done(Err(e), n);
            },
            Step::Ask(q) => {
                return Step::Ask(q);
            },
        };
        let (zones, n) = match self.fetch_items(KiCadObjectType::KotPcbZone, log, n) {
            Step::Done(Ok(zones), n) => (zones, n),
            Step::Done(Err(e), n) => {
                return Step::Done(Err(e), n);
            },
            Step::Ask(q) => {
                return Step::Ask(q);
            },
        };
        if zones.len() == 0 {
            return Step::Done(Ok(()), n);
        }
        let n: usize = match hear(Request::StartTimer, log, n) {
            Step::Done(Ok(_), n) => n,
            Step::Done(Err(e), n) => {
                return Step::Done(Err(e), n);
            },
            Step::Ask(q) => {
                return Step::Ask(q);
            },
        };
        match self.poll_until_filled(log, n) {
            Step::Ask(q) => Step::Ask(q),
            Step::Done(Err(e), n) => Step::Done(Err(e), n),
            Step::Done(Ok(true), n) => Step::Done(Ok(()), n),
            Step::Done(Ok(false), n) => Step::Done(
                Err(
                    error(
                        "RefillZones was accepted by KiCAD but the fill did not complete within 15s of polling — KiCAD defers the actual fill to a later event-loop tick when running with a GUI frame, and it never reported all zones filled",
                    ),
                ),
                n,
            ),
        }
    }
}

} // verus!
