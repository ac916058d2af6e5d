//! A probe of what KiCAD can do for us, run against the open board.
//!
//! Each probe puts a throwaway item on the board, far away from everything, and then, whether it
//! passed or failed, tries to delete that item. Each prints whether it passed.
use vstd::prelude::*;
use vstd::string::*;

use crate::board::{add_via_turn, load_via_turn, see_via_turn};
use crate::client::KiCadIpcClient;
use crate::footprints::{delete_footprint_turn, place_footprint_turn};
use crate::items::delete_items_turn;
use crate::talk::{error, outcome, IpcError, Query, Reply, Request, Step, Turn};
use crate::text::{decimal, decimal_text, same_text};
use crate::types::{Degrees, DegreesModel, IpcFootprint, IpcFootprintModel, Mm, MmModel, Real};

verus! {

// ------------------------------------------------------------ what is probed

/// Where the probed footprint goes, in both directions: -500 mm.
pub open spec fn probe_place() -> MmModel {
    MmModel { value: Real { bits: 0xc07f_4000_0000_0000 }, nm: -500_000_000i64, text: "-500"@ }
}

/// Where the probed via goes, in both directions: -495 mm.
pub open spec fn probe_via_place() -> MmModel {
    MmModel { value: Real { bits: 0xc07e_f000_0000_0000 }, nm: -495_000_000i64, text: "-495"@ }
}

/// The drill of the probed via: 0.4 mm.
pub open spec fn probe_drill() -> MmModel {
    MmModel { value: Real { bits: 0x3fd9_9999_9999_999a }, nm: 400_000, text: "0.4"@ }
}

/// The pad of the probed via: 0.8 mm.
pub open spec fn probe_pad() -> MmModel {
    MmModel { value: Real { bits: 0x3fe9_9999_9999_999a }, nm: 800_000, text: "0.8"@ }
}

/// The angle of the probed footprint.
pub open spec fn no_rotation() -> DegreesModel {
    DegreesModel { value: Real { bits: 0 }, text: "0"@ }
}

/// The reference of the probed footprint.
pub open spec fn probe_reference() -> Seq<char> {
    "KONNECT_SELFTEST_FP"@
}

// ------------------------------------------------------------ the probes

/// Doing something whose outcome makes no difference, and then `next`.
pub open spec fn either_way<T, U>(turn: Turn<T>, next: spec_fn(int) -> Turn<U>) -> Turn<U> {
    match turn {
        Turn::Ask(q) => Turn::Ask(q),
        Turn::Done(_, n) => next(n),
    }
}

/// What the footprint that was placed says about the probe.
pub open spec fn judge_footprint(
    placed: Result<IpcFootprintModel, Seq<char>>,
) -> Result<(),Seq<char>> {
    match placed {
        Err(e) => Err(e),
        Ok(fp) => if fp.reference == probe_reference() {
            Ok(())
        } else {
            Err(
                "placed footprint reference '"@ + fp.reference + "' doesn't match requested '"@
                    + probe_reference() + "'"@,
            )
        },
    }
}

/// Placing the probed footprint, with `place_footprint`.
pub open spec fn place_probe_turn(log: Seq<Reply>, at: int) -> Turn<IpcFootprintModel> {
    place_footprint_turn(
        "Resistor_SMD:R_0603_1608Metric"@,
        probe_place(),
        probe_place(),
        no_rotation(),
        "F.Cu"@,
        probe_reference(),
        log,
        at,
    )
}

/// Placing a footprint, with a clean-up before and after.
pub open spec fn probe_place_footprint_turn(log: Seq<Reply>, at: int) -> Turn<()> {
    either_way(
        delete_footprint_turn(probe_reference(), log, at),
        |n: int|
            match place_probe_turn(log, n) {
                Turn::Ask(q) => Turn::Ask(q),
                Turn::Done(placed, n) => either_way(
                    delete_footprint_turn(probe_reference(), log, n),
                    |n: int| Turn::Done(judge_footprint(placed), n),
                ),
            },
    )
}

/// What the via that was added says about the probe.
pub open spec fn judge_via(added: Result<Seq<char>, Seq<char>>) -> Result<(), Seq<char>> {
    match added {
        Err(e) => Err(e),
        Ok(id) => if id.len() == 0 {
            Err("add_via returned an empty KIID"@)
        } else {
            Ok(())
        },
    }
}

/// Adding the probed via, with `add_via`.
pub open spec fn add_probe_turn(log: Seq<Reply>, at: int) -> Turn<Seq<char>> {
    add_via_turn(
        ""@,
        probe_via_place(),
        probe_via_place(),
        probe_drill(),
        probe_pad(),
        log,
        at,
    )
}

/// Putting the probed via on the board, as `add_via` does.
pub open spec fn load_probe_turn(log: Seq<Reply>, at: int) -> Turn<(i32, Seq<char>)> {
    load_via_turn(
        ""@,
        probe_via_place(),
        probe_via_place(),
        probe_drill(),
        probe_pad(),
        log,
        at,
    )
}

/// Looking for the probed via, as `add_via` does.
pub open spec fn see_probe_turn(code: i32, log: Seq<Reply>, at: int) -> Turn<Seq<char>> {
    see_via_turn(
        ""@,
        code,
        probe_via_place(),
        probe_via_place(),
        probe_drill(),
        probe_pad(),
        log,
        at,
    )
}

/// What is to be deleted: the via that was seen, or else the one that was written.
pub open spec fn left_behind(seen: Result<Seq<char>, Seq<char>>, written: Seq<char>) -> Seq<char> {
    match seen {
        Ok(id) if id.len() > 0 => id,
        _ => written,
    }
}

/// Adding a via, and deleting it again. If it was not loaded there is nothing to delete.
pub open spec fn probe_add_via_turn(log: Seq<Reply>, at: int) -> Turn<()> {
    load_probe_turn(log, at).and_then(
        |loaded: (i32, Seq<char>), n: int|
            match see_probe_turn(loaded.0, log, n) {
                Turn::Ask(q) => Turn::Ask(q),
                Turn::Done(seen, n) => either_way(
                    delete_items_turn(seq![left_behind(seen, loaded.1)], log, n),
                    |n: int| Turn::Done(judge_via(seen), n),
                ),
            },
    )
}

// ------------------------------------------------------------ the whole

/// Printing a line, and then `next`.
pub open spec fn say<T>(
    line: Seq<char>,
    log: Seq<Reply>,
    at: int,
    next: spec_fn(int) -> Turn<T>,
) -> Turn<T> {
    if 0 <= at < log.len() {
        next(at + 1)
    } else {
        Turn::Ask(Query::Print { line })
    }
}

/// The line for a capability.
pub open spec fn verdict(capability: Seq<char>, result: Result<(), Seq<char>>) -> Seq<char> {
    match result {
        Ok(_) => "[selftest] PASS "@ + capability,
        Err(e) => "[selftest] FAIL "@ + capability + ": "@ + e,
    }
}

/// One, if the probe passed.
pub open spec fn point(result: Result<(), Seq<char>>) -> nat {
    if result is Ok {
        1
    } else {
        0
    }
}

/// The last line.
pub open spec fn tally(first: Result<(), Seq<char>>, second: Result<(), Seq<char>>) -> Seq<char> {
    "[selftest] "@ + decimal(point(first) + point(second)) + "/2 capabilities passed"@
}

/// The exit code: zero, if both probes passed.
pub open spec fn exit_code(first: Result<(), Seq<char>>, second: Result<(), Seq<char>>) -> i32 {
    if first is Ok && second is Ok {
        0
    } else {
        1
    }
}

/// What the probe of footprints is called.
pub open spec fn footprint_capability() -> Seq<char> {
    "place_footprint (save->splice->reload path)"@
}

/// What the probe of vias is called.
pub open spec fn via_capability() -> Seq<char> {
    "add_via (net-clause serialization)"@
}

/// Running the second probe, after the first, and summing up.
pub open spec fn finish_selftest_turn(
    first: Result<(), Seq<char>>,
    log: Seq<Reply>,
    at: int,
) -> Turn<i32> {
    match probe_add_via_turn(log, at) {
        Turn::Ask(q) => Turn::Ask(q),
        Turn::Done(second, n) => say(
            verdict(via_capability(), second),
            log,
            n,
            |n: int|
                say(
                    tally(first, second),
                    log,
                    n,
                    |n: int| Turn::Done(Ok(exit_code(first, second)), n),
                ),
        ),
    }
}

/// Running both probes. The value is the exit code of the process.
pub open spec fn run_selftest_turn(log: Seq<Reply>, at: int) -> Turn<i32> {
    say(
        "[selftest] Konnect capability probe starting"@,
        log,
        at,
        |n: int|
            match probe_place_footprint_turn(log, n) {
                Turn::Ask(q) => Turn::Ask(q),
                Turn::Done(first, n) => say(
                    verdict(footprint_capability(), first),
                    log,
                    n,
                    |n: int| finish_selftest_turn(first, log, n),
                ),
            },
    )
}

// ------------------------------------------------------------ the operations

fn mm(bits: u64, nm: i64, text: &str) -> (m: Mm)
    ensures
        m.deep_view() == (MmModel { value: Real { bits }, nm, text: text@ }),
{
    Mm { value: Real { bits }, nm, text: text.to_string() }
}

/// What the outcome of placing the probed footprint says about the probe.
pub fn judge_placed(placed: Result<IpcFootprint, IpcError>) -> (r: Result<(), IpcError>)
    ensures
        outcome(r) == judge_footprint(outcome(placed)),
{
    match placed {
        Err(e) => Err(e),
        Ok(fp) => {
            if same_text(fp.reference.as_str(), "KONNECT_SELFTEST_FP") {
                Ok(())
            } else {
                let mut text = "placed footprint reference '".to_string();
                text.append(fp.reference.as_str());
                text.append("' doesn't match requested '");
                text.append("KONNECT_SELFTEST_FP");
                text.append("'");
                Err(IpcError { text })
            }
        },
    }
}

/// Probes whether a footprint can be placed.
pub fn probe_place_footprint(client: &KiCadIpcClient, log: &Vec<Reply>, at: usize) -> (s: Step<()>)
    requires
        at <= log@.len(),
    ensures
        s.deep_view() == probe_place_footprint_turn(log@, at as int),
        s.within(at as int, log@),
{
    let n: usize = match client.delete_footprint("KONNECT_SELFTEST_FP", log, at) {
        Step::Done(_, n) => n,
        Step::Ask(q) => {
            return Step::Ask(q);
        },
    };
    let place = mm(0xc07f_4000_0000_0000, -500_000_000, "-500");
    let rotation = Degrees { value: Real { bits: 0 }, text: "0".to_string() };
    let (placed, n) = match client.place_footprint(
        "Resistor_SMD:R_0603_1608Metric",
        &place,
        &place,
        &rotation,
        "F.Cu",
        "KONNECT_SELFTEST_FP",
        log,
        n,
    ) {
        Step::Done(placed, n) => (placed, n),
        Step::Ask(q) => {
            return Step::Ask(q);
        },
    };
    match client.delete_footprint("KONNECT_SELFTEST_FP", log, n) {
        Step::Ask(q) => Step::Ask(q),
        Step::Done(_, n) => Step::Done(judge_placed(placed), n),
    }
}

/// What the outcome of adding the probed via says about the probe.
pub fn judge_added(added: Result<String, IpcError>) -> (r: Result<(), IpcError>)
    ensures
        outcome(r) == judge_via(outcome(added)),
{
    match added {
        Err(e) => Err(e),
        Ok(id) => {
            if id.as_str().is_empty() {
                Err(error("add_via returned an empty KIID"))
            } else {
                Ok(())
            }
        },
    }
}

/// Probes whether a via can be added.
pub fn probe_add_via(client: &KiCadIpcClient, log: &Vec<Reply>, at: usize) -> (s: Step<()>)
    requires
        at <= log@.len(),
    ensures
        s.deep_view() == probe_add_via_turn(log@, at as int),
        s.within(at as int, log@),
{
    let place = mm(0xc07e_f000_0000_0000, -495_000_000, "-495");
    let drill = mm(0x3fd9_9999_9999_999a, 400_000, "0.4");
    let pad = mm(0x3fe9_9999_9999_999a, 800_000, "0.8");
    let (loaded, n) = match client.load_via("", &place, &place, &drill, &pad, log, at) {
        Step::Done(Ok(loaded), n) => (loaded, n),
        Step::Done(Err(e), n) => {
            return Step::Done(Err(e), n);
        },
        Step::Ask(q) => {
            return Step::Ask(q);
        },
    };
    let (code, written) = loaded;
    let (seen, n) = match client.see_via("", code, &place, &place, &drill, &pad, log, n) {
        Step::Done(seen, n) => (seen, n),
        Step::Ask(q) => {
            return Step::Ask(q);
        },
    };
    let id = match &seen {
        Ok(id) => if id.as_str().is_empty() {
            written
        } else {
            id.clone()
        },
        Err(_) => written,
    };
    let ghost model = id@;
    let mut ids: Vec<String> = Vec::new();
    ids.push(id);
    assert(ids.deep_view() =~= seq![model]);
    match client.delete_items(&ids, log, n) {
        Step::Ask(q) => Step::Ask(q),
        Step::Done(_, n) => Step::Done(judge_added(seen), n),
    }
}

/// The line for a capability.
pub fn verdict_line(capability: &str, result: &Result<(), IpcError>) -> (line: String)
    ensures
        line@ == verdict(capability@, outcome(*result)),
{
    match result {
        Ok(_) => {
            let mut line = "[selftest] PASS ".to_string();
            line.append(capability);
            line
        },
        Err(e) => {
            let mut line = "[selftest] FAIL ".to_string();
            line.append(capability);
            line.append(": ");
            line.append(e.text.as_str());
            line
        },
    }
}

fn tally_line(first: &Result<(), IpcError>, second: &Result<(), IpcError>) -> (line: String)
    ensures
        line@ == tally(outcome(*first), outcome(*second)),
{
    let mut passed: u64 = 0;
    if first.is_ok() {
        passed = passed + 1;
    }
    if second.is_ok() {
        passed = passed + 1;
    }
    let mut line = "[selftest] ".to_string();
    line.append(decimal_text(passed).as_str());
    line.append("/2 capabilities passed");
    line
}

fn finish_selftest(
    client: &KiCadIpcClient,
    first: &Result<(), IpcError>,
    log: &Vec<Reply>,
    at: usize,
) -> (s: Step<i32>)
    requires
        at <= log@.len(),
    ensures
        s.deep_view() == finish_selftest_turn(outcome(*first), log@, at as int),
        s.within(at as int, log@),
{
    let (second, n) = match probe_add_via(client, log, at) {
        Step::Done(second, n) => (second, n),
        Step::Ask(q) => {
            return Step::Ask(q);
        },
    };
    if n >= log.len() {
        return Step::Ask(
            Request::Print { line: verdict_line("add_via (net-clause serialization)", &second) },
        );
    }
    if n + 1 >= log.len() {
        return Step::Ask(Request::Print { line: tally_line(first, &second) });
    }
    let code: i32 = if first.is_ok() && second.is_ok() {
        0
    } else {
        1
    };
    Step::Done(Ok(code), n + 2)
}

/// Runs both probes, and prints what comes of them. The value is the exit code of the process:
/// 0 if both passed, 1 if not.
pub fn run_selftest(client: &KiCadIpcClient, log: &Vec<Reply>, at: usize) -> (s: Step<i32>)
    requires
        at <= log@.len(),
    ensures
        s.deep_view() == run_selftest_turn(log@, at as int),
        s.within(at as int, log@),
{
    if at >= log.len() {
        return Step::Ask(
            Request::Print { line: "[selftest] Konnect capability probe starting".to_string() },
        );
    }
    let (first, n) = match probe_place_footprint(client, log, at + 1) {
        Step::Done(first, n) => (first, n),
        Step::Ask(q) => {
            return Step::Ask(q);
        },
    };
    if n >= log.len() {
        return Step::Ask(
            Request::Print {
                line: verdict_line("place_footprint (save->splice->reload path)", &first),
            },
        );
    }
    finish_selftest(client, &first, log, n + 1)
}

} // verus!
