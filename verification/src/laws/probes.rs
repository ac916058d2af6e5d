//! The self-test.
use vstd::prelude::*;
use vstd::string::*;

use crate::board::{add_via_turn, load_via_turn, resolve_net_code_turn, see_via_turn};
use crate::footprints::{delete_footprint_turn, place_footprint_turn};
use crate::items::delete_items_turn;
use crate::laws::commits::{asks_no_edit, load_via_asks_no_edit};
use crate::replay::{delete_footprint_replays, place_probe_replays, resolve_net_code_replays};
use crate::selftest::{
    add_probe_turn, exit_code, judge_via, left_behind, load_probe_turn, place_probe_turn,
    probe_add_via_turn, probe_drill, probe_pad, probe_place_footprint_turn, probe_reference,
    probe_via_place, run_selftest_turn, see_probe_turn,
};
use crate::sexp::via_clause;
use crate::splice::save_splice_revert_turn;
use crate::talk::{Query, Reply, Turn};
use crate::types::{DegreesModel, MmModel};

verus! {

/// The probe of footprints ends with an attempt to delete what it placed, whatever came of the
/// placing.
pub proof fn the_footprint_probe_cleans_up(log: Seq<Reply>, at: int)
    requires
        0 <= at <= log.len(),
    ensures
        probe_place_footprint_turn(log, at) matches Turn::Done(_, n) ==> exists|m: int|
            (#[trigger] delete_footprint_turn(probe_reference(), log, m)) matches Turn::Done(_, k)
                && k == n && at <= m,
{
    delete_footprint_replays(probe_reference(), log, log, at);
    if let Turn::Done(_, n) = delete_footprint_turn(probe_reference(), log, at) {
        place_probe_replays(log, log, n);
        if let Turn::Done(_, m) = place_probe_turn(log, n) {
            delete_footprint_replays(probe_reference(), log, log, m);
        }
    }
}

/// The probe of vias comes to what `add_via` comes to: it passes exactly if `add_via` gives an
/// identifier, and fails with what `add_via` fails with.
pub proof fn the_via_probe_goes_by_add_via(log: Seq<Reply>, at: int)
    ensures
        probe_add_via_turn(log, at) matches Turn::Done(r, _) ==> (add_probe_turn(log, at) matches
            Turn::Done(added, _) && r == judge_via(added) && (r is Ok <==> (added matches Ok(id)
            && id.len() > 0)) && (added matches Err(e) ==> r == Err::<(), Seq<char>>(e))),
{
}

/// If the via was loaded, the probe ends with an attempt to delete it, whether it passed or
/// failed: under the identifier that it was seen with, or else under the one that it was written
/// with. What comes of the deletion makes no difference.
pub proof fn the_via_probe_cleans_up(log: Seq<Reply>, at: int)
    ensures
        load_probe_turn(log, at) matches Turn::Done(Ok(loaded), m) ==> (probe_add_via_turn(
            log,
            at,
        ) matches Turn::Done(r, n) ==> (see_probe_turn(loaded.0, log, m) matches Turn::Done(seen, k)
            && r == judge_via(seen) && (delete_items_turn(
            seq![left_behind(seen, loaded.1)],
            log,
            k,
        ) matches Turn::Done(_, j) && j == n))),
{
}

/// If the via was not loaded, the probe deletes nothing: until its clause has been spliced in and
/// the board has been loaded, it asks neither for an edit nor for a commit to be begun, and it
/// stops where this fails.
pub proof fn nothing_is_deleted_before_the_via_is_loaded(log: Seq<Reply>, at: int)
    requires
        0 <= at <= log.len(),
    ensures
        match load_probe_turn(log, at) {
            Turn::Ask(q) => probe_add_via_turn(log, at) == Turn::<()>::Ask(q) && asks_no_edit(
                probe_add_via_turn(log, at),
            ),
            Turn::Done(Err(e), n) => probe_add_via_turn(log, at) == Turn::Done(
                Err::<(), Seq<char>>(e),
                n,
            ),
            Turn::Done(Ok(loaded), n) => exists|m: int|
                at <= m && #[trigger] save_splice_revert_turn(probe_clause(loaded.1), log, m)
                    == Turn::Done(Ok::<(), Seq<char>>(()), n),
        },
{
    let place = probe_via_place();
    load_via_asks_no_edit(""@, place, place, probe_drill(), probe_pad(), log, at);
    resolve_net_code_replays(""@, log, log, at);
    if let Turn::Done(Ok(loaded), n) = load_probe_turn(log, at) {
        if let Turn::Done(Ok(_), k) = resolve_net_code_turn(""@, log, at) {
            let clause = probe_clause(loaded.1);
            assert(save_splice_revert_turn(clause, log, k + 1) == Turn::Done(
                Ok::<(), Seq<char>>(()),
                n,
            ));
        }
    }
}

/// The clause of the probed via, with the given identifier.
pub open spec fn probe_clause(id: Seq<char>) -> Seq<char> {
    via_clause(
        ""@,
        probe_via_place().text,
        probe_via_place().text,
        probe_drill().text,
        probe_pad().text,
        id,
    )
}

/// The self-test always comes to an exit code, and it is 0 exactly if both probes passed.
pub proof fn the_exit_code_is_zero_if_all_passed(log: Seq<Reply>, at: int)
    requires
        0 <= at <= log.len(),
    ensures
        run_selftest_turn(log, at) matches Turn::Done(r, _) ==> (probe_place_footprint_turn(
            log,
            at + 1,
        ) matches Turn::Done(first, n) && (probe_add_via_turn(log, n + 1) matches Turn::Done(
            second,
            _,
        ) && r == Ok::<i32, Seq<char>>(exit_code(first, second)) && (r == Ok::<i32, Seq<char>>(0)
            <==> first is Ok && second is Ok))),
{
}

// ------------------------------------------------------------ step by step

/// The length as a float, in nanometres and as text.
pub open spec fn is_mm(length: MmModel, bits: u64, nm: int, text: Seq<char>) -> bool {
    length.value.bits == bits && length.nm == nm && length.text == text
}

/// The probed footprint is a resistor of size 0603, 500 millimetres to the left of the origin and
/// above it, not rotated, on the front, under a reference of its own.
pub proof fn the_probed_footprint_is_far_away(
    place: MmModel,
    rotation: DegreesModel,
    log: Seq<Reply>,
    at: int,
)
    requires
        is_mm(place, 0xc07f_4000_0000_0000, -500_000_000, "-500"@),
        rotation.value.bits == 0,
        rotation.text == "0"@,
    ensures
        place_probe_turn(log, at) == place_footprint_turn(
            "Resistor_SMD:R_0603_1608Metric"@,
            place,
            place,
            rotation,
            "F.Cu"@,
            "KONNECT_SELFTEST_FP"@,
            log,
            at,
        ),
{
}

/// The probed via is on no net, 495 millimetres to the left of the origin and above it, with a
/// drill of 0.4 and a pad of 0.8 millimetres.
pub proof fn the_probed_via_is_far_away(
    place: MmModel,
    drill: MmModel,
    pad: MmModel,
    code: i32,
    log: Seq<Reply>,
    at: int,
)
    requires
        is_mm(place, 0xc07e_f000_0000_0000, -495_000_000, "-495"@),
        is_mm(drill, 0x3fd9_9999_9999_999a, 400_000, "0.4"@),
        is_mm(pad, 0x3fe9_9999_9999_999a, 800_000, "0.8"@),
    ensures
        add_probe_turn(log, at) == add_via_turn(""@, place, place, drill, pad, log, at),
        load_probe_turn(log, at) == load_via_turn(""@, place, place, drill, pad, log, at),
        see_probe_turn(code, log, at) == see_via_turn(
            ""@,
            code,
            place,
            place,
            drill,
            pad,
            log,
            at,
        ),
{
}

/// The probe of footprints deletes what an earlier run has left, places the footprint, and deletes
/// it again; what comes of the deletions makes no difference. It passes if the footprint was placed
/// and has the requested reference.
pub proof fn the_footprint_probe_goes_step_by_step(log: Seq<Reply>, at: int)
    ensures
        ({
            let turn = probe_place_footprint_turn(log, at);
            let reference = "KONNECT_SELFTEST_FP"@;
            match delete_footprint_turn(reference, log, at) {
                Turn::Ask(q) => turn == Turn::<()>::Ask(q),
                Turn::Done(_, n) => match place_probe_turn(log, n) {
                    Turn::Ask(q) => turn == Turn::<()>::Ask(q),
                    Turn::Done(placed, m) => match delete_footprint_turn(reference, log, m) {
                        Turn::Ask(q) => turn == Turn::<()>::Ask(q),
                        Turn::Done(_, k) => match placed {
                            Err(e) => turn == Turn::Done(Err::<(), Seq<char>>(e), k),
                            Ok(fp) => if fp.reference == reference {
                                turn == Turn::Done(Ok::<(), Seq<char>>(()), k)
                            } else {
                                turn == Turn::Done(
                                    Err::<(), Seq<char>>(
                                        "placed footprint reference '"@ + fp.reference
                                            + "' doesn't match requested '"@ + reference + "'"@,
                                    ),
                                    k,
                                )
                            },
                        },
                    },
                },
            }
        }),
{
}

/// The probe of vias loads the via, looks at it, and deletes it again: under the identifier that it
/// was seen with, or under the one that it was written with if that is not known. It passes if the
/// via was seen as requested, with an identifier.
pub proof fn the_via_probe_goes_step_by_step(log: Seq<Reply>, at: int)
    ensures
        ({
            let turn = probe_add_via_turn(log, at);
            match load_probe_turn(log, at) {
                Turn::Ask(q) => turn == Turn::<()>::Ask(q),
                Turn::Done(Err(e), n) => turn == Turn::Done(Err::<(), Seq<char>>(e), n),
                Turn::Done(Ok(loaded), n) => match see_probe_turn(loaded.0, log, n) {
                    Turn::Ask(q) => turn == Turn::<()>::Ask(q),
                    Turn::Done(seen, m) => {
                        let id = if seen matches Ok(own) && own.len() > 0 {
                            seen->Ok_0
                        } else {
                            loaded.1
                        };
                        match delete_items_turn(seq![id], log, m) {
                            Turn::Ask(q) => turn == Turn::<()>::Ask(q),
                            Turn::Done(_, k) => match seen {
                                Err(e) => turn == Turn::Done(Err::<(), Seq<char>>(e), k),
                                Ok(own) => if own.len() > 0 {
                                    turn == Turn::Done(Ok::<(), Seq<char>>(()), k)
                                } else {
                                    turn == Turn::Done(
                                        Err::<(), Seq<char>>("add_via returned an empty KIID"@),
                                        k,
                                    )
                                },
                            },
                        }
                    },
                },
            }
        }),
{
}

/// The line that is printed about a capability.
pub open spec fn line_about(capability: Seq<char>, result: Result<(), Seq<char>>) -> Seq<char> {
    match result {
        Ok(_) => "[selftest] PASS "@ + capability,
        Err(e) => "[selftest] FAIL "@ + capability + ": "@ + e,
    }
}

/// How many of the two have passed, in digits.
pub open spec fn how_many_passed(
    first: Result<(), Seq<char>>,
    second: Result<(), Seq<char>>,
) -> Seq<char> {
    if first is Ok && second is Ok {
        "2"@
    } else if first is Ok || second is Ok {
        "1"@
    } else {
        "0"@
    }
}

/// The self-test says that it starts, probes footprints and says what came of it, probes vias and
/// says what came of it, and says how many of the two have passed. It comes to 0 if both have, and
/// to 1 otherwise.
#[verifier::spinoff_prover]
#[verifier::rlimit(40)]
pub proof fn the_self_test_goes_step_by_step(log: Seq<Reply>, at: int)
    requires
        0 <= at <= log.len(),
    ensures
        ({
            let turn = run_selftest_turn(log, at);
            let prints = |line: Seq<char>| turn == Turn::<i32>::Ask(Query::Print { line });
            &&& log.len() == at ==> prints("[selftest] Konnect capability probe starting"@)
            &&& log.len() > at ==> match probe_place_footprint_turn(log, at + 1) {
                Turn::Ask(q) => turn == Turn::<i32>::Ask(q),
                Turn::Done(first, n) => if log.len() <= n {
                    prints(line_about("place_footprint (save->splice->reload path)"@, first))
                } else {
                    match probe_add_via_turn(log, n + 1) {
                        Turn::Ask(q) => turn == Turn::<i32>::Ask(q),
                        Turn::Done(second, m) => if log.len() <= m {
                            prints(line_about("add_via (net-clause serialization)"@, second))
                        } else if log.len() == m + 1 {
                            prints(
                                "[selftest] "@ + how_many_passed(first, second)
                                    + "/2 capabilities passed"@,
                            )
                        } else {
                            turn == Turn::Done(
                                Ok::<i32, Seq<char>>(
                                    if first is Ok && second is Ok {
                                        0
                                    } else {
                                        1
                                    },
                                ),
                                m + 2,
                            )
                        },
                    }
                },
            }
        }),
{
    if log.len() > at {
        crate::replay::probe_place_footprint_replays(log, log, at + 1);
        if let Turn::Done(_, n) = probe_place_footprint_turn(log, at + 1) {
            if log.len() > n {
                crate::replay::probe_add_via_replays(log, log, n + 1);
            }
        }
    }
}

} // verus!
