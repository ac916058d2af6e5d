//! Names of layers, and the text of footprints.
use vstd::prelude::*;
use vstd::string::*;

use crate::board::{dotted, has_prefix, without_prefix};
use crate::builders::{layer_name, layer_named};
use crate::library::{expand_turn, name_end, variable_at, variable_value};
use crate::sexp::{placed_footprint, replace_first};
use crate::talk::{Query, Reply, Turn};
use crate::text::{find_text, find_text_is_first, occurs_at};
use crate::types::BoardLayer;

verus! {

// ------------------------------------------------------------ layers

/// A layer that has a name is the one found by that name.
pub proof fn a_named_layer_is_found_by_its_name(layer: BoardLayer)
    requires
        !(layer is BlUndefined),
        !(layer is BlOther),
    ensures
        layer_named(layer_name(layer)) == layer,
{
    reveal_names();
}

/// The name of a layer found by a name is that name again, unless the layer is not known, or the
/// name is one of the longer ones.
pub proof fn a_short_name_is_kept(name: Seq<char>)
    requires
        !(layer_named(name) is BlUndefined),
        name != "F.Silkscreen"@,
        name != "B.Silkscreen"@,
        name != "F.Courtyard"@,
        name != "B.Courtyard"@,
    ensures
        layer_name(layer_named(name)) == name,
{
}

/// No two of the names are the same: each stands for its own layer.
pub proof fn reveal_names()
    ensures
        layer_named("F.Cu"@) == BoardLayer::BlFCu,
        layer_named("B.Cu"@) == BoardLayer::BlBCu,
        layer_named("In1.Cu"@) == BoardLayer::BlIn1Cu,
        layer_named("In2.Cu"@) == BoardLayer::BlIn2Cu,
        layer_named("F.SilkS"@) == BoardLayer::BlFSilkS,
        layer_named("B.SilkS"@) == BoardLayer::BlBSilkS,
        layer_named("F.Mask"@) == BoardLayer::BlFMask,
        layer_named("B.Mask"@) == BoardLayer::BlBMask,
        layer_named("F.Paste"@) == BoardLayer::BlFPaste,
        layer_named("B.Paste"@) == BoardLayer::BlBPaste,
        layer_named("F.CrtYd"@) == BoardLayer::BlFCrtYd,
        layer_named("B.CrtYd"@) == BoardLayer::BlBCrtYd,
        layer_named("F.Fab"@) == BoardLayer::BlFFab,
        layer_named("B.Fab"@) == BoardLayer::BlBFab,
        layer_named("Edge.Cuts"@) == BoardLayer::BlEdgeCuts,
        layer_named("F.Silkscreen"@) == BoardLayer::BlFSilkS,
        layer_named("B.Silkscreen"@) == BoardLayer::BlBSilkS,
        layer_named("F.Courtyard"@) == BoardLayer::BlFCrtYd,
        layer_named("B.Courtyard"@) == BoardLayer::BlBCrtYd,
{
    reveal_strlit("F.Cu");
    assert("F.Cu"@.len() == 4 && "F.Cu"@[0] == 'F' && "F.Cu"@[2] == 'C');
    reveal_strlit("B.Cu");
    assert("B.Cu"@.len() == 4 && "B.Cu"@[0] == 'B' && "B.Cu"@[2] == 'C');
    reveal_strlit("In1.Cu");
    assert("In1.Cu"@.len() == 6 && "In1.Cu"@[0] == 'I' && "In1.Cu"@[2] == '1');
    reveal_strlit("In2.Cu");
    assert("In2.Cu"@.len() == 6 && "In2.Cu"@[0] == 'I' && "In2.Cu"@[2] == '2');
    reveal_strlit("F.SilkS");
    assert("F.SilkS"@.len() == 7 && "F.SilkS"@[0] == 'F' && "F.SilkS"@[2] == 'S');
    reveal_strlit("F.Silkscreen");
    assert("F.Silkscreen"@.len() == 12 && "F.Silkscreen"@[0] == 'F' && "F.Silkscreen"@[2] == 'S');
    reveal_strlit("B.SilkS");
    assert("B.SilkS"@.len() == 7 && "B.SilkS"@[0] == 'B' && "B.SilkS"@[2] == 'S');
    reveal_strlit("B.Silkscreen");
    assert("B.Silkscreen"@.len() == 12 && "B.Silkscreen"@[0] == 'B' && "B.Silkscreen"@[2] == 'S');
    reveal_strlit("F.Mask");
    assert("F.Mask"@.len() == 6 && "F.Mask"@[0] == 'F' && "F.Mask"@[2] == 'M');
    reveal_strlit("B.Mask");
    assert("B.Mask"@.len() == 6 && "B.Mask"@[0] == 'B' && "B.Mask"@[2] == 'M');
    reveal_strlit("F.Paste");
    assert("F.Paste"@.len() == 7 && "F.Paste"@[0] == 'F' && "F.Paste"@[2] == 'P');
    reveal_strlit("B.Paste");
    assert("B.Paste"@.len() == 7 && "B.Paste"@[0] == 'B' && "B.Paste"@[2] == 'P');
    reveal_strlit("F.CrtYd");
    assert("F.CrtYd"@.len() == 7 && "F.CrtYd"@[0] == 'F' && "F.CrtYd"@[2] == 'C');
    reveal_strlit("F.Courtyard");
    assert("F.Courtyard"@.len() == 11 && "F.Courtyard"@[0] == 'F' && "F.Courtyard"@[2] == 'C');
    reveal_strlit("B.CrtYd");
    assert("B.CrtYd"@.len() == 7 && "B.CrtYd"@[0] == 'B' && "B.CrtYd"@[2] == 'C');
    reveal_strlit("B.Courtyard");
    assert("B.Courtyard"@.len() == 11 && "B.Courtyard"@[0] == 'B' && "B.Courtyard"@[2] == 'C');
    reveal_strlit("F.Fab");
    assert("F.Fab"@.len() == 5 && "F.Fab"@[0] == 'F' && "F.Fab"@[2] == 'F');
    reveal_strlit("B.Fab");
    assert("B.Fab"@.len() == 5 && "B.Fab"@[0] == 'B' && "B.Fab"@[2] == 'F');
    reveal_strlit("Edge.Cuts");
    assert("Edge.Cuts"@.len() == 9 && "Edge.Cuts"@[0] == 'E' && "Edge.Cuts"@[2] == 'g');
}

/// A layer's name on the board has no underscore in it.
pub proof fn board_layer_names_have_no_underscore(name: Seq<char>)
    ensures
        !dotted(without_prefix(name)).contains('_'),
{
}

/// Taking the prefix away leaves a text without it, which the name ends with.
pub proof fn the_prefix_is_gone(name: Seq<char>)
    ensures
        !has_prefix(without_prefix(name)),
        without_prefix(name).len() <= name.len(),
        without_prefix(name) == name.skip(name.len() - without_prefix(name).len()),
    decreases name.len(),
{
    if has_prefix(name) {
        let rest = name.skip(3);
        the_prefix_is_gone(rest);
        assert(rest.skip(rest.len() - without_prefix(rest).len()) =~= name.skip(
            name.len() - without_prefix(rest).len(),
        ));
    } else {
        assert(name.skip(0) =~= name);
    }
}

// ------------------------------------------------------------ variables

/// `${` stands at the position.
pub open spec fn opens_variable(s: Seq<char>, i: int) -> bool {
    0 <= i && i + 2 <= s.len() && s[i] == '$' && s[i + 1] == '{'
}

/// The value in the reply, or nothing if the variable is not set.
pub open spec fn value_in(reply: Reply) -> Seq<char> {
    if reply is Text {
        reply->Text_0@
    } else {
        seq![]
    }
}

/// A text without variables stands for itself, and nothing is asked.
pub proof fn a_text_without_variables_stands_for_itself(
    s: Seq<char>,
    i: int,
    out: Seq<char>,
    log: Seq<Reply>,
    at: int,
)
    requires
        0 <= i <= s.len(),
        forall|j: int| i <= j < s.len() ==> !opens_variable(s, j),
    ensures
        expand_turn(s, i, out, log, at) == Turn::Done(
            Ok::<Seq<char>, Seq<char>>(out + s.skip(i)),
            at,
        ),
    decreases s.len() - i,
{
    if i < s.len() {
        assert(!opens_variable(s, i));
        assert(!variable_at(s, i));
        a_text_without_variables_stands_for_itself(s, i + 1, out.push(s[i]), log, at);
        assert(out.push(s[i]) + s.skip(i + 1) =~= out + s.skip(i));
    } else {
        assert(out + s.skip(i) =~= out);
    }
}

/// The text with `before` in front of what `turn` comes to.
pub open spec fn preceded_by(before: Seq<char>, turn: Turn<Seq<char>>) -> Turn<Seq<char>> {
    turn.and_then(|rest: Seq<char>, n: int| Turn::Done(Ok(before + rest), n))
}

/// What was put out before makes no difference to what follows.
proof fn what_was_put_out_stays_in_front(
    s: Seq<char>,
    i: int,
    out: Seq<char>,
    more: Seq<char>,
    log: Seq<Reply>,
    at: int,
)
    ensures
        expand_turn(s, i, out + more, log, at) == preceded_by(
            out,
            expand_turn(s, i, more, log, at),
        ),
    decreases s.len() + 1 - i,
{
    if 0 <= i < s.len() {
        if variable_at(s, i) {
            if 0 <= at < log.len() {
                let value = variable_value(log[at]);
                find_text_is_first(s, "}"@, i + 2);
                what_was_put_out_stays_in_front(
                    s,
                    name_end(s, i) + 1,
                    out,
                    more + value,
                    log,
                    at + 1,
                );
                assert(out + more + value =~= out + (more + value));
            }
        } else {
            what_was_put_out_stays_in_front(s, i + 1, out, more.push(s[i]), log, at);
            assert((out + more).push(s[i]) =~= out + more.push(s[i]));
        }
    }
}

/// A brace stands where a search for it finds one.
proof fn braces_are_found(s: Seq<char>, i: int)
    ensures
        occurs_at(s, "}"@, i) <==> 0 <= i < s.len() && s[i] == '}',
{
    reveal_strlit("}");
    if 0 <= i < s.len() {
        assert(s.subrange(i, i + 1)[0] == s[i]);
        if s[i] == '}' {
            assert(s.subrange(i, i + 1) =~= "}"@);
        }
    }
}

/// The name of a variable ends at the first closing brace, or with the text.
proof fn a_name_ends_at_its_brace(s: Seq<char>, i: int, end: int)
    requires
        0 <= i,
        i + 2 <= end <= s.len(),
        end < s.len() ==> s[end] == '}',
        forall|j: int| i + 2 <= j < end ==> s[j] != '}',
    ensures
        name_end(s, i) == end,
{
    find_text_is_first(s, "}"@, i + 2);
    braces_are_found(s, end);
    if let Some(found) = find_text(s, "}"@, i + 2) {
        braces_are_found(s, found);
    }
}

/// What a text stands for does not depend on what is before it and has been passed.
proof fn what_was_passed_makes_no_difference(
    before: Seq<char>,
    s: Seq<char>,
    i: int,
    out: Seq<char>,
    log: Seq<Reply>,
    at: int,
)
    requires
        0 <= i,
    ensures
        expand_turn(before + s, before.len() + i, out, log, at) == expand_turn(
            s,
            i,
            out,
            log,
            at,
        ),
    decreases s.len() + 1 - i,
{
    let whole = before + s;
    let k = before.len() + i;
    if i < s.len() {
        assert(whole[k] == s[i]);
        assert(i + 1 < s.len() ==> whole[k + 1] == s[i + 1]);
        assert(variable_at(whole, k) == variable_at(s, i));
        if variable_at(s, i) {
            let end = name_end(s, i);
            find_text_is_first(s, "}"@, i + 2);
            assert forall|j: int| i + 2 <= j < end implies s[j] != '}' by {
                braces_are_found(s, j);
            }
            braces_are_found(s, end);
            assert forall|j: int| k + 2 <= j < before.len() + end implies whole[j] != '}' by {
                assert(whole[j] == s[j - before.len()]);
            }
            a_name_ends_at_its_brace(whole, k, before.len() + end);
            assert(whole.subrange(k + 2, before.len() + end) =~= s.subrange(i + 2, end));
            if 0 <= at < log.len() {
                what_was_passed_makes_no_difference(
                    before,
                    s,
                    end + 1,
                    out + variable_value(log[at]),
                    log,
                    at + 1,
                );
            }
        } else {
            what_was_passed_makes_no_difference(before, s, i + 1, out.push(s[i]), log, at);
        }
    }
}

/// Up to the first variable, a text stands for itself.
proof fn a_text_stands_for_itself_up_to_a_variable(
    s: Seq<char>,
    i: int,
    end: int,
    out: Seq<char>,
    log: Seq<Reply>,
    at: int,
)
    requires
        0 <= i <= end <= s.len(),
        forall|j: int| i <= j < end ==> !variable_at(s, j),
    ensures
        expand_turn(s, i, out, log, at) == expand_turn(
            s,
            end,
            out + s.subrange(i, end),
            log,
            at,
        ),
    decreases end - i,
{
    if i < end {
        assert(!variable_at(s, i));
        a_text_stands_for_itself_up_to_a_variable(s, i + 1, end, out.push(s[i]), log, at);
        assert(out.push(s[i]) + s.subrange(i + 1, end) =~= out + s.subrange(i, end));
    } else {
        assert(out + s.subrange(i, end) =~= out);
    }
}

/// The variable that `a`, a text without variables, is followed by: it is asked for, by its
/// name, and then the rest is looked at.
proof fn the_first_variable_is_asked_for(
    s: Seq<char>,
    a: Seq<char>,
    name: Seq<char>,
    log: Seq<Reply>,
    at: int,
)
    requires
        forall|j: int| !variable_at(a, j),
        !name.contains('}'),
        s.len() >= a.len() + 2 + name.len(),
        s.take((a.len() + 2 + name.len()) as int) == a + seq!['$', '{'] + name,
        s.len() > a.len() + 2 + name.len() ==> s[(a.len() + 2 + name.len()) as int] == '}',
    ensures
        expand_turn(s, 0, seq![], log, at) == if 0 <= at < log.len() {
            expand_turn(
                s,
                (a.len() + 3 + name.len()) as int,
                a + variable_value(log[at]),
                log,
                at + 1,
            )
        } else {
            Turn::Ask(Query::EnvVar { name })
        },
{
    let start = a.len() as int;
    let end = start + 2 + name.len();
    let head = s.take(end);
    assert forall|j: int| 0 <= j < end implies s[j] == #[trigger] head[j] by {}
    assert(head[start] == '$' && head[start + 1] == '{');
    assert forall|j: int| 0 <= j < start implies s[j] == a[j] by {
        assert(head[j] == a[j]);
    }
    assert forall|j: int| 0 <= j < start implies !variable_at(s, j) by {
        assert(!variable_at(a, j));
    }
    a_text_stands_for_itself_up_to_a_variable(s, 0, start, seq![], log, at);
    assert(Seq::<char>::empty() + s.subrange(0, start) =~= a);
    assert(s[start] == head[start] && s[start + 1] == head[start + 1]);
    assert forall|j: int| start + 2 <= j < end implies s[j] != '}' by {
        assert(head[j] == name[j - start - 2]);
        assert(name.contains(name[j - start - 2]));
    }
    a_name_ends_at_its_brace(s, start, end);
    assert(s.subrange(start + 2, end) =~= name) by {
        assert forall|j: int| 0 <= j < name.len() implies s[start + 2 + j] == name[j] by {
            assert(head[start + 2 + j] == name[j]);
        }
    }
}

/// A variable stands for its value: `${name}` between `a`, which holds no variable, and `b` is
/// asked for by its name; then `a`, the value, and what `b` stands for are put together.
pub proof fn a_variable_stands_for_its_value(
    a: Seq<char>,
    name: Seq<char>,
    b: Seq<char>,
    log: Seq<Reply>,
    at: int,
)
    requires
        forall|j: int| !opens_variable(a, j),
        !name.contains('}'),
    ensures
        expand_turn(a + seq!['$', '{'] + name + seq!['}'] + b, 0, seq![], log, at) == if 0 <= at
            < log.len() {
            preceded_by(
                a + value_in(log[at]),
                expand_turn(b, 0, seq![], log, at + 1),
            )
        } else {
            Turn::Ask(Query::EnvVar { name })
        },
{
    let head = a + seq!['$', '{'] + name;
    let passed = head + seq!['}'];
    let s = passed + b;
    assert(s.take(head.len() as int) =~= head);
    assert(s[head.len() as int] == '}');
    assert forall|j: int| !variable_at(a, j) by {
        assert(!opens_variable(a, j));
    }
    the_first_variable_is_asked_for(s, a, name, log, at);
    if 0 <= at < log.len() {
        let out = a + value_in(log[at]);
        what_was_passed_makes_no_difference(passed, b, 0, out, log, at + 1);
        what_was_put_out_stays_in_front(b, 0, out, seq![], log, at + 1);
        assert(out + Seq::<char>::empty() =~= out);
    }
}

/// The name of a variable that is not closed reaches to the end of the text.
pub proof fn an_unclosed_variable_reaches_to_the_end(
    a: Seq<char>,
    name: Seq<char>,
    log: Seq<Reply>,
    at: int,
)
    requires
        forall|j: int| !opens_variable(a, j),
        !name.contains('}'),
    ensures
        expand_turn(a + seq!['$', '{'] + name, 0, seq![], log, at) == if 0 <= at < log.len() {
            Turn::Done(Ok::<Seq<char>, Seq<char>>(a + value_in(log[at])), at + 1)
        } else {
            Turn::Ask(Query::EnvVar { name })
        },
{
    let s = a + seq!['$', '{'] + name;
    assert(s.take(s.len() as int) =~= s);
    assert forall|j: int| !variable_at(a, j) by {
        assert(!opens_variable(a, j));
    }
    the_first_variable_is_asked_for(s, a, name, log, at);
}

// ------------------------------------------------------------ footprints

/// Placing a footprint replaces one clause, which starts with `(layer "` and ends with a paren,
/// and is the first that starts so; the rest of the footprint stays. (This is for a footprint
/// that gets no reference.)
pub proof fn placing_replaces_one_clause(
    raw: Seq<char>,
    x: Seq<char>,
    y: Seq<char>,
    rotation: Seq<char>,
    layer: Seq<char>,
)
    ensures
        placed_footprint(raw, x, y, rotation, layer, seq![]) matches Ok(out) ==> exists|
            before: Seq<char>,
            clause: Seq<char>,
            after: Seq<char>,
        |
            {
                &&& #[trigger] (before + clause + after) == raw
                &&& out == before + ("(layer \""@ + layer + "\")\n\t(at "@ + x + " "@ + y + " "@ + rotation
                    + ")"@) + after
                &&& occurs_at(clause, "(layer \""@, 0)
                &&& clause.last() == ')'
                &&& forall|i: int| 0 <= i < before.len() ==> !occurs_at(raw, "(layer \""@, i)
            },
{
    reveal_strlit("(layer \"");
    reveal_strlit("\"");
    reveal_strlit(")");
    find_text_is_first(raw, "(layer \""@, 0);
    if let Some(start) = find_text(raw, "(layer \""@, 0) {
        find_text_is_first(raw, "\""@, start + 8);
        if let Some(quote) = find_text(raw, "\""@, start + 8) {
            find_text_is_first(raw, ")"@, quote);
            if let Some(paren) = find_text(raw, ")"@, quote) {
                let before = raw.subrange(0, start);
                let clause = raw.subrange(start, paren + 1);
                let after = raw.subrange(paren + 1, raw.len() as int);
                assert(before + clause + after =~= raw);
                assert(clause.subrange(0, 8) =~= raw.subrange(start, start + 8));
                assert(raw.subrange(paren, paren + 1)[0] == ')');
                assert(clause.last() == ')');
            }
        }
    }
}

/// Where a text is replaced, it is replaced once, at its first place; where it does not occur,
/// nothing changes.
pub proof fn replacing_changes_the_first_place(s: Seq<char>, from: Seq<char>, to: Seq<char>)
    ensures
        match find_text(s, from, 0) {
            Some(i) => exists|before: Seq<char>, after: Seq<char>|
                #[trigger] (before + from + after) == s && replace_first(s, from, to) == before + to
                    + after && forall|j: int| 0 <= j < before.len() ==> !occurs_at(s, from, j),
            None => replace_first(s, from, to) == s && forall|j: int|
                0 <= j ==> !occurs_at(s, from, j),
        },
{
    find_text_is_first(s, from, 0);
    if let Some(i) = find_text(s, from, 0) {
        let before = s.subrange(0, i);
        let after = s.subrange(i + from.len(), s.len() as int);
        assert(before + from + after =~= s) by {
            assert(s.subrange(i, i + from.len()) == from);
            assert forall|j: int| 0 <= j < from.len() implies from[j] == s[i + j] by {
                assert(s.subrange(i, i + from.len())[j] == s[i + j]);
            }
        }
    }
}

} // verus!
