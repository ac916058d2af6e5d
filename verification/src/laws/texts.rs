//! Texts that operations write, read and fail with, letter by letter.
use vstd::prelude::*;
use vstd::string::*;

use crate::laws::splices::last_index_is_last;
use crate::sexp::{placed_footprint, replace_first, shown_head, spliced, via_clause};
use crate::text::{
    contains, debug_quoted, decimal, digit, find_text, find_text_is_first, last_index, occurs_at,
    trim_end, trim_end_is_prefix, white_space,
};

verus! {

// ------------------------------------------------------------ searching

/// `part` stands somewhere in `whole`.
pub open spec fn holds(whole: Seq<char>, part: Seq<char>) -> bool {
    exists|before: Seq<char>, after: Seq<char>| whole == #[trigger] (before + part + after)
}

/// A text stands at a position exactly if its characters stand there, one after the other.
pub proof fn a_text_stands_where_its_characters_stand(whole: Seq<char>, part: Seq<char>, i: int)
    ensures
        occurs_at(whole, part, i) <==> 0 <= i && i + part.len() <= whole.len() && forall|k: int|
            0 <= k < part.len() ==> whole[i + k] == #[trigger] part[k],
{
    if 0 <= i && i + part.len() <= whole.len() {
        let found = whole.subrange(i, i + part.len());
        if occurs_at(whole, part, i) {
            assert forall|k: int| 0 <= k < part.len() implies whole[i + k] == #[trigger] part[k] by {
                assert(found[k] == whole[i + k]);
            }
        }
        if forall|k: int| 0 <= k < part.len() ==> whole[i + k] == #[trigger] part[k] {
            assert(found =~= part);
        }
    }
}

/// A text is contained in another exactly if it stands somewhere in it.
pub proof fn a_text_is_contained_if_it_stands_there(whole: Seq<char>, part: Seq<char>)
    ensures
        contains(whole, part) <==> holds(whole, part),
{
    find_text_is_first(whole, part, 0);
    if let Some(i) = find_text(whole, part, 0) {
        let before = whole.subrange(0, i);
        let after = whole.subrange(i + part.len(), whole.len() as int);
        a_text_stands_where_its_characters_stand(whole, part, i);
        assert(whole =~= before + part + after);
    }
    if holds(whole, part) {
        let (before, after) = choose|before: Seq<char>, after: Seq<char>|
            whole == #[trigger] (before + part + after);
        a_text_stands_where_its_characters_stand(whole, part, before.len() as int);
        assert(occurs_at(whole, part, before.len() as int));
    }
}

/// The characters of `part` stand in `whole` one after the other, from `i` on.
pub open spec fn stands_at(whole: Seq<char>, part: Seq<char>, i: int) -> bool {
    &&& 0 <= i
    &&& i + part.len() <= whole.len()
    &&& forall|k: int| 0 <= k < part.len() ==> whole[i + k] == #[trigger] part[k]
}

/// A search finds the first place at which a text stands, from a position on.
pub proof fn a_search_finds_the_first_place(
    whole: Seq<char>,
    part: Seq<char>,
    from: int,
    place: int,
)
    requires
        0 <= from <= place,
    ensures
        find_text(whole, part, from) == Some(place) <==> stands_at(whole, part, place) && forall|
            i: int,
        |
            from <= i < place ==> !#[trigger] stands_at(whole, part, i),
        find_text(whole, part, from) is None <==> forall|i: int|
            from <= i ==> !#[trigger] stands_at(whole, part, i),
{
    find_text_is_first(whole, part, from);
    assert forall|i: int| occurs_at(whole, part, i) == #[trigger] stands_at(whole, part, i) by {
        a_text_stands_where_its_characters_stand(whole, part, i);
    }
    if let Some(found) = find_text(whole, part, from) {
        assert(stands_at(whole, part, found));
        assert forall|i: int| from <= i < found implies !#[trigger] stands_at(whole, part, i) by {
            assert(!occurs_at(whole, part, i));
        }
    }
    if find_text(whole, part, from) is None {
        assert forall|i: int| from <= i implies !#[trigger] stands_at(whole, part, i) by {
            assert(!occurs_at(whole, part, i));
        }
    }
}

/// A single character stands where it is.
proof fn a_character_stands_where_it_is(whole: Seq<char>, c: char, part: Seq<char>)
    requires
        part.len() == 1,
        part[0] == c,
    ensures
        forall|i: int| #[trigger] stands_at(whole, part, i) <==> 0 <= i < whole.len() && whole[i] == c,
{
    assert forall|i: int| 0 <= i < whole.len() && whole[i] == c implies #[trigger] stands_at(
        whole,
        part,
        i,
    ) by {
        assert forall|k: int| 0 <= k < part.len() implies whole[i + k] == #[trigger] part[k] by {}
    }
    assert forall|i: int| #[trigger] stands_at(whole, part, i) implies 0 <= i < whole.len()
        && whole[i] == c by {
        assert(whole[i + 0] == part[0]);
    }
}

// ------------------------------------------------------------ numbers

/// The number that decimal digits stand for.
pub open spec fn number(digits: Seq<char>) -> int
    decreases digits.len(),
{
    if digits.len() == 0 {
        0
    } else {
        10 * number(digits.drop_last()) + (digits.last() as int - '0' as int)
    }
}

/// A number is written in decimal digits that stand for it, without a zero in front.
pub proof fn a_number_is_written_in_decimal_digits(n: nat)
    ensures
        number(decimal(n)) == n,
        decimal(n).len() > 0,
        forall|i: int| 0 <= i < decimal(n).len() ==> '0' <= #[trigger] decimal(n)[i] <= '9',
        n > 0 ==> decimal(n)[0] != '0',
    decreases n,
{
    reveal_strlit("0");
    reveal_strlit("1");
    reveal_strlit("2");
    reveal_strlit("3");
    reveal_strlit("4");
    reveal_strlit("5");
    reveal_strlit("6");
    reveal_strlit("7");
    reveal_strlit("8");
    reveal_strlit("9");
    reveal_with_fuel(number, 2);
    let last = digit(n % 10);
    assert(last.len() == 1 && last[0] as int - '0' as int == n % 10);
    if n < 10 {
        assert(decimal(n).drop_last() =~= seq![]);
    } else {
        a_number_is_written_in_decimal_digits(n / 10);
        assert(decimal(n).drop_last() =~= decimal(n / 10));
    }
}

/// What is shown of the head of an expression: the head in quotes, inside `Some(..)`, or `None`.
pub proof fn a_head_is_shown_as_an_option(head: Option<Seq<char>>)
    ensures
        head matches Some(h) ==> shown_head(head) == "Some("@ + debug_quoted(h) + ")"@,
        head is None ==> shown_head(head) == "None"@,
{
}

// ------------------------------------------------------------ clauses

/// The clause of a via has the position, the size of the pad, the drill, both outer copper layers,
/// the name of the net and the identifier, each in its place.
pub proof fn a_via_clause_has_everything_in_its_place(
    net_name: Seq<char>,
    x: Seq<char>,
    y: Seq<char>,
    drill: Seq<char>,
    pad: Seq<char>,
    id: Seq<char>,
)
    ensures
        via_clause(net_name, x, y, drill, pad, id) == "(via (at "@ + x + " "@ + y + ") (size "@ + pad
            + ") (drill "@ + drill + ") (layers \"F.Cu\" \"B.Cu\") (net \""@ + net_name
            + "\") (uuid \""@ + id + "\"))"@,
{
}

/// `raw` is `before`, a layer clause with `name` in it, and `after`; and no layer clause starts
/// earlier.
pub open spec fn has_layer_clause(
    raw: Seq<char>,
    before: Seq<char>,
    name: Seq<char>,
    rest: Seq<char>,
    after: Seq<char>,
) -> bool {
    &&& raw == before + "(layer \""@ + name + "\""@ + rest + ")"@ + after
    &&& !name.contains('"')
    &&& !rest.contains(')')
    &&& forall|i: int| 0 <= i < before.len() ==> !#[trigger] stands_at(raw, "(layer \""@, i)
}

proof fn the_clause_is_found(
    raw: Seq<char>,
    before: Seq<char>,
    name: Seq<char>,
    rest: Seq<char>,
    after: Seq<char>,
)
    requires
        has_layer_clause(raw, before, name, rest, after),
    ensures
        find_text(raw, "(layer \""@, 0) == Some(before.len() as int),
        find_text(raw, "\""@, (before.len() + 8) as int) == Some((before.len() + 8 + name.len()) as int),
        find_text(raw, ")"@, (before.len() + 8 + name.len()) as int) == Some(
            (before.len() + 9 + name.len() + rest.len()) as int,
        ),
        raw.subrange(0, before.len() as int) == before,
        raw.subrange(
            (before.len() + 10 + name.len() + rest.len()) as int,
            raw.len() as int,
        ) == after,
{
    reveal_strlit("(layer \"");
    reveal_strlit("\"");
    reveal_strlit(")");
    let start = before.len() as int;
    let quote = start + 8 + name.len();
    let paren = quote + 1 + rest.len();
    assert(stands_at(raw, "(layer \""@, start)) by {
        assert forall|k: int| 0 <= k < 8 implies raw[start + k] == #[trigger] "(layer \""@[k] by {}
    }
    a_search_finds_the_first_place(raw, "(layer \""@, 0, start);
    a_character_stands_where_it_is(raw, '"', "\""@);
    assert(raw[quote] == '"');
    assert forall|i: int| start + 8 <= i < quote implies !#[trigger] stands_at(raw, "\""@, i) by {
        assert(raw[i] == name[i - start - 8]);
        assert(name.contains(name[i - start - 8]));
    }
    assert(stands_at(raw, "\""@, quote));
    a_search_finds_the_first_place(raw, "\""@, start + 8, quote);
    a_character_stands_where_it_is(raw, ')', ")"@);
    assert(raw[paren] == ')');
    assert forall|i: int| quote <= i < paren implies !#[trigger] stands_at(raw, ")"@, i) by {
        if i > quote {
            assert(raw[i] == rest[i - quote - 1]);
            assert(rest.contains(rest[i - quote - 1]));
        }
    }
    assert(stands_at(raw, ")"@, paren));
    a_search_finds_the_first_place(raw, ")"@, quote, paren);
    assert(raw.subrange(0, start) =~= before);
    assert(raw.subrange(paren + 1, raw.len() as int) =~= after);
}

/// What is found is a layer clause.
proof fn what_is_found_is_a_clause(raw: Seq<char>) -> (parts: (
    Seq<char>,
    Seq<char>,
    Seq<char>,
    Seq<char>,
))
    requires
        find_text(raw, "(layer \""@, 0) matches Some(start) && (find_text(raw, "\""@, start + 8)
            matches Some(quote) && find_text(raw, ")"@, quote) is Some),
    ensures
        has_layer_clause(raw, parts.0, parts.1, parts.2, parts.3),
{
    reveal_strlit("(layer \"");
    reveal_strlit("\"");
    reveal_strlit(")");
    let start = find_text(raw, "(layer \""@, 0)->0;
    let quote = find_text(raw, "\""@, start + 8)->0;
    let paren = find_text(raw, ")"@, quote)->0;
    find_text_is_first(raw, "(layer \""@, 0);
    find_text_is_first(raw, "\""@, start + 8);
    find_text_is_first(raw, ")"@, quote);
    a_search_finds_the_first_place(raw, "(layer \""@, 0, start);
    a_search_finds_the_first_place(raw, "\""@, start + 8, quote);
    a_search_finds_the_first_place(raw, ")"@, quote, paren);
    a_character_stands_where_it_is(raw, '"', "\""@);
    a_character_stands_where_it_is(raw, ')', ")"@);
    assert(stands_at(raw, "\""@, quote));
    assert(stands_at(raw, ")"@, paren));
    let before = raw.subrange(0, start);
    let name = raw.subrange(start + 8, quote);
    let rest = raw.subrange(quote + 1, paren);
    let after = raw.subrange(paren + 1, raw.len() as int);
    assert forall|i: int| 0 <= i < name.len() implies name[i] != '"' by {
        assert(!stands_at(raw, "\""@, start + 8 + i));
    }
    assert forall|i: int| 0 <= i < rest.len() implies rest[i] != ')' by {
        assert(!stands_at(raw, ")"@, quote + 1 + i));
    }
    assert(stands_at(raw, "(layer \""@, start));
    assert forall|k: int| 0 <= k < 8 implies raw[start + k] == #[trigger] "(layer \""@[k] by {}
    let whole = before + "(layer \""@ + name + "\""@ + rest + ")"@ + after;
    assert(whole.len() == raw.len());
    assert forall|i: int| 0 <= i < raw.len() implies raw[i] == whole[i] by {
        if start <= i < start + 8 {
            assert(raw[start + (i - start)] == "(layer \""@[i - start]);
        }
    }
    assert(raw =~= whole);
    (before, name, rest, after)
}

/// Placing replaces the first layer clause by one with the requested layer, followed by the
/// position and the rotation, and keeps everything before and after it. It can be done exactly if
/// there is such a clause.
pub proof fn placing_writes_layer_and_position(
    raw: Seq<char>,
    x: Seq<char>,
    y: Seq<char>,
    rotation: Seq<char>,
    layer: Seq<char>,
)
    ensures
        forall|before: Seq<char>, name: Seq<char>, rest: Seq<char>, after: Seq<char>| #[trigger]
            has_layer_clause(raw, before, name, rest, after) ==> placed_footprint(
                raw,
                x,
                y,
                rotation,
                layer,
                ""@,
            ) == Ok::<Seq<char>, Seq<char>>(
                before + "(layer \""@ + layer + "\")\n\t(at "@ + x + " "@ + y + " "@ + rotation
                    + ")"@ + after,
            ),
        placed_footprint(raw, x, y, rotation, layer, ""@) is Ok ==> exists|
            before: Seq<char>,
            name: Seq<char>,
            rest: Seq<char>,
            after: Seq<char>,
        | #[trigger] has_layer_clause(raw, before, name, rest, after),
        placed_footprint(raw, x, y, rotation, layer, ""@) matches Err(e) ==> e == if holds(
            raw,
            "(layer \""@,
        ) {
            "malformed layer clause"@
        } else {
            "footprint file has no top-level layer clause"@
        },
{
    reveal_strlit("");
    assert forall|before: Seq<char>, name: Seq<char>, rest: Seq<char>, after: Seq<char>| #[trigger]
        has_layer_clause(raw, before, name, rest, after) implies placed_footprint(
        raw,
        x,
        y,
        rotation,
        layer,
        ""@,
    ) == Ok::<Seq<char>, Seq<char>>(
        before + "(layer \""@ + layer + "\")\n\t(at "@ + x + " "@ + y + " "@ + rotation + ")"@
            + after,
    ) by {
        the_clause_is_found(raw, before, name, rest, after);
        let clause = "(layer \""@ + layer + "\")\n\t(at "@ + x + " "@ + y + " "@ + rotation + ")"@;
        assert(before + clause + after =~= before + "(layer \""@ + layer + "\")\n\t(at "@ + x
            + " "@ + y + " "@ + rotation + ")"@ + after);
        let found = placed_footprint(raw, x, y, rotation, layer, ""@);
        assert(found == Ok::<Seq<char>, Seq<char>>(before + clause + after));
    }
    if placed_footprint(raw, x, y, rotation, layer, ""@) is Ok {
        let parts = what_is_found_is_a_clause(raw);
        assert(has_layer_clause(raw, parts.0, parts.1, parts.2, parts.3));
    }
    a_text_is_contained_if_it_stands_there(raw, "(layer \""@);
}

/// If the name of the layer has no quote in it, it is what stands in the first layer clause of a
/// placed footprint.
pub proof fn a_placed_footprint_is_on_the_requested_layer(
    raw: Seq<char>,
    x: Seq<char>,
    y: Seq<char>,
    rotation: Seq<char>,
    layer: Seq<char>,
)
    requires
        !layer.contains('"'),
    ensures
        placed_footprint(raw, x, y, rotation, layer, ""@) matches Ok(out) ==> exists|
            before: Seq<char>,
            after: Seq<char>,
        |
            #![trigger has_layer_clause(out, before, layer, seq![], after)]
            has_layer_clause(out, before, layer, seq![], after) && "\n\t(at "@.is_prefix_of(after),
{
    if let Ok(out) = placed_footprint(raw, x, y, rotation, layer, ""@) {
        reveal_strlit("(layer \"");
        reveal_strlit("\"");
        reveal_strlit(")");
        reveal_strlit("\n\t(at ");
        reveal_strlit("\")\n\t(at ");
        placing_writes_layer_and_position(raw, x, y, rotation, layer);
        let parts = what_is_found_is_a_clause(raw);
        let before = parts.0;
        let tail = "\n\t(at "@ + x + " "@ + y + " "@ + rotation + ")"@ + parts.3;
        assert(has_layer_clause(raw, before, parts.1, parts.2, parts.3));
        assert("\")\n\t(at "@ =~= "\""@ + ")"@ + "\n\t(at "@);
        assert(out =~= before + "(layer \""@ + layer + "\""@ + seq![] + ")"@ + tail);
        assert forall|i: int| 0 <= i < before.len() implies !#[trigger] stands_at(
            out,
            "(layer \""@,
            i,
        ) by {
            if stands_at(out, "(layer \""@, i) {
                assert forall|k: int| 0 <= k < 8 implies raw[i + k] == #[trigger] "(layer \""@[k] by {
                    assert(out[i + k] == "(layer \""@[k]);
                    assert(out[i + k] == raw[i + k]);
                }
                assert(stands_at(raw, "(layer \""@, i));
            }
        }
        assert(has_layer_clause(out, before, layer, seq![], tail));
        assert("\n\t(at "@.is_prefix_of(tail)) by {
            assert(tail.take("\n\t(at "@.len() as int) =~= "\n\t(at "@);
        }
    }
}

/// A reference that is not empty takes the place of the first `"REF**"`, in quotes, in what is
/// placed without one. Where there is none, the reference makes no difference.
pub proof fn placing_writes_the_reference(
    raw: Seq<char>,
    x: Seq<char>,
    y: Seq<char>,
    rotation: Seq<char>,
    layer: Seq<char>,
    reference: Seq<char>,
)
    requires
        reference.len() > 0,
    ensures
        match placed_footprint(raw, x, y, rotation, layer, ""@) {
            Err(e) => placed_footprint(raw, x, y, rotation, layer, reference) == Err::<
                Seq<char>,
                Seq<char>,
            >(e),
            Ok(plain) => {
                &&& forall|before: Seq<char>, after: Seq<char>|
                    plain == #[trigger] (before + "\"REF**\""@ + after) && (forall|i: int|
                        0 <= i < before.len() ==> !#[trigger] stands_at(plain, "\"REF**\""@, i))
                        ==> placed_footprint(raw, x, y, rotation, layer, reference) == Ok::<
                        Seq<char>,
                        Seq<char>,
                    >(before + "\""@ + reference + "\""@ + after)
                &&& !holds(plain, "\"REF**\""@) ==> placed_footprint(
                    raw,
                    x,
                    y,
                    rotation,
                    layer,
                    reference,
                ) == Ok::<Seq<char>, Seq<char>>(plain)
            },
        },
{
    reveal_strlit("");
    if let Ok(plain) = placed_footprint(raw, x, y, rotation, layer, ""@) {
        let old_text = "\"REF**\""@;
        a_text_is_contained_if_it_stands_there(plain, old_text);
        assert(placed_footprint(raw, x, y, rotation, layer, reference) == Ok::<Seq<char>, Seq<char>>(
            replace_first(plain, old_text, "\""@ + reference + "\""@),
        ));
        assert forall|before: Seq<char>, after: Seq<char>|
            plain == #[trigger] (before + old_text + after) && (forall|i: int|
                0 <= i < before.len() ==> !#[trigger] stands_at(plain, old_text, i)) implies placed_footprint(
            raw,
            x,
            y,
            rotation,
            layer,
            reference,
        ) == Ok::<Seq<char>, Seq<char>>(before + "\""@ + reference + "\""@ + after) by {
            let i = before.len() as int;
            assert(stands_at(plain, old_text, i)) by {
                assert forall|k: int| 0 <= k < old_text.len() implies plain[i + k]
                    == #[trigger] old_text[k] by {}
            }
            a_search_finds_the_first_place(plain, old_text, 0, i);
            assert(plain.subrange(0, i) =~= before);
            assert(plain.subrange(i + old_text.len(), plain.len() as int) =~= after);
            assert(before + ("\""@ + reference + "\""@) + after =~= before + "\""@ + reference
                + "\""@ + after);
        }
    }
}

// ------------------------------------------------------------ splicing

/// White space: the character controls from tab to carriage return, the space, and the other
/// spaces and separators of Unicode.
pub open spec fn is_blank(c: char) -> bool {
    ||| '\t' <= c <= '\r'
    ||| c == ' '
    ||| c == '\u{85}'
    ||| c == '\u{a0}'
    ||| c == '\u{1680}'
    ||| '\u{2000}' <= c <= '\u{200a}'
    ||| c == '\u{2028}'
    ||| c == '\u{2029}'
    ||| c == '\u{202f}'
    ||| c == '\u{205f}'
    ||| c == '\u{3000}'
}

/// What counts as white space is that.
pub proof fn white_space_is_blank(c: char)
    ensures
        white_space(c) <==> is_blank(c),
{
    assert(c as u32 == c as int);
}

/// Trimming takes away the white space at the end, all of it, and nothing else.
pub proof fn trimming_takes_away_the_white_space_at_the_end(kept: Seq<char>, blank: Seq<char>)
    requires
        kept.len() > 0 ==> !is_blank(kept.last()),
        forall|i: int| 0 <= i < blank.len() ==> is_blank(#[trigger] blank[i]),
    ensures
        trim_end(kept + blank) == kept,
    decreases blank.len(),
{
    if blank.len() > 0 {
        white_space_is_blank(blank.last());
    }
    if kept.len() > 0 {
        white_space_is_blank(kept.last());
    }
    if blank.len() > 0 {
        assert((kept + blank).drop_last() =~= kept + blank.drop_last());
        assert((kept + blank).last() == blank.last());
        trimming_takes_away_the_white_space_at_the_end(kept, blank.drop_last());
    } else {
        assert(kept + blank =~= kept);
    }
}

/// Splicing puts the block on lines of its own in front of the last closing paren, and ends the
/// text with one line feed in place of the white space at its end.
pub proof fn splicing_goes_before_the_last_paren(
    before: Seq<char>,
    after: Seq<char>,
    blank: Seq<char>,
    block: Seq<char>,
)
    requires
        !after.contains(')'),
        after.len() > 0 ==> !is_blank(after.last()),
        forall|i: int| 0 <= i < blank.len() ==> is_blank(#[trigger] blank[i]),
    ensures
        spliced(before + ")"@ + after + blank, block) == Some(
            before + "\n"@ + block + "\n"@ + ")"@ + after + "\n"@,
        ),
{
    reveal_strlit(")");
    let kept = before + ")"@ + after;
    trimming_takes_away_the_white_space_at_the_end(kept, blank);
    last_index_is_last(kept, ')');
    let p = before.len() as int;
    assert(kept[p] == ')');
    if let Some(q) = last_index(kept, ')') {
        if q > p {
            assert(kept[q] == after[q - p - 1]);
            assert(after.contains(after[q - p - 1]));
        }
    }
    assert(last_index(kept, ')') == Some(p));
    assert(kept.subrange(0, p) =~= before);
    assert(kept.subrange(p, kept.len() as int) =~= ")"@ + after);
    assert(before + "\n"@ + block + "\n"@ + (")"@ + after) + "\n"@ =~= before + "\n"@ + block
        + "\n"@ + ")"@ + after + "\n"@);
}

/// A text without a closing paren cannot be spliced into.
pub proof fn splicing_needs_a_paren(contents: Seq<char>, block: Seq<char>)
    ensures
        spliced(contents, block) is None <==> !contents.contains(')'),
{
    let kept = trim_end(contents);
    trim_end_is_prefix(contents);
    last_index_is_last(kept, ')');
    if contents.contains(')') {
        let i = choose|i: int| 0 <= i < contents.len() && contents[i] == ')';
        assert(i < kept.len());
        assert(kept[i] == ')');
    }
    if let Some(p) = last_index(kept, ')') {
        assert(contents[p] == ')');
    }
}

} // verus!
