//! S-expressions of board files, written and spliced as text.
use vstd::prelude::*;
use vstd::string::*;

use crate::talk::{
    error, exchange, hear, outcome, unreadable, unreadable_error, IpcError, Query, Reply, Request,
    Step, Turn,
};
use crate::text::{
    chars_of, debug_option, debug_option_text, debug_quoted, debug_text, find_chars, find_text,
    last_index, rfind_char, same_text, trim_end, trim_end_is_prefix, trimmed_len,
};

verus! {

// ------------------------------------------------------------ vias

/// The clause for a via from the front to the back copper layer. Its net is given by name
/// alone.
pub open spec fn via_clause(
    net_name: Seq<char>,
    x: Seq<char>,
    y: Seq<char>,
    drill: Seq<char>,
    size: Seq<char>,
    uuid: Seq<char>,
) -> Seq<char> {
    "(via (at "@ + x + " "@ + y + ") (size "@ + size + ") (drill "@ + drill
        + ") (layers \"F.Cu\" \"B.Cu\") (net \""@ + net_name + "\") (uuid \""@ + uuid + "\"))"@
}

/// Writes the clause for a via. The numbers are given as text, in millimetres.
pub fn via_sexp(
    net_name: &str,
    x: &str,
    y: &str,
    drill: &str,
    size: &str,
    uuid: &str,
) -> (s: String)
    ensures
        s@ == via_clause(net_name@, x@, y@, drill@, size@, uuid@),
{
    let mut s = "(via (at ".to_string();
    s.append(x);
    s.append(" ");
    s.append(y);
    s.append(") (size ");
    s.append(size);
    s.append(") (drill ");
    s.append(drill);
    s.append(") (layers \"F.Cu\" \"B.Cu\") (net \"");
    s.append(net_name);
    s.append("\") (uuid \"");
    s.append(uuid);
    s.append("\"))");
    s
}

// ------------------------------------------------------------ footprints

/// `s` with the first `from` in it replaced by `to`.
pub open spec fn replace_first(s: Seq<char>, from: Seq<char>, to: Seq<char>) -> Seq<char> {
    match find_text(s, from, 0) {
        Some(i) => s.subrange(0, i) + to + s.subrange(i + from.len(), s.len() as int),
        None => s,
    }
}

/// The layer clause and the placement of a footprint on the board.
pub open spec fn placement(
    x: Seq<char>,
    y: Seq<char>,
    rotation: Seq<char>,
    layer: Seq<char>,
) -> Seq<char> {
    "(layer \""@ + layer + "\")\n\t(at "@ + x + " "@ + y + " "@ + rotation + ")"@
}

/// A library footprint placed on the board: its first layer clause makes way for the given
/// layer and the placement, and its first placeholder for a reference, if a reference is
/// given, for that reference.
pub open spec fn placed_footprint(
    raw: Seq<char>,
    x: Seq<char>,
    y: Seq<char>,
    rotation: Seq<char>,
    layer: Seq<char>,
    reference: Seq<char>,
) -> Result<Seq<char>, Seq<char>> {
    match find_text(raw, "(layer \""@, 0) {
        None => Err("footprint file has no top-level layer clause"@),
        Some(clause) => match find_text(raw, "\""@, clause + 8) {
            None => Err("malformed layer clause"@),
            Some(quote) => match find_text(raw, ")"@, quote) {
                None => Err("malformed layer clause"@),
                Some(paren) => {
                    let out = raw.subrange(0, clause) + placement(x, y, rotation, layer)
                        + raw.subrange(paren + 1, raw.len() as int);
                    if reference.len() == 0 {
                        Ok(out)
                    } else {
                        Ok(replace_first(out, "\"REF**\""@, "\""@ + reference + "\""@))
                    }
                },
            },
        },
    }
}

fn replace_first_text(s: &str, from: &str, to: &str) -> (r: String)
    ensures
        r@ == replace_first(s@, from@, to@),
{
    let cs = chars_of(s);
    match find_chars(&cs, from, 0) {
        Some(i) => {
            let n: usize = from.unicode_len();
            let mut r = s.substring_char(0, i).to_string();
            r.append(to);
            let len: usize = cs.len();
            r.append(s.substring_char(i + n, len));
            r
        },
        None => s.to_string(),
    }
}

/// Places a library footprint on the board. The numbers are given as text, in millimetres
/// and degrees.
pub fn instantiate_footprint_sexp(
    raw: &str,
    x: &str,
    y: &str,
    rotation: &str,
    layer: &str,
    reference: &str,
) -> (r: Result<String, IpcError>)
    ensures
        outcome(r) == placed_footprint(raw@, x@, y@, rotation@, layer@, reference@),
{
    proof {
        reveal_strlit("(layer \"");
        reveal_strlit(")");
    }
    let cs = chars_of(raw);
    let clause: usize = match find_chars(&cs, "(layer \"", 0) {
        Some(i) => i,
        None => {
            return Err(error("footprint file has no top-level layer clause"));
        },
    };
    let len: usize = cs.len();
    let quote: usize = match find_chars(&cs, "\"", clause + 8) {
        Some(i) => i,
        None => {
            return Err(error("malformed layer clause"));
        },
    };
    let paren: usize = match find_chars(&cs, ")", quote) {
        Some(i) => i,
        None => {
            return Err(error("malformed layer clause"));
        },
    };
    let mut place = "(layer \"".to_string();
    place.append(layer);
    place.append("\")\n\t(at ");
    place.append(x);
    place.append(" ");
    place.append(y);
    place.append(" ");
    place.append(rotation);
    place.append(")");
    let mut out = raw.substring_char(0, clause).to_string();
    out.append(place.as_str());
    out.append(raw.substring_char(paren + 1, len));
    if reference.is_empty() {
        Ok(out)
    } else {
        let mut quoted = "\"".to_string();
        quoted.append(reference);
        quoted.append("\"");
        Ok(replace_first_text(out.as_str(), "\"REF**\"", quoted.as_str()))
    }
}

// ------------------------------------------------------------ splicing

/// `contents` with `block` put before its last closing paren, each on a line of its own.
/// White space at the end gives way to one line break. `None` if there is no closing paren.
pub open spec fn spliced(contents: Seq<char>, block: Seq<char>) -> Option<Seq<char>> {
    let trimmed = trim_end(contents);
    match last_index(trimmed, ')') {
        Some(p) => Some(
            trimmed.subrange(0, p) + "\n"@ + block + "\n"@ + trimmed.subrange(
                p,
                trimmed.len() as int,
            ) + "\n"@,
        ),
        None => None,
    }
}

/// Puts `block` before the last closing paren of `contents`.
pub fn insert_before_last_paren(contents: &str, block: &str) -> (r: Option<String>)
    ensures
        r.deep_view() == spliced(contents@, block@),
{
    let cs = chars_of(contents);
    let n: usize = trimmed_len(&cs);
    match rfind_char(&cs, n, ')') {
        Some(p) => {
            proof {
                trim_end_is_prefix(contents@);
            }
            assert(cs@.take(n as int).subrange(0, p as int) =~= contents@.subrange(0, p as int));
            assert(cs@.take(n as int).subrange(p as int, n as int) =~= contents@.subrange(
                p as int,
                n as int,
            ));
            let mut out = contents.substring_char(0, p).to_string();
            out.append("\n");
            out.append(block);
            out.append("\n");
            out.append(contents.substring_char(p, n));
            out.append("\n");
            Some(out)
        },
        None => None,
    }
}

/// The head is the one of a board file.
pub open spec fn is_board_head(head: Option<Seq<char>>) -> bool {
    head == Some("kicad_pcb"@)
}

/// How a head is shown, given how a text is.
pub open spec fn shown_head(head: Option<Seq<char>>) -> Seq<char> {
    debug_option(
        match head {
            Some(h) => Some(debug_quoted(h)),
            None => None,
        },
    )
}

/// The text for contents that are no board file.
pub open spec fn not_a_board(shown: Seq<char>) -> Seq<char> {
    "refusing to splice: board contents do not parse as a valid .kicad_pcb document (got head "@
        + shown + ") — likely a truncated or torn read"@
}

/// The text for a spliced board that is no board file any more.
pub open spec fn no_board_left(shown: Seq<char>) -> Seq<char> {
    "refusing to write spliced board: result no longer parses as a valid .kicad_pcb document after splicing (got head "@
        + shown + ")"@
}

/// The reply says which head a text has, if it is an S-expression with one.
pub open spec fn head_of(reply: Reply) -> Option<Option<Seq<char>>> {
    match reply {
        Reply::Head(head) => Some(head.deep_view()),
        _ => None,
    }
}

/// Splicing `block` into the board `contents`: both the contents and the result must be board
/// files.
pub open spec fn splice_turn(
    contents: Seq<char>,
    block: Seq<char>,
    log: Seq<Reply>,
    at: int,
) -> Turn<Seq<char>> {
    exchange(Query::ParseHead { text: contents }, log, at).and_then(
        |reply: Reply, n: int|
            match head_of(reply) {
                None => Turn::Done(Err(unreadable()), n),
                Some(head) => if !is_board_head(head) {
                    Turn::Done(Err(not_a_board(shown_head(head))), n)
                } else {
                    match spliced(contents, block) {
                        None => Turn::Done(Err("board contents have no closing paren"@), n),
                        Some(out) => check_spliced_turn(out, log, n),
                    }
                },
            },
    )
}

/// The spliced board `out` must be a board file.
pub open spec fn check_spliced_turn(out: Seq<char>, log: Seq<Reply>, at: int) -> Turn<Seq<char>> {
    exchange(Query::ParseHead { text: out }, log, at).and_then(
        |reply: Reply, n: int|
            match head_of(reply) {
                None => Turn::Done(Err(unreadable()), n),
                Some(head) => if !is_board_head(head) {
                    Turn::Done(Err(no_board_left(shown_head(head))), n)
                } else {
                    Turn::Done(Ok(out), n)
                },
            },
    )
}

fn show_head(head: &Option<String>) -> (s: String)
    ensures
        s@ == shown_head(head.deep_view()),
{
    debug_option_text(
        match head {
            Some(h) => Some(debug_text(h.as_str())),
            None => None,
        },
    )
}

/// The error, if any, that stops a splice of contents with the given head.
pub fn refuse_contents(head: &Option<String>) -> (r: Option<IpcError>)
    ensures
        match r {
            None => is_board_head(head.deep_view()),
            Some(e) => !is_board_head(head.deep_view()) && e@ == not_a_board(
                shown_head(head.deep_view()),
            ),
        },
{
    if let Some(h) = head {
        if same_text(h.as_str(), "kicad_pcb") {
            return None;
        }
    }
    let mut text =
        "refusing to splice: board contents do not parse as a valid .kicad_pcb document (got head ".to_string();
    text.append(show_head(head).as_str());
    text.append(") — likely a truncated or torn read");
    Some(IpcError { text })
}

/// The error, if any, that stops a splice whose result has the given head.
pub fn refuse_spliced(head: &Option<String>) -> (r: Option<IpcError>)
    ensures
        match r {
            None => is_board_head(head.deep_view()),
            Some(e) => !is_board_head(head.deep_view()) && e@ == no_board_left(
                shown_head(head.deep_view()),
            ),
        },
{
    if let Some(h) = head {
        if same_text(h.as_str(), "kicad_pcb") {
            return None;
        }
    }
    let mut text =
        "refusing to write spliced board: result no longer parses as a valid .kicad_pcb document after splicing (got head ".to_string();
    text.append(show_head(head).as_str());
    text.append(")");
    Some(IpcError { text })
}

/// Splices `sexp_block` into the board `contents`, as a clause beside the others.
pub fn splice_sexp_into_string(
    contents: &str,
    sexp_block: &str,
    log: &Vec<Reply>,
    at: usize,
) -> (s: Step<String>)
    requires
        at <= log@.len(),
    ensures
        s.deep_view() == splice_turn(contents@, sexp_block@, log@, at as int),
        s.within(at as int, log@),
{
    match hear(Request::ParseHead { text: contents.to_string() }, log, at) {
        Step::Ask(q) => Step::Ask(q),
        Step::Done(Err(e), n) => Step::Done(Err(e), n),
        Step::Done(Ok(Reply::Head(head)), n) => {
            if let Some(e) = refuse_contents(head) {
                return Step::Done(Err(e), n);
            }
            let out = match insert_before_last_paren(contents, sexp_block) {
                Some(out) => out,
                None => {
                    return Step::Done(Err(error("board contents have no closing paren")), n);
                },
            };
            match hear(Request::ParseHead { text: out.clone() }, log, n) {
                Step::Ask(q) => Step::Ask(q),
                Step::Done(Err(e), m) => Step::Done(Err(e), m),
                Step::Done(Ok(Reply::Head(head)), m) => {
                    if let Some(e) = refuse_spliced(head) {
                        return Step::Done(Err(e), m);
                    }
                    Step::Done(Ok(out), m)
                },
                Step::Done(Ok(_), m) => Step::Done(Err(unreadable_error()), m),
            }
        },
        Step::Done(Ok(_), n) => Step::Done(Err(unreadable_error()), n),
    }
}

} // verus!
