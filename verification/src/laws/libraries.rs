//! How the file of a footprint is found, step by step.
use vstd::prelude::*;
use vstd::string::*;

use crate::laws::placing::goes_by;
use crate::laws::reading::fails_at;
use crate::laws::texts::{
    a_search_finds_the_first_place, a_text_is_contained_if_it_stands_there, holds, stands_at,
};
use crate::library::{
    expand_turn, find_line, join_turn, library_uri, line_end, locate_turn, read_text_turn,
    resolve_footprint_turn,
};
use crate::talk::{Query, Reply, Turn};
use crate::text::{contains, find_text, find_text_is_first};

verus! {

// ------------------------------------------------------------ the table

/// The characters from `start` to `end` are a line of the text: no line feed is among them, and
/// they are preceded and followed by one, or by the start and the end of the text.
pub open spec fn is_line(text: Seq<char>, start: int, end: int) -> bool {
    &&& 0 <= start < text.len()
    &&& start <= end <= text.len()
    &&& start == 0 || text[start - 1] == '\n'
    &&& end == text.len() || text[end] == '\n'
    &&& forall|i: int| start <= i < end ==> #[trigger] text[i] != '\n'
}

proof fn a_line_ends_at_its_line_feed(text: Seq<char>, start: int)
    requires
        0 <= start < text.len(),
        start == 0 || text[start - 1] == '\n',
    ensures
        is_line(text, start, line_end(text, start)),
        forall|end: int| #[trigger] is_line(text, start, end) ==> end == line_end(text, start),
{
    reveal_strlit("\n");
    find_text_is_first(text, "\n"@, start);
    assert forall|i: int| crate::text::occurs_at(text, "\n"@, i) <==> 0 <= i < text.len()
        && #[trigger] text[i] == '\n' by {
        if 0 <= i < text.len() {
            assert(text.subrange(i, i + 1)[0] == text[i]);
            if text[i] == '\n' {
                assert(text.subrange(i, i + 1) =~= "\n"@);
            }
        }
    }
    let last = line_end(text, start);
    assert forall|i: int| start <= i < last implies #[trigger] text[i] != '\n' by {
        assert(!crate::text::occurs_at(text, "\n"@, i));
    }
    assert forall|end: int| #[trigger] is_line(text, start, end) implies end == last by {
        if end < last {
            assert(text[end] == '\n');
        } else if last < end {
            assert(text[last] != '\n');
        }
    }
}

/// No line of the text that starts from `from` on and before `to` holds `part`.
pub open spec fn no_line_holds(text: Seq<char>, part: Seq<char>, from: int, to: int) -> bool {
    forall|start: int, end: int| #[trigger]
        is_line(text, start, end) && from <= start < to ==> !holds(text.subrange(start, end), part)
}

proof fn the_first_line_is_found_from(text: Seq<char>, part: Seq<char>, from: int)
    requires
        0 <= from,
        from == 0 || from > text.len() || text[from - 1] == '\n',
    ensures
        match find_line(text, part, from) {
            Some(line) => exists|start: int, end: int|
                {
                    &&& from <= start
                    &&& #[trigger] is_line(text, start, end)
                    &&& line == text.subrange(start, end)
                    &&& holds(line, part)
                    &&& no_line_holds(text, part, from, start)
                },
            None => no_line_holds(text, part, from, text.len() as int),
        },
    decreases text.len() + 1 - from,
{
    if from < text.len() {
        let end = line_end(text, from);
        a_line_ends_at_its_line_feed(text, from);
        let line = text.subrange(from, end);
        a_text_is_contained_if_it_stands_there(line, part);
        if contains(line, part) {
            assert(is_line(text, from, end));
            assert(no_line_holds(text, part, from, from));
        } else {
            if end < text.len() {
                assert(text[end] == '\n');
            }
            the_first_line_is_found_from(text, part, end + 1);
            assert forall|start: int, stop: int| #[trigger]
                is_line(text, start, stop) && from <= start < end + 1 implies !holds(
                text.subrange(start, stop),
                part,
            ) by {
                if start > from {
                    assert(text[start - 1] == '\n');
                    assert(start - 1 < end);
                }
                assert(start == from);
            }
        }
    }
}

/// The line that is looked for is the first one in which the text stands.
pub proof fn the_first_line_with_the_text_is_found(text: Seq<char>, part: Seq<char>)
    ensures
        match find_line(text, part, 0) {
            Some(line) => exists|start: int, end: int|
                {
                    &&& #[trigger] is_line(text, start, end)
                    &&& line == text.subrange(start, end)
                    &&& holds(line, part)
                    &&& no_line_holds(text, part, 0, start)
                },
            None => no_line_holds(text, part, 0, text.len() as int),
        },
{
    the_first_line_is_found_from(text, part, 0);
}

/// The line holds `uri` in quotes after `(uri `, and no earlier `(uri "` stands in it.
pub open spec fn has_uri(line: Seq<char>, before: Seq<char>, uri: Seq<char>, after: Seq<char>) -> bool {
    &&& line == before + "(uri \""@ + uri + "\""@ + after
    &&& !uri.contains('"')
    &&& forall|i: int| 0 <= i < before.len() ==> !#[trigger] stands_at(line, "(uri \""@, i)
}

proof fn the_uri_is_found(line: Seq<char>, before: Seq<char>, uri: Seq<char>, after: Seq<char>)
    requires
        has_uri(line, before, uri, after),
    ensures
        find_text(line, "(uri \""@, 0) == Some(before.len() as int),
        find_text(line, "\""@, (before.len() + 6) as int) == Some(
            (before.len() + 6 + uri.len()) as int,
        ),
        line.subrange((before.len() + 6) as int, (before.len() + 6 + uri.len()) as int) == uri,
{
    reveal_strlit("(uri \"");
    reveal_strlit("\"");
    let start = before.len() as int;
    let quote = start + 6 + uri.len();
    assert(stands_at(line, "(uri \""@, start)) by {
        assert forall|k: int| 0 <= k < 6 implies line[start + k] == #[trigger] "(uri \""@[k] by {}
    }
    a_search_finds_the_first_place(line, "(uri \""@, 0, start);
    assert(stands_at(line, "\""@, quote)) by {
        assert forall|k: int| 0 <= k < 1 implies line[quote + k] == #[trigger] "\""@[k] by {}
    }
    assert forall|i: int| start + 6 <= i < quote implies !#[trigger] stands_at(line, "\""@, i) by {
        if stands_at(line, "\""@, i) {
            assert(line[i + 0] == "\""@[0]);
            assert(line[i] == uri[i - start - 6]);
            assert(uri.contains(uri[i - start - 6]));
        }
    }
    a_search_finds_the_first_place(line, "\""@, start + 6, quote);
    assert(line.subrange(start + 6, quote) =~= uri);
}

/// The place of a library is what stands in quotes after `(uri ` in the first line of the table
/// that has the name of the library in quotes after `(name `.
pub proof fn the_uri_of_a_library_is_in_its_line(table: Seq<char>, library: Seq<char>)
    ensures
        match find_line(table, "(name \""@ + library + "\")"@, 0) {
            None => library_uri(table, library) == Err::<Seq<char>, Seq<char>>(
                "footprint library '"@ + library + "' not found in fp-lib-table"@,
            ),
            Some(line) => {
                &&& forall|before: Seq<char>, uri: Seq<char>, after: Seq<char>| #[trigger]
                    has_uri(line, before, uri, after) ==> library_uri(table, library) == Ok::<
                        Seq<char>,
                        Seq<char>,
                    >(uri)
                &&& library_uri(table, library) matches Ok(uri) ==> exists|
                    before: Seq<char>,
                    after: Seq<char>,
                | #[trigger] has_uri(line, before, uri, after)
                &&& library_uri(table, library) matches Err(e) ==> e
                    == "malformed fp-lib-table entry for '"@ + library + "'"@
            },
        },
{
    reveal_strlit("(uri \"");
    reveal_strlit("\"");
    if let Some(line) = find_line(table, "(name \""@ + library + "\")"@, 0) {
        assert forall|before: Seq<char>, uri: Seq<char>, after: Seq<char>| #[trigger]
            has_uri(line, before, uri, after) implies library_uri(table, library) == Ok::<
            Seq<char>,
            Seq<char>,
        >(uri) by {
            the_uri_is_found(line, before, uri, after);
        }
        if let Ok(uri) = library_uri(table, library) {
            let start = find_text(line, "(uri \""@, 0)->0;
            let quote = find_text(line, "\""@, start + 6)->0;
            find_text_is_first(line, "(uri \""@, 0);
            find_text_is_first(line, "\""@, start + 6);
            a_search_finds_the_first_place(line, "(uri \""@, 0, start);
            a_search_finds_the_first_place(line, "\""@, start + 6, quote);
            let before = line.subrange(0, start);
            let after = line.subrange(quote + 1, line.len() as int);
            assert(stands_at(line, "(uri \""@, start));
            assert(stands_at(line, "\""@, quote));
            assert(line[quote + 0] == "\""@[0]);
            assert forall|k: int| 0 <= k < 6 implies line[start + k] == #[trigger] "(uri \""@[k] by {}
            let whole = before + "(uri \""@ + uri + "\""@ + after;
            assert forall|i: int| 0 <= i < line.len() implies line[i] == whole[i] by {
                if start <= i < start + 6 {
                    assert(line[start + (i - start)] == "(uri \""@[i - start]);
                }
            }
            assert(line =~= whole);
            assert forall|i: int| 0 <= i < uri.len() implies uri[i] != '"' by {
                if uri[i] == '"' {
                    assert forall|k: int| 0 <= k < 1 implies line[start + 6 + i + k]
                        == #[trigger] "\""@[k] by {}
                    assert(stands_at(line, "\""@, start + 6 + i));
                }
            }
            assert(has_uri(line, before, uri, after));
        }
    }
}

// ------------------------------------------------------------ the file

/// A path in a directory is asked for as it is given.
pub proof fn a_path_is_joined(dir: Seq<char>, file: Seq<char>, log: Seq<Reply>, at: int)
    requires
        0 <= at <= log.len(),
    ensures
        log.len() == at ==> join_turn(dir, file, log, at) == Turn::<Seq<char>>::Ask(
            Query::JoinPath { dir, file },
        ),
        log.len() > at ==> match log[at] {
            Reply::Text(path) => join_turn(dir, file, log, at) == Turn::Done(
                Ok::<Seq<char>, Seq<char>>(path@),
                at + 1,
            ),
            _ => fails_at(join_turn(dir, file, log, at), log, at),
        },
{
}

/// What a file holds is what is read from it; if it cannot be read, the error names it.
pub proof fn a_text_is_read_from_its_file(path: Seq<char>, what: Seq<char>, log: Seq<Reply>, at: int)
    requires
        0 <= at <= log.len(),
    ensures
        log.len() == at ==> read_text_turn(path, what, log, at) == Turn::<Seq<char>>::Ask(
            Query::ReadText { path },
        ),
        log.len() > at ==> match log[at] {
            Reply::Text(text) => read_text_turn(path, what, log, at) == Turn::Done(
                Ok::<Seq<char>, Seq<char>>(text@),
                at + 1,
            ),
            _ => read_text_turn(path, what, log, at) == Turn::Done(
                Err::<Seq<char>, Seq<char>>(what + path),
                at + 1,
            ),
        },
{
}

/// The home directory that the reply names, or that of root.
pub open spec fn home_in(reply: Reply) -> Seq<char> {
    if reply is Text {
        reply->Text_0@
    } else {
        "/root"@
    }
}

/// The file of a footprint is named after it, in the directory that the table in the home directory
/// gives for its library, with the variables in it replaced.
pub proof fn a_footprint_file_is_found_by_the_table(
    library: Seq<char>,
    footprint: Seq<char>,
    log: Seq<Reply>,
    at: int,
)
    requires
        0 <= at <= log.len(),
    ensures
        ({
            let turn = locate_turn(library, footprint, log, at);
            &&& log.len() == at ==> turn == Turn::<Seq<char>>::Ask(Query::EnvVar { name: "HOME"@ })
            &&& log.len() > at ==> {
                let joined = join_turn(
                    home_in(log[at]),
                    ".config/kicad/10.0/fp-lib-table"@,
                    log,
                    at + 1,
                );
                &&& goes_by(turn, joined)
                &&& joined matches Turn::Done(Ok(path), n) ==> {
                    let read = read_text_turn(path, "could not read fp-lib-table at "@, log, n);
                    &&& goes_by(turn, read)
                    &&& read matches Turn::Done(Ok(table), m) ==> match library_uri(table, library) {
                        Err(e) => turn == Turn::Done(Err::<Seq<char>, Seq<char>>(e), m),
                        Ok(uri) => {
                            let expanded = expand_turn(uri, 0, seq![], log, m);
                            &&& goes_by(turn, expanded)
                            &&& expanded matches Turn::Done(Ok(dir), k) ==> turn == join_turn(
                                dir,
                                footprint + ".kicad_mod"@,
                                log,
                                k,
                            )
                        },
                    }
                }
            }
        }),
{
}

/// An identifier of a footprint is the name of its library and its own name, with the first colon
/// between them.
pub proof fn an_identifier_has_a_library_and_a_footprint(
    library: Seq<char>,
    footprint: Seq<char>,
    log: Seq<Reply>,
    at: int,
)
    requires
        !library.contains(':'),
    ensures
        resolve_footprint_turn(library + ":"@ + footprint, log, at) == locate_turn(
            library,
            footprint,
            log,
            at,
        ),
{
    reveal_strlit(":");
    let id = library + ":"@ + footprint;
    let colon = library.len() as int;
    assert(stands_at(id, ":"@, colon)) by {
        assert forall|k: int| 0 <= k < 1 implies id[colon + k] == #[trigger] ":"@[k] by {}
    }
    assert forall|i: int| 0 <= i < colon implies !#[trigger] stands_at(id, ":"@, i) by {
        if stands_at(id, ":"@, i) {
            assert(id[i + 0] == ":"@[0]);
            assert(id[i] == library[i]);
            assert(library.contains(library[i]));
        }
    }
    a_search_finds_the_first_place(id, ":"@, 0, colon);
    assert(id.subrange(0, colon) =~= library);
    assert(id.subrange(colon + 1, id.len() as int) =~= footprint);
}

/// An identifier without a colon is refused.
pub proof fn an_identifier_needs_a_colon(lib_id: Seq<char>, log: Seq<Reply>, at: int)
    requires
        !lib_id.contains(':'),
    ensures
        resolve_footprint_turn(lib_id, log, at) == Turn::Done(
            Err::<Seq<char>, Seq<char>>(
                "footprint id '"@ + lib_id + "' must be 'Library:Footprint'"@,
            ),
            at,
        ),
{
    reveal_strlit(":");
    assert forall|i: int| 0 <= i implies !#[trigger] stands_at(lib_id, ":"@, i) by {
        if stands_at(lib_id, ":"@, i) {
            assert(lib_id[i + 0] == ":"@[0]);
            assert(lib_id.contains(lib_id[i]));
        }
    }
    a_search_finds_the_first_place(lib_id, ":"@, 0, 0);
}

} // verus!
