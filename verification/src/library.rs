//! Finding the file of a library footprint.
use vstd::prelude::*;
use vstd::string::*;

use crate::talk::{
    exchange, hear, outcome, unreadable, unreadable_error, IpcError, Query, Reply, Request, Step,
    Turn,
};
use crate::text::{chars_of, contains, find_chars, find_text, find_text_is_first};

verus! {

// ------------------------------------------------------------ the library table

/// Where the line that starts at `from` ends.
pub open spec fn line_end(table: Seq<char>, from: int) -> int {
    match find_text(table, "\n"@, from) {
        Some(end) => end,
        None => table.len() as int,
    }
}

/// The first line at or after `from` that holds `needle`.
pub open spec fn find_line(table: Seq<char>, needle: Seq<char>, from: int) -> Option<Seq<char>>
    decreases table.len() + 1 - from,
{
    let end = line_end(table, from);
    if !(0 <= from < table.len()) {
        None
    } else if contains(table.subrange(from, end), needle) {
        Some(table.subrange(from, end))
    } else {
        proof {
            find_text_is_first(table, "\n"@, from);
        }
        find_line(table, needle, end + 1)
    }
}

/// The text for a library whose entry cannot be read.
pub open spec fn malformed_entry(library: Seq<char>) -> Seq<char> {
    "malformed fp-lib-table entry for '"@ + library + "'"@
}

/// The place of a library, as its line in the table of libraries says it: what stands in
/// quotes after `uri`.
pub open spec fn library_uri(table: Seq<char>, library: Seq<char>) -> Result<Seq<char>,Seq<char>> {
    match find_line(table, "(name \""@ + library + "\")"@, 0) {
        None => Err("footprint library '"@ + library + "' not found in fp-lib-table"@),
        Some(line) => match find_text(line, "(uri \""@, 0) {
            None => Err(malformed_entry(library)),
            Some(uri) => match find_text(line, "\""@, uri + 6) {
                None => Err(malformed_entry(library)),
                Some(end) => Ok(line.subrange(uri + 6, end)),
            },
        },
    }
}

fn find_line_text(table: &str, needle: &str) -> (r: Option<String>)
    ensures
        r.deep_view() == find_line(table@, needle@, 0),
{
    let cs = chars_of(table);
    let len: usize = cs.len();
    let mut from: usize = 0;
    while from < len
        invariant
            cs@ == table@,
            from <= len == cs@.len(),
            find_line(table@, needle@, from as int) == find_line(table@, needle@, 0),
        decreases len - from,
    {
        proof {
            find_text_is_first(table@, "\n"@, from as int);
            reveal_strlit("\n");
        }
        let end: usize = match find_chars(&cs, "\n", from) {
            Some(i) => i,
            None => len,
        };
        let line = table.substring_char(from, end);
        let line_chars = chars_of(line);
        if find_chars(&line_chars, needle, 0).is_some() {
            return Some(line.to_string());
        }
        if end == len {
            assert(find_line(table@, needle@, end + 1) is None);
            return None;
        }
        from = end + 1;
    }
    None
}

fn malformed(library: &str) -> (e: IpcError)
    ensures
        e@ == malformed_entry(library@),
{
    let mut text = "malformed fp-lib-table entry for '".to_string();
    text.append(library);
    text.append("'");
    IpcError { text }
}

/// Looks a library up in the table of libraries.
pub fn uri_in_table(table: &str, library: &str) -> (r: Result<String, IpcError>)
    ensures
        outcome(r) == library_uri(table@, library@),
{
    proof {
        reveal_strlit("(uri \"");
        reveal_strlit("\"");
    }
    let mut needle = "(name \"".to_string();
    needle.append(library);
    needle.append("\")");
    let line = match find_line_text(table, needle.as_str()) {
        Some(line) => line,
        None => {
            let mut text = "footprint library '".to_string();
            text.append(library);
            text.append("' not found in fp-lib-table");
            return Err(IpcError { text });
        },
    };
    let cs = chars_of(line.as_str());
    let len: usize = cs.len();
    let uri: usize = match find_chars(&cs, "(uri \"", 0) {
        Some(i) => i + 6,
        None => {
            return Err(malformed(library));
        },
    };
    let end: usize = match find_chars(&cs, "\"", uri) {
        Some(i) => i,
        None => {
            return Err(malformed(library));
        },
    };
    Ok(line.as_str().substring_char(uri, end).to_string())
}

// ------------------------------------------------------------ variables

/// At `i` stands a variable, `${...}`.
pub open spec fn variable_at(s: Seq<char>, i: int) -> bool {
    0 <= i && i + 1 < s.len() && s[i] == '$' && s[i + 1] == '{'
}

/// Where the name of the variable at `i` ends: at the closing brace, or with the text.
pub open spec fn name_end(s: Seq<char>, i: int) -> int {
    match find_text(s, "}"@, i + 2) {
        Some(end) => end,
        None => s.len() as int,
    }
}

/// What a variable stands for: nothing, if it has no value.
pub open spec fn variable_value(reply: Reply) -> Seq<char> {
    match reply {
        Reply::Text(value) => value@,
        _ => seq![],
    }
}

/// Replacing the variables in `s` from `i` on by their values, with `out` for what stands
/// before.
pub open spec fn expand_turn(
    s: Seq<char>,
    i: int,
    out: Seq<char>,
    log: Seq<Reply>,
    at: int,
) -> Turn<Seq<char>>
    decreases s.len() + 1 - i,
{
    if !(0 <= i < s.len()) {
        Turn::Done(Ok(out), at)
    } else if variable_at(s, i) {
        let end = name_end(s, i);
        if !(0 <= at < log.len()) {
            Turn::Ask(Query::EnvVar { name: s.subrange(i + 2, end) })
        } else {
            proof {
                find_text_is_first(s, "}"@, i + 2);
            }
            expand_turn(s, end + 1, out + variable_value(log[at]), log, at + 1)
        }
    } else {
        expand_turn(s, i + 1, out.push(s[i]), log, at)
    }
}

/// Replaces each `${NAME}` by the value of that environment variable.
pub fn expand_env_vars(s: &str, log: &Vec<Reply>, at: usize) -> (r: Step<String>)
    requires
        at <= log@.len(),
    ensures
        r.deep_view() == expand_turn(s@, 0, seq![], log@, at as int),
        r.within(at as int, log@),
{
    let cs = chars_of(s);
    let len: usize = cs.len();
    let mut out = String::new();
    let mut i: usize = 0;
    let mut here: usize = at;
    while i < len
        invariant
            cs@ == s@,
            i <= len == cs@.len(),
            at <= here <= log@.len(),
            expand_turn(s@, 0, seq![], log@, at as int) == expand_turn(
                s@,
                i as int,
                out@,
                log@,
                here as int,
            ),
        decreases len - i,
    {
        if len - i > 1 && cs[i] == '$' && cs[i + 1] == '{' {
            proof {
                find_text_is_first(s@, "}"@, i + 2);
                reveal_strlit("}");
            }
            let end: usize = match find_chars(&cs, "}", i + 2) {
                Some(e) => e,
                None => len,
            };
            if here >= log.len() {
                return Step::Ask(
                    Request::EnvVar { name: s.substring_char(i + 2, end).to_string() },
                );
            }
            if let Reply::Text(value) = &log[here] {
                out.append(value.as_str());
            } else {
                assert(out@ + Seq::<char>::empty() =~= out@);
            }
            here = here + 1;
            if end == len {
                assert(expand_turn(s@, end + 1, out@, log@, here as int) == Turn::Done(
                    Ok::<Seq<char>, Seq<char>>(out@),
                    here as int,
                ));
                return Step::Done(Ok(out), here);
            }
            i = end + 1;
        } else {
            let one = s.substring_char(i, i + 1);
            assert(out@ + one@ =~= out@.push(s@[i as int]));
            out.append(one);
            i = i + 1;
        }
    }
    Step::Done(Ok(out), here)
}

// ------------------------------------------------------------ the file

/// The reply names a path.
pub open spec fn path_of(reply: Reply) -> Option<Seq<char>> {
    match reply {
        Reply::Text(path) => Some(path@),
        _ => None,
    }
}

/// The path of `file` in `dir`.
pub open spec fn join_turn(
    dir: Seq<char>,
    file: Seq<char>,
    log: Seq<Reply>,
    at: int,
) -> Turn<Seq<char>> {
    exchange(Query::JoinPath { dir, file }, log, at).and_then(
        |reply: Reply, n: int|
            match path_of(reply) {
                Some(path) => Turn::Done(Ok(path), n),
                None => Turn::Done(Err(unreadable()), n),
            },
    )
}

/// The path of `file` in `dir`.
pub fn join_path(dir: String, file: String, log: &Vec<Reply>, at: usize) -> (s: Step<String>)
    requires
        at <= log@.len(),
    ensures
        s.deep_view() == join_turn(dir@, file@, log@, at as int),
        s.within(at as int, log@),
{
    match hear(Request::JoinPath { dir, file }, log, at) {
        Step::Ask(q) => Step::Ask(q),
        Step::Done(Err(e), n) => Step::Done(Err(e), n),
        Step::Done(Ok(Reply::Text(path)), n) => Step::Done(Ok(path.clone()), n),
        Step::Done(Ok(_), n) => Step::Done(Err(unreadable_error()), n),
    }
}

/// Reading the text file `path`. If that fails, the error is `what` and the path.
pub open spec fn read_text_turn(
    path: Seq<char>,
    what: Seq<char>,
    log: Seq<Reply>,
    at: int,
) -> Turn<Seq<char>> {
    match exchange(Query::ReadText { path }, log, at) {
        Turn::Ask(q) => Turn::Ask(q),
        Turn::Done(Ok(Reply::Text(text)), n) => Turn::Done(Ok(text@), n),
        Turn::Done(_, n) => Turn::Done(Err(what + path), n),
    }
}

/// Reads the text file `path`.
pub fn read_text(path: &str, what: &str, log: &Vec<Reply>, at: usize) -> (s: Step<String>)
    requires
        at <= log@.len(),
    ensures
        s.deep_view() == read_text_turn(path@, what@, log@, at as int),
        s.within(at as int, log@),
{
    match hear(Request::ReadText { path: path.to_string() }, log, at) {
        Step::Ask(q) => Step::Ask(q),
        Step::Done(Ok(Reply::Text(text)), n) => Step::Done(Ok(text.clone()), n),
        Step::Done(_, n) => {
            let mut text = what.to_string();
            text.append(path);
            Step::Done(Err(IpcError { text }), n)
        },
    }
}

/// The home directory, from the reply to the question for it.
pub open spec fn home_of(reply: Reply) -> Seq<char> {
    match reply {
        Reply::Text(home) => home@,
        _ => "/root"@,
    }
}

/// The text for an identifier that does not name a library and a footprint in it.
pub open spec fn bad_footprint_id(lib_id: Seq<char>) -> Seq<char> {
    "footprint id '"@ + lib_id + "' must be 'Library:Footprint'"@
}

/// Finding the file of `footprint` in `library`: the table of libraries is in the home
/// directory, and says where each library is.
pub open spec fn locate_turn(
    library: Seq<char>,
    footprint: Seq<char>,
    log: Seq<Reply>,
    at: int,
) -> Turn<Seq<char>> {
    if !(0 <= at < log.len()) {
        Turn::Ask(Query::EnvVar { name: "HOME"@ })
    } else {
        join_turn(home_of(log[at]), ".config/kicad/10.0/fp-lib-table"@, log, at + 1).and_then(
            |path: Seq<char>, n: int|
                read_text_turn(path, "could not read fp-lib-table at "@, log, n),
        ).and_then(
            |table: Seq<char>, n: int|
                match library_uri(table, library) {
                    Err(e) => Turn::Done(Err(e), n),
                    Ok(uri) => expand_turn(uri, 0, seq![], log, n),
                },
        ).and_then(
            |dir: Seq<char>, n: int| join_turn(dir, footprint + ".kicad_mod"@, log, n),
        )
    }
}

/// Finding the file of the footprint `lib_id`, which is a library and a name, with a colon
/// between them.
pub open spec fn resolve_footprint_turn(
    lib_id: Seq<char>,
    log: Seq<Reply>,
    at: int,
) -> Turn<Seq<char>> {
    match find_text(lib_id, ":"@, 0) {
        None => Turn::Done(Err(bad_footprint_id(lib_id)), at),
        Some(colon) => locate_turn(
            lib_id.subrange(0, colon),
            lib_id.subrange(colon + 1, lib_id.len() as int),
            log,
            at,
        ),
    }
}

fn locate(library: &str, footprint: &str, log: &Vec<Reply>, at: usize) -> (s: Step<String>)
    requires
        at <= log@.len(),
    ensures
        s.deep_view() == locate_turn(library@, footprint@, log@, at as int),
        s.within(at as int, log@),
{
    if at >= log.len() {
        return Step::Ask(Request::EnvVar { name: "HOME".to_string() });
    }
    let home = match &log[at] {
        Reply::Text(home) => home.clone(),
        _ => "/root".to_string(),
    };
    let (path, n) = match join_path(
        home,
        ".config/kicad/10.0/fp-lib-table".to_string(),
        log,
        at + 1,
    ) {
        Step::Done(Ok(path), n) => (path, n),
        Step::Done(Err(e), n) => {
            return Step::Done(Err(e), n);
        },
        Step::Ask(q) => {
            return Step::Ask(q);
        },
    };
    let (table, n) = match read_text(path.as_str(), "could not read fp-lib-table at ", log, n) {
        Step::Done(Ok(table), n) => (table, n),
        Step::Done(Err(e), n) => {
            return Step::Done(Err(e), n);
        },
        Step::Ask(q) => {
            return Step::Ask(q);
        },
    };
    let uri = match uri_in_table(table.as_str(), library) {
        Ok(uri) => uri,
        Err(e) => {
            return Step::Done(Err(e), n);
        },
    };
    let (dir, n) = match expand_env_vars(uri.as_str(), log, n) {
        Step::Done(Ok(dir), n) => (dir, n),
        Step::Done(Err(e), n) => {
            return Step::Done(Err(e), n);
        },
        Step::Ask(q) => {
            return Step::Ask(q);
        },
    };
    let mut file = footprint.to_string();
    file.append(".kicad_mod");
    join_path(dir, file, log, n)
}

/// Finds the file of a library footprint, given as `Library:Footprint`.
pub fn resolve_footprint_file(lib_id: &str, log: &Vec<Reply>, at: usize) -> (s: Step<String>)
    requires
        at <= log@.len(),
    ensures
        s.deep_view() == resolve_footprint_turn(lib_id@, log@, at as int),
        s.within(at as int, log@),
{
    proof {
        reveal_strlit(":");
    }
    let cs = chars_of(lib_id);
    let len: usize = cs.len();
    match find_chars(&cs, ":", 0) {
        Some(colon) => {
            let library = lib_id.substring_char(0, colon);
            let footprint = lib_id.substring_char(colon + 1, len);
            locate(library, footprint, log, at)
        },
        None => {
            let mut text = "footprint id '".to_string();
            text.append(lib_id);
            text.append("' must be 'Library:Footprint'");
            Step::Done(Err(IpcError { text }), at)
        },
    }
}

} // verus!
