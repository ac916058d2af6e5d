//! Finding the files of library footprints.
use konnect_ipc::library::{
    expand_env_vars, join_path, read_text, resolve_footprint_file, uri_in_table,
};
use konnect_ipc::talk::{IpcError, Reply, Step};

/// Leads a conversation with the given replies. Gives what was asked, and the result.
fn talk<T>(
    op: impl Fn(&Vec<Reply>) -> Step<T>,
    replies: Vec<Reply>,
) -> (Vec<String>, Result<T, String>) {
    let mut asked = vec![];
    let mut log: Vec<Reply> = vec![];
    let mut replies = replies.into_iter();
    loop {
        match op(&log) {
            Step::Ask(request) => {
                asked.push(format!("{request:?}"));
                log.push(replies.next().unwrap_or_else(|| panic!("no reply to {asked:?}")));
            }
            Step::Done(result, n) => {
                assert_eq!(n, log.len());
                assert!(replies.next().is_none(), "a reply was left over");
                return (asked, result.map_err(|e| e.text));
            }
        }
    }
}

fn failed(text: &str) -> Reply {
    Reply::Failed(IpcError { text: text.to_string() })
}

fn text(t: &str) -> Reply {
    Reply::Text(t.to_string())
}

const TABLE: &str = "(fp_lib_table\n  (version 7)\n  (lib (name \"Resistor_SMD\")(type \"KiCad\")\
                     (uri \"${KICAD10_FOOTPRINT_DIR}/Resistor_SMD.pretty\")(options \"\"))\r\n  \
                     (lib (name \"Plain\")(uri \"/lib/Plain.pretty\"))\n  (lib (name \"NoUri\"))\n  \
                     (lib (name \"Open\")(uri \"/lib\n)";

#[test]
fn libraries_are_looked_up_in_the_table() {
    assert_eq!(
        uri_in_table(TABLE, "Resistor_SMD").unwrap(),
        "${KICAD10_FOOTPRINT_DIR}/Resistor_SMD.pretty"
    );
    assert_eq!(uri_in_table(TABLE, "Plain").unwrap(), "/lib/Plain.pretty");
    let fails = |library| uri_in_table(TABLE, library).unwrap_err().text;
    assert_eq!(fails("Resistor"), "footprint library 'Resistor' not found in fp-lib-table");
    assert_eq!(fails("NoUri"), "malformed fp-lib-table entry for 'NoUri'");
    assert_eq!(fails("Open"), "malformed fp-lib-table entry for 'Open'");
    assert_eq!(uri_in_table("", "x").unwrap_err().text, "footprint library 'x' not found in fp-lib-table");
}

fn expand(s: &str, replies: Vec<Reply>) -> (Vec<String>, Result<String, String>) {
    talk(|log: &Vec<Reply>| expand_env_vars(s, log, 0), replies)
}

#[test]
fn variables_are_replaced_by_their_values() {
    assert_eq!(
        expand("${A}/x/${B}", vec![text("/a"), text("b")]),
        (
            vec!["EnvVar { name: \"A\" }".to_string(), "EnvVar { name: \"B\" }".to_string()],
            Ok("/a/x/b".to_string())
        )
    );
    assert_eq!(expand("x${A}y", vec![failed("not set")]).1, Ok("xy".to_string()));
    assert_eq!(expand("x${A}y", vec![text("${B}")]).1, Ok("x${B}y".to_string()));
}

#[test]
fn text_without_variables_stays() {
    for s in ["", "/plain", "$", "$x", "a$", "{x}", "$ {x}", "\u{e4}"] {
        assert_eq!(expand(s, vec![]), (vec![], Ok(s.to_string())));
    }
}

#[test]
fn an_open_variable_reaches_to_the_end() {
    assert_eq!(
        expand("a${B c", vec![text("!")]),
        (vec!["EnvVar { name: \"B c\" }".to_string()], Ok("a!".to_string()))
    );
    assert_eq!(
        expand("${", vec![text("!")]),
        (vec!["EnvVar { name: \"\" }".to_string()], Ok("!".to_string()))
    );
}

fn resolve(lib_id: &str, replies: Vec<Reply>) -> (Vec<String>, Result<String, String>) {
    talk(|log: &Vec<Reply>| resolve_footprint_file(lib_id, log, 0), replies)
}

#[test]
fn a_footprint_is_resolved_to_its_file() {
    let (asked, result) = resolve(
        "Resistor_SMD:R_0603:x",
        vec![
            text("/home/u"),
            text("/home/u/.config/kicad/10.0/fp-lib-table"),
            text(TABLE),
            text("/usr/share"),
            text("/usr/share/Resistor_SMD.pretty/R_0603:x.kicad_mod"),
        ],
    );
    assert_eq!(asked[0], "EnvVar { name: \"HOME\" }");
    assert_eq!(
        asked[1],
        "JoinPath { dir: \"/home/u\", file: \".config/kicad/10.0/fp-lib-table\" }"
    );
    assert_eq!(asked[2], "ReadText { path: \"/home/u/.config/kicad/10.0/fp-lib-table\" }");
    assert_eq!(asked[3], "EnvVar { name: \"KICAD10_FOOTPRINT_DIR\" }");
    assert_eq!(
        asked[4],
        "JoinPath { dir: \"/usr/share/Resistor_SMD.pretty\", file: \"R_0603:x.kicad_mod\" }"
    );
    assert_eq!(result.unwrap(), "/usr/share/Resistor_SMD.pretty/R_0603:x.kicad_mod");
}

#[test]
fn the_home_directory_has_a_default() {
    let (asked, result) = resolve("Plain:x", vec![failed("not set"), text("/t"), failed("gone")]);
    assert!(asked[1].starts_with("JoinPath { dir: \"/root\","));
    assert_eq!(result, Err("could not read fp-lib-table at /t".to_string()));
}

#[test]
fn an_identifier_has_a_library() {
    assert_eq!(
        resolve("R_0603", vec![]),
        (vec![], Err("footprint id 'R_0603' must be 'Library:Footprint'".to_string()))
    );
}

#[test]
fn a_library_that_is_not_in_the_table_is_an_error() {
    let (_, result) = resolve("X:y", vec![text("/h"), text("/t"), text(TABLE)]);
    assert_eq!(result, Err("footprint library 'X' not found in fp-lib-table".to_string()));
}

#[test]
fn paths_and_files_can_fail() {
    let join = |log: &Vec<Reply>| join_path("a".to_string(), "b".to_string(), log, 0);
    assert_eq!(talk(join, vec![text("a/b")]).1, Ok("a/b".to_string()));
    assert_eq!(
        talk(join, vec![Reply::Nothing]).1,
        Err("Failed to decode protobuf Any body".to_string())
    );
    let read = |log: &Vec<Reply>| read_text("/f", "cannot read ", log, 0);
    assert_eq!(talk(read, vec![text("t")]).1, Ok("t".to_string()));
    assert_eq!(talk(read, vec![failed("x")]).1, Err("cannot read /f".to_string()));
}
