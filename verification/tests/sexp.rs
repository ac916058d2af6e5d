//! S-expressions of board files.
use konnect_ipc::sexp::{
    insert_before_last_paren, instantiate_footprint_sexp, splice_sexp_into_string, via_sexp,
};
use konnect_ipc::talk::{IpcError, Reply, Request, Step};

/// The heads of the list that `text` is and of the lists in it, if `text` is one list.
fn heads(text: &str) -> Option<(String, Vec<String>)> {
    let text = text.trim();
    let mut depth = 0;
    let mut quoted = false;
    let mut found: Vec<(i32, String)> = vec![];
    for (i, c) in text.char_indices() {
        if quoted {
            quoted = c != '"';
            continue;
        }
        match c {
            '"' => quoted = true,
            '(' => {
                depth += 1;
                let name: String = text[i + 1..]
                    .chars()
                    .take_while(|c| !c.is_whitespace() && *c != '(' && *c != ')')
                    .collect();
                found.push((depth, name));
            }
            ')' => {
                depth -= 1;
                if depth == 0 && i + 1 != text.len() {
                    return None;
                }
            }
            _ => {}
        }
        if depth <= 0 && i + 1 != text.len() {
            return None;
        }
    }
    if depth != 0 || found.is_empty() {
        return None;
    }
    let inner = found.iter().filter(|f| f.0 == 2).map(|f| f.1.clone()).collect();
    Some((found[0].1.clone(), inner))
}

/// Splices, with every question for a head answered.
fn splice(contents: &str, block: &str) -> Result<String, IpcError> {
    let mut log: Vec<Reply> = vec![];
    loop {
        match splice_sexp_into_string(contents, block, &log, 0) {
            Step::Ask(Request::ParseHead { text }) => {
                log.push(Reply::Head(heads(&text).map(|h| h.0)))
            }
            Step::Ask(other) => panic!("unexpected request {other:?}"),
            Step::Done(result, n) => {
                assert_eq!(n, log.len());
                return result;
            }
        }
    }
}

#[test]
fn splice_sexp_into_string_rejects_non_kicad_pcb_input() {
    let err = splice("(footprint \"foo\")", "(via)")
        .expect_err("non-kicad_pcb input must not splice");
    assert!(
        err.text.contains("do not parse as a valid .kicad_pcb"),
        "unexpected error: {err:?}"
    );
}

#[test]
fn splice_sexp_into_string_rejects_truncated_input() {
    let err = splice("(kicad_pcb (version 20240101)", "(via)")
        .expect_err("truncated input must not splice");
    assert!(
        err.text.contains("do not parse as a valid .kicad_pcb"),
        "unexpected error: {err:?}"
    );
}

#[test]
fn splice_sexp_into_string_inserts_block_before_final_paren() {
    let out = splice("(kicad_pcb (version 20240101))", "(via (at 1 2))")
        .expect("valid kicad_pcb input should splice cleanly");
    assert!(out.contains("(via (at 1 2))"));
    let (head, inner) = heads(&out).expect("spliced output must reparse");
    assert_eq!(head, "kicad_pcb");
    assert!(inner.contains(&"via".to_string()));
}

#[test]
fn a_refused_splice_names_the_head() {
    let err = splice("(footprint \"foo\")", "(via)").unwrap_err();
    assert_eq!(
        err.text,
        "refusing to splice: board contents do not parse as a valid .kicad_pcb document \
         (got head Some(\"footprint\")) — likely a truncated or torn read"
    );
    let err = splice("", "(via)").unwrap_err();
    assert_eq!(
        err.text,
        "refusing to splice: board contents do not parse as a valid .kicad_pcb document \
         (got head None) — likely a truncated or torn read"
    );
}

#[test]
fn a_head_is_shown_with_escapes() {
    let log = vec![Reply::Head(Some("a\"b".to_string()))];
    match splice_sexp_into_string("x", "y", &log, 0) {
        Step::Done(Err(e), 1) => assert!(e.text.contains(r#"(got head Some("a\"b"))"#)),
        _ => panic!("expected a refusal"),
    }
}

#[test]
fn a_block_that_breaks_the_board_is_refused() {
    let err = splice("(kicad_pcb)", "(via").unwrap_err();
    assert_eq!(
        err.text,
        "refusing to write spliced board: result no longer parses as a valid .kicad_pcb \
         document after splicing (got head None)"
    );
}

#[test]
fn contents_without_a_paren_are_refused() {
    let log = vec![Reply::Head(Some("kicad_pcb".to_string()))];
    match splice_sexp_into_string("kicad_pcb", "(via)", &log, 0) {
        Step::Done(Err(e), 1) => assert_eq!(e.text, "board contents have no closing paren"),
        _ => panic!("expected a refusal"),
    }
}

#[test]
fn a_head_that_cannot_be_read_is_an_error() {
    let log = vec![Reply::Nothing];
    match splice_sexp_into_string("(kicad_pcb)", "(via)", &log, 0) {
        Step::Done(Err(e), 1) => assert_eq!(e.text, "Failed to decode protobuf Any body"),
        _ => panic!("expected an error"),
    }
}

#[test]
fn the_block_stands_on_its_own_line() {
    assert_eq!(
        insert_before_last_paren("(kicad_pcb\n\t(x)\n)\n \u{85}\u{3000}\t", "(via)").unwrap(),
        "(kicad_pcb\n\t(x)\n\n(via)\n)\n"
    );
    assert_eq!(insert_before_last_paren(") tail", "b").unwrap(), "\nb\n) tail\n");
    assert_eq!(insert_before_last_paren("  \n", "b"), None);
}

#[test]
fn characters_that_are_no_white_space_stay_at_the_end() {
    // A zero-width space is not white space.
    assert_eq!(
        insert_before_last_paren(")\u{200b} ", "b").unwrap(),
        "\nb\n)\u{200b}\n"
    );
}

#[test]
fn a_via_clause_names_its_net_without_a_code() {
    assert_eq!(
        via_sexp("GND", "1.5", "-2", "0.4", "0.8", "some-uuid"),
        "(via (at 1.5 -2) (size 0.8) (drill 0.4) (layers \"F.Cu\" \"B.Cu\") (net \"GND\") \
         (uuid \"some-uuid\"))"
    );
}

const RAW: &str = "(footprint \"R\"\n\t(layer \"F.Cu\")\n\t(property \"Reference\" \"REF**\"\n\
                   \t\t(layer \"F.SilkS\"))\n\t(fp_text user \"REF**\"))";

#[test]
fn a_footprint_is_placed_at_its_first_layer_clause() {
    assert_eq!(
        instantiate_footprint_sexp(RAW, "1", "2", "90", "B.Cu", "R1").unwrap(),
        "(footprint \"R\"\n\t(layer \"B.Cu\")\n\t(at 1 2 90)\n\t(property \"Reference\" \"R1\"\n\
         \t\t(layer \"F.SilkS\"))\n\t(fp_text user \"REF**\"))"
    );
}

#[test]
fn a_footprint_without_reference_keeps_the_placeholder() {
    let out = instantiate_footprint_sexp(RAW, "1", "2", "0", "F.Cu", "").unwrap();
    assert_eq!(out.matches("\"REF**\"").count(), 2);
}

#[test]
fn a_footprint_without_layer_clause_is_refused() {
    let fails = |raw: &str| {
        instantiate_footprint_sexp(raw, "1", "2", "0", "F.Cu", "R1").unwrap_err().text
    };
    assert_eq!(fails("(footprint)"), "footprint file has no top-level layer clause");
    assert_eq!(fails("(layer \"F.Cu"), "malformed layer clause");
    assert_eq!(fails("(layer \"F.Cu\""), "malformed layer clause");
}
