//! What KiCAD says about items, and texts.
use konnect_ipc::status::{
    check_all_deleted, check_deletion_status, check_item_request_status, check_item_status,
    check_result_count, collect_kiids,
};
use konnect_ipc::talk::{IpcError, ItemResult, ItemStatus, StatusCode};
use konnect_ipc::text::{
    chars_of, decimal_text, find_chars, rfind_char, same_text, text_contains, trimmed_len,
};
use konnect_ipc::wire::Any;

fn named(ok: bool, name: &str) -> Option<StatusCode> {
    Some(if ok { StatusCode::Okay } else { StatusCode::Other(name.to_string()) })
}

fn text(r: Result<(), IpcError>) -> String {
    r.unwrap_err().text
}

#[test]
fn a_request_must_be_accepted() {
    assert!(check_item_request_status(&named(true, "IRS_OK"), "CreateItems").is_ok());
    assert_eq!(
        text(check_item_request_status(&named(false, "IRS_DOCUMENT_NOT_FOUND"), "CreateItems")),
        "CreateItems request failed: IRS_DOCUMENT_NOT_FOUND"
    );
    assert_eq!(
        text(check_item_request_status(&None, "DeleteItems")),
        "DeleteItems request failed: IRS_UNKNOWN"
    );
}

#[test]
fn an_item_must_fare_well() {
    let status = |code, message: &str| {
        Some(ItemStatus { code, error_message: message.to_string() })
    };
    assert!(check_item_status(&None, "X").is_ok());
    assert!(check_item_status(&status(named(true, "ISC_OK"), "ignored"), "X").is_ok());
    assert_eq!(
        text(check_item_status(&status(named(false, "ISC_EXISTING"), ""), "X")),
        "X failed for an item: ISC_EXISTING"
    );
    assert_eq!(
        text(check_item_status(&status(named(false, "ISC_EXISTING"), "why"), "X")),
        "X failed for an item: why"
    );
    assert_eq!(
        text(check_item_status(&status(None, ""), "X")),
        "X failed for an item: ISC_UNKNOWN"
    );
}

#[test]
fn an_item_must_be_deleted() {
    assert!(check_deletion_status(&named(true, "IDS_OK"), "X").is_ok());
    assert_eq!(
        text(check_deletion_status(&named(false, "IDS_IMMUTABLE"), "X")),
        "X failed for an item: IDS_IMMUTABLE"
    );
    assert_eq!(text(check_deletion_status(&None, "X")), "X failed for an item: IDS_UNKNOWN");
}

#[test]
fn the_first_item_that_was_not_deleted_counts() {
    let ok = || named(true, "IDS_OK");
    assert!(check_all_deleted(&vec![], "X").is_ok());
    assert!(check_all_deleted(&vec![ok(), ok()], "X").is_ok());
    assert_eq!(
        text(check_all_deleted(&vec![ok(), named(false, "A"), named(false, "B")], "X")),
        "X failed for an item: A"
    );
}

#[test]
fn there_must_be_a_result_for_every_item() {
    assert!(check_result_count(2, 2, "X").is_ok());
    assert!(check_result_count(2, 3, "X").is_ok());
    assert_eq!(
        text(check_result_count(12, 1, "X")),
        "X requested 12 item(s) but KiCAD only returned a result for 1 — the rest don't exist \
         (or are otherwise unresolvable) on the board"
    );
}

fn result(status: Option<ItemStatus>, id: Option<&str>) -> ItemResult {
    let item = id.map(|id| {
        let mut value = vec![0x0a, id.len() as u8 + 2, 0x0a, id.len() as u8];
        value.extend_from_slice(id.as_bytes());
        Any { type_url: String::new(), value }
    });
    ItemResult { status, item }
}

#[test]
fn identifiers_are_collected_in_order() {
    let results = vec![
        result(None, Some("a")),
        result(Some(ItemStatus { code: named(true, "ISC_OK"), error_message: String::new() }), Some("b")),
    ];
    assert_eq!(collect_kiids(&results, "X").unwrap(), vec!["a", "b"]);
    assert_eq!(collect_kiids(&vec![], "X").unwrap().len(), 0);
}

#[test]
fn an_item_without_identifier_spoils_the_list() {
    let unreadable = Some(Any { type_url: String::new(), value: vec![0] });
    let results = vec![
        result(None, Some("a")),
        result(None, None),
        ItemResult { status: None, item: unreadable },
    ];
    assert_eq!(
        collect_kiids(&results, "X").unwrap_err().text,
        "X reported success but only 1 of 3 item(s) came with a KIID — the rest cannot be \
         re-resolved"
    );
}

#[test]
fn one_bad_item_spoils_the_list() {
    let bad = |message: &str| {
        Some(ItemStatus { code: None, error_message: message.to_string() })
    };
    let results = vec![
        result(None, None),
        result(bad("first"), Some("a")),
        result(bad("second"), None),
    ];
    assert_eq!(
        collect_kiids(&results, "X").unwrap_err().text,
        "X failed for an item: first"
    );
}

#[test]
fn numbers_are_written_in_decimal() {
    for n in [0u64, 9, 10, 99, 100, 1_234_567_890, u64::MAX] {
        assert_eq!(decimal_text(n), n.to_string());
    }
}

#[test]
fn searches_find_the_first_place() {
    let hay = chars_of("ab\u{e4}bab");
    assert_eq!(find_chars(&hay, "b", 0), Some(1));
    assert_eq!(find_chars(&hay, "b", 2), Some(3));
    assert_eq!(find_chars(&hay, "bab", 0), Some(3));
    assert_eq!(find_chars(&hay, "x", 0), None);
    assert_eq!(find_chars(&hay, "", 6), Some(6));
    assert_eq!(find_chars(&hay, "", 7), None);
    assert_eq!(find_chars(&hay, "b", usize::MAX), None);
    assert_eq!(rfind_char(&hay, 6, 'b'), Some(5));
    assert_eq!(rfind_char(&hay, 5, 'b'), Some(3));
    assert_eq!(rfind_char(&hay, 1, 'b'), None);
    assert!(text_contains("x AS_BAD_REQUEST y", "AS_BAD_REQUEST"));
    assert!(!text_contains("AS_BAD", "AS_BAD_REQUEST"));
    assert!(same_text("a", "a") && !same_text("a", "b"));
}

#[test]
fn white_space_is_what_unicode_says() {
    for c in (0..=0x10ffffu32).filter_map(char::from_u32) {
        let alone = vec!['x', c];
        let expected = if c.is_whitespace() { 1 } else { 2 };
        assert_eq!(trimmed_len(&alone), expected, "{:x}", c as u32);
        let listed = matches!(
            c as u32,
            0x9..=0xd | 0x20 | 0x85 | 0xa0 | 0x1680 | 0x2000..=0x200a | 0x2028 | 0x2029 | 0x202f
                | 0x205f | 0x3000
        );
        assert_eq!(c.is_whitespace(), listed, "{:x}", c as u32);
    }
}
