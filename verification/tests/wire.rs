//! Packed messages.
use konnect_ipc::wire::{copy_anys, extract_item_kiid, pack_any, Any};
use prost::Message;

fn item(value: Vec<u8>) -> Any {
    Any { type_url: String::new(), value }
}

/// A field with a length, with a key and a length of one byte each.
fn field(tag: u8, value: &[u8]) -> Vec<u8> {
    let mut bytes = vec![tag << 3 | 2, value.len() as u8];
    bytes.extend_from_slice(value);
    bytes
}

#[test]
fn messages_are_packed_with_the_url_of_their_type() {
    let any = pack_any(vec![1, 2], "kiapi.board.types.Track");
    assert_eq!(any.type_url, "type.googleapis.com/kiapi.board.types.Track");
    assert_eq!(any.value, vec![1, 2]);
}

#[test]
fn a_list_is_copied_item_by_item() {
    let copy = copy_anys(&vec![item(vec![1]), pack_any(vec![], "T")]);
    assert_eq!(copy.len(), 2);
    assert_eq!(copy[0].value, vec![1]);
    assert_eq!(copy[1].type_url, "type.googleapis.com/T");
}

#[test]
fn the_identifier_is_read_back() {
    let id = "7f3e2a10-0000-4000-8000-00805f9b34fb".to_string();
    let kiid = id.encode_to_vec();
    assert_eq!(extract_item_kiid(&item(field(1, &kiid))), Some(id));
}

#[test]
fn other_fields_are_passed_over() {
    let mut bytes = field(5, b"other");
    bytes.extend(field(1, &"abc".to_string().encode_to_vec()));
    // A varint, four bytes, eight bytes, and a group.
    bytes.extend([0x18, 0x96, 0x01]);
    bytes.extend([0x25, 1, 2, 3, 4]);
    bytes.extend([0x29, 1, 2, 3, 4, 5, 6, 7, 8]);
    bytes.extend([0x33, 0x08, 0x01, 0x34]);
    assert_eq!(extract_item_kiid(&item(bytes)), Some("abc".to_string()));
}

#[test]
fn the_last_identifier_counts() {
    let mut bytes = field(1, &"abc".to_string().encode_to_vec());
    bytes.extend(field(1, &"de".to_string().encode_to_vec()));
    assert_eq!(extract_item_kiid(&item(bytes)), Some("de".to_string()));
}

#[test]
fn an_empty_identifier_field_keeps_what_was_read() {
    let mut bytes = field(1, &"abc".to_string().encode_to_vec());
    bytes.extend(field(1, &[]));
    assert_eq!(extract_item_kiid(&item(bytes)), Some("abc".to_string()));
    assert_eq!(extract_item_kiid(&item(field(1, &[]))), Some(String::new()));
}

#[test]
fn an_item_without_identifier_has_none() {
    assert_eq!(extract_item_kiid(&item(vec![])), None);
    assert_eq!(extract_item_kiid(&item(field(2, b"x"))), None);
}

#[test]
fn an_item_that_cannot_be_read_has_no_identifier() {
    // Cut off, of another wire type, not UTF-8, and with no valid key.
    let good = field(1, &"abc".to_string().encode_to_vec());
    assert_eq!(extract_item_kiid(&item(good[..good.len() - 1].to_vec())), None);
    assert_eq!(extract_item_kiid(&item(vec![0x08, 0x01])), None);
    assert_eq!(extract_item_kiid(&item(field(1, &field(1, &[0xff])))), None);
    assert_eq!(extract_item_kiid(&item(vec![0x00])), None);
    assert_eq!(extract_item_kiid(&item(vec![0x07])), None);
    let mut cut = good.clone();
    cut.extend([0x22, 5, 1]);
    assert_eq!(extract_item_kiid(&item(cut)), None);
}

#[test]
fn long_identifiers_are_read_too() {
    let id = "x".repeat(300);
    let kiid = id.encode_to_vec();
    let mut bytes = vec![0x0a];
    let mut len = kiid.len();
    while len >= 0x80 {
        bytes.push(len as u8 | 0x80);
        len >>= 7;
    }
    bytes.push(len as u8);
    bytes.extend(&kiid);
    assert_eq!(extract_item_kiid(&item(bytes)), Some(id));
}

#[test]
fn long_fields_and_high_tags_are_passed_over() {
    // Tag 300, with 200 bytes; tag 536870911, the highest, with the highest number.
    let mut bytes = vec![0xe2, 0x12, 0xc8, 0x01];
    bytes.extend([7; 200]);
    bytes.extend(field(1, &"abc".to_string().encode_to_vec()));
    bytes.extend([0xf8, 0xff, 0xff, 0xff, 0x0f]);
    bytes.extend([0xff, 0xff, 0xff, 0xff, 0xff, 0xff, 0xff, 0xff, 0xff, 0x01]);
    assert_eq!(extract_item_kiid(&item(bytes.clone())), Some("abc".to_string()));
    // A number that is too long, and a key that is too high.
    bytes.pop();
    bytes.extend([0xff, 0x01]);
    assert_eq!(extract_item_kiid(&item(bytes)), None);
    assert_eq!(extract_item_kiid(&item(vec![0xf8, 0xff, 0xff, 0xff, 0x1f, 0x00])), None);
}

/// So many groups with tag six, one inside the other.
fn groups(depth: usize) -> Vec<u8> {
    let mut bytes = vec![0x33; depth];
    bytes.extend(vec![0x34; depth]);
    bytes
}

#[test]
fn groups_may_be_nested_a_hundred_deep() {
    let id = field(1, &"abc".to_string().encode_to_vec());
    let after = |depth| {
        let mut bytes = groups(depth);
        bytes.extend(&id);
        extract_item_kiid(&item(bytes))
    };
    assert_eq!(after(1), Some("abc".to_string()));
    assert_eq!(after(100), Some("abc".to_string()));
    assert_eq!(after(101), None);
    // In the message of an identifier, which is one level down, one less.
    let inside = |depth| {
        let mut message = groups(depth);
        message.extend("abc".to_string().encode_to_vec());
        let mut bytes = vec![0x0a, (message.len() % 128) as u8 | 0x80, (message.len() / 128) as u8];
        bytes.extend(message);
        extract_item_kiid(&item(bytes))
    };
    assert_eq!(inside(99), Some("abc".to_string()));
    assert_eq!(inside(100), None);
}

#[test]
fn a_group_ends_with_its_own_tag() {
    let good = vec![0x33, 0x3b, 0x10, 0x05, 0x3c, 0x34];
    assert_eq!(extract_item_kiid(&item(good.clone())), None);
    let mut bytes = good;
    bytes.extend(field(1, b"\x0a\x01x"));
    assert_eq!(extract_item_kiid(&item(bytes)), Some("x".to_string()));
    for bad in [vec![0x33, 0x3c], vec![0x33], vec![0x34], vec![0x33, 0x3b, 0x34, 0x3c]] {
        let mut bytes = field(1, b"\x0a\x01x");
        bytes.extend(bad);
        assert_eq!(extract_item_kiid(&item(bytes)), None);
    }
}

#[test]
fn the_message_of_an_identifier_is_read_to_its_end() {
    let read = |message: &[u8]| extract_item_kiid(&item(field(1, message)));
    // Other fields in it are passed over, and the last text counts.
    assert_eq!(read(b"\x10\x05\x0a\x01x\x1a\x02zz"), Some("x".to_string()));
    assert_eq!(read(b"\x0a\x01x\x0a\x02yz"), Some("yz".to_string()));
    assert_eq!(read(b"\x0a\x01x\x0a\x00"), Some(String::new()));
    assert_eq!(read(b"\x08\x05"), None);
    // A text that goes on after the end of the message.
    let mut bytes = field(1, b"\x0a\x03a");
    bytes.extend(b"bc");
    assert_eq!(extract_item_kiid(&item(bytes)), None);
}
