//! Packed messages, and reading an item's identifier out of one.
use prost::encoding::{decode_key, skip_field, DecodeContext, WireType};
use vstd::prelude::*;
use vstd::string::*;
use vstd::utf8::{
    decode_utf8, encode_utf8, encode_utf8_decode_utf8, encode_utf8_valid_utf8, valid_utf8,
};

use crate::text::copy_bytes;

verus! {

/// A protobuf message of any type: the URL of its type and its encoding.
#[derive(Debug)]
pub struct Any {
    pub type_url: String,
    pub value: Vec<u8>,
}

/// What an `Any` holds.
pub struct AnyModel {
    pub type_url: Seq<char>,
    pub value: Seq<u8>,
}

impl DeepView for Any {
    type V = AnyModel;

    open spec fn deep_view(&self) -> AnyModel {
        AnyModel { type_url: self.type_url@, value: self.value@ }
    }
}

/// The message of type `message_type` with the encoding `value`, packed.
pub open spec fn packed(value: Seq<u8>, message_type: Seq<char>) -> AnyModel {
    AnyModel { type_url: "type.googleapis.com/"@ + message_type, value }
}

/// Packs the encoding of a message, with the URL of its type.
pub fn pack_any(value: Vec<u8>, message_type: &str) -> (any: Any)
    ensures
        any.deep_view() == packed(value@, message_type@),
{
    let mut type_url = "type.googleapis.com/".to_string();
    type_url.append(message_type);
    Any { type_url, value }
}

/// A copy of a packed message.
pub fn copy_any(any: &Any) -> (r: Any)
    ensures
        r.deep_view() == any.deep_view(),
{
    Any { type_url: any.type_url.clone(), value: copy_bytes(&any.value) }
}

/// A copy of a list of packed messages.
pub fn copy_anys(v: &Vec<Any>) -> (r: Vec<Any>)
    ensures
        r.deep_view() == v.deep_view(),
{
    let mut r: Vec<Any> = Vec::new();
    let mut i: usize = 0;
    while i < v.len()
        invariant
            i <= v@.len(),
            r@.len() == i,
            forall|j: int| 0 <= j < i ==> r@[j].deep_view() == v@[j].deep_view(),
        decreases v@.len() - i,
    {
        r.push(copy_any(&v[i]));
        i = i + 1;
    }
    assert(r.deep_view() =~= v.deep_view());
    r
}

// ------------------------------------------------------------ numbers, fields

/// The number that `bytes` start with, and the bytes after it: seven bits to a byte, the lowest
/// first, and the highest bit set in all bytes but the last. A number takes `left` bytes at
/// most, and the last of these holds one bit.
pub open spec fn number_within(bytes: Seq<u8>, left: nat) -> Option<(nat, Seq<u8>)>
    decreases left,
{
    if left == 0 || bytes.len() == 0 {
        None
    } else if bytes[0] < 128 {
        if left == 1 && bytes[0] >= 2 {
            None
        } else {
            Some((bytes[0] as nat, bytes.skip(1)))
        }
    } else {
        match number_within(bytes.skip(1), (left - 1) as nat) {
            Some((high, rest)) => Some(((bytes[0] - 128 + 128 * high) as nat, rest)),
            None => None,
        }
    }
}

/// The number of up to 64 bits that `bytes` start with, and the bytes after it.
pub open spec fn number_at(bytes: Seq<u8>) -> Option<(nat, Seq<u8>)> {
    number_within(bytes, 10)
}

/// The field that the encoding `bytes` starts with: its tag, its wire type, and the bytes after
/// its key. The wire type is in the lowest three bits of the key, the tag above them. `None` if
/// `bytes` does not start with the key of a field.
pub open spec fn field_key(bytes: Seq<u8>) -> Option<(nat, nat, Seq<u8>)> {
    match number_at(bytes) {
        Some((key, rest)) if 8 <= key <= u32::MAX && key % 8 < 6 => Some((key / 8, key % 8, rest)),
        _ => None,
    }
}

/// What is left of `bytes` after its first `n`.
pub open spec fn after_bytes(bytes: Seq<u8>, n: nat) -> Option<Seq<u8>> {
    if n <= bytes.len() {
        Some(bytes.skip(n as int))
    } else {
        None
    }
}

/// What is left of `bytes` after a value of the given wire type, which is not that of a group:
/// a number, eight bytes, a length and as many bytes, or four bytes.
pub open spec fn after_plain_value(bytes: Seq<u8>, wire_type: nat) -> Option<Seq<u8>> {
    if wire_type == 0 {
        match number_at(bytes) {
            Some((_, rest)) => Some(rest),
            None => None,
        }
    } else if wire_type == 1 {
        after_bytes(bytes, 8)
    } else if wire_type == 2 {
        match number_at(bytes) {
            Some((len, rest)) => after_bytes(rest, len),
            None => None,
        }
    } else if wire_type == 5 {
        after_bytes(bytes, 4)
    } else {
        None
    }
}

/// What is left of `bytes` after the value of a field with this wire type and tag, with groups in
/// it `depth` deep at most. `None` if no such value stands at its start.
pub open spec fn after_value(bytes: Seq<u8>, wire_type: nat, tag: nat, depth: nat) -> Option<
    Seq<u8>,
>
    decreases depth, bytes.len(), 1nat,
{
    if depth == 0 {
        None
    } else if wire_type == 3 {
        after_group(bytes, tag, depth)
    } else {
        after_plain_value(bytes, wire_type)
    }
}

/// What is left of `bytes` after the fields of a group with this tag: fields, and then the key
/// that ends the group.
pub open spec fn after_group(bytes: Seq<u8>, tag: nat, depth: nat) -> Option<Seq<u8>>
    decreases depth, bytes.len(), 0nat,
{
    match field_key(bytes) {
        Some((inner, wire_type, rest)) if depth > 0 && rest.len() < bytes.len() => if wire_type
            == 4 {
            if inner == tag {
                Some(rest)
            } else {
                None
            }
        } else {
            match after_value(rest, wire_type, inner, (depth - 1) as nat) {
                Some(next) if next.len() <= rest.len() => after_group(next, tag, depth),
                _ => None,
            }
        },
        _ => None,
    }
}

/// How deep groups may be nested in an item, which is the outermost message.
pub const ITEM_DEPTH: u32 = 100;

/// How deep groups may be nested in the message of an identifier, which is inside an item.
pub const KIID_DEPTH: u32 = 99;

/// The text that `bytes` start with, as the value of a field with this wire type, and the bytes
/// after it: a length and as many bytes of UTF-8. `None` if no such value stands there.
pub open spec fn text_value(bytes: Seq<u8>, wire_type: nat) -> Option<(Seq<char>, Seq<u8>)> {
    match number_at(bytes) {
        Some((len, rest)) if wire_type == 2 && len <= rest.len() && valid_utf8(
            rest.take(len as int),
        ) => Some((decode_utf8(rest.take(len as int)), rest.skip(len as int))),
        _ => None,
    }
}

/// What the fields that `bytes` start with make of the text `before`, until `left` bytes are left:
/// the field with tag one replaces it, every other field is passed over. `None` if the fields
/// cannot be read, or do not end there.
pub open spec fn text_after(bytes: Seq<u8>, left: nat, before: Seq<char>) -> Option<Seq<char>>
    decreases bytes.len(),
{
    if bytes.len() < left {
        None
    } else if bytes.len() == left {
        Some(before)
    } else {
        match field_key(bytes) {
            Some((tag, wire_type, rest)) if rest.len() < bytes.len() => if tag == 1 {
                match text_value(rest, wire_type) {
                    Some((text, next)) if next.len() <= rest.len() => text_after(next, left, text),
                    _ => None,
                }
            } else {
                match after_value(rest, wire_type, tag, KIID_DEPTH as nat) {
                    Some(next) if next.len() <= rest.len() => text_after(next, left, before),
                    _ => None,
                }
            },
            _ => None,
        }
    }
}

/// The identifier that `bytes` start with, as the value of a field with this wire type, and the
/// bytes after it: a length and as many bytes of a message, which has the text at tag one. If the
/// message does not have it, the text is `before`. `None` if no such value stands there.
pub open spec fn kiid_value(bytes: Seq<u8>, wire_type: nat, before: Seq<char>) -> Option<
    (Seq<char>, Seq<u8>),
> {
    match number_at(bytes) {
        Some((len, rest)) if wire_type == 2 && len <= rest.len() => match text_after(
            rest,
            (rest.len() - len) as nat,
            before,
        ) {
            Some(text) => Some((text, rest.skip(len as int))),
            None => None,
        },
        _ => None,
    }
}

// ------------------------------------------------------------ encodings

/// The encoding of a number.
pub open spec fn number_bytes(n: nat) -> Seq<u8>
    decreases n,
{
    if n < 128 {
        seq![n as u8]
    } else {
        seq![(n % 128 + 128) as u8] + number_bytes(n / 128)
    }
}

/// A value with its length before it.
pub open spec fn delimited(value: Seq<u8>) -> Seq<u8> {
    number_bytes(value.len()) + value
}

/// The encoding of an identifier: a message with the text at tag one, unless it is empty.
pub open spec fn kiid_bytes(id: Seq<char>) -> Seq<u8> {
    if id.len() == 0 {
        seq![]
    } else {
        seq![0x0au8] + delimited(encode_utf8(id))
    }
}

/// The field that holds an item's identifier.
pub open spec fn kiid_field(id: Seq<char>) -> Seq<u8> {
    seq![0x0au8] + delimited(kiid_bytes(id))
}

/// The value of a field, as it is encoded.
pub enum FieldValue {
    /// A number, a truth value or an element of an enumeration.
    Number(u64),
    /// A 64-bit value of fixed width.
    Eight(Seq<u8>),
    /// A text, a message, or a packed list.
    Bytes(Seq<u8>),
    /// A 32-bit value of fixed width.
    Four(Seq<u8>),
}

impl FieldValue {
    pub open spec fn wire_type(self) -> nat {
        match self {
            FieldValue::Number(_) => 0,
            FieldValue::Eight(_) => 1,
            FieldValue::Bytes(_) => 2,
            FieldValue::Four(_) => 5,
        }
    }

    pub open spec fn bytes(self) -> Seq<u8> {
        match self {
            FieldValue::Number(n) => number_bytes(n as nat),
            FieldValue::Eight(bytes) => bytes,
            FieldValue::Bytes(bytes) => delimited(bytes),
            FieldValue::Four(bytes) => bytes,
        }
    }

    /// A value of fixed width has that width.
    pub open spec fn wf(self) -> bool {
        match self {
            FieldValue::Eight(bytes) => bytes.len() == 8,
            FieldValue::Four(bytes) => bytes.len() == 4,
            _ => true,
        }
    }
}

/// A field of a message.
pub struct FieldModel {
    pub tag: nat,
    pub value: FieldValue,
}

impl FieldModel {
    pub open spec fn bytes(self) -> Seq<u8> {
        number_bytes(8 * self.tag + self.value.wire_type()) + self.value.bytes()
    }

    /// It is a field that an item can have beside its identifier.
    pub open spec fn wf(self) -> bool {
        2 <= self.tag < 0x2000_0000 && self.value.wf()
    }
}

/// The encoding of fields, one after the other.
pub open spec fn fields_bytes(fields: Seq<FieldModel>) -> Seq<u8>
    decreases fields.len(),
{
    if fields.len() == 0 {
        seq![]
    } else {
        fields[0].bytes() + fields_bytes(fields.drop_first())
    }
}

/// The encoding of a board item: its identifier, if it has one, and its other fields.
pub open spec fn item_bytes(id: Option<Seq<char>>, others: Seq<FieldModel>) -> Seq<u8> {
    match id {
        Some(id) => kiid_field(id) + fields_bytes(others),
        None => fields_bytes(others),
    }
}

// ------------------------------------------------------------ reading with prost

/// `prost::encoding::decode_key`, which reads the key of a field. The claim is that it reads the
/// number that the bytes start with, takes the tag and the wire type from it, and fails where
/// there is no number of up to 64 bits, or where the number is no key.
#[verifier::external_body]
fn read_key(bytes: &[u8]) -> (r: Option<(u32, u64, &[u8])>)
    ensures
        match r {
            Some(key) => field_key(bytes@) == Some((key.0 as nat, key.1 as nat, key.2@)),
            None => field_key(bytes@) is None,
        },
{
    let mut rest = bytes;
    match decode_key(&mut rest) {
        Ok((tag, wire_type)) => Some((tag, wire_type as u64, rest)),
        Err(_) => None,
    }
}

/// `prost::encoding::skip_field` in a message at the outermost level, which passes over a value.
/// The claim is that it passes over a number, over four or eight bytes, over a length and as many
/// bytes, or over a group up to its end, by the wire type; and that it fails where these are not
/// there, for the end of a group, and for groups that are nested too deep.
#[verifier::external_body]
fn skip_value(bytes: &[u8], wire_type: u64, tag: u32) -> (r: Option<&[u8]>)
    requires
        wire_type < 6,
    ensures
        match r {
            Some(rest) => after_value(bytes@, wire_type as nat, tag as nat, ITEM_DEPTH as nat)
                == Some(rest@),
            None => after_value(bytes@, wire_type as nat, tag as nat, ITEM_DEPTH as nat) is None,
        },
{
    let mut rest = bytes;
    let kind = WireType::try_from(wire_type).ok()?;
    match skip_field(kind, tag, &mut rest, DecodeContext::default()) {
        Ok(()) => Some(rest),
        Err(_) => None,
    }
}

/// `prost::encoding::message::merge` into a `String`, which prost reads as the message with one
/// text at tag one: the shape of an identifier. The claim is that it reads a length and the fields
/// in as many bytes, of which the last one with tag one says the text; that without such a field
/// the text before stays; and that it fails where the fields cannot be read, do not end where they
/// should, or hold a text that is not UTF-8, or where the wire type is another.
#[verifier::external_body]
fn read_kiid(bytes: &[u8], wire_type: u64, before: String) -> (r: Option<(String, &[u8])>)
    requires
        wire_type < 6,
    ensures
        match r {
            Some(v) => kiid_value(bytes@, wire_type as nat, before@) == Some((v.0@, v.1@)),
            None => kiid_value(bytes@, wire_type as nat, before@) is None,
        },
{
    let mut rest = bytes;
    let mut value = before;
    let kind = WireType::try_from(wire_type).ok()?;
    match prost::encoding::message::merge(kind, &mut value, &mut rest, DecodeContext::default()) {
        Ok(()) => Some((value, rest)),
        Err(_) => None,
    }
}

// ------------------------------------------------------------ the identifier of an item

/// What the fields in `bytes` make of the identifier `id` read so far: the field with tag one
/// sets it, every other field is passed over. `None` if the fields cannot be read to the end.
pub open spec fn kiid_after(bytes: Seq<u8>, id: Option<Seq<char>>) -> Option<Option<Seq<char>>>
    decreases bytes.len(),
{
    if bytes.len() == 0 {
        Some(id)
    } else {
        match field_key(bytes) {
            Some((tag, wire_type, rest)) if rest.len() < bytes.len() => if tag == 1 {
                match kiid_value(rest, wire_type, id.unwrap_or(seq![])) {
                    Some((value, next)) if next.len() <= rest.len() => kiid_after(
                        next,
                        Some(value),
                    ),
                    _ => None,
                }
            } else {
                match after_value(rest, wire_type, tag, ITEM_DEPTH as nat) {
                    Some(next) if next.len() <= rest.len() => kiid_after(next, id),
                    _ => None,
                }
            },
            _ => None,
        }
    }
}

/// The identifier of the item encoded in `bytes`: every kind of item has it at tag one.
/// `None` if there is none, or if the fields cannot be read to the end.
pub open spec fn item_kiid(bytes: Seq<u8>) -> Option<Seq<char>> {
    kiid_after(bytes, None).unwrap_or(None)
}

/// A number leaves fewer bytes than there were.
pub proof fn a_number_takes_bytes(bytes: Seq<u8>, left: nat)
    ensures
        number_within(bytes, left) matches Some((_, rest)) ==> rest.len() < bytes.len(),
    decreases left,
{
    if left > 0 && bytes.len() > 0 && bytes[0] >= 128 {
        a_number_takes_bytes(bytes.skip(1), (left - 1) as nat);
    }
}

/// One more than the greatest number that `left` bytes hold, of which the last holds one bit.
pub open spec fn number_limit(left: nat) -> nat
    decreases left,
{
    if left <= 1 {
        2
    } else {
        128 * number_limit((left - 1) as nat)
    }
}

proof fn a_number_within_is_read_back(n: nat, rest: Seq<u8>, left: nat)
    requires
        left > 0,
        n < number_limit(left),
    ensures
        number_within(number_bytes(n) + rest, left) == Some((n, rest)),
    decreases left,
{
    let bytes = number_bytes(n) + rest;
    if n < 128 {
        assert(bytes.skip(1) =~= rest);
    } else {
        assert(bytes.skip(1) =~= number_bytes(n / 128) + rest);
        a_number_within_is_read_back(n / 128, rest, (left - 1) as nat);
    }
}

/// A number of up to 64 bits is read as it was written.
pub proof fn a_number_is_read_back(n: nat, rest: Seq<u8>)
    requires
        n <= u64::MAX,
    ensures
        number_at(number_bytes(n) + rest) == Some((n, rest)),
{
    assert(n < number_limit(10)) by {
        reveal_with_fuel(number_limit, 11);
    }
    a_number_within_is_read_back(n, rest, 10);
}

proof fn a_field_is_passed_over(field: FieldModel, rest: Seq<u8>, id: Option<Seq<char>>)
    requires
        field.wf(),
        (field.bytes() + rest).len() <= u64::MAX,
    ensures
        kiid_after(field.bytes() + rest, id) == kiid_after(rest, id),
{
    let bytes = field.bytes() + rest;
    let value = field.value.bytes();
    let wire_type = field.value.wire_type();
    let key = 8 * field.tag + wire_type;
    assert(bytes =~= number_bytes(key) + (value + rest));
    a_number_is_read_back(key, value + rest);
    a_number_takes_bytes(bytes, 10);
    assert(field_key(bytes) == Some((field.tag, wire_type, value + rest)));
    match field.value {
        FieldValue::Number(n) => {
            a_number_is_read_back(n as nat, rest);
        },
        FieldValue::Bytes(inner) => {
            assert(value + rest =~= number_bytes(inner.len()) + (inner + rest));
            a_number_is_read_back(inner.len(), inner + rest);
            assert((inner + rest).skip(inner.len() as int) =~= rest);
        },
        FieldValue::Eight(inner) => {
            assert((inner + rest).skip(8) =~= rest);
        },
        FieldValue::Four(inner) => {
            assert((inner + rest).skip(4) =~= rest);
        },
    }
    assert(after_value(value + rest, wire_type, field.tag, ITEM_DEPTH as nat) == Some(rest));
}

/// Fields beside the identifier are passed over, whatever they are.
pub proof fn other_fields_are_passed_over(fields: Seq<FieldModel>, id: Option<Seq<char>>)
    requires
        forall|i: int| 0 <= i < fields.len() ==> (#[trigger] fields[i]).wf(),
        fields_bytes(fields).len() <= u64::MAX,
    ensures
        kiid_after(fields_bytes(fields), id) == Some(id),
    decreases fields.len(),
{
    if fields.len() > 0 {
        let rest = fields.drop_first();
        assert forall|i: int| 0 <= i < rest.len() implies (#[trigger] rest[i]).wf() by {
            assert(fields[i + 1].wf());
        }
        a_field_is_passed_over(fields[0], fields_bytes(rest), id);
        other_fields_are_passed_over(rest, id);
    }
}

/// A value leaves no more bytes than there were.
proof fn a_value_leaves_no_more(bytes: Seq<u8>, wire_type: nat, tag: nat, depth: nat)
    ensures
        after_value(bytes, wire_type, tag, depth) matches Some(rest) ==> rest.len() <= bytes.len(),
    decreases depth, bytes.len(), 1nat,
{
    a_number_takes_bytes(bytes, 10);
    if depth > 0 && wire_type == 3 {
        a_group_leaves_no_more(bytes, tag, depth);
    }
}

proof fn a_group_leaves_no_more(bytes: Seq<u8>, tag: nat, depth: nat)
    ensures
        after_group(bytes, tag, depth) matches Some(rest) ==> rest.len() <= bytes.len(),
    decreases depth, bytes.len(), 0nat,
{
    if let Some((inner, wire_type, rest)) = field_key(bytes) {
        if depth > 0 && rest.len() < bytes.len() && wire_type != 4 {
            if let Some(next) = after_value(rest, wire_type, inner, (depth - 1) as nat) {
                if next.len() <= rest.len() {
                    a_group_leaves_no_more(next, tag, depth);
                }
            }
        }
    }
}

/// A value with its length before it is read as it was written.
proof fn a_delimited_value_is_read_back(value: Seq<u8>, rest: Seq<u8>)
    requires
        value.len() <= u64::MAX,
    ensures
        number_at(delimited(value) + rest) == Some((value.len(), value + rest)),
        (value + rest).take(value.len() as int) == value,
        (value + rest).skip(value.len() as int) == rest,
{
    assert(delimited(value) + rest =~= number_bytes(value.len()) + (value + rest));
    a_number_is_read_back(value.len(), value + rest);
    assert((value + rest).take(value.len() as int) =~= value);
    assert((value + rest).skip(value.len() as int) =~= rest);
}

/// Ten is the key of the field at tag one with a length.
proof fn ten_is_the_first_key(value: Seq<u8>)
    ensures
        field_key(seq![0x0au8] + value) == Some((1nat, 2nat, value)),
{
    let bytes = seq![0x0au8] + value;
    assert(bytes.skip(1) =~= value);
    assert(number_at(bytes) == Some((10nat, value)));
}

/// An encoded identifier is read as it was written. An empty one says nothing, so that the text
/// before stays.
pub proof fn an_identifier_is_read_back(id: Seq<char>, rest: Seq<u8>, before: Seq<char>)
    requires
        kiid_bytes(id).len() <= u64::MAX,
    ensures
        kiid_value(delimited(kiid_bytes(id)) + rest, 2, before) == Some(
            (
                if id.len() > 0 {
                    id
                } else {
                    before
                },
                rest,
            ),
        ),
{
    let message = kiid_bytes(id);
    a_delimited_value_is_read_back(message, rest);
    if id.len() > 0 {
        let text = encode_utf8(id);
        let value = delimited(text) + rest;
        a_delimited_value_is_read_back(text, rest);
        encode_utf8_valid_utf8(id);
        encode_utf8_decode_utf8(id);
        assert(message + rest =~= seq![0x0au8] + value);
        ten_is_the_first_key(value);
        assert(text_value(value, 2) == Some((id, rest)));
        a_number_takes_bytes(value, 10);
        assert(text_after(rest, rest.len(), id) == Some(id));
        assert(text_after(message + rest, rest.len(), before) == Some(id));
    }
}

/// The encoding of an item gives the identifier that the item has, whatever its other fields are.
pub proof fn an_item_gives_its_identifier(id: Option<Seq<char>>, others: Seq<FieldModel>)
    requires
        forall|i: int| 0 <= i < others.len() ==> (#[trigger] others[i]).wf(),
        item_bytes(id, others).len() <= u64::MAX,
    ensures
        item_kiid(item_bytes(id, others)) == id,
{
    let rest = fields_bytes(others);
    if let Some(text) = id {
        a_kiid_field_is_read_back(text, rest);
    }
    other_fields_are_passed_over(others, id);
}

/// If an item starts with its identifier, that is what counts, until another one comes.
pub proof fn a_kiid_field_is_read_back(id: Seq<char>, rest: Seq<u8>)
    requires
        (kiid_field(id) + rest).len() <= u64::MAX,
    ensures
        kiid_after(kiid_field(id) + rest, None) == kiid_after(rest, Some(id)),
{
    let value = delimited(kiid_bytes(id)) + rest;
    assert(kiid_field(id) + rest =~= seq![0x0au8] + value);
    ten_is_the_first_key(value);
    an_identifier_is_read_back(id, rest, seq![]);
    assert(id.len() == 0 ==> id =~= seq![]);
}

/// Fields that are not the identifier are passed over, whatever follows them.
proof fn fields_are_passed_over(fields: Seq<FieldModel>, rest: Seq<u8>, id: Option<Seq<char>>)
    requires
        forall|i: int| 0 <= i < fields.len() ==> (#[trigger] fields[i]).wf(),
        (fields_bytes(fields) + rest).len() <= u64::MAX,
    ensures
        kiid_after(fields_bytes(fields) + rest, id) == kiid_after(rest, id),
    decreases fields.len(),
{
    if fields.len() > 0 {
        let others = fields.drop_first();
        assert forall|i: int| 0 <= i < others.len() implies (#[trigger] others[i]).wf() by {
            assert(fields[i + 1].wf());
        }
        assert(fields_bytes(fields) + rest =~= fields[0].bytes() + (fields_bytes(others) + rest));
        a_field_is_passed_over(fields[0], fields_bytes(others) + rest, id);
        fields_are_passed_over(others, rest, id);
    } else {
        assert(fields_bytes(fields) + rest =~= rest);
    }
}

/// An identifier takes the place of the one before it, unless it is empty.
proof fn an_identifier_takes_the_place(id: Seq<char>, rest: Seq<u8>, before: Option<Seq<char>>)
    requires
        id.len() > 0,
        (kiid_field(id) + rest).len() <= u64::MAX,
    ensures
        kiid_after(kiid_field(id) + rest, before) == kiid_after(rest, Some(id)),
{
    let value = delimited(kiid_bytes(id)) + rest;
    assert(kiid_field(id) + rest =~= seq![0x0au8] + value);
    ten_is_the_first_key(value);
    an_identifier_is_read_back(id, rest, before.unwrap_or(seq![]));
}

/// The identifier may stand anywhere among the fields of an item, and if it stands there more than
/// once, the last one counts.
pub proof fn the_last_identifier_counts(
    a: Seq<FieldModel>,
    first: Seq<char>,
    b: Seq<FieldModel>,
    last: Seq<char>,
    c: Seq<FieldModel>,
)
    requires
        forall|i: int| 0 <= i < a.len() ==> (#[trigger] a[i]).wf(),
        forall|i: int| 0 <= i < b.len() ==> (#[trigger] b[i]).wf(),
        forall|i: int| 0 <= i < c.len() ==> (#[trigger] c[i]).wf(),
        first.len() > 0,
        last.len() > 0,
        (fields_bytes(a) + kiid_field(first) + fields_bytes(b) + kiid_field(last) + fields_bytes(
            c,
        )).len() <= u64::MAX,
    ensures
        item_kiid(
            fields_bytes(a) + kiid_field(first) + fields_bytes(b) + kiid_field(last) + fields_bytes(
                c,
            ),
        ) == Some(last),
        item_kiid(fields_bytes(a) + kiid_field(first) + fields_bytes(b)) == Some(first),
{
    let tail = kiid_field(last) + fields_bytes(c);
    let rest = fields_bytes(b) + tail;
    let bytes = fields_bytes(a) + kiid_field(first) + fields_bytes(b) + kiid_field(last)
        + fields_bytes(c);
    assert(bytes =~= fields_bytes(a) + (kiid_field(first) + rest));
    fields_are_passed_over(a, kiid_field(first) + rest, None);
    an_identifier_takes_the_place(first, rest, None);
    fields_are_passed_over(b, tail, Some(first));
    an_identifier_takes_the_place(last, fields_bytes(c), Some(first));
    other_fields_are_passed_over(c, Some(last));
    let one = fields_bytes(a) + kiid_field(first) + fields_bytes(b);
    assert(one =~= fields_bytes(a) + (kiid_field(first) + fields_bytes(b)));
    fields_are_passed_over(a, kiid_field(first) + fields_bytes(b), None);
    an_identifier_takes_the_place(first, fields_bytes(b), None);
    other_fields_are_passed_over(b, Some(first));
}

/// An item gives no identifier if its fields cannot be read to the end, even if one has been read
/// before that: what follows is no key of a field, a value that is not there, or an identifier that
/// is no message.
pub proof fn what_cannot_be_read_gives_no_identifier(
    id: Seq<char>,
    others: Seq<FieldModel>,
    rest: Seq<u8>,
)
    requires
        forall|i: int| 0 <= i < others.len() ==> (#[trigger] others[i]).wf(),
        (kiid_field(id) + fields_bytes(others) + rest).len() <= u64::MAX,
        rest.len() > 0,
        match field_key(rest) {
            None => true,
            Some((tag, wire_type, value)) => if tag == 1 {
                wire_type != 2
            } else {
                after_value(value, wire_type, tag, 100) is None
            },
        },
    ensures
        item_kiid(kiid_field(id) + fields_bytes(others) + rest) is None,
{
    let bytes = kiid_field(id) + fields_bytes(others) + rest;
    assert(bytes =~= kiid_field(id) + (fields_bytes(others) + rest));
    a_kiid_field_is_read_back(id, fields_bytes(others) + rest);
    fields_are_passed_over(others, rest, Some(id));
}

fn read_item_kiid(item: &[u8]) -> (r: Option<String>)
    ensures
        r.deep_view() == item_kiid(item@),
{
    let mut bytes = item;
    let mut id: Option<String> = None;
    while bytes.len() > 0
        invariant
            kiid_after(bytes@, id.deep_view()) == kiid_after(item@, None),
        decreases bytes@.len(),
    {
        proof {
            a_number_takes_bytes(bytes@, 10);
        }
        let (tag, wire_type, rest) = match read_key(bytes) {
            Some(key) => key,
            None => {
                return None;
            },
        };
        proof {
            a_number_takes_bytes(rest@, 10);
            a_value_leaves_no_more(rest@, wire_type as nat, tag as nat, ITEM_DEPTH as nat);
        }
        if tag == 1 {
            let before = match id {
                Some(text) => text,
                None => String::new(),
            };
            match read_kiid(rest, wire_type, before) {
                Some((value, next)) => {
                    id = Some(value);
                    bytes = next;
                },
                None => {
                    return None;
                },
            }
        } else {
            match skip_value(rest, wire_type, tag) {
                Some(next) => {
                    bytes = next;
                },
                None => {
                    return None;
                },
            }
        }
    }
    id
}

/// Reads the identifier out of a packed board item of any kind.
///
/// What is packed comes back: the encoding of an item gives the identifier that the item has,
/// whatever its other fields are, and nothing if it has none.
pub fn extract_item_kiid(any: &Any) -> (r: Option<String>)
    ensures
        r.deep_view() == item_kiid(any.value@),
        forall|id: Option<Seq<char>>, others: Seq<FieldModel>|
            any.value@ == #[trigger] item_bytes(id, others) && (forall|i: int|
                0 <= i < others.len() ==> (#[trigger] others[i]).wf()) ==> r.deep_view() == id,
{
    let len: usize = any.value.len();
    proof {
        assert(len <= u64::MAX);
        assert forall|id: Option<Seq<char>>, others: Seq<FieldModel>|
            any.value@ == #[trigger] item_bytes(id, others) && (forall|i: int|
                0 <= i < others.len() ==> (#[trigger] others[i]).wf()) implies item_kiid(any.value@)
            == id by {
            an_item_gives_its_identifier(id, others);
        }
    }
    read_item_kiid(any.value.as_slice())
}

} // verus!
