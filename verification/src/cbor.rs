//! CBOR values, held as plain data.

use serde_cbor::Value;
use vstd::prelude::*;

verus! {

/// A CBOR value. A floating point number is held by its bits.
#[derive(Debug, PartialEq)]
pub enum CborItem {
    Null,
    Bool(bool),
    Integer(i128),
    Float(u64),
    Bytes(Vec<u8>),
    Text(String),
    Array(Vec<CborItem>),
    Table(Vec<(CborItem, CborItem)>),
    Tag(u64, Box<CborItem>),
}

pub enum CborView {
    Null,
    Bool(bool),
    Integer(i128),
    Float(u64),
    Bytes(Seq<u8>),
    Text(Seq<char>),
    Array(Seq<CborView>),
    Table(Seq<(CborView, CborView)>),
    Tag(u64, Box<CborView>),
}

/// A CBOR value as a mathematical value.
pub open spec fn item_view(item: CborItem) -> CborView
    decreases item,
{
    match item {
        CborItem::Null => CborView::Null,
        CborItem::Bool(b) => CborView::Bool(b),
        CborItem::Integer(i) => CborView::Integer(i),
        CborItem::Float(bits) => CborView::Float(bits),
        CborItem::Bytes(bytes) => CborView::Bytes(bytes@),
        CborItem::Text(text) => CborView::Text(text@),
        CborItem::Array(items) => CborView::Array(
            Seq::new(
                items.len() as nat,
                |k: int|
                    if 0 <= k < items.len() {
                        item_view(items[k])
                    } else {
                        CborView::Null
                    },
            ),
        ),
        CborItem::Table(entries) => CborView::Table(
            Seq::new(
                entries.len() as nat,
                |k: int|
                    if 0 <= k < entries.len() {
                        (item_view(entries[k].0), item_view(entries[k].1))
                    } else {
                        (CborView::Null, CborView::Null)
                    },
            ),
        ),
        CborItem::Tag(tag, inner) => CborView::Tag(tag, Box::new(item_view(*inner))),
    }
}

impl View for CborItem {
    type V = CborView;

    open spec fn view(&self) -> CborView {
        item_view(*self)
    }
}

/// `serde_cbor::Value`, which is only carried between the calls below.
#[verifier::external_type_specification]
#[verifier::external_body]
pub struct ExValue(Value);

/// The value that a byte string decodes to as CBOR, or the decoder's complaint.
pub uninterp spec fn cbor_decoding(bytes: Seq<u8>) -> Result<CborView, Seq<char>>;

/// The CBOR encoding of a value, or the encoder's complaint.
pub uninterp spec fn cbor_encoding(item: CborView) -> Result<Seq<u8>, Seq<char>>;

/// Copies a `serde_cbor::Value` that holds no other value into plain data.
#[verifier::external_body]
fn leaf_from_value(value: Value) -> CborItem {
    match value {
        Value::Bool(b) => CborItem::Bool(b),
        Value::Integer(i) => CborItem::Integer(i),
        Value::Float(x) => CborItem::Float(x.to_bits()),
        Value::Bytes(b) => CborItem::Bytes(b),
        Value::Text(t) => CborItem::Text(t),
        _ => CborItem::Null,
    }
}

/// Copies a `serde_cbor::Value` into plain data, variant by variant.
#[verifier::external_body]
fn from_value(value: Value) -> CborItem {
    match value {
        Value::Array(a) => CborItem::Array(a.into_iter().map(from_value).collect()),
        Value::Map(m) => CborItem::Table(m.into_iter().map(|(k, v)| (from_value(k), from_value(v))).collect()),
        Value::Tag(t, inner) => CborItem::Tag(t, Box::new(from_value(*inner))),
        leaf => leaf_from_value(leaf),
    }
}

/// Copies plain data that holds no other value into a `serde_cbor::Value`.
/// The bits of a floating point number go through the decoder, as the nine
/// bytes of a double.
#[verifier::external_body]
fn leaf_to_value(item: &CborItem) -> Value {
    match item {
        CborItem::Bool(b) => Value::Bool(*b),
        CborItem::Integer(i) => Value::Integer(*i),
        CborItem::Float(bits) => serde_cbor::from_slice(&[&[0xfb][..], &bits.to_be_bytes()[..]].concat()).unwrap_or(Value::Null),
        CborItem::Bytes(b) => Value::Bytes(b.clone()),
        CborItem::Text(t) => Value::Text(t.clone()),
        _ => Value::Null,
    }
}

/// Copies plain data into a `serde_cbor::Value`, variant by variant.
#[verifier::external_body]
fn to_value(item: &CborItem) -> Value {
    match item {
        CborItem::Array(a) => Value::Array(a.iter().map(to_value).collect()),
        CborItem::Table(m) => Value::Map(m.iter().map(|(k, v)| (to_value(k), to_value(v))).collect()),
        CborItem::Tag(t, inner) => Value::Tag(*t, Box::new(to_value(inner))),
        leaf => leaf_to_value(leaf),
    }
}

/// `serde_cbor::from_slice` to a `Value`, copied into plain data. The
/// decoded value is named; an error is handed on as its text.
#[verifier::external_body]
pub(crate) fn cbor_decode(bytes: &Vec<u8>) -> (decoded: Result<CborItem, String>)
    ensures
        match decoded {
            Ok(item) => cbor_decoding(bytes@) == Ok::<CborView, Seq<char>>(item@),
            Err(reason) => cbor_decoding(bytes@) == Err::<CborView, Seq<char>>(reason@),
        },
{
    match serde_cbor::from_slice::<Value>(bytes) {
        Ok(value) => Ok(from_value(value)),
        Err(e) => Err(e.to_string()),
    }
}

/// `serde_cbor::to_vec` on the `Value` of the same data. The encoding is
/// named; an error is handed on as its text.
#[verifier::external_body]
pub(crate) fn cbor_encode(item: &CborItem) -> (encoded: Result<Vec<u8>, String>)
    ensures
        match encoded {
            Ok(bytes) => cbor_encoding(item@) == Ok::<Seq<u8>, Seq<char>>(bytes@),
            Err(reason) => cbor_encoding(item@) == Err::<Seq<u8>, Seq<char>>(reason@),
        },
{
    match serde_cbor::to_vec(&to_value(item)) {
        Ok(bytes) => Ok(bytes),
        Err(e) => Err(e.to_string()),
    }
}

} // verus!
