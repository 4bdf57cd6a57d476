//! Arguments as JSON: the items of a JSON array, the values that they stand
//! for, and the bytes that hold them.

use vstd::prelude::*;
use crate::errors::ModelError;
use crate::search::seq_view;
use crate::value::{ConvexValue, ValueView};

verus! {

/// The error of the JSON library.
#[verifier::external_type_specification]
#[verifier::external_body]
pub struct ExJsonError(serde_json::Error);

/// One item of a JSON array, as far as arguments go: a number is kept as a
/// signed integer where it is one, an array as the unsigned integers that
/// its items are, and of an object only that it is one.
#[derive(Debug, PartialEq, Eq)]
pub enum JsonItem {
    Null,
    Bool(bool),
    Number(Option<i64>),
    String(String),
    Array(Vec<Option<u64>>),
    Object,
}

/// What a [`JsonItem`] holds.
pub enum JsonItemView {
    Null,
    Bool(bool),
    Number(Option<i64>),
    String(Seq<char>),
    Array(Seq<Option<u64>>),
    Object,
}

impl View for JsonItem {
    type V = JsonItemView;

    open spec fn view(&self) -> JsonItemView {
        match *self {
            JsonItem::Null => JsonItemView::Null,
            JsonItem::Bool(b) => JsonItemView::Bool(b),
            JsonItem::Number(n) => JsonItemView::Number(n),
            JsonItem::String(s) => JsonItemView::String(s@),
            JsonItem::Array(items) => JsonItemView::Array(items@),
            JsonItem::Object => JsonItemView::Object,
        }
    }
}

/// The items of the JSON array that the bytes hold: none where the bytes are
/// no JSON array.
pub uninterp spec fn spec_json_items(bytes: Seq<u8>) -> Option<Seq<JsonItemView>>;

/// The bytes of the JSON array of the items.
pub uninterp spec fn spec_json_bytes(items: Seq<JsonItemView>) -> Seq<u8>;

/// Reads a JSON array with `serde_json::from_slice`, as a `Vec` of
/// `serde_json::Value`, and takes each value over variant by variant: a
/// number through `Value::as_i64`, the items of an array through
/// `Value::as_u64`. The outcome is a function of the bytes alone; it is an
/// error where the bytes are no JSON array.
#[verifier::external_body]
fn json_items_from_slice(bytes: &[u8]) -> (result: Result<Vec<JsonItem>, serde_json::Error>)
    ensures
        match result {
            Ok(items) => spec_json_items(bytes@) == Some(seq_view(items@)),
            Err(_) => spec_json_items(bytes@) is None,
        },
{
    let values: Vec<serde_json::Value> = serde_json::from_slice(bytes)?;
    Ok(values.into_iter().map(|value| match value {
        serde_json::Value::Null => JsonItem::Null,
        serde_json::Value::Bool(b) => JsonItem::Bool(b),
        serde_json::Value::Number(n) => JsonItem::Number(n.as_i64()),
        serde_json::Value::String(s) => JsonItem::String(s),
        serde_json::Value::Array(a) => JsonItem::Array(a.iter().map(|v| v.as_u64()).collect()),
        serde_json::Value::Object(_) => JsonItem::Object,
    }).collect())
}

/// Writes the items as a JSON array with `serde_json::to_vec`, each item as
/// the `serde_json::Value` of its variant: a missing number as null, an
/// object as the empty object. Where the library gives bytes, they are a
/// function of the items alone.
#[verifier::external_body]
fn json_items_to_vec(items: &Vec<JsonItem>) -> (result: Result<Vec<u8>, serde_json::Error>)
    ensures
        result matches Ok(bytes) ==> bytes@ == spec_json_bytes(seq_view(items@)),
{
    let values: Vec<serde_json::Value> = items.iter().map(|item| match item {
        JsonItem::Null => serde_json::Value::Null,
        JsonItem::Bool(b) => serde_json::Value::Bool(*b),
        JsonItem::Number(n) => serde_json::Value::from(*n),
        JsonItem::String(s) => serde_json::Value::String(s.clone()),
        JsonItem::Array(a) => serde_json::Value::from(a.clone()),
        JsonItem::Object => serde_json::Value::Object(serde_json::Map::new()),
    }).collect();
    serde_json::to_vec(&values)
}

/// The unsigned integers that stand for bytes.
pub open spec fn spec_bytes_to_numbers(bytes: Seq<u8>) -> Seq<Option<u64>> {
    Seq::new(bytes.len(), |i: int| Some(bytes[i] as u64))
}

/// Whether every number is there and is a byte.
pub open spec fn spec_are_bytes(numbers: Seq<Option<u64>>) -> bool {
    forall|i: int|
        0 <= i < numbers.len() ==> ((#[trigger] numbers[i]) matches Some(n) && n <= 255)
}

/// The bytes that numbers stand for.
pub open spec fn spec_numbers_to_bytes(numbers: Seq<Option<u64>>) -> Seq<u8> {
    Seq::new(numbers.len(), |i: int| numbers[i].unwrap() as u8)
}

/// The JSON item that stands for a value: bytes are an array of numbers.
pub open spec fn spec_value_to_item(value: ValueView) -> JsonItemView {
    match value {
        ValueView::Null => JsonItemView::Null,
        ValueView::Boolean(b) => JsonItemView::Bool(b),
        ValueView::Int64(n) => JsonItemView::Number(Some(n)),
        ValueView::String(s) => JsonItemView::String(s),
        ValueView::Bytes(bytes) => JsonItemView::Array(spec_bytes_to_numbers(bytes)),
    }
}

/// The value that a JSON item stands for: none for a number that is no
/// signed integer, for an array that holds anything but bytes, and for an
/// object.
pub open spec fn spec_item_to_value(item: JsonItemView) -> Option<ValueView> {
    match item {
        JsonItemView::Null => Some(ValueView::Null),
        JsonItemView::Bool(b) => Some(ValueView::Boolean(b)),
        JsonItemView::Number(Some(n)) => Some(ValueView::Int64(n)),
        JsonItemView::Number(None) => None,
        JsonItemView::String(s) => Some(ValueView::String(s)),
        JsonItemView::Array(numbers) => if spec_are_bytes(numbers) {
            Some(ValueView::Bytes(spec_numbers_to_bytes(numbers)))
        } else {
            None
        },
        JsonItemView::Object => None,
    }
}

/// The JSON items that stand for values, one for one.
pub open spec fn spec_values_to_items(values: Seq<ValueView>) -> Seq<JsonItemView> {
    Seq::new(values.len(), |i: int| spec_value_to_item(values[i]))
}

/// The values that JSON items stand for: none where one item stands for no
/// value.
pub open spec fn spec_items_to_values(items: Seq<JsonItemView>) -> Option<Seq<ValueView>> {
    if forall|i: int| 0 <= i < items.len() ==> spec_item_to_value(#[trigger] items[i]) is Some {
        Some(Seq::new(items.len(), |i: int| spec_item_to_value(items[i]).unwrap()))
    } else {
        None
    }
}

/// An item that stands for a value stands for that value.
pub proof fn law_item_round_trip(value: ValueView)
    ensures
        spec_item_to_value(spec_value_to_item(value)) == Some(value),
{
    match value {
        ValueView::Bytes(bytes) => {
            let numbers = spec_bytes_to_numbers(bytes);
            assert(spec_are_bytes(numbers));
            assert(spec_numbers_to_bytes(numbers) =~= bytes);
        },
        _ => {},
    }
}

/// The items that stand for values stand for those values.
pub proof fn law_items_round_trip(values: Seq<ValueView>)
    ensures
        spec_items_to_values(spec_values_to_items(values)) == Some(values),
{
    let items = spec_values_to_items(values);
    assert forall|i: int| 0 <= i < items.len() implies spec_item_to_value(#[trigger] items[i])
        == Some(values[i]) by {
        law_item_round_trip(values[i]);
    }
    assert(Seq::new(items.len(), |i: int| spec_item_to_value(items[i]).unwrap()) =~= values);
}

/// The JSON item that stands for a value.
pub fn value_to_item(value: &ConvexValue) -> (item: JsonItem)
    ensures
        item@ == spec_value_to_item(value@),
{
    match value {
        ConvexValue::Null => JsonItem::Null,
        ConvexValue::Boolean(b) => JsonItem::Bool(*b),
        ConvexValue::Int64(n) => JsonItem::Number(Some(*n)),
        ConvexValue::String(s) => JsonItem::String(s.clone()),
        ConvexValue::Bytes(bytes) => {
            let mut numbers: Vec<Option<u64>> = Vec::new();
            let mut i: usize = 0;
            while i < bytes.len()
                invariant
                    i <= bytes.len(),
                    numbers.len() == i,
                    forall|j: int| 0 <= j < i ==> (#[trigger] numbers[j]) == Some(bytes[j] as u64),
                decreases bytes.len() - i,
            {
                numbers.push(Some(bytes[i] as u64));
                i = i + 1;
            }
            assert(numbers@ =~= spec_bytes_to_numbers(bytes@));
            JsonItem::Array(numbers)
        },
    }
}

/// The value that a JSON item stands for.
pub fn item_to_value(item: JsonItem) -> (value: Option<ConvexValue>)
    ensures
        match value {
            Some(value) => spec_item_to_value(item@) == Some(value@),
            None => spec_item_to_value(item@) is None,
        },
{
    match item {
        JsonItem::Null => Some(ConvexValue::Null),
        JsonItem::Bool(b) => Some(ConvexValue::Boolean(b)),
        JsonItem::Number(Some(n)) => Some(ConvexValue::Int64(n)),
        JsonItem::Number(None) => None,
        JsonItem::String(s) => Some(ConvexValue::String(s)),
        JsonItem::Array(numbers) => {
            let mut bytes: Vec<u8> = Vec::new();
            let mut i: usize = 0;
            while i < numbers.len()
                invariant
                    i <= numbers.len(),
                    item@ == JsonItemView::Array(numbers@),
                    bytes.len() == i,
                    forall|j: int|
                        0 <= j < i ==> ((#[trigger] numbers[j]) matches Some(n) && n <= 255
                            && bytes[j] == n as u8),
                decreases numbers.len() - i,
            {
                match numbers[i] {
                    Some(n) => {
                        if n > 255 {
                            assert(!spec_are_bytes(numbers@)) by {
                                assert(numbers@[i as int] == Some(n));
                            }
                            return None;
                        }
                        bytes.push(n as u8);
                    },
                    None => {
                        assert(!spec_are_bytes(numbers@)) by {
                            assert(numbers@[i as int] is None);
                        }
                        return None;
                    },
                }
                i = i + 1;
            }
            assert(bytes@ =~= spec_numbers_to_bytes(numbers@));
            Some(ConvexValue::Bytes(bytes))
        },
        JsonItem::Object => None,
    }
}

/// The JSON items that stand for values.
pub fn values_to_items(values: &Vec<ConvexValue>) -> (items: Vec<JsonItem>)
    ensures
        seq_view(items@) == spec_values_to_items(seq_view(values@)),
{
    let mut items: Vec<JsonItem> = Vec::new();
    let mut i: usize = 0;
    while i < values.len()
        invariant
            i <= values.len(),
            items.len() == i,
            forall|j: int| 0 <= j < i ==> (#[trigger] items[j])@ == spec_value_to_item(values[j]@),
        decreases values.len() - i,
    {
        items.push(value_to_item(&values[i]));
        i = i + 1;
    }
    assert(seq_view(items@) =~= spec_values_to_items(seq_view(values@)));
    items
}

/// The values that JSON items stand for, or an error where an item stands
/// for no value.
pub fn items_to_values(items: Vec<JsonItem>) -> (result: Result<Vec<ConvexValue>, ModelError>)
    ensures
        match result {
            Ok(values) => spec_items_to_values(seq_view(items@)) == Some(seq_view(values@)),
            Err(e) => spec_items_to_values(seq_view(items@)) is None && e
                == ModelError::InvalidArgsJson,
        },
{
    let ghost all = seq_view(items@);
    let mut values: Vec<ConvexValue> = Vec::new();
    for item in it: items
        invariant
            it.seq() == items@,
            all == seq_view(items@),
            values.len() == it.index(),
            forall|j: int|
                0 <= j < values.len() ==> spec_item_to_value(#[trigger] all[j]) == Some(values[j]@),
    {
        let ghost at = it.index();
        assert(item@ == all[at]);
        match item_to_value(item) {
            Some(value) => {
                values.push(value);
            },
            None => {
                assert(spec_item_to_value(all[at]) is None);
                return Err(ModelError::InvalidArgsJson);
            },
        }
    }
    assert(seq_view(values@) =~= Seq::new(
        all.len(),
        |i: int| spec_item_to_value(all[i]).unwrap(),
    ));
    Ok(values)
}

/// The items of the JSON array that the bytes hold, or nothing where the
/// bytes are no JSON array.
pub fn read_items(bytes: &Vec<u8>) -> (items: Option<Vec<JsonItem>>)
    ensures
        match items {
            Some(items) => spec_json_items(bytes@) == Some(seq_view(items@)),
            None => spec_json_items(bytes@) is None,
        },
{
    match json_items_from_slice(bytes.as_slice()) {
        Ok(items) => Some(items),
        Err(_) => None,
    }
}

/// Writes arguments as the bytes of a JSON array. Where the JSON library
/// gives no bytes, the error says so.
pub fn encode_args(values: &Vec<ConvexValue>) -> (result: Result<Vec<u8>, ModelError>)
    ensures
        match result {
            Ok(bytes) => bytes@ == spec_json_bytes(spec_values_to_items(seq_view(values@))),
            Err(e) => e == ModelError::InvalidArgsJson,
        },
{
    let items = values_to_items(values);
    match json_items_to_vec(&items) {
        Ok(bytes) => Ok(bytes),
        Err(_) => Err(ModelError::InvalidArgsJson),
    }
}

} // verus!
