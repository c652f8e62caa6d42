//! A holder with one double-optional field, read and written as JSON,
//! directly and flattened into an outer holder.

use std::str::FromStr;

use rust_decimal::Decimal;
use serde_decimal::double_option_arbitrary_precision::{
    deserialize, deserialize_field, serialize, serialize_field,
};
use serde_decimal::holder::{flatten, holder_fields, WireField};
use serde_decimal::wire::{DecodeError, FieldWire, WireEvent};
use serde_json::{Number, Value};

#[derive(Clone, Debug)]
struct Foo {
    foo: Option<Option<Decimal>>,
}

/// `Foo`, flattened into an outer holder.
#[derive(Clone, Debug)]
struct Bar {
    foo: Foo,
}

fn tenth() -> Decimal {
    Decimal::new(1, 1)
}

/// The JSON value that an event is written as.
fn written(event: WireEvent) -> Value {
    match event {
        WireEvent::Null | WireEvent::Unit => Value::Null,
        WireEvent::Number(text) => Value::Number(Number::from_str(&text).unwrap()),
        WireEvent::Other => panic!("no adapter writes this event"),
    }
}

/// The event that a JSON value arrives as. A container that is read directly
/// hands on a null as an option marker; one that is flattened into another
/// has its fields buffered first, and the null arrives as the unit marker.
fn arrived(value: &Value, flattened: bool) -> WireEvent {
    match value {
        Value::Null if flattened => WireEvent::Unit,
        Value::Null => WireEvent::Null,
        Value::Number(n) => WireEvent::Number(n.to_string()),
        _ => WireEvent::Other,
    }
}

/// The JSON object that a list of fields is written as.
fn object_text(fields: Vec<WireField>) -> String {
    let mut object = serde_json::Map::new();
    for field in fields {
        object.insert(field.name, written(field.event));
    }
    serde_json::to_string(&Value::Object(object)).unwrap()
}

fn read_fields(object: &serde_json::Map<String, Value>, flattened: bool) -> Result<Foo, DecodeError> {
    let field = match object.get("foo") {
        None => FieldWire::Omitted,
        Some(value) => FieldWire::Present(arrived(value, flattened)),
    };
    Ok(Foo { foo: deserialize_field(&field)? })
}

fn object_of(text: &str) -> serde_json::Map<String, Value> {
    match serde_json::from_str::<Value>(text).unwrap() {
        Value::Object(object) => object,
        other => panic!("not an object: {}", other),
    }
}

fn foo_to_string(holder: &Foo) -> String {
    object_text(holder_fields("foo", serialize_field(&holder.foo).unwrap()))
}

fn bar_to_string(outer: &Bar) -> String {
    let inner = holder_fields("foo", serialize_field(&outer.foo.foo).unwrap());
    object_text(flatten(Vec::new(), inner))
}

fn foo_from_str(text: &str) -> Result<Foo, DecodeError> {
    read_fields(&object_of(text), false)
}

fn bar_from_str(text: &str) -> Result<Bar, DecodeError> {
    Ok(Bar { foo: read_fields(&object_of(text), true)? })
}

#[test]
fn foo_serialize_some_some() {
    let serialized = foo_to_string(&Foo { foo: Some(Some(tenth())) });
    assert_eq!(serialized, r#"{"foo":0.1}"#);
}

#[test]
fn foo_serialize_some_none() {
    let serialized = foo_to_string(&Foo { foo: Some(None) });
    assert_eq!(serialized, r#"{"foo":null}"#);
}

#[test]
fn double_option_arbitrary_precision_foo_serialize_none() {
    let serialized = foo_to_string(&Foo { foo: None });
    assert_eq!(serialized, r#"{}"#);
}

#[test]
fn foo_deserialize_value() {
    let deserialized: Foo = foo_from_str(r#"{"foo":0.1}"#).unwrap();
    assert!(matches!(deserialized, Foo { foo: Some(Some(_)) }));
    assert_eq!(deserialized.foo, Some(Some(tenth())));
}

#[test]
fn double_option_arbitrary_precision_foo_deserialize_null() {
    let deserialized: Foo = foo_from_str(r#"{"foo":null}"#).unwrap();
    assert!(matches!(deserialized, Foo { foo: Some(None) }));
}

#[test]
fn double_option_arbitrary_precision_foo_deserialize_missing() {
    let deserialized: Foo = foo_from_str(r#"{}"#).unwrap();
    assert!(matches!(deserialized, Foo { foo: None }));
}

#[test]
fn bar_serialize_some_some() {
    let serialized = bar_to_string(&Bar { foo: Foo { foo: Some(Some(tenth())) } });
    assert_eq!(serialized, r#"{"foo":0.1}"#);
}

#[test]
fn bar_serialize_some_none() {
    let serialized = bar_to_string(&Bar { foo: Foo { foo: Some(None) } });
    assert_eq!(serialized, r#"{"foo":null}"#);
}

#[test]
fn double_option_arbitrary_precision_bar_serialize_none() {
    let serialized = bar_to_string(&Bar { foo: Foo { foo: None } });
    assert_eq!(serialized, r#"{}"#);
}

#[test]
fn bar_deserialize_value() {
    let deserialized: Bar = bar_from_str(r#"{"foo":0.1}"#).unwrap();
    assert!(matches!(deserialized, Bar { foo: Foo { foo: Some(Some(_)) } }));
    assert_eq!(deserialized.foo.foo, Some(Some(tenth())));
}

#[test]
fn double_option_arbitrary_precision_bar_deserialize_null() {
    let deserialized: Bar = bar_from_str(r#"{"foo":null}"#).unwrap();
    assert!(matches!(deserialized, Bar { foo: Foo { foo: Some(None) } }));
}

#[test]
fn double_option_arbitrary_precision_bar_deserialize_missing() {
    let deserialized: Bar = bar_from_str(r#"{}"#).unwrap();
    assert!(matches!(deserialized, Bar { foo: Foo { foo: None } }));
}

#[test]
fn double_option_serialize_has_an_event_for_each_state() {
    assert_eq!(serialize(&None), Ok(WireEvent::Unit));
    assert_eq!(serialize(&Some(None)), Ok(WireEvent::Null));
    assert_eq!(serialize(&Some(Some(tenth()))), Ok(WireEvent::Number("0.1".to_string())));
    let value = Decimal::from_str("123.400").unwrap();
    assert_eq!(serialize(&Some(Some(value))), Ok(WireEvent::Number("123.400".to_string())));
}

#[test]
fn double_option_field_has_a_wire_form_for_each_state() {
    assert_eq!(serialize_field(&None), Ok(FieldWire::Omitted));
    assert_eq!(serialize_field(&Some(None)), Ok(FieldWire::Present(WireEvent::Null)));
    assert_eq!(
        serialize_field(&Some(Some(tenth()))),
        Ok(FieldWire::Present(WireEvent::Number("0.1".to_string())))
    );
}

#[test]
fn double_option_deserialize_never_yields_a_missing_field() {
    assert_eq!(deserialize(&WireEvent::Null), Ok(Some(None)));
    assert_eq!(deserialize(&WireEvent::Unit), Ok(Some(None)));
    assert_eq!(deserialize(&WireEvent::Number("0.1".to_string())), Ok(Some(Some(tenth()))));
    assert_eq!(deserialize(&WireEvent::Other), Err(DecodeError::ShapeMismatch));
    assert_eq!(
        deserialize(&WireEvent::Number("1e".to_string())),
        Err(DecodeError::PrecisionDecode)
    );
}

#[test]
fn double_option_other_events_are_shape_mismatches() {
    assert_eq!(foo_from_str(r#"{"foo":"0.1"}"#).unwrap_err(), DecodeError::ShapeMismatch);
    assert_eq!(foo_from_str(r#"{"foo":false}"#).unwrap_err(), DecodeError::ShapeMismatch);
    assert_eq!(bar_from_str(r#"{"foo":{}}"#).unwrap_err(), DecodeError::ShapeMismatch);
}

#[test]
fn double_option_number_out_of_range_is_a_precision_error() {
    assert_eq!(
        foo_from_str(r#"{"foo":1e100}"#).unwrap_err(),
        DecodeError::PrecisionDecode
    );
}

#[test]
fn double_option_value_round_trip() {
    for text in ["0.1", "0", "1", "-1", "123.400", "0.0000000000000000000000000001",
        "79228162514264337593543950335", "-79228162514264337593543950335",
        "7.9228162514264337593543950335"]
    {
        let value = Decimal::from_str(text).unwrap();
        let field = serialize_field(&Some(Some(value))).unwrap();
        let back = deserialize_field(&field).unwrap().unwrap().unwrap();
        assert_eq!(back, value);
        assert_eq!(back.scale(), value.scale());
        assert_eq!(back.mantissa(), value.mantissa());
        let outer = Bar { foo: Foo { foo: Some(Some(value)) } };
        assert_eq!(bar_from_str(&bar_to_string(&outer)).unwrap().foo.foo, Some(Some(value)));
    }
}

#[test]
fn double_option_null_round_trip() {
    let field = serialize_field(&Some(None)).unwrap();
    assert_eq!(deserialize_field(&field), Ok(Some(None)));
    assert_eq!(foo_from_str(&foo_to_string(&Foo { foo: Some(None) })).unwrap().foo, Some(None));
    let outer = Bar { foo: Foo { foo: Some(None) } };
    assert_eq!(bar_from_str(&bar_to_string(&outer)).unwrap().foo.foo, Some(None));
}

#[test]
fn double_option_absent_round_trip() {
    let field = serialize_field(&None).unwrap();
    assert_eq!(field, FieldWire::Omitted);
    assert_eq!(deserialize_field(&field), Ok(None));
    assert_eq!(foo_from_str(&foo_to_string(&Foo { foo: None })).unwrap().foo, None);
    let outer = Bar { foo: Foo { foo: None } };
    assert_eq!(bar_from_str(&bar_to_string(&outer)).unwrap().foo.foo, None);
}

#[test]
fn double_option_reads_alike_through_a_buffer() {
    let number = WireEvent::Number("0.1".to_string());
    for (direct, buffered) in [
        (WireEvent::Null, WireEvent::Unit),
        (WireEvent::Unit, WireEvent::Unit),
        (number.clone(), number.clone()),
        (WireEvent::Other, WireEvent::Other),
    ] {
        assert_eq!(deserialize(&buffered), deserialize(&direct));
        assert_eq!(
            deserialize_field(&FieldWire::Present(buffered)),
            deserialize_field(&FieldWire::Present(direct))
        );
    }
}
