//! Serialization and deserialization of not required but not nullable
//! decimals as numbers with arbitrary precision.
//!
//! Such a field has two states: it is left out, or it holds a value. It
//! cannot stand for an explicit null, so a null on the wire is an error and
//! is never read as a field that was left out.

use vstd::prelude::*;
use rust_decimal::Decimal;
use crate::number::{decimal_of, decode_number, emitted, encode_option, number_literal, reads_back};
use crate::holder::{flattened_wire, holder_wire, lemma_flattening_keeps_fields};
use crate::wire::{buffered_field, is_field_written, is_written, DecodeError, EncodeError, FieldView, FieldWire, WireEvent, WireEventView};

verus! {

/// The words by which a decode error names what was expected.
pub open spec fn expected_shape() -> Seq<char> {
    "a Decimal type representing a fixed-point number"@
}

/// The state that a number literal stands for: the value it denotes.
pub open spec fn value_state(text: Seq<char>) -> Result<Option<Decimal>, DecodeError> {
    match decimal_of(text) {
        Ok(d) => Ok(Some(d)),
        Err(e) => Err(e),
    }
}

/// What the serializer writes: the bare number literal for a value, and the
/// encoding error for a value that the number encoder has no literal for.
/// For `None` it is a null, which is why such a field is to be left out
/// instead (see [`serialize_field`]).
pub open spec fn wire_of(value: Option<Decimal>) -> Result<WireEventView, EncodeError> {
    emitted(value)
}

/// The state that an event stands for. Only a number literal is accepted.
pub open spec fn state_of(event: WireEventView) -> Result<Option<Decimal>, DecodeError> {
    match event {
        WireEventView::Number(text) => value_state(text),
        _ => Err(DecodeError::ShapeMismatch),
    }
}

/// The wire form of a field under the policy to skip a field that holds
/// nothing.
pub open spec fn field_wire_of(value: Option<Decimal>) -> Result<FieldView, EncodeError> {
    match value {
        None => Ok(FieldView::Omitted),
        Some(d) => match wire_of(Some(d)) {
            Ok(event) => Ok(FieldView::Present(event)),
            Err(e) => Err(e),
        },
    }
}

/// The state of a field under the policy that a missing field takes the
/// default.
pub open spec fn field_state_of(field: FieldView) -> Result<Option<Decimal>, DecodeError> {
    match field {
        FieldView::Omitted => Ok(None),
        FieldView::Present(event) => state_of(event),
    }
}

/// Dispatches on the event that stands for a present field. It handles the
/// value case and nothing else, so every other event is rejected.
pub struct OptionDecimalVisitor;

impl OptionDecimalVisitor {
    /// What this visitor expects, for the text of an error.
    pub fn expecting(&self) -> (r: &'static str)
        ensures
            r@ == expected_shape(),
    {
        "a Decimal type representing a fixed-point number"
    }

    /// The value case: reads the literal as a decimal and wraps it.
    pub fn visit_some(&self, text: &str) -> (r: Result<Option<Decimal>, DecodeError>)
        ensures
            r == value_state(text@),
    {
        match decode_number(text) {
            Ok(d) => Ok(Some(d)),
            Err(e) => Err(e),
        }
    }
}

/// Non-required arbitrary-precision decimal deserializer.
///
/// An explicit null, in either of its two forms, is a shape mismatch.
pub fn deserialize(event: &WireEvent) -> (r: Result<Option<Decimal>, DecodeError>)
    ensures
        r == state_of(event@),
        event@ is Null || event@ is Unit ==> r == Err::<Option<Decimal>, DecodeError>(DecodeError::ShapeMismatch),
{
    match event {
        WireEvent::Number(text) => OptionDecimalVisitor.visit_some(text.as_str()),
        _ => Err(DecodeError::ShapeMismatch),
    }
}

/// Non-required arbitrary-precision decimal serializer.
///
/// It fails exactly where the number encoder has no literal for the value,
/// and so never for `None`.
pub fn serialize(value: &Option<Decimal>) -> (r: Result<WireEvent, EncodeError>)
    ensures
        is_written(r, wire_of(*value)),
        *value is None ==> r is Ok,
        *value matches Some(d) ==> (r is Ok <==> number_literal(d) is Some),
{
    encode_option(value)
}

/// Reads a field that may be missing: a missing field holds nothing, a
/// present one is handed to [`deserialize`].
pub fn deserialize_field(field: &FieldWire) -> (r: Result<Option<Decimal>, DecodeError>)
    ensures
        r == field_state_of(field@),
        field@ matches FieldView::Present(event) && (event is Null || event is Unit) ==> r == Err::<Option<Decimal>, DecodeError>(DecodeError::ShapeMismatch),
{
    match field {
        FieldWire::Omitted => Ok(None),
        FieldWire::Present(event) => deserialize(event),
    }
}

/// Writes a field that is skipped where it holds nothing: such a field is
/// left out, any other is handed to [`serialize`].
///
/// It fails exactly where the number encoder has no literal for the value.
/// What is written is never an explicit null.
pub fn serialize_field(value: &Option<Decimal>) -> (r: Result<FieldWire, EncodeError>)
    ensures
        is_field_written(r, field_wire_of(*value)),
        *value is None ==> r is Ok,
        *value matches Some(d) ==> (r is Ok <==> number_literal(d) is Some),
        r matches Ok(field) ==> field@ != FieldView::Present(WireEventView::Null) && field@ != FieldView::Present(WireEventView::Unit),
{
    match value {
        None => Ok(FieldWire::Omitted),
        Some(_) => match serialize(value) {
            Ok(event) => Ok(FieldWire::Present(event)),
            Err(e) => Err(e),
        },
    }
}

/// A value is written and read back as that value exactly where the number
/// codec reads the value back from the literal that it writes for it: the
/// adapter adds no loss and no failure of its own.
pub proof fn lemma_value_round_trip(d: Decimal)
    ensures
        (field_wire_of(Some(d)) matches Ok(field) && field_state_of(field) == Ok::<Option<Decimal>, DecodeError>(Some(d))) <==> reads_back(d),
{
}

/// A field that holds nothing is always written, by leaving it out, and a
/// field that was left out is read back as holding nothing.
pub proof fn lemma_absent_round_trip()
    ensures
        field_wire_of(None) == Ok::<FieldView, EncodeError>(FieldView::Omitted),
        field_state_of(FieldView::Omitted) == Ok::<Option<Decimal>, DecodeError>(None),
{
}

/// A field is read alike whether its container is read directly or is
/// flattened into another, which buffers the field first. In particular a
/// null is refused either way.
pub proof fn lemma_flattening_invariance(field: FieldView)
    ensures
        field_state_of(buffered_field(field)) == field_state_of(field),
{
}

/// A holder writes such a field alike whether it is written by itself or is
/// flattened into an outer holder: under the same name, as the same event,
/// with no nesting. A field that is left out is left out either way.
pub proof fn lemma_flattening_invariance_written(name: Seq<char>, value: Option<Decimal>)
    ensures
        field_wire_of(value) matches Ok(field) ==> flattened_wire(Seq::empty(), holder_wire(name, field)) == holder_wire(name, field),
        field_wire_of(None) matches Ok(field) && flattened_wire(Seq::empty(), holder_wire(name, field)) == Seq::<(Seq<char>, WireEventView)>::empty(),
{
    if let Ok(field) = field_wire_of(value) {
        lemma_flattening_keeps_fields(Seq::empty(), name, field);
    }
    lemma_flattening_keeps_fields(Seq::empty(), name, FieldView::Omitted);
}

} // verus!
