//! Decimals as numbers with arbitrary precision in a field with three
//! states: left out, present with an explicit null, present with a value.
//!
//! The outer `Option` says whether the field is there at all; the inner one
//! is the nullable decimal of [`crate::nullable_arbitrary_precision`].

use vstd::prelude::*;
use rust_decimal::Decimal;
use crate::nullable_arbitrary_precision;
use crate::number::{number_literal, reads_back};
use crate::holder::{flattened_wire, holder_wire, lemma_flattening_keeps_fields};
use crate::wire::{buffered_field, is_field_written, is_written, DecodeError, EncodeError, FieldView, FieldWire, WireEvent, WireEventView};

verus! {

/// What the serializer writes: the unit marker for a field that is not
/// there, else what is written for the nullable decimal.
pub open spec fn wire_of(value: Option<Option<Decimal>>) -> Result<WireEventView, EncodeError> {
    match value {
        None => Ok(WireEventView::Unit),
        Some(inner) => nullable_arbitrary_precision::wire_of(inner),
    }
}

/// The state that an event stands for: the nullable decimal that it holds,
/// as a field that is there. No event stands for a field that is not.
pub open spec fn state_of(event: WireEventView) -> Result<Option<Option<Decimal>>, DecodeError> {
    match nullable_arbitrary_precision::state_of(event) {
        Ok(inner) => Ok(Some(inner)),
        Err(e) => Err(e),
    }
}

/// The wire form of a field under the policy to skip a field that is not
/// there.
pub open spec fn field_wire_of(value: Option<Option<Decimal>>) -> Result<FieldView, EncodeError> {
    match value {
        None => Ok(FieldView::Omitted),
        Some(inner) => match wire_of(Some(inner)) {
            Ok(event) => Ok(FieldView::Present(event)),
            Err(e) => Err(e),
        },
    }
}

/// The state of a field under the policy that a missing field takes the
/// default.
pub open spec fn field_state_of(field: FieldView) -> Result<Option<Option<Decimal>>, DecodeError> {
    match field {
        FieldView::Omitted => Ok(None),
        FieldView::Present(event) => state_of(event),
    }
}

/// Double-option arbitrary-precision decimal deserializer.
///
/// The result is never `Ok(None)`: a field that is handed to this function
/// is there.
pub fn deserialize(event: &WireEvent) -> (r: Result<Option<Option<Decimal>>, DecodeError>)
    ensures
        r == state_of(event@),
        r != Ok::<Option<Option<Decimal>>, DecodeError>(None),
{
    match nullable_arbitrary_precision::deserialize(event) {
        Ok(inner) => Ok(Some(inner)),
        Err(e) => Err(e),
    }
}

/// Double-option arbitrary-precision decimal serializer.
///
/// What the nullable serializer returns is handed on as it is. It fails
/// exactly where the number encoder has no literal for the value, and so
/// never without a value.
pub fn serialize(value: &Option<Option<Decimal>>) -> (r: Result<WireEvent, EncodeError>)
    ensures
        is_written(r, wire_of(*value)),
        !(*value matches Some(Some(_))) ==> r is Ok,
        *value matches Some(Some(d)) ==> (r is Ok <==> number_literal(d) is Some),
{
    match value {
        None => Ok(WireEvent::Unit),
        Some(v) => nullable_arbitrary_precision::serialize(v),
    }
}

/// Reads a field that may be missing: a missing field is not there, a
/// present one is handed to [`deserialize`].
pub fn deserialize_field(field: &FieldWire) -> (r: Result<Option<Option<Decimal>>, DecodeError>)
    ensures
        r == field_state_of(field@),
{
    match field {
        FieldWire::Omitted => Ok(None),
        FieldWire::Present(event) => deserialize(event),
    }
}

/// Writes a field that is skipped where it is not there: such a field is
/// left out, any other is handed to [`serialize`].
///
/// It fails exactly where the number encoder has no literal for the value.
pub fn serialize_field(value: &Option<Option<Decimal>>) -> (r: Result<FieldWire, EncodeError>)
    ensures
        is_field_written(r, field_wire_of(*value)),
        !(*value matches Some(Some(_))) ==> r is Ok,
        *value matches Some(Some(d)) ==> (r is Ok <==> number_literal(d) is Some),
{
    match value {
        None => Ok(FieldWire::Omitted),
        Some(_) => match serialize(value) {
            Ok(event) => Ok(FieldWire::Present(event)),
            Err(e) => Err(e),
        },
    }
}

/// A value is written and read back as that value exactly where the number
/// codec reads the value back from the literal that it writes for it: the
/// adapter adds no loss and no failure of its own.
pub proof fn lemma_value_round_trip(d: Decimal)
    ensures
        (field_wire_of(Some(Some(d))) matches Ok(field) && field_state_of(field) == Ok::<Option<Option<Decimal>>, DecodeError>(Some(Some(d)))) <==> reads_back(d),
{
}

/// An explicit null is always written, as a null, and is read back as an
/// explicit null.
pub proof fn lemma_null_round_trip()
    ensures
        field_wire_of(Some(None)) == Ok::<FieldView, EncodeError>(FieldView::Present(WireEventView::Null)),
        field_state_of(FieldView::Present(WireEventView::Null)) == Ok::<Option<Option<Decimal>>, DecodeError>(Some(None)),
{
}

/// A field that is not there is always written, by leaving it out, and a
/// field that was left out is read back as not there.
pub proof fn lemma_absent_round_trip()
    ensures
        field_wire_of(None) == Ok::<FieldView, EncodeError>(FieldView::Omitted),
        field_state_of(FieldView::Omitted) == Ok::<Option<Option<Decimal>>, DecodeError>(None),
{
}

/// A field is read alike whether its container is read directly or is
/// flattened into another, which buffers the field first. In particular a
/// null stays a null and is not taken for a field that was left out.
pub proof fn lemma_flattening_invariance(field: FieldView)
    ensures
        field_state_of(buffered_field(field)) == field_state_of(field),
{
}

/// A holder writes such a field alike whether it is written by itself or is
/// flattened into an outer holder: under the same name, as the same event,
/// with no nesting. A field that is left out is left out either way.
pub proof fn lemma_flattening_invariance_written(name: Seq<char>, value: Option<Option<Decimal>>)
    ensures
        field_wire_of(value) matches Ok(field) ==> flattened_wire(Seq::empty(), holder_wire(name, field)) == holder_wire(name, field),
        field_wire_of(None) matches Ok(field) && flattened_wire(Seq::empty(), holder_wire(name, field)) == Seq::<(Seq<char>, WireEventView)>::empty(),
{
    if let Ok(field) = field_wire_of(value) {
        lemma_flattening_keeps_fields(Seq::empty(), name, field);
    }
    lemma_flattening_keeps_fields(Seq::empty(), name, FieldView::Omitted);
}

} // verus!
