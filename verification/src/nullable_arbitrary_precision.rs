//! One layer of optionality that admits an explicit null: a field that is
//! always present and holds either a null or a number.

use vstd::prelude::*;
use rust_decimal::Decimal;
use crate::number::{decimal_of, decode_number, emitted, encode_option, number_literal, reads_back};
use crate::wire::{buffered, is_written, DecodeError, EncodeError, WireEvent, WireEventView};

verus! {

/// What is written for a nullable decimal: an explicit null for `None`, the
/// bare number literal for a value, and the encoding error for a value that
/// the number encoder has no literal for.
pub open spec fn wire_of(value: Option<Decimal>) -> Result<WireEventView, EncodeError> {
    emitted(value)
}

/// The nullable decimal that an event stands for. An explicit null, in
/// either of its two forms, is `None`; a number literal is the decimal it
/// denotes; nothing else is accepted.
pub open spec fn state_of(event: WireEventView) -> Result<Option<Decimal>, DecodeError> {
    match event {
        WireEventView::Null => Ok(None),
        WireEventView::Unit => Ok(None),
        WireEventView::Number(text) => match decimal_of(text) {
            Ok(d) => Ok(Some(d)),
            Err(e) => Err(e),
        },
        WireEventView::Other => Err(DecodeError::ShapeMismatch),
    }
}

/// Nullable arbitrary-precision decimal serializer.
///
/// It fails exactly where the number encoder has no literal for the value,
/// and so never for `None`.
pub fn serialize(value: &Option<Decimal>) -> (r: Result<WireEvent, EncodeError>)
    ensures
        is_written(r, wire_of(*value)),
        *value is None ==> r is Ok,
        *value matches Some(d) ==> (r is Ok <==> number_literal(d) is Some),
{
    encode_option(value)
}

/// Nullable arbitrary-precision decimal deserializer.
pub fn deserialize(event: &WireEvent) -> (r: Result<Option<Decimal>, DecodeError>)
    ensures
        r == state_of(event@),
{
    match event {
        WireEvent::Null => Ok(None),
        WireEvent::Unit => Ok(None),
        WireEvent::Number(text) => match decode_number(text.as_str()) {
            Ok(d) => Ok(Some(d)),
            Err(e) => Err(e),
        },
        WireEvent::Other => Err(DecodeError::ShapeMismatch),
    }
}

/// A null is always written, and is read back as a null.
pub proof fn lemma_null_round_trip()
    ensures
        wire_of(None) == Ok::<WireEventView, EncodeError>(WireEventView::Null),
        state_of(WireEventView::Null) == Ok::<Option<Decimal>, DecodeError>(None),
{
}

/// A value is written and read back as that value exactly where the number
/// codec reads the value back from the literal that it writes for it: the
/// adapter adds no loss and no failure of its own.
pub proof fn lemma_value_round_trip(d: Decimal)
    ensures
        (wire_of(Some(d)) matches Ok(event) && state_of(event) == Ok::<Option<Decimal>, DecodeError>(Some(d))) <==> reads_back(d),
{
}

/// An event is read alike whether it arrives directly or through a
/// container that buffers its fields.
pub proof fn lemma_buffering_invariance(event: WireEventView)
    ensures
        state_of(buffered(event)) == state_of(event),
{
}

} // verus!
