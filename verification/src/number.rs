//! The number codec: how a decimal becomes a number literal and back.
//!
//! Both directions are `rust_decimal`'s own, driven through `serde_json`'s
//! value serializer and its reader. The three functions that make those
//! calls are not verified: their contracts are taken on trust from the
//! sources of the two crates, and everything else in the library is proved
//! from them.

use vstd::prelude::*;
use rust_decimal::Decimal;
use crate::wire::{is_written, DecodeError, EncodeError, WireEvent, WireEventView};

verus! {

/// `rust_decimal::Decimal`, carried through as an opaque value.
#[verifier::external_type_specification]
#[verifier::external_body]
pub struct ExDecimal(rust_decimal::Decimal);

/// `serde_json::Error`, carried through as an opaque value.
#[verifier::external_type_specification]
#[verifier::external_body]
pub struct ExJsonError(serde_json::Error);

/// The literal that `rust_decimal::serde::arbitrary_precision_option::serialize`
/// writes for a decimal, or `None` where it fails on the decimal.
pub uninterp spec fn number_literal(value: Decimal) -> Option<Seq<char>>;

/// The text of the number that `serde_json::Number::from_str` makes of a
/// text, or `None` where the text is no number literal.
pub uninterp spec fn number_text(text: Seq<char>) -> Option<Seq<char>>;

/// The decimal that `rust_decimal`'s `Deserialize` impl reads from a text
/// when `serde_json::from_str` drives it, or `None` where the text is
/// rejected.
pub uninterp spec fn parsed_number(text: Seq<char>) -> Option<Decimal>;

/// Calls `rust_decimal::serde::arbitrary_precision_option::serialize` with
/// `serde_json`'s value serializer and hands back what it emitted.
///
/// Trusted: for `None` the call emits a null and cannot fail; for `Some(d)`
/// it emits a number whose text is the literal of `d` where `d` has one, and
/// fails where it has none.
#[verifier::external_body]
pub(crate) fn arbitrary_precision_option_serialize(value: &Option<Decimal>) -> (r: Result<WireEvent, serde_json::Error>)
    ensures
        r is Ok <==> (*value matches Some(d) ==> number_literal(d) is Some),
        r matches Ok(event) ==> (*value is None ==> event@ == WireEventView::Null),
        r matches Ok(event) ==> (*value matches Some(d) ==> number_literal(d) == Some(event@->Number_0) && event@ is Number),
{
    let emitted = rust_decimal::serde::arbitrary_precision_option::serialize(
        value,
        serde_json::value::Serializer,
    )?;
    match emitted {
        serde_json::Value::Null => Ok(WireEvent::Null),
        serde_json::Value::Number(n) => Ok(WireEvent::Number(n.to_string())),
        _ => Ok(WireEvent::Other),
    }
}

/// Calls `serde_json::Number::from_str` and hands back the number's text.
///
/// Trusted: the outcome is a function of the text alone, named
/// `number_text`.
#[verifier::external_body]
pub(crate) fn number_from_str(text: &str) -> (r: Result<String, serde_json::Error>)
    ensures
        r matches Ok(number) ==> number_text(text@) == Some(number@),
        r is Err ==> number_text(text@) is None,
{
    let number = text.parse::<serde_json::Number>()?;
    Ok(number.to_string())
}

/// Calls `serde_json::from_str::<Decimal>`, which drives `rust_decimal`'s
/// `Deserialize` impl over the text.
///
/// Trusted: the outcome is a function of the text alone, named
/// `parsed_number`.
#[verifier::external_body]
pub(crate) fn decimal_from_str(text: &str) -> (r: Result<Decimal, serde_json::Error>)
    ensures
        r matches Ok(d) ==> parsed_number(text@) == Some(d),
        r is Err ==> parsed_number(text@) is None,
{
    serde_json::from_str::<Decimal>(text)
}

/// What the decoder's outcome means for the caller: the decimal as it was
/// read, or the one error for a literal that the decoder rejects.
pub open spec fn decoded_outcome(outcome: Result<Decimal, serde_json::Error>) -> Result<Decimal, DecodeError> {
    match outcome {
        Ok(d) => Ok(d),
        Err(_) => Err(DecodeError::PrecisionDecode),
    }
}

/// Maps the decoder's outcome to the library's own result.
pub fn decoded(outcome: Result<Decimal, serde_json::Error>) -> (r: Result<Decimal, DecodeError>)
    ensures
        r == decoded_outcome(outcome),
{
    match outcome {
        Ok(d) => Ok(d),
        Err(_) => Err(DecodeError::PrecisionDecode),
    }
}

/// The decimal that a text stands for. Only a number literal stands for
/// one, and only where the decimal type can hold the number.
pub open spec fn decimal_of(text: Seq<char>) -> Result<Decimal, DecodeError> {
    match number_text(text) {
        Some(number) => match parsed_number(number) {
            Some(d) => Ok(d),
            None => Err(DecodeError::PrecisionDecode),
        },
        None => Err(DecodeError::PrecisionDecode),
    }
}

/// Reads a number literal as a decimal. A text that is no number literal is
/// refused before the decimal decoder sees it.
pub fn decode_number(text: &str) -> (r: Result<Decimal, DecodeError>)
    ensures
        r == decimal_of(text@),
{
    match number_from_str(text) {
        Ok(number) => decoded(decimal_from_str(number.as_str())),
        Err(_) => Err(DecodeError::PrecisionDecode),
    }
}

/// The event that stands for an optional decimal: a null for `None`, the
/// literal for a decimal that has one, and the encoding error for a decimal
/// that has none.
pub open spec fn emitted(value: Option<Decimal>) -> Result<WireEventView, EncodeError> {
    match value {
        None => Ok(WireEventView::Null),
        Some(d) => match number_literal(d) {
            Some(text) => Ok(WireEventView::Number(text)),
            None => Err(EncodeError::NumberEncoder),
        },
    }
}

/// What the encoder's outcome means for the caller: the event as it was
/// emitted, or the one encoding error.
pub open spec fn encoded_outcome(outcome: Result<WireEvent, serde_json::Error>) -> Result<WireEvent, EncodeError> {
    match outcome {
        Ok(event) => Ok(event),
        Err(_) => Err(EncodeError::NumberEncoder),
    }
}

/// Maps the encoder's outcome to the library's own result.
pub fn encoded(outcome: Result<WireEvent, serde_json::Error>) -> (r: Result<WireEvent, EncodeError>)
    ensures
        r == encoded_outcome(outcome),
{
    match outcome {
        Ok(event) => Ok(event),
        Err(_) => Err(EncodeError::NumberEncoder),
    }
}

/// Writes an optional decimal as one event.
pub fn encode_option(value: &Option<Decimal>) -> (r: Result<WireEvent, EncodeError>)
    ensures
        is_written(r, emitted(*value)),
        *value is None ==> r is Ok,
        *value matches Some(d) ==> (r is Ok <==> number_literal(d) is Some),
{
    encoded(arbitrary_precision_option_serialize(value))
}

/// Whether the codec reads a decimal back from the literal that it writes
/// for it.
pub open spec fn reads_back(d: Decimal) -> bool {
    number_literal(d) matches Some(text) && decimal_of(text) == Ok::<Decimal, DecodeError>(d)
}

} // verus!
