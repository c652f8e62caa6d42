//! The wire form of one field, and the ways in which reading or writing it
//! can fail.

use vstd::prelude::*;

verus! {

/// What stands on the wire for a field that is present.
#[derive(Debug, PartialEq, Eq)]
pub enum WireEvent {
    /// An explicit null: an option marker that carries no value.
    Null,
    /// The unit marker. A container that buffers its fields before handing
    /// them on delivers an explicit null in this form.
    Unit,
    /// A number literal, kept as text so that no digit is lost.
    Number(String),
    /// Any other event: a string, a boolean, a sequence, an object.
    Other,
}

/// The mathematical content of a [`WireEvent`].
pub enum WireEventView {
    Null,
    Unit,
    Number(Seq<char>),
    Other,
}

impl View for WireEvent {
    type V = WireEventView;

    open spec fn view(&self) -> WireEventView {
        match self {
            WireEvent::Null => WireEventView::Null,
            WireEvent::Unit => WireEventView::Unit,
            WireEvent::Number(text) => WireEventView::Number(text@),
            WireEvent::Other => WireEventView::Other,
        }
    }
}

impl Clone for WireEvent {
    fn clone(&self) -> (r: Self)
        ensures
            r@ == self@,
    {
        match self {
            WireEvent::Null => WireEvent::Null,
            WireEvent::Unit => WireEvent::Unit,
            WireEvent::Number(text) => WireEvent::Number(text.clone()),
            WireEvent::Other => WireEvent::Other,
        }
    }
}

/// What stands on the wire for a field: nothing where the field is left out,
/// one event where it is present.
#[derive(Debug, PartialEq, Eq)]
pub enum FieldWire {
    /// The field is not on the wire.
    Omitted,
    /// The field is on the wire, as this event.
    Present(WireEvent),
}

/// The mathematical content of a [`FieldWire`].
pub enum FieldView {
    Omitted,
    Present(WireEventView),
}

impl View for FieldWire {
    type V = FieldView;

    open spec fn view(&self) -> FieldView {
        match self {
            FieldWire::Omitted => FieldView::Omitted,
            FieldWire::Present(event) => FieldView::Present(event@),
        }
    }
}

impl Clone for FieldWire {
    fn clone(&self) -> (r: Self)
        ensures
            r@ == self@,
    {
        match self {
            FieldWire::Omitted => FieldWire::Omitted,
            FieldWire::Present(event) => FieldWire::Present(event.clone()),
        }
    }
}

/// How a container that buffers its fields before handing them on, as one
/// does that is flattened into another, delivers an event that it has read:
/// an explicit null arrives as the unit marker, every other event as it was.
pub open spec fn buffered(event: WireEventView) -> WireEventView {
    match event {
        WireEventView::Null => WireEventView::Unit,
        other => other,
    }
}

/// [`buffered`], for a field that may be left out: a field that is left out
/// stays left out.
pub open spec fn buffered_field(field: FieldView) -> FieldView {
    match field {
        FieldView::Omitted => FieldView::Omitted,
        FieldView::Present(event) => FieldView::Present(buffered(event)),
    }
}

/// Why a field could not be read.
#[derive(Debug, Clone, Copy, PartialEq, Eq, Structural)]
pub enum DecodeError {
    /// The event is none that the field's shape can stand for.
    ShapeMismatch,
    /// The number literal has no exact decimal representation.
    PrecisionDecode,
}

/// Why a field could not be written: the number encoder refused the value.
#[derive(Debug, Clone, Copy, PartialEq, Eq, Structural)]
pub enum EncodeError {
    /// The encoder found no number literal for the decimal.
    NumberEncoder,
}

/// Whether an outcome of writing an event is the one that was to be
/// written: the same error, or an event with the same content.
pub open spec fn is_written(r: Result<WireEvent, EncodeError>, expected: Result<WireEventView, EncodeError>) -> bool {
    match r {
        Ok(event) => expected == Ok::<WireEventView, EncodeError>(event@),
        Err(e) => expected == Err::<WireEventView, EncodeError>(e),
    }
}

/// [`is_written`], for a field that may be left out.
pub open spec fn is_field_written(r: Result<FieldWire, EncodeError>, expected: Result<FieldView, EncodeError>) -> bool {
    match r {
        Ok(field) => expected == Ok::<FieldView, EncodeError>(field@),
        Err(e) => expected == Err::<FieldView, EncodeError>(e),
    }
}

} // verus!
