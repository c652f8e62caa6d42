//! The fields that a holder puts on the wire, by itself and flattened into
//! an outer holder.
//!
//! A holder writes each of its fields under the field's own name, and writes
//! nothing for a field that is left out. An outer holder that flattens an
//! inner one into itself writes the inner one's fields beside its own, at the
//! top level: no nesting, and no prefix to a name.

use vstd::prelude::*;
use crate::wire::{FieldView, FieldWire, WireEvent, WireEventView};

verus! {

/// One field as it stands in an object on the wire.
#[derive(Debug, PartialEq, Eq)]
pub struct WireField {
    pub name: String,
    pub event: WireEvent,
}

impl View for WireField {
    type V = (Seq<char>, WireEventView);

    open spec fn view(&self) -> (Seq<char>, WireEventView) {
        (self.name@, self.event@)
    }
}

/// The content of a list of fields.
pub open spec fn fields_view(fields: Seq<WireField>) -> Seq<(Seq<char>, WireEventView)> {
    fields.map_values(|f: WireField| f@)
}

/// What a holder with one field puts on the wire: the field under its name
/// where it is present, nothing where it is left out.
pub open spec fn holder_wire(name: Seq<char>, field: FieldView) -> Seq<(Seq<char>, WireEventView)> {
    match field {
        FieldView::Omitted => Seq::empty(),
        FieldView::Present(event) => seq![(name, event)],
    }
}

/// What an outer holder puts on the wire that flattens an inner one into
/// itself: its own fields, then the inner one's, each as the inner holder
/// writes it.
pub open spec fn flattened_wire(own: Seq<(Seq<char>, WireEventView)>, inner: Seq<(Seq<char>, WireEventView)>) -> Seq<(Seq<char>, WireEventView)> {
    own + inner
}

/// Writes the fields of a holder with one field.
pub fn holder_fields(name: &str, field: FieldWire) -> (r: Vec<WireField>)
    ensures
        fields_view(r@) == holder_wire(name@, field@),
{
    let mut fields: Vec<WireField> = Vec::new();
    match field {
        FieldWire::Omitted => {},
        FieldWire::Present(event) => {
            fields.push(WireField { name: name.to_owned(), event });
        },
    }
    assert(fields_view(fields@) =~= holder_wire(name@, field@));
    fields
}

/// Writes the fields of an outer holder that flattens an inner one into
/// itself.
pub fn flatten(own: Vec<WireField>, inner: Vec<WireField>) -> (r: Vec<WireField>)
    ensures
        fields_view(r@) == flattened_wire(fields_view(own@), fields_view(inner@)),
{
    let mut fields = own;
    let mut rest = inner;
    fields.append(&mut rest);
    assert(fields_view(fields@) =~= flattened_wire(fields_view(own@), fields_view(inner@)));
    fields
}

/// Flattening changes nothing of what a holder writes: every field of the
/// inner holder stands in the outer one under the same name and as the same
/// event, after the outer holder's own fields; and an outer holder with no
/// field of its own writes exactly what the inner one writes, which is
/// nothing where the field is left out.
pub proof fn lemma_flattening_keeps_fields(own: Seq<(Seq<char>, WireEventView)>, name: Seq<char>, field: FieldView)
    ensures
        flattened_wire(own, holder_wire(name, field)).len() == own.len() + holder_wire(name, field).len(),
        forall|i: int| 0 <= i < holder_wire(name, field).len() ==> flattened_wire(own, holder_wire(name, field))[own.len() + i] == #[trigger] holder_wire(name, field)[i],
        forall|i: int| 0 <= i < own.len() ==> #[trigger] flattened_wire(own, holder_wire(name, field))[i] == own[i],
        flattened_wire(Seq::empty(), holder_wire(name, field)) == holder_wire(name, field),
        flattened_wire(Seq::empty(), holder_wire(name, FieldView::Omitted)) == Seq::<(Seq<char>, WireEventView)>::empty(),
{
    assert(flattened_wire(Seq::empty(), holder_wire(name, field)) =~= holder_wire(name, field));
    assert(flattened_wire(Seq::empty(), holder_wire(name, FieldView::Omitted)) =~= Seq::<(Seq<char>, WireEventView)>::empty());
}

} // verus!
