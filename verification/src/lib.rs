//! Field-level rules for writing and reading fixed-point decimals as
//! arbitrary-precision numbers, for fields that may be left out and for
//! fields that may be left out or hold an explicit null.
//!
//! A field that is present stands on the wire as one [`wire::WireEvent`]; a
//! field that is left out stands as nothing at all. The adapters carry a state
//! of the field to that wire form and back. The digits themselves are
//! written and read by `rust_decimal`, through the items of [`number`].
//!
//! - [`non_required_arbitrary_precision`]: a field that is left out or holds
//!   a value, and for which an explicit null is an error.
//! - [`double_option_arbitrary_precision`]: a field that is left out, holds
//!   an explicit null, or holds a value.
//! - [`nullable_arbitrary_precision`]: the layer under the second, a field
//!   that is always there and holds a null or a value.
//! - [`holder`]: what a holder of such a field puts on the wire, by itself
//!   and flattened into an outer holder.

pub mod wire;
pub mod holder;
pub mod number;
pub mod nullable_arbitrary_precision;
pub mod non_required_arbitrary_precision;
pub mod double_option_arbitrary_precision;
