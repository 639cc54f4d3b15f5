use vstd::prelude::*;

verus! {

/// Why a typed accessor failed.
///
/// A null column is not an error: it decodes to `None`.  These variants cover
/// the genuine failure paths, and every accessor states exactly which inputs
/// produce which variant.
#[derive(Debug, PartialEq, Eq)]
pub enum Error {
    /// No column carries the requested name, or the requested index is out of
    /// range for the schema.
    ColumnNotLocated,
    /// The column's declared wire tag belongs to a different family than the
    /// requested target type, so no decoder applies.
    TypeMismatch,
    /// Bytes are present and the family fits, but their shape is invalid for
    /// the declared tag: wrong width for a fixed-width numeric, invalid text
    /// encoding, or broken framing of a composite.
    MalformedEncoding,
    /// An element of a list, map, user-defined-type or tuple failed to decode;
    /// carries the element's position and the inner failure.
    CompositeElementFailure(usize, Box<Error>),
}

} // verus!
