use vstd::prelude::*;

verus! {

/// The failure conditions this layer detects itself. Everything else (file
/// open or read failures, invalid buffer sizing) is either handled at the
/// I/O boundary or is a caller precondition rather than a recoverable value.
#[derive(Clone, Copy, Debug, PartialEq, Eq, Structural)]
pub enum Error {
    /// A null native pointer was handed to a wrapper constructor.
    NullPointer,
    /// A byte sequence holds an interior NUL byte and so cannot become
    /// null-terminated native text.
    InteriorNul,
}

} // verus!
