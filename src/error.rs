use vstd::prelude::*;

verus! {

/// Why decoding a stream stopped.
#[derive(Debug, Clone, Copy, PartialEq, Eq, Structural)]
pub enum HprofError {
    /// Fewer bytes remained than a field needs.
    TruncatedInput,
    /// An envelope's tag byte is not one of the known record kinds.
    UnknownTag(u8),
    /// An id or serial number has no entry in the table that should define it.
    DanglingReference,
    /// A string record declares a payload shorter than its identifier.
    MalformedRecord,
}

} // verus!
