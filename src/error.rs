use vstd::prelude::*;

verus! {

/// A fault reported by the serial link while writing or reading.
#[derive(Clone, Copy, Debug, PartialEq, Eq, Structural)]
pub enum UartFault {
    /// A stop bit was not where it was expected.
    Framing,
    /// Noise was detected on the line.
    Noise,
    /// A byte arrived before the previous one was taken.
    Overrun,
    /// The parity bit did not match.
    Parity,
    /// The buffer handed to the link was too long for it.
    BufferTooLong,
    /// A fault of another kind.
    Other,
}

/// Why a driver operation failed.
#[derive(Clone, Copy, Debug, PartialEq, Eq, Structural)]
pub enum Csr8645Error {
    /// The serial link failed to write or read.
    UartError(UartFault),
    /// A reply arrived but does not have the shape the command calls for.
    InvalidResponse,
}

impl From<UartFault> for Csr8645Error {
    fn from(fault: UartFault) -> (r: Csr8645Error)
        ensures
            r == Csr8645Error::UartError(fault),
    {
        Csr8645Error::UartError(fault)
    }
}

impl vstd::std_specs::convert::FromSpecImpl<UartFault> for Csr8645Error {
    open spec fn obeys_from_spec() -> bool {
        true
    }

    open spec fn from_spec(fault: UartFault) -> Csr8645Error {
        Csr8645Error::UartError(fault)
    }
}

} // verus!
