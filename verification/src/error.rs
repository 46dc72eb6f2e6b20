//! The error taxonomy of the transport layer.

use vstd::prelude::*;

verus! {

/// Every failure the codec, segmenter, reassembler or session can report.
#[derive(Debug, Clone, PartialEq)]
pub enum Error {
    /// The link collaborator failed.
    DeviceError,
    /// The protocol data unit is empty.
    EmptyPdu,
    /// The byte buffer is not a valid protocol data unit; carries the bytes.
    InvalidPdu(Vec<u8>),
    /// A parameter was invalid; carries a short description.
    InvalidParam(String),
    /// A frame had the wrong byte count on the wire.
    InvalidDataLength { actual: usize, expect: usize },
    /// A payload length exceeds what the dialect can carry.
    LengthOutOfRange(usize),
    /// A consecutive frame arrived with the wrong sequence number.
    InvalidSequence { actual: u8, expect: u8 },
    /// A consecutive frame arrived with no first frame before it.
    MixFramesError,
    /// A protocol timer expired; value and unit of the bound that was hit.
    Timeout { value: u64, unit: &'static str },
    /// A value could not be converted between two representations.
    ConvertError { src: &'static str, target: &'static str },
    /// The peer answered with an overload flow-control frame.
    OverloadFlow,
    /// An internal lock or context could not be taken.
    ContextError(String),
}

/// The name that [`Error::kind_name`] returns for each variant.
pub open spec fn spec_kind_name(e: Error) -> Seq<char> {
    match e {
        Error::DeviceError => "device error"@,
        Error::EmptyPdu => "empty pdu"@,
        Error::InvalidPdu(_) => "invalid pdu"@,
        Error::InvalidParam(_) => "invalid parameter"@,
        Error::InvalidDataLength { .. } => "invalid data length"@,
        Error::LengthOutOfRange(_) => "length out of range"@,
        Error::InvalidSequence { .. } => "invalid sequence"@,
        Error::MixFramesError => "mixed frames"@,
        Error::Timeout { .. } => "timeout"@,
        Error::ConvertError { .. } => "convert error"@,
        Error::OverloadFlow => "overload flow control"@,
        Error::ContextError(_) => "context error"@,
    }
}

impl Error {
    /// A short human-readable name of the error kind.
    pub fn kind_name(&self) -> (r: &'static str)
        ensures
            r@ == spec_kind_name(*self),
    {
        match self {
            Error::DeviceError => "device error",
            Error::EmptyPdu => "empty pdu",
            Error::InvalidPdu(_) => "invalid pdu",
            Error::InvalidParam(_) => "invalid parameter",
            Error::InvalidDataLength { .. } => "invalid data length",
            Error::LengthOutOfRange(_) => "length out of range",
            Error::InvalidSequence { .. } => "invalid sequence",
            Error::MixFramesError => "mixed frames",
            Error::Timeout { .. } => "timeout",
            Error::ConvertError { .. } => "convert error",
            Error::OverloadFlow => "overload flow control",
            Error::ContextError(_) => "context error",
        }
    }
}

} // verus!
