use vstd::prelude::*;

verus! {

/// Why a container header was refused.
#[derive(Clone, Copy, Debug, PartialEq, Eq, Structural)]
pub enum HeaderFault {
    BadMagic,
    BadEncoding,
    BadVersion,
    BadCopyright,
    /// The header is well formed, but names a layout that no decoder here handles.
    Unsupported,
}

impl HeaderFault {
    /// The reason in words.
    pub fn reason(&self) -> &'static str {
        match self {
            HeaderFault::BadMagic => "bad adx magic value",
            HeaderFault::BadEncoding => "bad encoding value",
            HeaderFault::BadVersion => "bad adx version value",
            HeaderFault::BadCopyright => "bad copyright string",
            HeaderFault::Unsupported => "unsupported encoding or block layout",
        }
    }
}

/// The errors of this library.
#[derive(Clone, Copy, Debug, PartialEq, Eq, Structural)]
pub enum RadxError {
    /// The byte stream ended before the value being read.
    IoError,
    /// An AHX frame began with neither the sync word nor the end sentinel.
    BadAhxFrameHeader,
    BadAdxHeader(HeaderFault),
}

impl RadxError {
    /// A one-line description of the error.
    pub fn description(&self) -> &'static str {
        match self {
            RadxError::IoError => "unexpected end of data",
            RadxError::BadAhxFrameHeader => "bad ahx frame header",
            RadxError::BadAdxHeader(fault) => fault.reason(),
        }
    }
}

pub type RadxResult<T> = Result<T, RadxError>;

} // verus!
