//! Decoding errors and their classification.

use vstd::prelude::*;

verus! {

/// `std::io::Error`, the error of a read of the byte source. Nothing is
/// claimed of it: the decoder never looks into a read error, it hands it on
/// to the caller as it got it.
#[verifier::external_type_specification]
#[verifier::external_body]
pub struct ExIoError(std::io::Error);

/// An error condition reported by the codec engine. The engine's error
/// register holds one of these, or nothing.
#[derive(Clone, Copy, Debug, PartialEq, Eq, Structural)]
pub enum MadError {
    /// input buffer too small (or end of input)
    BufLen,
    /// invalid (null) buffer pointer
    BufPtr,
    /// not enough memory
    NoMem,
    /// lost synchronization
    LostSync,
    /// reserved header layer value
    BadLayer,
    /// forbidden bitrate value
    BadBitRate,
    /// reserved sample frequency value
    BadSampleRate,
    /// reserved emphasis value
    BadEmphasis,
    /// CRC check failed
    BadCRC,
    /// forbidden bit allocation value
    BadBitAlloc,
    /// bad scalefactor index
    BadScaleFactor,
    /// bad bitrate/mode combination
    BadMode,
    /// bad frame length
    BadFrameLen,
    /// bad big_values count
    BadBigValues,
    /// reserved block_type
    BadBlockType,
    /// bad scalefactor selection info
    BadScFSI,
    /// bad main_data_begin pointer
    BadDataPtr,
    /// bad audio data length
    BadPart3Len,
    /// bad Huffman table select
    BadHuffTable,
    /// Huffman data overrun
    BadHuffData,
    /// incompatible block_type for joint stereo
    BadStereo,
}

impl MadError {
    /// The engine's numeric code for this condition.
    pub open spec fn spec_code(self) -> u16 {
        match self {
            MadError::BufLen => 0x0001,
            MadError::BufPtr => 0x0002,
            MadError::NoMem => 0x0031,
            MadError::LostSync => 0x0101,
            MadError::BadLayer => 0x0102,
            MadError::BadBitRate => 0x0103,
            MadError::BadSampleRate => 0x0104,
            MadError::BadEmphasis => 0x0105,
            MadError::BadCRC => 0x0201,
            MadError::BadBitAlloc => 0x0211,
            MadError::BadScaleFactor => 0x0221,
            MadError::BadMode => 0x0222,
            MadError::BadFrameLen => 0x0231,
            MadError::BadBigValues => 0x0232,
            MadError::BadBlockType => 0x0233,
            MadError::BadScFSI => 0x0234,
            MadError::BadDataPtr => 0x0235,
            MadError::BadPart3Len => 0x0236,
            MadError::BadHuffTable => 0x0237,
            MadError::BadHuffData => 0x0238,
            MadError::BadStereo => 0x0239,
        }
    }

    /// The engine's numeric code for this condition.
    #[verifier::when_used_as_spec(spec_code)]
    pub fn code(self) -> (c: u16)
        ensures
            c == self.spec_code(),
    {
        match self {
            MadError::BufLen => 0x0001,
            MadError::BufPtr => 0x0002,
            MadError::NoMem => 0x0031,
            MadError::LostSync => 0x0101,
            MadError::BadLayer => 0x0102,
            MadError::BadBitRate => 0x0103,
            MadError::BadSampleRate => 0x0104,
            MadError::BadEmphasis => 0x0105,
            MadError::BadCRC => 0x0201,
            MadError::BadBitAlloc => 0x0211,
            MadError::BadScaleFactor => 0x0221,
            MadError::BadMode => 0x0222,
            MadError::BadFrameLen => 0x0231,
            MadError::BadBigValues => 0x0232,
            MadError::BadBlockType => 0x0233,
            MadError::BadScFSI => 0x0234,
            MadError::BadDataPtr => 0x0235,
            MadError::BadPart3Len => 0x0236,
            MadError::BadHuffTable => 0x0237,
            MadError::BadHuffData => 0x0238,
            MadError::BadStereo => 0x0239,
        }
    }
}

/// Whether decoding may go on after `err`: its code lies in the band of
/// conditions that concern a single frame, the codes from `0x0100` upwards.
/// Below that band lie the conditions of the input buffer and of memory.
pub open spec fn recoverable(err: MadError) -> bool {
    err.spec_code() >= 0x0100
}

/// Whether an error register that holds `register` lets decoding go on: it is
/// empty, or what it holds is recoverable.
pub open spec fn clear_to_decode(register: Option<MadError>) -> bool {
    match register {
        None => true,
        Some(err) => recoverable(err),
    }
}

/// Whether decoding may go on after `err`.
pub fn error_is_recoverable(err: &MadError) -> (b: bool)
    ensures
        b == recoverable(*err),
{
    let code: u16 = err.code();
    assert((code & 0xff00 != 0) == (code >= 0x0100)) by (bit_vector);
    code & 0xff00 != 0
}

/// An error encountered during the decoding process.
#[derive(Debug)]
pub enum SimplemadError {
    /// A read error of the byte source
    Read(std::io::Error),
    /// An error reported by the codec engine
    Mad(MadError),
    /// The byte source has stopped producing data
    EOF,
}

impl From<MadError> for SimplemadError {
    fn from(err: MadError) -> (r: SimplemadError) {
        SimplemadError::Mad(err)
    }
}

impl vstd::std_specs::convert::FromSpecImpl<MadError> for SimplemadError {
    open spec fn obeys_from_spec() -> bool {
        true
    }

    open spec fn from_spec(err: MadError) -> SimplemadError {
        SimplemadError::Mad(err)
    }
}

impl From<std::io::Error> for SimplemadError {
    fn from(err: std::io::Error) -> (r: SimplemadError) {
        SimplemadError::Read(err)
    }
}

impl vstd::std_specs::convert::FromSpecImpl<std::io::Error> for SimplemadError {
    open spec fn obeys_from_spec() -> bool {
        true
    }

    open spec fn from_spec(err: std::io::Error) -> SimplemadError {
        SimplemadError::Read(err)
    }
}

} // verus!
