use simplemad::error::error_is_recoverable;
use simplemad::{MadError, SimplemadError};

const ALL: [(MadError, u16); 21] = [
    (MadError::BufLen, 0x0001),
    (MadError::BufPtr, 0x0002),
    (MadError::NoMem, 0x0031),
    (MadError::LostSync, 0x0101),
    (MadError::BadLayer, 0x0102),
    (MadError::BadBitRate, 0x0103),
    (MadError::BadSampleRate, 0x0104),
    (MadError::BadEmphasis, 0x0105),
    (MadError::BadCRC, 0x0201),
    (MadError::BadBitAlloc, 0x0211),
    (MadError::BadScaleFactor, 0x0221),
    (MadError::BadMode, 0x0222),
    (MadError::BadFrameLen, 0x0231),
    (MadError::BadBigValues, 0x0232),
    (MadError::BadBlockType, 0x0233),
    (MadError::BadScFSI, 0x0234),
    (MadError::BadDataPtr, 0x0235),
    (MadError::BadPart3Len, 0x0236),
    (MadError::BadHuffTable, 0x0237),
    (MadError::BadHuffData, 0x0238),
    (MadError::BadStereo, 0x0239),
];

#[test]
fn every_error_has_its_code() {
    for (err, code) in ALL {
        assert_eq!(err.code(), code);
    }
}

#[test]
fn errors_of_buffer_and_memory_are_fatal() {
    assert!(!error_is_recoverable(&MadError::BufLen));
    assert!(!error_is_recoverable(&MadError::BufPtr));
    assert!(!error_is_recoverable(&MadError::NoMem));
}

#[test]
fn errors_of_a_single_frame_are_recoverable() {
    for (err, code) in ALL {
        assert_eq!(error_is_recoverable(&err), code & 0xff00 != 0);
        assert_eq!(error_is_recoverable(&err), code >= 0x0100);
    }
    assert!(error_is_recoverable(&MadError::BadBitRate));
    assert!(error_is_recoverable(&MadError::LostSync));
    assert!(error_is_recoverable(&MadError::BadStereo));
}

#[test]
fn an_engine_error_converts_to_a_decoding_error() {
    match SimplemadError::from(MadError::BadCRC) {
        SimplemadError::Mad(err) => assert_eq!(err, MadError::BadCRC),
        other => panic!("{:?}", other),
    }
}

#[test]
fn a_read_error_converts_to_a_decoding_error() {
    let err = std::io::Error::new(std::io::ErrorKind::UnexpectedEof, "cut short");
    match SimplemadError::from(err) {
        SimplemadError::Read(err) => {
            assert_eq!(err.kind(), std::io::ErrorKind::UnexpectedEof);
            assert_eq!(format!("{}", err), "cut short");
        }
        other => panic!("{:?}", other),
    }
}
