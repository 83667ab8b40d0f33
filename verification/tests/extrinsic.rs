use ibc_core::extrinsic::{check_length, read_header, ExtrinsicError, ExtrinsicHeader};

fn header(expected_length: u32, is_signed: bool, before_length: usize, body_start: usize) -> ExtrinsicHeader {
    ExtrinsicHeader { expected_length, is_signed, before_length, body_start }
}

#[test]
fn a_header_is_a_compact_length_and_a_version_byte() {
    assert_eq!(read_header(&[0x10, 0x84, 1, 2, 3]), Ok(header(4, true, 4, 2)));
    assert_eq!(read_header(&[0x10, 0x04, 1, 2, 3]), Ok(header(4, false, 4, 2)));
    assert_eq!(read_header(&[0x00, 0x04]), Ok(header(0, false, 1, 2)));
    assert_eq!(read_header(&[0xfc, 0x04]), Ok(header(63, false, 1, 2)));
    assert_eq!(read_header(&[0x01, 0x01, 0x84, 9]), Ok(header(64, true, 2, 3)));
    assert_eq!(read_header(&[0xfd, 0xff, 0x04]), Ok(header(16383, false, 1, 3)));
    assert_eq!(read_header(&[0x02, 0x00, 0x01, 0x00, 0x04]), Ok(header(16384, false, 1, 5)));
    assert_eq!(
        read_header(&[0xfe, 0xff, 0xff, 0xff, 0x84, 0]),
        Ok(header(0x3fff_ffff, true, 2, 5))
    );
    assert_eq!(
        read_header(&[0x03, 0x00, 0x00, 0x00, 0x40, 0x04]),
        Ok(header(0x4000_0000, false, 1, 6))
    );
    assert_eq!(
        read_header(&[0x03, 0xff, 0xff, 0xff, 0xff, 0x04, 1]),
        Ok(header(u32::MAX, false, 2, 6))
    );
}

#[test]
fn a_header_that_cannot_be_read_is_refused() {
    assert_eq!(read_header(&[]), Err(ExtrinsicError::Codec));
    assert_eq!(read_header(&[0x10]), Err(ExtrinsicError::Codec));
    assert_eq!(read_header(&[0x01]), Err(ExtrinsicError::Codec));
    assert_eq!(read_header(&[0x02, 0x00, 0x01]), Err(ExtrinsicError::Codec));
    assert_eq!(read_header(&[0x03, 0x00, 0x00, 0x00]), Err(ExtrinsicError::Codec));
    // Not in the shortest form.
    assert_eq!(read_header(&[0x01, 0x00, 0x04]), Err(ExtrinsicError::Codec));
    assert_eq!(read_header(&[0xfd, 0x00, 0x04]), Err(ExtrinsicError::Codec));
    assert_eq!(read_header(&[0x02, 0x00, 0x00, 0x00, 0x04]), Err(ExtrinsicError::Codec));
    assert_eq!(read_header(&[0x03, 0xff, 0xff, 0xff, 0x3f, 0x04]), Err(ExtrinsicError::Codec));
    // Beyond 32 bits.
    assert_eq!(read_header(&[0x07, 0, 0, 0, 0, 1, 0x04]), Err(ExtrinsicError::Codec));
    assert_eq!(read_header(&[0x10, 0x05]), Err(ExtrinsicError::InvalidVersion));
    assert_eq!(read_header(&[0x10, 0x83]), Err(ExtrinsicError::InvalidVersion));
    assert_eq!(read_header(&[0x10, 0x00]), Err(ExtrinsicError::InvalidVersion));
}

#[test]
fn the_body_must_be_as_long_as_announced() {
    let h = header(4, true, 10, 2);
    assert_eq!(check_length(&h, 6), Ok(()));
    assert_eq!(check_length(&h, 5), Err(ExtrinsicError::InvalidLengthPrefix));
    assert_eq!(check_length(&h, 7), Err(ExtrinsicError::InvalidLengthPrefix));
    assert_eq!(check_length(&h, 11), Err(ExtrinsicError::InvalidLengthPrefix));
    assert_eq!(check_length(&header(0, false, 3, 2), 9), Ok(()));
    assert_eq!(check_length(&header(1, false, 1, 2), 0), Ok(()));
}
