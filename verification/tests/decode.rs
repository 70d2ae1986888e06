use qoi_info::decode::decode_header;
use qoi_info::decode::read_section;
use qoi_info::decode::read_u32_from_u8_buffer;
use qoi_info::decode::DecodeError;
use qoi_info::decode::Header;

fn header_buffer(width: u32, height: u32, channels: u8, colorspace: u8) -> Vec<u8> {
    let mut buf: Vec<u8> = vec![0x71, 0x6F, 0x69, 0x66];
    buf.push((width >> 24) as u8);
    buf.push((width >> 16) as u8);
    buf.push((width >> 8) as u8);
    buf.push(width as u8);
    buf.push((height >> 24) as u8);
    buf.push((height >> 16) as u8);
    buf.push((height >> 8) as u8);
    buf.push(height as u8);
    buf.push(channels);
    buf.push(colorspace);
    buf
}

#[test]
fn scenario_a_decodes() {
    let bytes: Vec<u8> = vec![
        0x71, 0x6F, 0x69, 0x66, 0x00, 0x00, 0x00, 0x0A, 0x00, 0x00, 0x00, 0x05, 0x04, 0x00,
    ];
    assert_eq!(
        decode_header(&bytes),
        Ok(Header { width: 10, height: 5, channels: 4, colorspace: 0 })
    );
}

#[test]
fn scenario_b_wrong_magic() {
    let bytes: Vec<u8> = vec![
        0x00, 0x00, 0x00, 0x00, 0x00, 0x00, 0x00, 0x0A, 0x00, 0x00, 0x00, 0x05, 0x04, 0x00,
    ];
    assert_eq!(decode_header(&bytes), Err(DecodeError::InvalidMagic));
}

#[test]
fn wrong_magic_one_byte_off() {
    let mut bytes = header_buffer(10, 5, 4, 0);
    bytes[3] = 0x67;
    assert_eq!(decode_header(&bytes), Err(DecodeError::InvalidMagic));
}

#[test]
fn scenario_c_unknown_channels() {
    // The colorspace byte is invalid too, yet the channels error comes first.
    let bytes = header_buffer(10, 5, 0x05, 0x09);
    assert_eq!(decode_header(&bytes), Err(DecodeError::UnknownChannelFormat(5)));
}

#[test]
fn unknown_channels_zero() {
    let bytes = header_buffer(1, 1, 0, 0);
    assert_eq!(decode_header(&bytes), Err(DecodeError::UnknownChannelFormat(0)));
}

#[test]
fn unknown_colorspace() {
    let bytes = header_buffer(10, 5, 3, 9);
    assert_eq!(decode_header(&bytes), Err(DecodeError::UnknownColorspace(9)));
}

#[test]
fn unknown_colorspace_two() {
    let bytes = header_buffer(640, 480, 4, 2);
    assert_eq!(decode_header(&bytes), Err(DecodeError::UnknownColorspace(2)));
}

#[test]
fn short_sources_fail_with_io_error() {
    let empty: Vec<u8> = vec![];
    assert_eq!(decode_header(&empty), Err(DecodeError::IOError));
    let three: Vec<u8> = vec![0x71, 0x6F, 0x69];
    assert_eq!(decode_header(&three), Err(DecodeError::IOError));
    for len in 4..14 {
        let mut bytes = header_buffer(10, 5, 4, 0);
        bytes.truncate(len);
        assert_eq!(decode_header(&bytes), Err(DecodeError::IOError));
    }
}

#[test]
fn short_source_with_wrong_magic_fails_on_magic() {
    // Four bytes are there to read, so the signature check comes before the
    // next read runs short.
    let bytes: Vec<u8> = vec![0x00, 0x00, 0x00, 0x00, 0x01];
    assert_eq!(decode_header(&bytes), Err(DecodeError::InvalidMagic));
}

#[test]
fn round_trip_all_valid_enumerations() {
    for &channels in &[3u8, 4u8] {
        for &colorspace in &[0u8, 1u8] {
            for &(width, height) in
                &[(0u32, 0u32), (1, 1), (10, 5), (800, 600), (u32::MAX, u32::MAX)]
            {
                let bytes = header_buffer(width, height, channels, colorspace);
                assert_eq!(
                    decode_header(&bytes),
                    Ok(Header { width, height, channels, colorspace })
                );
            }
        }
    }
}

#[test]
fn trailing_bytes_are_ignored() {
    let mut bytes = header_buffer(7, 9, 3, 1);
    bytes.push(0xFF);
    bytes.push(0xAB);
    assert_eq!(
        decode_header(&bytes),
        Ok(Header { width: 7, height: 9, channels: 3, colorspace: 1 })
    );
}

#[test]
fn read_u32_exact_values() {
    assert_eq!(read_u32_from_u8_buffer([0x12, 0x34, 0x56, 0x78]), 0x12345678);
    assert_eq!(read_u32_from_u8_buffer([0, 0, 0, 0]), 0);
    assert_eq!(read_u32_from_u8_buffer([0, 0, 0, 10]), 10);
    assert_eq!(read_u32_from_u8_buffer([0xFF, 0xFF, 0xFF, 0xFF]), u32::MAX);
    assert_eq!(read_u32_from_u8_buffer([1, 0, 0, 0]), 1 << 24);
}

#[test]
fn read_section_advances_cursor() {
    let source: Vec<u8> = vec![10, 20, 30, 40, 50];
    let mut ptr: usize = 0;
    assert_eq!(read_section(&mut ptr, &source, 2), Ok(vec![10, 20]));
    assert_eq!(ptr, 2);
    assert_eq!(read_section(&mut ptr, &source, 3), Ok(vec![30, 40, 50]));
    assert_eq!(ptr, 5);
    assert_eq!(read_section(&mut ptr, &source, 1), Err(DecodeError::IOError));
}

#[test]
fn read_section_short_read_fails() {
    let source: Vec<u8> = vec![1, 2, 3];
    let mut ptr: usize = 2;
    assert_eq!(read_section(&mut ptr, &source, 2), Err(DecodeError::IOError));
    let mut at_end: usize = 3;
    assert_eq!(read_section(&mut at_end, &source, 0), Ok(vec![]));
}
