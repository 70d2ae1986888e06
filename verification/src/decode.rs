//! Decoding of the fixed 14-byte QOI header.
//!
//! The header layout is: a 4-byte magic signature `qoif`, width and height as
//! big-endian unsigned 32-bit integers, a channels byte restricted to 3 or 4,
//! and a colorspace byte restricted to 0 or 1.

use vstd::prelude::*;

verus! {

/// The decoded header of a QOI image: dimensions in pixels, the channel
/// count byte and the colorspace tag byte.
#[derive(Clone, Copy, Debug, PartialEq, Eq, Structural)]
pub struct Header {
    pub width: u32,
    pub height: u32,
    pub channels: u8,
    pub colorspace: u8,
}

/// Why a decode failed: the byte source ran out, the signature was wrong,
/// or one of the two enumeration bytes held a value outside its closed set
/// (the offending byte is carried along).
#[derive(Clone, Copy, Debug, PartialEq, Eq, Structural)]
pub enum DecodeError {
    IOError,
    InvalidMagic,
    UnknownChannelFormat(u8),
    UnknownColorspace(u8),
}

impl Header {
    /// A decoded header always carries a channels byte in {3, 4} and a
    /// colorspace byte in {0, 1}.
    pub open spec fn valid(self) -> bool {
        (self.channels == 3 || self.channels == 4) && (self.colorspace == 0
            || self.colorspace == 1)
    }
}

/// The big-endian composition of four bytes into an unsigned 32-bit
/// integer, most significant byte first.
pub open spec fn be_u32(b0: u8, b1: u8, b2: u8, b3: u8) -> u32 {
    ((b0 as u32) << 24) | ((b1 as u32) << 16) | ((b2 as u32) << 8) | (b3 as u32)
}

/// Whether the first four bytes of `s` are the signature `qoif`
/// (`0x71 0x6F 0x69 0x66`).
pub open spec fn magic_ok(s: Seq<u8>) -> bool {
    s.len() >= 4 && s[0] == 0x71 && s[1] == 0x6f && s[2] == 0x69 && s[3] == 0x66
}

/// What decoding a byte source yields. Fields are read in fixed order:
/// magic (4 bytes), then width, height, channels and colorspace; a source
/// too short for one of those reads fails with `IOError` at that read.
/// The signature is checked right after its read, before any further field
/// is read; the channels and colorspace bytes are checked, in that order,
/// once all fields have been read.
pub open spec fn decoded(s: Seq<u8>) -> Result<Header, DecodeError> {
    if s.len() < 4 {
        Err(DecodeError::IOError)
    } else if !magic_ok(s) {
        Err(DecodeError::InvalidMagic)
    } else if s.len() < 14 {
        Err(DecodeError::IOError)
    } else if s[12] != 3 && s[12] != 4 {
        Err(DecodeError::UnknownChannelFormat(s[12]))
    } else if s[13] != 0 && s[13] != 1 {
        Err(DecodeError::UnknownColorspace(s[13]))
    } else {
        Ok(
            Header {
                width: be_u32(s[4], s[5], s[6], s[7]),
                height: be_u32(s[8], s[9], s[10], s[11]),
                channels: s[12],
                colorspace: s[13],
            },
        )
    }
}

/// Pulls `len` bytes out of `source` starting at the cursor `*ptr`, and
/// advances the cursor past them. Succeeds exactly when the source holds
/// that many bytes from the cursor on; a short read is an `IOError` and
/// leaves the cursor unspecified, as the caller stops on failure.
pub fn read_section(ptr: &mut usize, source: &Vec<u8>, len: usize) -> (r: Result<
    Vec<u8>,
    DecodeError,
>)
    ensures
        match r {
            Ok(bytes) => *old(ptr) + len <= source@.len() && *final(ptr) == *old(ptr) + len
                && bytes@ == source@.subrange(*old(ptr) as int, *old(ptr) + len),
            Err(e) => e == DecodeError::IOError && *old(ptr) + len > source@.len(),
        },
{
    if *ptr > source.len() || len > source.len() - *ptr {
        return Err(DecodeError::IOError);
    }
    let start: usize = *ptr;
    let mut bytes: Vec<u8> = Vec::new();
    let mut i: usize = 0;
    while i < len
        invariant
            i <= len,
            start + len <= source@.len(),
            start + len <= usize::MAX,
            bytes@ == source@.subrange(start as int, start + i),
        decreases len - i,
    {
        bytes.push(source[start + i]);
        proof {
            assert(bytes@ =~= source@.subrange(start as int, start + i + 1));
        }
        i = i + 1;
    }
    *ptr = start + len;
    Ok(bytes)
}

/// Decodes the 14-byte header found at the start of `source`: validates the
/// `qoif` signature, reads width and height as big-endian 32-bit integers,
/// and checks the channels and colorspace bytes against their closed sets.
/// The result is exactly `decoded(source@)`.
pub fn decode_header(source: &Vec<u8>) -> (r: Result<Header, DecodeError>)
    ensures
        r == decoded(source@),
{
    let mut ptr: usize = 0;
    let magic = match read_section(&mut ptr, source, 4) {
        Ok(bytes) => bytes,
        Err(e) => { return Err(e) },
    };
    if !(magic[0] == 0x71 && magic[1] == 0x6f && magic[2] == 0x69 && magic[3] == 0x66) {
        return Err(DecodeError::InvalidMagic);
    }
    let width_buf = match read_section(&mut ptr, source, 4) {
        Ok(bytes) => bytes,
        Err(e) => { return Err(e) },
    };
    let height_buf = match read_section(&mut ptr, source, 4) {
        Ok(bytes) => bytes,
        Err(e) => { return Err(e) },
    };
    let channels_buf = match read_section(&mut ptr, source, 1) {
        Ok(bytes) => bytes,
        Err(e) => { return Err(e) },
    };
    let colorspace_buf = match read_section(&mut ptr, source, 1) {
        Ok(bytes) => bytes,
        Err(e) => { return Err(e) },
    };
    let channels: u8 = channels_buf[0];
    if channels != 3 && channels != 4 {
        return Err(DecodeError::UnknownChannelFormat(channels));
    }
    let colorspace: u8 = colorspace_buf[0];
    if colorspace != 0 && colorspace != 1 {
        return Err(DecodeError::UnknownColorspace(colorspace));
    }
    let width = read_u32_from_u8_buffer([width_buf[0], width_buf[1], width_buf[2], width_buf[3]]);
    let height = read_u32_from_u8_buffer(
        [height_buf[0], height_buf[1], height_buf[2], height_buf[3]],
    );
    Ok(Header { width, height, channels, colorspace })
}

/// Composes four bytes, most significant first, into an unsigned 32-bit
/// integer: `b0<<24 | b1<<16 | b2<<8 | b3`.
pub fn read_u32_from_u8_buffer(buffer: [u8; 4]) -> (r: u32)
    ensures
        r == be_u32(buffer@[0], buffer@[1], buffer@[2], buffer@[3]),
{
    return u32::from(buffer[0]) << 24u32 | u32::from(buffer[1]) << 16u32 | u32::from(
        buffer[2],
    ) << 8u32 | u32::from(buffer[3]);
}

/// The 14-byte buffer that carries the given fields: the `qoif` signature,
/// then width and height split into big-endian bytes, then the channels and
/// colorspace bytes.
pub open spec fn header_bytes(width: u32, height: u32, channels: u8, colorspace: u8) -> Seq<u8> {
    seq![
        0x71u8,
        0x6fu8,
        0x69u8,
        0x66u8,
        (width >> 24) as u8,
        (width >> 16) as u8,
        (width >> 8) as u8,
        width as u8,
        (height >> 24) as u8,
        (height >> 16) as u8,
        (height >> 8) as u8,
        height as u8,
        channels,
        colorspace,
    ]
}

/// A buffer of at least four bytes whose first four bytes are not the
/// signature is rejected as `InvalidMagic`, whatever the remaining bytes
/// hold.
pub proof fn lemma_invalid_magic(s: Seq<u8>)
    requires
        s.len() >= 4,
        !magic_ok(s),
    ensures
        decoded(s) == Err::<Header, DecodeError>(DecodeError::InvalidMagic),
{
}

/// A buffer of at least 14 bytes with the signature, a channels byte in
/// {3, 4} and a colorspace byte in {0, 1} decodes successfully, and the
/// width and height of the result are the big-endian readings of bytes
/// 4 to 7 and 8 to 11.
pub proof fn lemma_valid_header(s: Seq<u8>)
    requires
        s.len() >= 14,
        magic_ok(s),
        s[12] == 3 || s[12] == 4,
        s[13] == 0 || s[13] == 1,
    ensures
        decoded(s) == Ok::<Header, DecodeError>(
            Header {
                width: be_u32(s[4], s[5], s[6], s[7]),
                height: be_u32(s[8], s[9], s[10], s[11]),
                channels: s[12],
                colorspace: s[13],
            },
        ),
{
}

/// Once the signature has passed and all fields are present, a channels
/// byte outside {3, 4} fails with `UnknownChannelFormat` carrying that
/// exact byte, whatever the colorspace byte holds.
pub proof fn lemma_unknown_channels(s: Seq<u8>)
    requires
        s.len() >= 14,
        magic_ok(s),
        s[12] != 3,
        s[12] != 4,
    ensures
        decoded(s) == Err::<Header, DecodeError>(DecodeError::UnknownChannelFormat(s[12])),
{
}

/// Once the signature and the channels byte have passed, a colorspace byte
/// outside {0, 1} fails with `UnknownColorspace` carrying that exact byte.
pub proof fn lemma_unknown_colorspace(s: Seq<u8>)
    requires
        s.len() >= 14,
        magic_ok(s),
        s[12] == 3 || s[12] == 4,
        s[13] != 0,
        s[13] != 1,
    ensures
        decoded(s) == Err::<Header, DecodeError>(DecodeError::UnknownColorspace(s[13])),
{
}

/// A buffer shorter than the 14-byte header fails with an `IOError` at the
/// first read that would run past its end, provided decoding gets that far:
/// with four or more bytes the signature must pass, or `InvalidMagic` comes
/// first.
pub proof fn lemma_short_source(s: Seq<u8>)
    requires
        s.len() < 14,
        s.len() >= 4 ==> magic_ok(s),
    ensures
        decoded(s) == Err::<Header, DecodeError>(DecodeError::IOError),
{
}

/// Whenever decoding succeeds, the header it returns is valid: its
/// channels byte is in {3, 4} and its colorspace byte in {0, 1}.
pub proof fn lemma_decoded_valid(s: Seq<u8>)
    requires
        decoded(s) is Ok,
    ensures
        decoded(s)->Ok_0.valid(),
{
}

/// Round trip: the buffer built from any field tuple with a valid channels
/// and colorspace byte decodes back to exactly that tuple.
pub proof fn lemma_round_trip(width: u32, height: u32, channels: u8, colorspace: u8)
    requires
        channels == 3 || channels == 4,
        colorspace == 0 || colorspace == 1,
    ensures
        decoded(header_bytes(width, height, channels, colorspace)) == Ok::<Header, DecodeError>(
            Header { width, height, channels, colorspace },
        ),
{
    let s = header_bytes(width, height, channels, colorspace);
    assert(be_u32((width >> 24) as u8, (width >> 16) as u8, (width >> 8) as u8, width as u8)
        == width) by (bit_vector);
    assert(be_u32((height >> 24) as u8, (height >> 16) as u8, (height >> 8) as u8, height as u8)
        == height) by (bit_vector);
    assert(magic_ok(s));
    assert(decoded(s) == Ok::<Header, DecodeError>(
        Header { width, height, channels, colorspace },
    ));
}

} // verus!
