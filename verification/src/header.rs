//! The fixed-size head of a file image.
//!
//! Every field is a 32-bit little-endian word. In file order: signature,
//! format version, content type code, quantization code, channel count,
//! record count, alpha point count, beta point count, alpha resolution,
//! beta resolution, length of one decoded array, sample rate, symmetry
//! flag, orientation flag. Where the orientation flag is one, yaw, pitch and
//! roll follow.

use vstd::prelude::*;
use crate::codes::{ContentType, Quantization};
use crate::error::{Error, ErrorKind};
use crate::wire::{pow256_values, read_word, spec_word_at, word_bounds};

verus! {

/// The signature `DAFF`, read as a little-endian word.
pub const MAGIC: u32 = 0x4646_4144;

/// The one format version that this reader understands.
pub const VERSION: u32 = 1;

/// Bytes of the header without the orientation block.
pub const HEADER_LEN: usize = 56;

/// Bytes of the orientation block.
pub const ORIENTATION_LEN: usize = 12;

/// Rotation from the world frame into the data-view frame, in degrees.
/// Each angle is the bit pattern of a single-precision value.
#[derive(Debug, Clone, Copy, PartialEq, Eq, Structural)]
pub struct Orientation {
    /// Yaw angle in degrees
    pub yaw: u32,
    /// Pitch angle in degrees
    pub pitch: u32,
    /// Roll angle in degrees
    pub roll: u32,
}

impl Orientation {
    /// No rotation: all three angles are zero.
    pub open spec fn spec_identity() -> Orientation {
        Orientation { yaw: 0, pitch: 0, roll: 0 }
    }

    /// No rotation: all three angles are zero.
    pub fn identity() -> (o: Orientation)
        ensures
            o == Self::spec_identity(),
    {
        Orientation { yaw: 0, pitch: 0, roll: 0 }
    }
}

/// What the head of a file declares.
#[derive(Debug, Clone, Copy)]
pub struct Header {
    pub content_type: ContentType,
    pub quantization: Quantization,
    /// Channels per record, at least one.
    pub channels: i32,
    /// Records in the file, at least one.
    pub records: i32,
    pub alpha_points: i32,
    pub beta_points: i32,
    /// Alpha resolution in radians, as single-precision bits.
    pub alpha_resolution: u32,
    /// Beta resolution in radians, as single-precision bits.
    pub beta_resolution: u32,
    /// Filter length, number of frequencies or number of DFT coefficients.
    pub length: i32,
    /// Sample rate in Hz.
    pub samplerate: i32,
    /// Whether only the non-negative-frequency half of a spectrum is stored.
    pub symmetric: bool,
    /// The orientation block, where the file has one.
    pub orientation: Option<Orientation>,
}

/// The 32-bit field at `pos`.
pub open spec fn spec_field(s: Seq<u8>, pos: int) -> int {
    spec_word_at(s, pos, 4)
}

/// Whether `s` begins with a header that this reader accepts.
pub open spec fn spec_header_ok(s: Seq<u8>) -> bool {
    &&& s.len() >= HEADER_LEN
    &&& spec_field(s, 0) == MAGIC
    &&& spec_field(s, 4) == VERSION
    &&& ContentType::spec_from_code(spec_field(s, 8)).is_some()
    &&& Quantization::spec_from_code(spec_field(s, 12)).is_some()
    &&& 1 <= spec_field(s, 16) <= i32::MAX
    &&& 1 <= spec_field(s, 20) <= i32::MAX
    &&& spec_field(s, 24) <= i32::MAX
    &&& spec_field(s, 28) <= i32::MAX
    &&& spec_field(s, 40) <= i32::MAX
    &&& spec_field(s, 44) <= i32::MAX
    &&& spec_field(s, 48) <= 1
    &&& spec_field(s, 52) <= 1
    &&& (spec_field(s, 52) == 1 ==> s.len() >= HEADER_LEN + ORIENTATION_LEN)
}

/// The header that `s` begins with.
pub open spec fn spec_header(s: Seq<u8>) -> Header {
    Header {
        content_type: ContentType::spec_from_code(spec_field(s, 8)).unwrap(),
        quantization: Quantization::spec_from_code(spec_field(s, 12)).unwrap(),
        channels: spec_field(s, 16) as i32,
        records: spec_field(s, 20) as i32,
        alpha_points: spec_field(s, 24) as i32,
        beta_points: spec_field(s, 28) as i32,
        alpha_resolution: spec_field(s, 32) as u32,
        beta_resolution: spec_field(s, 36) as u32,
        length: spec_field(s, 40) as i32,
        samplerate: spec_field(s, 44) as i32,
        symmetric: spec_field(s, 48) == 1,
        orientation: if spec_field(s, 52) == 1 {
            Some(
                Orientation {
                    yaw: spec_field(s, 56) as u32,
                    pitch: spec_field(s, 60) as u32,
                    roll: spec_field(s, 64) as u32,
                },
            )
        } else {
            None
        },
    }
}

/// Where the header of `s` ends.
pub open spec fn spec_header_end(s: Seq<u8>) -> int {
    if spec_field(s, 52) == 1 {
        HEADER_LEN + ORIENTATION_LEN
    } else {
        HEADER_LEN as int
    }
}

/// A field is a number of 32 bits.
pub proof fn field_bounds(s: Seq<u8>, pos: int)
    requires
        0 <= pos,
        pos + 4 <= s.len(),
    ensures
        0 <= spec_field(s, pos) <= u32::MAX,
{
    word_bounds(s.subrange(pos, pos + 4));
    pow256_values();
}

/// Reads the 32-bit field at `pos`.
pub(crate) fn field(bytes: &[u8], pos: usize) -> (r: u32)
    requires
        pos + 4 <= bytes@.len(),
    ensures
        r == spec_field(bytes@, pos as int),
{
    let w: u64 = read_word(bytes, pos, 4);
    proof {
        word_bounds(bytes@.subrange(pos as int, pos + 4));
        pow256_values();
    }
    w as u32
}

/// Reads and validates the header. Fails with a format error exactly where
/// the bytes do not begin with an acceptable header.
pub fn parse_header(bytes: &[u8]) -> (r: Result<Header, Error>)
    ensures
        match r {
            Ok(h) => spec_header_ok(bytes@) && h == spec_header(bytes@),
            Err(e) => !spec_header_ok(bytes@) && e.kind == ErrorKind::Format,
        },
{
    if bytes.len() < HEADER_LEN {
        return Err(Error::new(ErrorKind::Format, "truncated header"));
    }
    if field(bytes, 0) != MAGIC {
        return Err(Error::new(ErrorKind::Format, "bad signature"));
    }
    if field(bytes, 4) != VERSION {
        return Err(Error::new(ErrorKind::Format, "unsupported version"));
    }
    let type_code: u32 = field(bytes, 8);
    let quant_code: u32 = field(bytes, 12);
    let channels: u32 = field(bytes, 16);
    let records: u32 = field(bytes, 20);
    let alpha_points: u32 = field(bytes, 24);
    let beta_points: u32 = field(bytes, 28);
    let length: u32 = field(bytes, 40);
    let samplerate: u32 = field(bytes, 44);
    let symmetric: u32 = field(bytes, 48);
    let oriented: u32 = field(bytes, 52);
    let limit: u32 = 0x7fff_ffff;
    if type_code > limit || quant_code > limit {
        return Err(Error::new(ErrorKind::Format, "unknown code"));
    }
    let content_type = match ContentType::from_i32(type_code as i32) {
        Some(t) => t,
        None => {
            return Err(Error::new(ErrorKind::Format, "unknown content type"));
        },
    };
    let quantization = match Quantization::from_i32(quant_code as i32) {
        Some(q) => q,
        None => {
            return Err(Error::new(ErrorKind::Format, "unknown quantization"));
        },
    };
    if channels < 1 || channels > limit || records < 1 || records > limit {
        return Err(Error::new(ErrorKind::Format, "bad channel or record count"));
    }
    if alpha_points > limit || beta_points > limit || length > limit || samplerate > limit {
        return Err(Error::new(ErrorKind::Format, "count out of range"));
    }
    if symmetric > 1 || oriented > 1 {
        return Err(Error::new(ErrorKind::Format, "bad flag"));
    }
    let orientation = if oriented == 1 {
        if bytes.len() < HEADER_LEN + ORIENTATION_LEN {
            return Err(Error::new(ErrorKind::Format, "truncated orientation"));
        }
        Some(
            Orientation {
                yaw: field(bytes, 56),
                pitch: field(bytes, 60),
                roll: field(bytes, 64),
            },
        )
    } else {
        None
    };
    Ok(
        Header {
            content_type,
            quantization,
            channels: channels as i32,
            records: records as i32,
            alpha_points: alpha_points as i32,
            beta_points: beta_points as i32,
            alpha_resolution: field(bytes, 32),
            beta_resolution: field(bytes, 36),
            length: length as i32,
            samplerate: samplerate as i32,
            symmetric: symmetric == 1,
            orientation,
        },
    )
}

} // verus!
