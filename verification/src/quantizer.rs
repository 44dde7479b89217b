//! Conversion between stored numbers and decoded samples.
//!
//! A decoded sample is held exactly: an integer kind gives the stored
//! integer together with the integer that stands for the amplitude 1, and a
//! floating-point kind gives the bit pattern of the stored value.

use vstd::prelude::*;
use crate::codes::Quantization;
use crate::wire::{
    le_bytes_of_word, pow256_values, read_word, spec_le_bytes, spec_pow256, spec_word,
    spec_word_at, word_bounds, word_of_le_bytes, write_word,
};

verus! {

/// One decoded number.
#[derive(Debug, Clone, Copy, PartialEq, Eq, Structural)]
#[allow(inconsistent_fields)]
pub enum Sample {
    /// The amplitude `raw / full_scale`, from an integer kind.
    Fixed { raw: i32, full_scale: i32 },
    /// The bit pattern of a single-precision value.
    Single { bits: u32 },
    /// The bit pattern of a double-precision value.
    Double { bits: u64 },
}

/// The two's complement reading of a word of `width` bytes.
pub open spec fn spec_signed(word: int, width: nat) -> int {
    if 2 * word >= spec_pow256(width) {
        word - spec_pow256(width)
    } else {
        word
    }
}

/// The word of `width` bytes whose two's complement reading is `raw`.
pub open spec fn spec_unsigned(raw: int, width: nat) -> int {
    if raw < 0 {
        raw + spec_pow256(width)
    } else {
        raw
    }
}

/// `value` held to the integers from `-full_scale - 1` to `full_scale`.
pub open spec fn spec_saturate(value: int, full_scale: int) -> int {
    if value > full_scale {
        full_scale
    } else if value < -full_scale - 1 {
        -full_scale - 1
    } else {
        value
    }
}

/// The sample that the bytes of `s` from `pos` on store under `kind`.
pub open spec fn spec_dequantize_at(kind: Quantization, s: Seq<u8>, pos: int) -> Sample {
    let word = spec_word_at(s, pos, kind.spec_width());
    match kind {
        Quantization::Float32 => Sample::Single { bits: word as u32 },
        Quantization::Float64 => Sample::Double { bits: word as u64 },
        _ => Sample::Fixed {
            raw: spec_signed(word, kind.spec_width() as nat) as i32,
            full_scale: kind.spec_full_scale() as i32,
        },
    }
}

/// The sample that `s` stores under `kind`, where `s` has the width of one
/// stored number.
pub open spec fn spec_dequantize(kind: Quantization, s: Seq<u8>) -> Option<Sample> {
    if s.len() == kind.spec_width() {
        Some(spec_dequantize_at(kind, s, 0))
    } else {
        None
    }
}

/// Whether `sample` has the form that `kind` stores.
pub open spec fn spec_storable(kind: Quantization, sample: Sample) -> bool {
    match sample {
        Sample::Fixed { raw, full_scale } => kind.spec_is_integer() && full_scale
            == kind.spec_full_scale(),
        Sample::Single { bits } => kind == Quantization::Float32,
        Sample::Double { bits } => kind == Quantization::Float64,
    }
}

/// The bytes that store `sample` under `kind`. An integer whose amplitude
/// lies outside the representable range is stored as the nearest end of
/// that range.
pub open spec fn spec_quantize(kind: Quantization, sample: Sample) -> Option<Seq<u8>> {
    if !spec_storable(kind, sample) {
        None
    } else {
        let width = kind.spec_width() as nat;
        match sample {
            Sample::Fixed { raw, full_scale } => Some(
                spec_le_bytes(
                    spec_unsigned(spec_saturate(raw as int, full_scale as int), width),
                    width,
                ),
            ),
            Sample::Single { bits } => Some(spec_le_bytes(bits as int, width)),
            Sample::Double { bits } => Some(spec_le_bytes(bits as int, width)),
        }
    }
}

/// Holds `value` to the integers from `-full_scale - 1` to `full_scale`.
pub fn saturate(value: i64, full_scale: i32) -> (r: i32)
    ensures
        r == spec_saturate(value as int, full_scale as int),
{
    let low: i64 = -(full_scale as i64) - 1;
    if value > full_scale as i64 {
        full_scale
    } else if value < low {
        low as i32
    } else {
        value as i32
    }
}

/// Decodes the number stored at `pos`.
pub(crate) fn dequantize_at(kind: Quantization, bytes: &[u8], pos: usize) -> (r: Sample)
    requires
        pos + kind.spec_width() <= bytes@.len(),
    ensures
        r == spec_dequantize_at(kind, bytes@, pos as int),
{
    let width: usize = kind.width();
    let word: u64 = read_word(bytes, pos, width);
    proof {
        word_bounds(bytes@.subrange(pos as int, pos + width));
        pow256_values();
    }
    match kind {
        Quantization::Float32 => Sample::Single { bits: word as u32 },
        Quantization::Float64 => Sample::Double { bits: word },
        _ => {
            let modulus: i64 = match kind {
                Quantization::Int8 => 0x100,
                Quantization::Int16 => 0x1_0000,
                Quantization::Int24 => 0x100_0000,
                _ => 0x1_0000_0000,
            };
            let unsigned: i64 = word as i64;
            let raw: i64 = if 2 * unsigned >= modulus {
                unsigned - modulus
            } else {
                unsigned
            };
            Sample::Fixed { raw: raw as i32, full_scale: kind.full_scale() }
        },
    }
}

/// Decodes one stored number. Gives a sample for every run of bytes that
/// has the width of `kind`, and nothing for any other length.
pub fn dequantize(kind: Quantization, bytes: &[u8]) -> (r: Option<Sample>)
    ensures
        r == spec_dequantize(kind, bytes@),
{
    if bytes.len() == kind.width() {
        Some(dequantize_at(kind, bytes, 0))
    } else {
        None
    }
}

/// Encodes one sample. Gives the stored bytes where the sample has the form
/// that `kind` stores, and nothing otherwise; an integer out of range is
/// clamped, not refused.
pub fn quantize(kind: Quantization, sample: Sample) -> (r: Option<Vec<u8>>)
    ensures
        match r {
            Some(v) => spec_quantize(kind, sample) == Some(v@),
            None => spec_quantize(kind, sample).is_none(),
        },
{
    let width: usize = kind.width();
    match sample {
        Sample::Fixed { raw, full_scale } => {
            if kind.is_integer() && full_scale == kind.full_scale() {
                let held: i32 = saturate(raw as i64, full_scale);
                let modulus: i64 = match kind {
                    Quantization::Int8 => 0x100,
                    Quantization::Int16 => 0x1_0000,
                    Quantization::Int24 => 0x100_0000,
                    _ => 0x1_0000_0000,
                };
                proof {
                    pow256_values();
                }
                let word: i64 = if held < 0 {
                    held as i64 + modulus
                } else {
                    held as i64
                };
                Some(write_word(word as u64, width))
            } else {
                None
            }
        },
        Sample::Single { bits } => {
            if kind == Quantization::Float32 {
                Some(write_word(bits as u64, width))
            } else {
                None
            }
        },
        Sample::Double { bits } => {
            if kind == Quantization::Float64 {
                Some(write_word(bits, width))
            } else {
                None
            }
        },
    }
}

/// A decoded sample has the form that its kind stores, and a decoded
/// integer lies in the representable range of its kind.
pub proof fn dequantized_sample_form(kind: Quantization, s: Seq<u8>)
    requires
        s.len() == kind.spec_width(),
    ensures
        spec_dequantize(kind, s).is_some(),
        spec_storable(kind, spec_dequantize(kind, s).unwrap()),
        match spec_dequantize(kind, s).unwrap() {
            Sample::Fixed { raw, full_scale } => 0 < full_scale && -full_scale - 1 <= raw
                <= full_scale,
            _ => true,
        },
{
    assert(s.subrange(0, kind.spec_width()) =~= s);
    word_bounds(s);
    pow256_values();
}

/// Decoding a stored number and encoding the sample again gives the stored
/// bytes, for every kind and every run of bytes of its width.
pub proof fn quantize_after_dequantize(kind: Quantization, s: Seq<u8>)
    requires
        s.len() == kind.spec_width(),
    ensures
        spec_dequantize(kind, s).is_some(),
        spec_quantize(kind, spec_dequantize(kind, s).unwrap()) == Some(s),
{
    assert(s.subrange(0, kind.spec_width()) =~= s);
    word_bounds(s);
    pow256_values();
    le_bytes_of_word(s);
}

/// Encoding a sample that lies in the representable range of its kind and
/// decoding the bytes gives the sample.
pub proof fn dequantize_after_quantize(kind: Quantization, sample: Sample)
    requires
        spec_storable(kind, sample),
        match sample {
            Sample::Fixed { raw, full_scale } => -full_scale - 1 <= raw <= full_scale,
            _ => true,
        },
    ensures
        spec_quantize(kind, sample).is_some(),
        spec_dequantize(kind, spec_quantize(kind, sample).unwrap()) == Some(sample),
{
    let width = kind.spec_width() as nat;
    pow256_values();
    let word: int = match sample {
        Sample::Fixed { raw, full_scale } => spec_unsigned(raw as int, width),
        Sample::Single { bits } => bits as int,
        Sample::Double { bits } => bits as int,
    };
    word_of_le_bytes(word, width);
    let bytes = spec_le_bytes(word, width);
    assert(bytes.subrange(0, width as int) =~= bytes);
}

/// An integer sample beyond the representable range is stored as the end of
/// the range on its side.
pub proof fn quantize_clamps(kind: Quantization, raw: i32)
    requires
        kind.spec_is_integer(),
    ensures
        raw > kind.spec_full_scale() ==> spec_quantize(
            kind,
            Sample::Fixed { raw, full_scale: kind.spec_full_scale() as i32 },
        ) == spec_quantize(
            kind,
            Sample::Fixed {
                raw: kind.spec_full_scale() as i32,
                full_scale: kind.spec_full_scale() as i32,
            },
        ),
        raw < -kind.spec_full_scale() - 1 ==> spec_quantize(
            kind,
            Sample::Fixed { raw, full_scale: kind.spec_full_scale() as i32 },
        ) == spec_quantize(
            kind,
            Sample::Fixed {
                raw: (-kind.spec_full_scale() - 1) as i32,
                full_scale: kind.spec_full_scale() as i32,
            },
        ),
{
}

} // verus!
