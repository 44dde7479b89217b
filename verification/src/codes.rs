//! The two closed sets of codes that a file header carries.

use vstd::prelude::*;

verus! {

/// Which acoustic quantity a file stores.
#[derive(Debug, Clone, Copy, PartialEq, Eq, Structural)]
pub enum ContentType {
    /// Impulse response
    ImpulseResponse,
    /// Magnitude spectrum
    MagnitudeSpectrum,
    /// Phase spectrum
    PhaseSpectrum,
    /// Magnitude-phase spectrum
    MagnitudePhaseSpectrum,
    /// DFT coefficients
    DftSpectrum,
}

impl ContentType {
    /// The code that stands for this content type in a file.
    pub open spec fn spec_code(self) -> int {
        match self {
            ContentType::ImpulseResponse => 1,
            ContentType::MagnitudeSpectrum => 2,
            ContentType::PhaseSpectrum => 3,
            ContentType::MagnitudePhaseSpectrum => 4,
            ContentType::DftSpectrum => 5,
        }
    }

    /// The content type that a code stands for, if any.
    pub open spec fn spec_from_code(value: int) -> Option<ContentType> {
        if value == 1 {
            Some(ContentType::ImpulseResponse)
        } else if value == 2 {
            Some(ContentType::MagnitudeSpectrum)
        } else if value == 3 {
            Some(ContentType::PhaseSpectrum)
        } else if value == 4 {
            Some(ContentType::MagnitudePhaseSpectrum)
        } else if value == 5 {
            Some(ContentType::DftSpectrum)
        } else {
            None
        }
    }

    /// How many stored numbers one block holds for each unit of the file's
    /// length field: two for paired magnitude and phase and for interleaved
    /// real and imaginary parts, one otherwise.
    pub open spec fn spec_values_per_item(self) -> int {
        match self {
            ContentType::MagnitudePhaseSpectrum => 2,
            ContentType::DftSpectrum => 2,
            _ => 1,
        }
    }

    /// Decodes a content type code.
    pub fn from_i32(value: i32) -> (r: Option<Self>)
        ensures
            r == Self::spec_from_code(value as int),
    {
        match value {
            1 => Some(ContentType::ImpulseResponse),
            2 => Some(ContentType::MagnitudeSpectrum),
            3 => Some(ContentType::PhaseSpectrum),
            4 => Some(ContentType::MagnitudePhaseSpectrum),
            5 => Some(ContentType::DftSpectrum),
            _ => None,
        }
    }

    /// The code of this content type.
    pub fn code(self) -> (c: i32)
        ensures
            c == self.spec_code(),
    {
        match self {
            ContentType::ImpulseResponse => 1,
            ContentType::MagnitudeSpectrum => 2,
            ContentType::PhaseSpectrum => 3,
            ContentType::MagnitudePhaseSpectrum => 4,
            ContentType::DftSpectrum => 5,
        }
    }

    /// Stored numbers per unit of the length field.
    pub fn values_per_item(self) -> (n: u64)
        ensures
            n == self.spec_values_per_item(),
    {
        match self {
            ContentType::MagnitudePhaseSpectrum => 2,
            ContentType::DftSpectrum => 2,
            _ => 1,
        }
    }

    /// The name of this content type in words.
    pub fn name(self) -> (s: &'static str)
        ensures
            s@ == match self {
                ContentType::ImpulseResponse => "Impulse Response"@,
                ContentType::MagnitudeSpectrum => "Magnitude Spectrum"@,
                ContentType::PhaseSpectrum => "Phase Spectrum"@,
                ContentType::MagnitudePhaseSpectrum => "Magnitude-Phase Spectrum"@,
                ContentType::DftSpectrum => "DFT Spectrum"@,
            },
    {
        match self {
            ContentType::ImpulseResponse => "Impulse Response",
            ContentType::MagnitudeSpectrum => "Magnitude Spectrum",
            ContentType::PhaseSpectrum => "Phase Spectrum",
            ContentType::MagnitudePhaseSpectrum => "Magnitude-Phase Spectrum",
            ContentType::DftSpectrum => "DFT Spectrum",
        }
    }
}

/// The fixed representation in which a file stores its numbers.
#[derive(Debug, Clone, Copy, PartialEq, Eq, Structural)]
pub enum Quantization {
    /// 8-bit integer
    Int8,
    /// 16-bit integer
    Int16,
    /// 24-bit integer
    Int24,
    /// 32-bit integer
    Int32,
    /// 32-bit float
    Float32,
    /// 64-bit float
    Float64,
}

impl Quantization {
    /// The code that stands for this quantization in a file.
    pub open spec fn spec_code(self) -> int {
        match self {
            Quantization::Int8 => 1,
            Quantization::Int16 => 2,
            Quantization::Int24 => 3,
            Quantization::Int32 => 4,
            Quantization::Float32 => 5,
            Quantization::Float64 => 6,
        }
    }

    /// The quantization that a code stands for, if any.
    pub open spec fn spec_from_code(value: int) -> Option<Quantization> {
        if value == 1 {
            Some(Quantization::Int8)
        } else if value == 2 {
            Some(Quantization::Int16)
        } else if value == 3 {
            Some(Quantization::Int24)
        } else if value == 4 {
            Some(Quantization::Int32)
        } else if value == 5 {
            Some(Quantization::Float32)
        } else if value == 6 {
            Some(Quantization::Float64)
        } else {
            None
        }
    }

    /// Bytes that one stored number takes.
    pub open spec fn spec_width(self) -> int {
        match self {
            Quantization::Int8 => 1,
            Quantization::Int16 => 2,
            Quantization::Int24 => 3,
            Quantization::Int32 => 4,
            Quantization::Float32 => 4,
            Quantization::Float64 => 8,
        }
    }

    /// Whether stored numbers are signed integers.
    pub open spec fn spec_is_integer(self) -> bool {
        match self {
            Quantization::Float32 => false,
            Quantization::Float64 => false,
            _ => true,
        }
    }

    /// The largest stored integer, which stands for the amplitude 1; zero
    /// for the floating-point kinds.
    pub open spec fn spec_full_scale(self) -> int {
        match self {
            Quantization::Int8 => 127,
            Quantization::Int16 => 32767,
            Quantization::Int24 => 8388607,
            Quantization::Int32 => 2147483647,
            Quantization::Float32 => 0,
            Quantization::Float64 => 0,
        }
    }

    /// Decodes a quantization code.
    pub fn from_i32(value: i32) -> (r: Option<Self>)
        ensures
            r == Self::spec_from_code(value as int),
    {
        match value {
            1 => Some(Quantization::Int8),
            2 => Some(Quantization::Int16),
            3 => Some(Quantization::Int24),
            4 => Some(Quantization::Int32),
            5 => Some(Quantization::Float32),
            6 => Some(Quantization::Float64),
            _ => None,
        }
    }

    /// The code of this quantization.
    pub fn code(self) -> (c: i32)
        ensures
            c == self.spec_code(),
    {
        match self {
            Quantization::Int8 => 1,
            Quantization::Int16 => 2,
            Quantization::Int24 => 3,
            Quantization::Int32 => 4,
            Quantization::Float32 => 5,
            Quantization::Float64 => 6,
        }
    }

    /// Bytes that one stored number takes.
    pub fn width(self) -> (w: usize)
        ensures
            w == self.spec_width(),
    {
        match self {
            Quantization::Int8 => 1,
            Quantization::Int16 => 2,
            Quantization::Int24 => 3,
            Quantization::Int32 => 4,
            Quantization::Float32 => 4,
            Quantization::Float64 => 8,
        }
    }

    /// Whether stored numbers are signed integers.
    pub fn is_integer(self) -> (b: bool)
        ensures
            b == self.spec_is_integer(),
    {
        match self {
            Quantization::Float32 => false,
            Quantization::Float64 => false,
            _ => true,
        }
    }

    /// The largest stored integer; zero for the floating-point kinds.
    pub fn full_scale(self) -> (m: i32)
        ensures
            m == self.spec_full_scale(),
    {
        match self {
            Quantization::Int8 => 127,
            Quantization::Int16 => 32767,
            Quantization::Int24 => 8388607,
            Quantization::Int32 => 2147483647,
            Quantization::Float32 => 0,
            Quantization::Float64 => 0,
        }
    }
}

/// A content type code read back gives the content type it was made from.
pub proof fn content_type_code_round_trip(t: ContentType)
    ensures
        ContentType::spec_from_code(t.spec_code()) == Some(t),
{
}

/// Only the code of a content type decodes to it.
pub proof fn content_type_code_unique(value: int, t: ContentType)
    requires
        ContentType::spec_from_code(value) == Some(t),
    ensures
        t.spec_code() == value,
{
}

/// A quantization code read back gives the quantization it was made from.
pub proof fn quantization_code_round_trip(q: Quantization)
    ensures
        Quantization::spec_from_code(q.spec_code()) == Some(q),
{
}

/// Only the code of a quantization decodes to it.
pub proof fn quantization_code_unique(value: int, q: Quantization)
    requires
        Quantization::spec_from_code(value) == Some(q),
    ensures
        q.spec_code() == value,
{
}

} // verus!
