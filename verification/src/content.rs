//! Typed views of the content of a parsed file, one per content type.
//!
//! A view borrows the file and can be made only for the content type that
//! the file declares.

use vstd::prelude::*;
use crate::codes::ContentType;
use crate::error::{Error, ErrorKind};
use crate::format::{
    header_ranges, spec_decode, spec_in_range, spec_record_coords, spec_valid_image, DaffFile,
};
use crate::grid::spec_is_nearest;
use crate::header::spec_header;
use crate::quantizer::Sample;

verus! {

/// Impulse Response content
pub struct ContentIR<'a> {
    file: &'a DaffFile,
}

impl<'a> View for ContentIR<'a> {
    type V = Seq<u8>;

    /// The image of the file that the view borrows.
    closed spec fn view(&self) -> Seq<u8> {
        self.file@
    }
}

impl<'a> ContentIR<'a> {
    /// The borrowed file stores this content.
    #[verifier::type_invariant]
    spec fn wf(&self) -> bool {
        spec_header(self.file@).content_type == ContentType::ImpulseResponse
    }

    /// Makes the view. Fails with a content type mismatch exactly where
    /// the file declares another content type.
    pub fn new(file: &'a DaffFile) -> (r: Result<ContentIR<'a>, Error>)
        ensures
            match r {
                Ok(c) => {
                    &&& spec_header(file@).content_type == ContentType::ImpulseResponse
                    &&& c@ == file@
                },
                Err(e) => {
                    &&& spec_header(file@).content_type != ContentType::ImpulseResponse
                    &&& e.kind == ErrorKind::ContentTypeMismatch
                },
            },
    {
        match file.header().content_type {
            ContentType::ImpulseResponse => Ok(ContentIR { file }),
            _ => Err(Error::new(ErrorKind::ContentTypeMismatch, "Not an IR content type")),
        }
    }

    /// The filter length (number of samples).
    pub fn filter_length(&self) -> (n: i32)
        ensures
            n == spec_header(self@).length,
            0 <= n,
            spec_valid_image(self@),
            spec_header(self@).content_type == ContentType::ImpulseResponse,
    {
        proof {
            use_type_invariant(self);
            use_type_invariant(self.file);
            self.file.wf_image_is_valid();
            header_ranges(self.file@);
        }
        self.file.header().length
    }

    /// The sample rate in Hz.
    pub fn samplerate(&self) -> (n: i32)
        ensures
            n == spec_header(self@).samplerate,
    {
        self.file.header().samplerate
    }

    /// The file that the view borrows.
    pub fn file(&self) -> (f: &'a DaffFile)
        ensures
            f@ == self@,
    {
        self.file
    }

    /// The record nearest to a query direction, given one distance key per
    /// record: the record with the smallest key, and the lowest index among
    /// records with equal keys.
    pub fn nearest_neighbour(&self, distance_keys: &[u64]) -> (r: i32)
        requires
            distance_keys@.len() == spec_header(self@).records,
        ensures
            spec_is_nearest(distance_keys@, r as int),
            0 <= r < spec_header(self@).records,
    {
        self.file.nearest_neighbour(distance_keys)
    }

    /// The stored angles (alpha, beta) of a record in data-view
    /// coordinates, as double-precision bits. Fails with an index error
    /// exactly where the index is not below the record count.
    pub fn record_coords(&self, record_index: i32) -> (r: Result<(u64, u64), Error>)
        ensures
            match r {
                Ok(c) => 0 <= record_index < spec_header(self@).records && c
                    == spec_record_coords(self@, record_index as int),
                Err(e) => !(0 <= record_index < spec_header(self@).records) && e.kind
                    == ErrorKind::Index,
            },
    {
        self.file.record_coords(record_index)
    }

    /// The filter coefficients of a record and channel. Fails with an index
    /// error exactly where the record or the channel is not below its
    /// declared count; otherwise gives `filter_length` samples, each the
    /// stored number at its place.
    pub fn filter_coeffs(&self, record_index: i32, channel: i32) -> (r: Result<Vec<Sample>, Error>)
        ensures
            match r {
                Ok(v) => spec_in_range(self@, record_index as int, channel as int) && v@
                    == spec_decode(self@, record_index as int, channel as int) && v@.len()
                    == spec_header(self@).length,
                Err(e) => !spec_in_range(self@, record_index as int, channel as int) && e.kind
                    == ErrorKind::Index,
            },
    {
        proof {
            use_type_invariant(self);
            use_type_invariant(self.file);
            self.file.wf_image_is_valid();
            header_ranges(self.file@);
        }
        self.file.decode(record_index, channel)
    }
}

/// Magnitude Spectrum content
pub struct ContentMS<'a> {
    file: &'a DaffFile,
}

impl<'a> View for ContentMS<'a> {
    type V = Seq<u8>;

    /// The image of the file that the view borrows.
    closed spec fn view(&self) -> Seq<u8> {
        self.file@
    }
}

impl<'a> ContentMS<'a> {
    /// The borrowed file stores this content.
    #[verifier::type_invariant]
    spec fn wf(&self) -> bool {
        spec_header(self.file@).content_type == ContentType::MagnitudeSpectrum
    }

    /// Makes the view. Fails with a content type mismatch exactly where
    /// the file declares another content type.
    pub fn new(file: &'a DaffFile) -> (r: Result<ContentMS<'a>, Error>)
        ensures
            match r {
                Ok(c) => {
                    &&& spec_header(file@).content_type == ContentType::MagnitudeSpectrum
                    &&& c@ == file@
                },
                Err(e) => {
                    &&& spec_header(file@).content_type != ContentType::MagnitudeSpectrum
                    &&& e.kind == ErrorKind::ContentTypeMismatch
                },
            },
    {
        match file.header().content_type {
            ContentType::MagnitudeSpectrum => Ok(ContentMS { file }),
            _ => Err(Error::new(ErrorKind::ContentTypeMismatch, "Not an MS content type")),
        }
    }

    /// The number of frequencies.
    pub fn num_frequencies(&self) -> (n: i32)
        ensures
            n == spec_header(self@).length,
            0 <= n,
            spec_valid_image(self@),
            spec_header(self@).content_type == ContentType::MagnitudeSpectrum,
    {
        proof {
            use_type_invariant(self);
            use_type_invariant(self.file);
            self.file.wf_image_is_valid();
            header_ranges(self.file@);
        }
        self.file.header().length
    }

    /// The file that the view borrows.
    pub fn file(&self) -> (f: &'a DaffFile)
        ensures
            f@ == self@,
    {
        self.file
    }

    /// The record nearest to a query direction, given one distance key per
    /// record: the record with the smallest key, and the lowest index among
    /// records with equal keys.
    pub fn nearest_neighbour(&self, distance_keys: &[u64]) -> (r: i32)
        requires
            distance_keys@.len() == spec_header(self@).records,
        ensures
            spec_is_nearest(distance_keys@, r as int),
            0 <= r < spec_header(self@).records,
    {
        self.file.nearest_neighbour(distance_keys)
    }

    /// The stored angles (alpha, beta) of a record in data-view
    /// coordinates, as double-precision bits. Fails with an index error
    /// exactly where the index is not below the record count.
    pub fn record_coords(&self, record_index: i32) -> (r: Result<(u64, u64), Error>)
        ensures
            match r {
                Ok(c) => 0 <= record_index < spec_header(self@).records && c
                    == spec_record_coords(self@, record_index as int),
                Err(e) => !(0 <= record_index < spec_header(self@).records) && e.kind
                    == ErrorKind::Index,
            },
    {
        self.file.record_coords(record_index)
    }

    /// The magnitudes of a record and channel. Fails with an index
    /// error exactly where the record or the channel is not below its
    /// declared count; otherwise gives `num_frequencies` samples, each the
    /// stored number at its place.
    pub fn magnitudes(&self, record_index: i32, channel: i32) -> (r: Result<Vec<Sample>, Error>)
        ensures
            match r {
                Ok(v) => spec_in_range(self@, record_index as int, channel as int) && v@
                    == spec_decode(self@, record_index as int, channel as int) && v@.len()
                    == spec_header(self@).length,
                Err(e) => !spec_in_range(self@, record_index as int, channel as int) && e.kind
                    == ErrorKind::Index,
            },
    {
        proof {
            use_type_invariant(self);
            use_type_invariant(self.file);
            self.file.wf_image_is_valid();
            header_ranges(self.file@);
        }
        self.file.decode(record_index, channel)
    }
}

/// Phase Spectrum content
pub struct ContentPS<'a> {
    file: &'a DaffFile,
}

impl<'a> View for ContentPS<'a> {
    type V = Seq<u8>;

    /// The image of the file that the view borrows.
    closed spec fn view(&self) -> Seq<u8> {
        self.file@
    }
}

impl<'a> ContentPS<'a> {
    /// The borrowed file stores this content.
    #[verifier::type_invariant]
    spec fn wf(&self) -> bool {
        spec_header(self.file@).content_type == ContentType::PhaseSpectrum
    }

    /// Makes the view. Fails with a content type mismatch exactly where
    /// the file declares another content type.
    pub fn new(file: &'a DaffFile) -> (r: Result<ContentPS<'a>, Error>)
        ensures
            match r {
                Ok(c) => {
                    &&& spec_header(file@).content_type == ContentType::PhaseSpectrum
                    &&& c@ == file@
                },
                Err(e) => {
                    &&& spec_header(file@).content_type != ContentType::PhaseSpectrum
                    &&& e.kind == ErrorKind::ContentTypeMismatch
                },
            },
    {
        match file.header().content_type {
            ContentType::PhaseSpectrum => Ok(ContentPS { file }),
            _ => Err(Error::new(ErrorKind::ContentTypeMismatch, "Not a PS content type")),
        }
    }

    /// The number of frequencies.
    pub fn num_frequencies(&self) -> (n: i32)
        ensures
            n == spec_header(self@).length,
            0 <= n,
            spec_valid_image(self@),
            spec_header(self@).content_type == ContentType::PhaseSpectrum,
    {
        proof {
            use_type_invariant(self);
            use_type_invariant(self.file);
            self.file.wf_image_is_valid();
            header_ranges(self.file@);
        }
        self.file.header().length
    }

    /// The file that the view borrows.
    pub fn file(&self) -> (f: &'a DaffFile)
        ensures
            f@ == self@,
    {
        self.file
    }

    /// The record nearest to a query direction, given one distance key per
    /// record: the record with the smallest key, and the lowest index among
    /// records with equal keys.
    pub fn nearest_neighbour(&self, distance_keys: &[u64]) -> (r: i32)
        requires
            distance_keys@.len() == spec_header(self@).records,
        ensures
            spec_is_nearest(distance_keys@, r as int),
            0 <= r < spec_header(self@).records,
    {
        self.file.nearest_neighbour(distance_keys)
    }

    /// The stored angles (alpha, beta) of a record in data-view
    /// coordinates, as double-precision bits. Fails with an index error
    /// exactly where the index is not below the record count.
    pub fn record_coords(&self, record_index: i32) -> (r: Result<(u64, u64), Error>)
        ensures
            match r {
                Ok(c) => 0 <= record_index < spec_header(self@).records && c
                    == spec_record_coords(self@, record_index as int),
                Err(e) => !(0 <= record_index < spec_header(self@).records) && e.kind
                    == ErrorKind::Index,
            },
    {
        self.file.record_coords(record_index)
    }

    /// The phases of a record and channel, in radians. Fails with an index
    /// error exactly where the record or the channel is not below its
    /// declared count; otherwise gives `num_frequencies` samples, each the
    /// stored number at its place.
    pub fn phases(&self, record_index: i32, channel: i32) -> (r: Result<Vec<Sample>, Error>)
        ensures
            match r {
                Ok(v) => spec_in_range(self@, record_index as int, channel as int) && v@
                    == spec_decode(self@, record_index as int, channel as int) && v@.len()
                    == spec_header(self@).length,
                Err(e) => !spec_in_range(self@, record_index as int, channel as int) && e.kind
                    == ErrorKind::Index,
            },
    {
        proof {
            use_type_invariant(self);
            use_type_invariant(self.file);
            self.file.wf_image_is_valid();
            header_ranges(self.file@);
        }
        self.file.decode(record_index, channel)
    }
}

/// Magnitude-Phase Spectrum content
pub struct ContentMPS<'a> {
    file: &'a DaffFile,
}

impl<'a> View for ContentMPS<'a> {
    type V = Seq<u8>;

    /// The image of the file that the view borrows.
    closed spec fn view(&self) -> Seq<u8> {
        self.file@
    }
}

impl<'a> ContentMPS<'a> {
    /// The borrowed file stores this content.
    #[verifier::type_invariant]
    spec fn wf(&self) -> bool {
        spec_header(self.file@).content_type == ContentType::MagnitudePhaseSpectrum
    }

    /// Makes the view. Fails with a content type mismatch exactly where
    /// the file declares another content type.
    pub fn new(file: &'a DaffFile) -> (r: Result<ContentMPS<'a>, Error>)
        ensures
            match r {
                Ok(c) => {
                    &&& spec_header(file@).content_type == ContentType::MagnitudePhaseSpectrum
                    &&& c@ == file@
                },
                Err(e) => {
                    &&& spec_header(file@).content_type != ContentType::MagnitudePhaseSpectrum
                    &&& e.kind == ErrorKind::ContentTypeMismatch
                },
            },
    {
        match file.header().content_type {
            ContentType::MagnitudePhaseSpectrum => Ok(ContentMPS { file }),
            _ => Err(Error::new(ErrorKind::ContentTypeMismatch, "Not an MPS content type")),
        }
    }

    /// The number of frequencies.
    pub fn num_frequencies(&self) -> (n: i32)
        ensures
            n == spec_header(self@).length,
            0 <= n,
            spec_valid_image(self@),
            spec_header(self@).content_type == ContentType::MagnitudePhaseSpectrum,
    {
        proof {
            use_type_invariant(self);
            use_type_invariant(self.file);
            self.file.wf_image_is_valid();
            header_ranges(self.file@);
        }
        self.file.header().length
    }

    /// The file that the view borrows.
    pub fn file(&self) -> (f: &'a DaffFile)
        ensures
            f@ == self@,
    {
        self.file
    }

    /// The record nearest to a query direction, given one distance key per
    /// record: the record with the smallest key, and the lowest index among
    /// records with equal keys.
    pub fn nearest_neighbour(&self, distance_keys: &[u64]) -> (r: i32)
        requires
            distance_keys@.len() == spec_header(self@).records,
        ensures
            spec_is_nearest(distance_keys@, r as int),
            0 <= r < spec_header(self@).records,
    {
        self.file.nearest_neighbour(distance_keys)
    }

    /// The stored angles (alpha, beta) of a record in data-view
    /// coordinates, as double-precision bits. Fails with an index error
    /// exactly where the index is not below the record count.
    pub fn record_coords(&self, record_index: i32) -> (r: Result<(u64, u64), Error>)
        ensures
            match r {
                Ok(c) => 0 <= record_index < spec_header(self@).records && c
                    == spec_record_coords(self@, record_index as int),
                Err(e) => !(0 <= record_index < spec_header(self@).records) && e.kind
                    == ErrorKind::Index,
            },
    {
        self.file.record_coords(record_index)
    }

    /// The magnitudes and the phases of a record and channel, as two lists
    /// of `num_frequencies` samples each: a block stores all magnitudes,
    /// then all phases. Fails with an index error exactly where the record
    /// or the channel is not below its declared count.
    pub fn coefficients(&self, record_index: i32, channel: i32) -> (r: Result<
        (Vec<Sample>, Vec<Sample>),
        Error,
    >)
        ensures
            match r {
                Ok((magnitudes, phases)) => {
                    let all = spec_decode(self@, record_index as int, channel as int);
                    let n = spec_header(self@).length as int;
                    &&& spec_in_range(self@, record_index as int, channel as int)
                    &&& all.len() == 2 * n
                    &&& magnitudes@ == all.subrange(0, n)
                    &&& phases@ == all.subrange(n, 2 * n)
                },
                Err(e) => !spec_in_range(self@, record_index as int, channel as int) && e.kind
                    == ErrorKind::Index,
            },
    {
        let n: i32 = self.file.header().length;
        proof {
            use_type_invariant(self);
            use_type_invariant(self.file);
            self.file.wf_image_is_valid();
            header_ranges(self.file@);
        }
        match self.file.decode(record_index, channel) {
            Ok(all) => {
                let mut magnitudes: Vec<Sample> = all;
                let phases: Vec<Sample> = magnitudes.split_off(n as usize);
                Ok((magnitudes, phases))
            },
            Err(e) => Err(e),
        }
    }
}

/// DFT Spectrum content
pub struct ContentDFT<'a> {
    file: &'a DaffFile,
}

impl<'a> View for ContentDFT<'a> {
    type V = Seq<u8>;

    /// The image of the file that the view borrows.
    closed spec fn view(&self) -> Seq<u8> {
        self.file@
    }
}

impl<'a> ContentDFT<'a> {
    /// The borrowed file stores this content.
    #[verifier::type_invariant]
    spec fn wf(&self) -> bool {
        spec_header(self.file@).content_type == ContentType::DftSpectrum
    }

    /// Makes the view. Fails with a content type mismatch exactly where
    /// the file declares another content type.
    pub fn new(file: &'a DaffFile) -> (r: Result<ContentDFT<'a>, Error>)
        ensures
            match r {
                Ok(c) => {
                    &&& spec_header(file@).content_type == ContentType::DftSpectrum
                    &&& c@ == file@
                },
                Err(e) => {
                    &&& spec_header(file@).content_type != ContentType::DftSpectrum
                    &&& e.kind == ErrorKind::ContentTypeMismatch
                },
            },
    {
        match file.header().content_type {
            ContentType::DftSpectrum => Ok(ContentDFT { file }),
            _ => Err(Error::new(ErrorKind::ContentTypeMismatch, "Not a DFT content type")),
        }
    }

    /// The number of DFT coefficients.
    pub fn num_dft_coeffs(&self) -> (n: i32)
        ensures
            n == spec_header(self@).length,
            0 <= n,
            spec_valid_image(self@),
            spec_header(self@).content_type == ContentType::DftSpectrum,
    {
        proof {
            use_type_invariant(self);
            use_type_invariant(self.file);
            self.file.wf_image_is_valid();
            header_ranges(self.file@);
        }
        self.file.header().length
    }

    /// Whether only the non-negative-frequency half of the spectrum is stored.
    pub fn is_symmetric(&self) -> (n: bool)
        ensures
            n == spec_header(self@).symmetric,
    {
        self.file.header().symmetric
    }

    /// The file that the view borrows.
    pub fn file(&self) -> (f: &'a DaffFile)
        ensures
            f@ == self@,
    {
        self.file
    }

    /// The record nearest to a query direction, given one distance key per
    /// record: the record with the smallest key, and the lowest index among
    /// records with equal keys.
    pub fn nearest_neighbour(&self, distance_keys: &[u64]) -> (r: i32)
        requires
            distance_keys@.len() == spec_header(self@).records,
        ensures
            spec_is_nearest(distance_keys@, r as int),
            0 <= r < spec_header(self@).records,
    {
        self.file.nearest_neighbour(distance_keys)
    }

    /// The stored angles (alpha, beta) of a record in data-view
    /// coordinates, as double-precision bits. Fails with an index error
    /// exactly where the index is not below the record count.
    pub fn record_coords(&self, record_index: i32) -> (r: Result<(u64, u64), Error>)
        ensures
            match r {
                Ok(c) => 0 <= record_index < spec_header(self@).records && c
                    == spec_record_coords(self@, record_index as int),
                Err(e) => !(0 <= record_index < spec_header(self@).records) && e.kind
                    == ErrorKind::Index,
            },
    {
        self.file.record_coords(record_index)
    }

    /// The DFT coefficients of a record and channel as stored: twice
    /// `num_dft_coeffs` samples, real and imaginary part in turn, whether
    /// or not the file holds only one half of a symmetric spectrum. Fails
    /// with an index error exactly where the record or the channel is not
    /// below its declared count.
    pub fn dft_coeffs(&self, record_index: i32, channel: i32) -> (r: Result<Vec<Sample>, Error>)
        ensures
            match r {
                Ok(v) => spec_in_range(self@, record_index as int, channel as int) && v@
                    == spec_decode(self@, record_index as int, channel as int) && v@.len() == 2
                    * spec_header(self@).length,
                Err(e) => !spec_in_range(self@, record_index as int, channel as int) && e.kind
                    == ErrorKind::Index,
            },
    {
        proof {
            use_type_invariant(self);
            use_type_invariant(self.file);
            self.file.wf_image_is_valid();
            header_ranges(self.file@);
        }
        self.file.decode(record_index, channel)
    }
}

} // verus!
