//! The reader: closed, or open on one parsed file.

use vstd::prelude::*;
use vstd::slice::slice_to_vec;
use vstd::string::StringSliceAdditionalSpecFns;
use crate::codes::{ContentType, Quantization};
use crate::content::{ContentDFT, ContentIR, ContentMPS, ContentMS, ContentPS};
use crate::error::{Error, ErrorKind};
use crate::format::{header_ranges, spec_metadata, spec_valid_image, DaffFile};
use crate::header::{spec_header, Orientation};
use crate::metadata::{spec_find, MetaValue, MetaValueView};

verus! {

/// Main DAFF reader interface
pub struct Reader {
    file: Option<DaffFile>,
}

impl View for Reader {
    type V = Option<Seq<u8>>;

    /// The image of the open file, or nothing while the reader is closed.
    closed spec fn view(&self) -> Option<Seq<u8>> {
        match self.file {
            Some(f) => Some(f@),
            None => None,
        }
    }
}

/// The orientation that an image declares, or the identity where it has
/// no orientation block.
pub open spec fn spec_orientation(s: Seq<u8>) -> Orientation {
    match spec_header(s).orientation {
        Some(o) => o,
        None => Orientation::spec_identity(),
    }
}

impl Reader {
    /// Create a new DAFF reader. It is closed, and making it never fails.
    pub fn new() -> (r: Result<Reader, Error>)
        ensures
            r.is_ok(),
            r.unwrap()@.is_none(),
    {
        Ok(Reader { file: None })
    }

    /// Opens a file image, after closing the file that was open. Fails with
    /// a format error exactly where the image is not a complete file, and
    /// the reader is then closed.
    pub fn open(&mut self, bytes: Vec<u8>) -> (r: Result<(), Error>)
        ensures
            match r {
                Ok(_) => spec_valid_image(bytes@) && final(self)@ == Some(bytes@),
                Err(e) => !spec_valid_image(bytes@) && e.kind == ErrorKind::Format
                    && final(self)@.is_none(),
            },
    {
        self.file = None;
        match DaffFile::parse(bytes) {
            Ok(f) => {
                self.file = Some(f);
                Ok(())
            },
            Err(e) => Err(e),
        }
    }

    /// Close the currently open file
    pub fn close(&mut self)
        ensures
            final(self)@.is_none(),
    {
        self.file = None;
    }

    /// Check if a file is currently open and valid
    pub fn is_valid(&self) -> (b: bool)
        ensures
            b == self@.is_some(),
            b ==> spec_valid_image(self@.unwrap()),
    {
        match &self.file {
            Some(f) => {
                proof {
                    use_type_invariant(f);
                    f.wf_image_is_valid();
                }
                true
            },
            None => false,
        }
    }

    /// The open file, or a not-open error while the reader is closed.
    pub fn file<'a>(&'a self) -> (r: Result<&'a DaffFile, Error>)
        ensures
            match r {
                Ok(f) => self@ == Some(f@),
                Err(e) => self@.is_none() && e.kind == ErrorKind::NotOpen,
            },
    {
        match &self.file {
            Some(f) => Ok(f),
            None => Err(Error::new(ErrorKind::NotOpen, "No file is open")),
        }
    }

    /// Get the content type of the open file.
    /// Fails with a not-open error exactly while the reader is closed.
    pub fn content_type(&self) -> (r: Result<ContentType, Error>)
        ensures
            match r {
                Ok(v) => {
                    &&& self@.is_some()
                    &&& v == spec_header(self@.unwrap()).content_type
                },
                Err(e) => self@.is_none() && e.kind == ErrorKind::NotOpen,
            },
    {
        match &self.file {
            Some(f) => Ok(f.header().content_type),
            None => Err(Error::new(ErrorKind::NotOpen, "No file is open")),
        }
    }

    /// Get the quantization type of the open file.
    /// Fails with a not-open error exactly while the reader is closed.
    pub fn quantization(&self) -> (r: Result<Quantization, Error>)
        ensures
            match r {
                Ok(v) => {
                    &&& self@.is_some()
                    &&& v == spec_header(self@.unwrap()).quantization
                },
                Err(e) => self@.is_none() && e.kind == ErrorKind::NotOpen,
            },
    {
        match &self.file {
            Some(f) => Ok(f.header().quantization),
            None => Err(Error::new(ErrorKind::NotOpen, "No file is open")),
        }
    }

    /// Get the number of channels, at least one.
    /// Fails with a not-open error exactly while the reader is closed.
    pub fn num_channels(&self) -> (r: Result<i32, Error>)
        ensures
            match r {
                Ok(v) => {
                    &&& self@.is_some()
                    &&& v == spec_header(self@.unwrap()).channels
                    &&& v >= 1
                },
                Err(e) => self@.is_none() && e.kind == ErrorKind::NotOpen,
            },
    {
        match &self.file {
            Some(f) => {
                proof {
                    use_type_invariant(f);
                    f.wf_image_is_valid();
                    header_ranges(f@);
                }
                Ok(f.header().channels)
            },
            None => Err(Error::new(ErrorKind::NotOpen, "No file is open")),
        }
    }

    /// Get the number of records, at least one.
    /// Fails with a not-open error exactly while the reader is closed.
    pub fn num_records(&self) -> (r: Result<i32, Error>)
        ensures
            match r {
                Ok(v) => {
                    &&& self@.is_some()
                    &&& v == spec_header(self@.unwrap()).records
                    &&& v >= 1
                },
                Err(e) => self@.is_none() && e.kind == ErrorKind::NotOpen,
            },
    {
        match &self.file {
            Some(f) => {
                proof {
                    use_type_invariant(f);
                    f.wf_image_is_valid();
                    header_ranges(f@);
                }
                Ok(f.header().records)
            },
            None => Err(Error::new(ErrorKind::NotOpen, "No file is open")),
        }
    }

    /// Get alpha resolution (azimuth) in radians, as
    /// single-precision bits.
    /// Fails with a not-open error exactly while the reader is closed.
    pub fn alpha_resolution(&self) -> (r: Result<u32, Error>)
        ensures
            match r {
                Ok(v) => {
                    &&& self@.is_some()
                    &&& v == spec_header(self@.unwrap()).alpha_resolution
                },
                Err(e) => self@.is_none() && e.kind == ErrorKind::NotOpen,
            },
    {
        match &self.file {
            Some(f) => Ok(f.header().alpha_resolution),
            None => Err(Error::new(ErrorKind::NotOpen, "No file is open")),
        }
    }

    /// Get beta resolution (elevation) in radians, as
    /// single-precision bits.
    /// Fails with a not-open error exactly while the reader is closed.
    pub fn beta_resolution(&self) -> (r: Result<u32, Error>)
        ensures
            match r {
                Ok(v) => {
                    &&& self@.is_some()
                    &&& v == spec_header(self@.unwrap()).beta_resolution
                },
                Err(e) => self@.is_none() && e.kind == ErrorKind::NotOpen,
            },
    {
        match &self.file {
            Some(f) => Ok(f.header().beta_resolution),
            None => Err(Error::new(ErrorKind::NotOpen, "No file is open")),
        }
    }

    /// Get number of alpha points.
    /// Fails with a not-open error exactly while the reader is closed.
    pub fn alpha_points(&self) -> (r: Result<i32, Error>)
        ensures
            match r {
                Ok(v) => {
                    &&& self@.is_some()
                    &&& v == spec_header(self@.unwrap()).alpha_points
                    &&& v >= 0
                },
                Err(e) => self@.is_none() && e.kind == ErrorKind::NotOpen,
            },
    {
        match &self.file {
            Some(f) => {
                proof {
                    use_type_invariant(f);
                    f.wf_image_is_valid();
                    header_ranges(f@);
                }
                Ok(f.header().alpha_points)
            },
            None => Err(Error::new(ErrorKind::NotOpen, "No file is open")),
        }
    }

    /// Get number of beta points.
    /// Fails with a not-open error exactly while the reader is closed.
    pub fn beta_points(&self) -> (r: Result<i32, Error>)
        ensures
            match r {
                Ok(v) => {
                    &&& self@.is_some()
                    &&& v == spec_header(self@.unwrap()).beta_points
                    &&& v >= 0
                },
                Err(e) => self@.is_none() && e.kind == ErrorKind::NotOpen,
            },
    {
        match &self.file {
            Some(f) => {
                proof {
                    use_type_invariant(f);
                    f.wf_image_is_valid();
                    header_ranges(f@);
                }
                Ok(f.header().beta_points)
            },
            None => Err(Error::new(ErrorKind::NotOpen, "No file is open")),
        }
    }

    /// Get orientation in yaw-pitch-roll: the one that the file declares,
    /// or the identity where it declares none. Fails with a not-open error
    /// exactly while the reader is closed.
    pub fn orientation(&self) -> (r: Result<Orientation, Error>)
        ensures
            match r {
                Ok(o) => self@.is_some() && o == spec_orientation(self@.unwrap()),
                Err(e) => self@.is_none() && e.kind == ErrorKind::NotOpen,
            },
    {
        match &self.file {
            Some(f) => match f.header().orientation {
                Some(o) => Ok(o),
                None => Ok(Orientation::identity()),
            },
            None => Err(Error::new(ErrorKind::NotOpen, "No file is open")),
        }
    }

    /// Check if metadata key exists. Fails with a not-open error exactly
    /// while the reader is closed.
    pub fn has_metadata(&self, key: &str) -> (r: Result<bool, Error>)
        ensures
            match r {
                Ok(b) => {
                    &&& self@.is_some()
                    &&& b == spec_find(spec_metadata(self@.unwrap()), key.spec_bytes()).is_some()
                },
                Err(e) => self@.is_none() && e.kind == ErrorKind::NotOpen,
            },
    {
        match &self.file {
            Some(f) => Ok(f.find(key.as_bytes()).is_some()),
            None => Err(Error::new(ErrorKind::NotOpen, "No file is open")),
        }
    }

    /// Get metadata value as string: the stored bytes, unchanged. Fails
    /// with a not-open error exactly while the reader is closed, and with a
    /// not-found error exactly where the open file has no text under `key`.
    pub fn metadata_string(&self, key: &str) -> (r: Result<Vec<u8>, Error>)
        ensures
            match r {
                Ok(text) => self@.is_some() && spec_find(
                    spec_metadata(self@.unwrap()),
                    key.spec_bytes(),
                ) == Some(MetaValueView::Text(text@)),
                Err(e) => match self@ {
                    None => e.kind == ErrorKind::NotOpen,
                    Some(s) => e.kind == ErrorKind::NotFound && !(spec_find(
                        spec_metadata(s),
                        key.spec_bytes(),
                    ) matches Some(MetaValueView::Text(_))),
                },
            },
    {
        match &self.file {
            None => Err(Error::new(ErrorKind::NotOpen, "No file is open")),
            Some(f) => match f.find(key.as_bytes()) {
                Some(MetaValue::Text(text)) => Ok(slice_to_vec(text.as_slice())),
                _ => Err(Error::new(ErrorKind::NotFound, "Metadata key not found")),
            },
        }
    }

    /// Get metadata value as float: the stored single-precision bits.
    /// Fails with a not-open error exactly while the reader is closed, and
    /// with a not-found error exactly where the open file has no number
    /// under `key`.
    pub fn metadata_float(&self, key: &str) -> (r: Result<u32, Error>)
        ensures
            match r {
                Ok(bits) => self@.is_some() && spec_find(
                    spec_metadata(self@.unwrap()),
                    key.spec_bytes(),
                ) == Some(MetaValueView::Float(bits)),
                Err(e) => match self@ {
                    None => e.kind == ErrorKind::NotOpen,
                    Some(s) => e.kind == ErrorKind::NotFound && !(spec_find(
                        spec_metadata(s),
                        key.spec_bytes(),
                    ) matches Some(MetaValueView::Float(_))),
                },
            },
    {
        match &self.file {
            None => Err(Error::new(ErrorKind::NotOpen, "No file is open")),
            Some(f) => match f.find(key.as_bytes()) {
                Some(MetaValue::Float(bits)) => Ok(*bits),
                _ => Err(Error::new(ErrorKind::NotFound, "Metadata key not found")),
            },
        }
    }

    /// Get metadata value as boolean. Fails with a not-open error exactly
    /// while the reader is closed, and with a not-found error exactly where
    /// the open file has no boolean under `key`.
    pub fn metadata_bool(&self, key: &str) -> (r: Result<bool, Error>)
        ensures
            match r {
                Ok(flag) => self@.is_some() && spec_find(
                    spec_metadata(self@.unwrap()),
                    key.spec_bytes(),
                ) == Some(MetaValueView::Flag(flag)),
                Err(e) => match self@ {
                    None => e.kind == ErrorKind::NotOpen,
                    Some(s) => e.kind == ErrorKind::NotFound && !(spec_find(
                        spec_metadata(s),
                        key.spec_bytes(),
                    ) matches Some(MetaValueView::Flag(_))),
                },
            },
    {
        match &self.file {
            None => Err(Error::new(ErrorKind::NotOpen, "No file is open")),
            Some(f) => match f.find(key.as_bytes()) {
                Some(MetaValue::Flag(flag)) => Ok(*flag),
                _ => Err(Error::new(ErrorKind::NotFound, "Metadata key not found")),
            },
        }
    }

    /// Get impulse response content. Fails with a not-open error exactly while the
    /// reader is closed, and with a content type mismatch exactly where
    /// the open file declares another content type.
    pub fn content_ir<'a>(&'a self) -> (r: Result<ContentIR<'a>, Error>)
        ensures
            match r {
                Ok(c) => {
                    &&& self@ == Some(c@)
                    &&& spec_header(c@).content_type == ContentType::ImpulseResponse
                },
                Err(e) => match self@ {
                    None => e.kind == ErrorKind::NotOpen,
                    Some(s) => {
                        &&& e.kind == ErrorKind::ContentTypeMismatch
                        &&& spec_header(s).content_type != ContentType::ImpulseResponse
                    },
                },
            },
    {
        match &self.file {
            None => Err(Error::new(ErrorKind::NotOpen, "No file is open")),
            Some(f) => ContentIR::new(f),
        }
    }

    /// Get magnitude spectrum content. Fails with a not-open error exactly while the
    /// reader is closed, and with a content type mismatch exactly where
    /// the open file declares another content type.
    pub fn content_ms<'a>(&'a self) -> (r: Result<ContentMS<'a>, Error>)
        ensures
            match r {
                Ok(c) => {
                    &&& self@ == Some(c@)
                    &&& spec_header(c@).content_type == ContentType::MagnitudeSpectrum
                },
                Err(e) => match self@ {
                    None => e.kind == ErrorKind::NotOpen,
                    Some(s) => {
                        &&& e.kind == ErrorKind::ContentTypeMismatch
                        &&& spec_header(s).content_type != ContentType::MagnitudeSpectrum
                    },
                },
            },
    {
        match &self.file {
            None => Err(Error::new(ErrorKind::NotOpen, "No file is open")),
            Some(f) => ContentMS::new(f),
        }
    }

    /// Get phase spectrum content. Fails with a not-open error exactly while the
    /// reader is closed, and with a content type mismatch exactly where
    /// the open file declares another content type.
    pub fn content_ps<'a>(&'a self) -> (r: Result<ContentPS<'a>, Error>)
        ensures
            match r {
                Ok(c) => {
                    &&& self@ == Some(c@)
                    &&& spec_header(c@).content_type == ContentType::PhaseSpectrum
                },
                Err(e) => match self@ {
                    None => e.kind == ErrorKind::NotOpen,
                    Some(s) => {
                        &&& e.kind == ErrorKind::ContentTypeMismatch
                        &&& spec_header(s).content_type != ContentType::PhaseSpectrum
                    },
                },
            },
    {
        match &self.file {
            None => Err(Error::new(ErrorKind::NotOpen, "No file is open")),
            Some(f) => ContentPS::new(f),
        }
    }

    /// Get magnitude-phase spectrum content. Fails with a not-open error exactly while the
    /// reader is closed, and with a content type mismatch exactly where
    /// the open file declares another content type.
    pub fn content_mps<'a>(&'a self) -> (r: Result<ContentMPS<'a>, Error>)
        ensures
            match r {
                Ok(c) => {
                    &&& self@ == Some(c@)
                    &&& spec_header(c@).content_type == ContentType::MagnitudePhaseSpectrum
                },
                Err(e) => match self@ {
                    None => e.kind == ErrorKind::NotOpen,
                    Some(s) => {
                        &&& e.kind == ErrorKind::ContentTypeMismatch
                        &&& spec_header(s).content_type != ContentType::MagnitudePhaseSpectrum
                    },
                },
            },
    {
        match &self.file {
            None => Err(Error::new(ErrorKind::NotOpen, "No file is open")),
            Some(f) => ContentMPS::new(f),
        }
    }

    /// Get DFT content. Fails with a not-open error exactly while the
    /// reader is closed, and with a content type mismatch exactly where
    /// the open file declares another content type.
    pub fn content_dft<'a>(&'a self) -> (r: Result<ContentDFT<'a>, Error>)
        ensures
            match r {
                Ok(c) => {
                    &&& self@ == Some(c@)
                    &&& spec_header(c@).content_type == ContentType::DftSpectrum
                },
                Err(e) => match self@ {
                    None => e.kind == ErrorKind::NotOpen,
                    Some(s) => {
                        &&& e.kind == ErrorKind::ContentTypeMismatch
                        &&& spec_header(s).content_type != ContentType::DftSpectrum
                    },
                },
            },
    {
        match &self.file {
            None => Err(Error::new(ErrorKind::NotOpen, "No file is open")),
            Some(f) => ContentDFT::new(f),
        }
    }
}

} // verus!
