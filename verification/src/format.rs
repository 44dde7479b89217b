//! A parsed file image.
//!
//! After the header come the metadata table, the grid table with one pair
//! of double-precision angles per record, and the payload: one block per
//! record and channel, record by record. Grid and payload are read from
//! the image on demand.

use vstd::prelude::*;
use crate::error::{Error, ErrorKind};
use crate::grid::{nearest_index, spec_is_nearest};
use crate::header::{
    field, field_bounds, parse_header, spec_field, spec_header, spec_header_end, spec_header_ok,
    Header, HEADER_LEN, ORIENTATION_LEN,
};
use crate::metadata::{
    entries_stay_inside, find_entry, keys_distinct, parse_entries, spec_entries, spec_find,
    spec_keys_distinct, spec_views, MetaEntry, MetaEntryView, MetaValue,
};
use crate::quantizer::{
    dequantize_at, quantize_after_dequantize, spec_dequantize, spec_dequantize_at, spec_quantize,
    Sample,
};
use crate::wire::{pow256_values, read_word, spec_word_at, word_bounds};

verus! {

/// Bytes of one grid entry: two double-precision angles.
pub const GRID_ENTRY_LEN: usize = 16;

/// The number of metadata entries that `s` declares.
pub open spec fn spec_meta_count(s: Seq<u8>) -> int {
    spec_field(s, spec_header_end(s))
}

/// The metadata table of `s` and the position after it.
pub open spec fn spec_table(s: Seq<u8>) -> Option<(Seq<MetaEntryView>, int)> {
    spec_entries(s, spec_header_end(s) + 4, spec_meta_count(s) as nat)
}

/// The metadata entries of `s`, in file order.
pub open spec fn spec_metadata(s: Seq<u8>) -> Seq<MetaEntryView> {
    spec_table(s).unwrap().0
}

/// Where the grid table of `s` starts.
pub open spec fn spec_grid_start(s: Seq<u8>) -> int {
    spec_table(s).unwrap().1
}

/// Where the payload of `s` starts.
pub open spec fn spec_payload_start(s: Seq<u8>) -> int {
    spec_grid_start(s) + GRID_ENTRY_LEN * spec_header(s).records
}

/// How many numbers one block of `s` stores.
pub open spec fn spec_block_values(s: Seq<u8>) -> int {
    spec_header(s).content_type.spec_values_per_item() * spec_header(s).length
}

/// Bytes of one block of `s`.
pub open spec fn spec_block_len(s: Seq<u8>) -> int {
    spec_block_values(s) * spec_header(s).quantization.spec_width()
}

/// Bytes of the whole payload of `s`.
pub open spec fn spec_payload_len(s: Seq<u8>) -> int {
    spec_header(s).records * spec_header(s).channels * spec_block_len(s)
}

/// Whether `s` is a complete file image: an acceptable header, a readable
/// metadata table without a repeated key, and room for the grid and for
/// every block of the payload.
pub open spec fn spec_valid_image(s: Seq<u8>) -> bool {
    &&& spec_header_ok(s)
    &&& spec_header_end(s) + 4 <= s.len()
    &&& spec_table(s).is_some()
    &&& spec_keys_distinct(spec_metadata(s))
    &&& spec_payload_start(s) + spec_payload_len(s) <= s.len()
}

/// The stored angles (alpha, beta) of a record, as double-precision bits.
pub open spec fn spec_record_coords(s: Seq<u8>, index: int) -> (u64, u64) {
    let pos = spec_grid_start(s) + GRID_ENTRY_LEN * index;
    (spec_word_at(s, pos, 8) as u64, spec_word_at(s, pos + 8, 8) as u64)
}

/// Where the block of a record and channel starts.
pub open spec fn spec_block_start(s: Seq<u8>, record: int, channel: int) -> int {
    spec_payload_start(s) + (record * spec_header(s).channels + channel) * spec_block_len(s)
}

/// The decoded block of a record and channel: every stored number of the
/// block, in file order.
pub open spec fn spec_decode(s: Seq<u8>, record: int, channel: int) -> Seq<Sample> {
    Seq::new(
        spec_block_values(s) as nat,
        |i: int|
            spec_dequantize_at(
                spec_header(s).quantization,
                s,
                spec_block_start(s, record, channel) + i * spec_header(s).quantization.spec_width(),
            ),
    )
}

/// Whether `record` and `channel` lie inside the declared counts.
pub open spec fn spec_in_range(s: Seq<u8>, record: int, channel: int) -> bool {
    0 <= record < spec_header(s).records && 0 <= channel < spec_header(s).channels
}

/// The product of two bounded non-negative numbers is bounded by the
/// product of the bounds.
proof fn product_bound(a: int, b: int, x: int, y: int)
    requires
        0 <= a <= x,
        0 <= b <= y,
    ensures
        0 <= a * b <= x * y,
{
    assert(0 <= a * b <= x * y) by (nonlinear_arith)
        requires
            0 <= a <= x,
            0 <= b <= y,
    ;
}

/// The block of a record and channel in range lies inside the payload.
proof fn block_inside(record: int, channel: int, records: int, channels: int, block: int)
    requires
        0 <= record < records,
        0 <= channel < channels,
        0 <= block,
    ensures
        0 <= record * channels + channel < records * channels,
        0 <= (record * channels + channel) * block,
        (record * channels + channel) * block + block <= records * channels * block,
{
    let index = record * channels + channel;
    assert(0 <= record * channels && (record + 1) * channels <= records * channels
        && (record + 1) * channels == record * channels + channels) by (nonlinear_arith)
        requires
            0 <= record < records,
            0 < channels,
    ;
    assert(0 <= index * block && (index + 1) * block <= (records * channels) * block && (index
        + 1) * block == index * block + block) by (nonlinear_arith)
        requires
            0 <= index,
            index + 1 <= records * channels,
            0 <= block,
    ;
}

/// The blocks of two different places do not overlap: the block of the
/// earlier record, or of the earlier channel of one record, ends where the
/// other begins or before.
pub proof fn blocks_do_not_overlap(s: Seq<u8>, r1: int, c1: int, r2: int, c2: int)
    requires
        spec_header_ok(s),
        spec_in_range(s, r1, c1),
        spec_in_range(s, r2, c2),
        r1 < r2 || (r1 == r2 && c1 < c2),
    ensures
        spec_block_start(s, r1, c1) + spec_block_len(s) <= spec_block_start(s, r2, c2),
{
    header_ranges(s);
    let channels = spec_header(s).channels as int;
    let block = spec_block_len(s);
    let first = r1 * channels + c1;
    let second = r2 * channels + c2;
    if r1 < r2 {
        assert((r1 + 1) * channels <= r2 * channels && (r1 + 1) * channels == r1 * channels
            + channels) by (nonlinear_arith)
            requires
                r1 + 1 <= r2,
                0 < channels,
        ;
    }
    assert(first + 1 <= second);
    assert((first + 1) * block <= second * block && (first + 1) * block == first * block + block)
        by (nonlinear_arith)
        requires
            first + 1 <= second,
            0 <= block,
    ;
}

/// The ranges of the counts that an acceptable header declares.
pub proof fn header_ranges(s: Seq<u8>)
    requires
        spec_header_ok(s),
    ensures
        1 <= spec_header(s).channels,
        1 <= spec_header(s).records,
        0 <= spec_header(s).alpha_points,
        0 <= spec_header(s).beta_points,
        0 <= spec_header(s).length,
        0 <= spec_header(s).samplerate,
        0 <= spec_block_values(s) <= 2 * i32::MAX,
        spec_block_values(s) <= spec_block_len(s) <= 16 * i32::MAX,
        spec_block_len(s) <= spec_payload_len(s),
        spec_header_end(s) <= s.len(),
{
    field_bounds(s, 24);
    field_bounds(s, 28);
    field_bounds(s, 40);
    field_bounds(s, 44);
    let h = spec_header(s);
    let values = spec_block_values(s);
    let width = h.quantization.spec_width();
    let per = h.content_type.spec_values_per_item();
    product_bound(per, h.length as int, 2, i32::MAX as int);
    product_bound(values, width, 2 * i32::MAX, 8);
    let block = spec_block_len(s);
    assert(values <= values * width) by (nonlinear_arith)
        requires
            0 <= values,
            1 <= width,
    ;
    let blocks = h.records * h.channels;
    assert(1 <= blocks) by (nonlinear_arith)
        requires
            blocks == h.records * h.channels,
            1 <= h.records,
            1 <= h.channels,
    ;
    assert(block <= blocks * block) by (nonlinear_arith)
        requires
            0 <= block,
            1 <= blocks,
    ;
}

/// The parts of a complete file follow one another inside the image:
/// header, metadata table, grid table, payload.
pub proof fn image_regions_in_order(s: Seq<u8>)
    requires
        spec_valid_image(s),
    ensures
        HEADER_LEN <= spec_header_end(s),
        spec_header_end(s) + 4 <= spec_grid_start(s),
        spec_grid_start(s) + GRID_ENTRY_LEN <= spec_payload_start(s),
        spec_payload_start(s) <= spec_payload_start(s) + spec_payload_len(s) <= s.len(),
        spec_metadata(s).len() == spec_meta_count(s),
{
    header_ranges(s);
    field_bounds(s, spec_header_end(s));
    entries_stay_inside(s, spec_header_end(s) + 4, spec_meta_count(s) as nat);
}

/// Every sample of a decoded block is the number that the image stores at
/// its place: the place lies inside the image, and the sample encoded again
/// gives exactly the bytes found there.
pub proof fn decoded_sample_matches_image(s: Seq<u8>, record: int, channel: int, i: int)
    requires
        spec_valid_image(s),
        spec_in_range(s, record, channel),
        0 <= i < spec_block_values(s),
    ensures
        spec_decode(s, record, channel).len() == spec_block_values(s),
        ({
            let kind = spec_header(s).quantization;
            let width = kind.spec_width();
            let pos = spec_block_start(s, record, channel) + i * width;
            let sample = spec_decode(s, record, channel)[i];
            &&& spec_payload_start(s) <= pos
            &&& pos + width <= s.len()
            &&& spec_dequantize(kind, s.subrange(pos, pos + width)) == Some(sample)
            &&& spec_quantize(kind, sample) == Some(s.subrange(pos, pos + width))
        }),
{
    let h = spec_header(s);
    let kind = h.quantization;
    let width = kind.spec_width();
    let values = spec_block_values(s);
    let block = spec_block_len(s);
    header_ranges(s);
    block_inside(record, channel, h.records as int, h.channels as int, block);
    assert(0 <= i * width && (i + 1) * width <= values * width && (i + 1) * width == i * width
        + width) by (nonlinear_arith)
        requires
            0 <= i < values,
            0 < width,
    ;
    field_bounds(s, spec_header_end(s));
    entries_stay_inside(s, spec_header_end(s) + 4, spec_meta_count(s) as nat);
    let index = record * h.channels + channel;
    let pos = spec_block_start(s, record, channel) + i * width;
    assert(spec_payload_len(s) == h.records * h.channels * block);
    assert(index * block + block <= spec_payload_len(s));
    assert(0 <= spec_payload_start(s) <= pos);
    assert(pos + width <= s.len());
    let stored = s.subrange(pos, pos + width);
    assert(stored.subrange(0, width) =~= stored);
    quantize_after_dequantize(kind, stored);
}

/// A file image that has been checked, with its header and metadata
/// table read out.
pub struct DaffFile {
    bytes: Vec<u8>,
    header: Header,
    metadata: Vec<MetaEntry>,
    grid_start: usize,
    payload_start: usize,
    block_values: usize,
    block_len: usize,
}

impl View for DaffFile {
    type V = Seq<u8>;

    /// The file image.
    closed spec fn view(&self) -> Seq<u8> {
        self.bytes@
    }
}

impl DaffFile {
    /// What was read out agrees with the image, and the image is a
    /// complete file.
    #[verifier::type_invariant]
    pub(crate) closed spec fn wf(&self) -> bool {
        &&& spec_valid_image(self.bytes@)
        &&& self.header == spec_header(self.bytes@)
        &&& spec_views(self.metadata@) == spec_metadata(self.bytes@)
        &&& self.grid_start == spec_grid_start(self.bytes@)
        &&& self.payload_start == spec_payload_start(self.bytes@)
        &&& self.block_values == spec_block_values(self.bytes@)
        &&& self.block_len == spec_block_len(self.bytes@)
    }

    /// The invariant holds of complete files only.
    pub(crate) proof fn wf_image_is_valid(&self)
        requires
            self.wf(),
        ensures
            spec_valid_image(self@),
    {
    }

    /// Checks a file image and reads out its header and metadata table.
    /// Fails with a format error exactly where the image is not a complete
    /// file.
    pub fn parse(bytes: Vec<u8>) -> (r: Result<DaffFile, Error>)
        ensures
            match r {
                Ok(f) => spec_valid_image(bytes@) && f@ == bytes@,
                Err(e) => !spec_valid_image(bytes@) && e.kind == ErrorKind::Format,
            },
    {
        let image: &[u8] = bytes.as_slice();
        let total: usize = image.len();
        let header: Header = match parse_header(image) {
            Ok(h) => h,
            Err(e) => {
                return Err(e);
            },
        };
        proof {
            header_ranges(bytes@);
        }
        let header_end: usize = if header.orientation.is_some() {
            HEADER_LEN + ORIENTATION_LEN
        } else {
            HEADER_LEN
        };
        if total - header_end < 4 {
            return Err(Error::new(ErrorKind::Format, "truncated metadata table"));
        }
        let count: u32 = field(image, header_end);
        let (metadata, grid_start) = match parse_entries(image, header_end + 4, count) {
            Some(table) => table,
            None => {
                return Err(Error::new(ErrorKind::Format, "truncated metadata entry"));
            },
        };
        if !keys_distinct(&metadata) {
            return Err(Error::new(ErrorKind::Format, "repeated metadata key"));
        }
        let available: u64 = (total - grid_start) as u64;
        let grid_len: u64 = (GRID_ENTRY_LEN as u64) * (header.records as u64);
        if available < grid_len {
            return Err(Error::new(ErrorKind::Format, "truncated grid table"));
        }
        let payload_start: usize = grid_start + grid_len as usize;
        let rest: u64 = available - grid_len;
        let per: u64 = header.content_type.values_per_item();
        let width: u64 = header.quantization.width() as u64;
        proof {
            product_bound(per as int, header.length as int, 2, i32::MAX as int);
            product_bound((per * header.length) as int, width as int, 2 * i32::MAX, 8);
            product_bound(
                header.records as int,
                header.channels as int,
                i32::MAX as int,
                i32::MAX as int,
            );
            product_bound(
                header.records * header.channels,
                spec_block_len(bytes@),
                i32::MAX * i32::MAX,
                16 * i32::MAX,
            );
        }
        let block_values: u64 = per * (header.length as u64);
        let block_len: u64 = block_values * width;
        let blocks: u64 = (header.records as u64) * (header.channels as u64);
        let payload_len: u128 = (blocks as u128) * (block_len as u128);
        if payload_len > rest as u128 {
            return Err(Error::new(ErrorKind::Format, "truncated payload"));
        }
        let file = DaffFile {
            bytes,
            header,
            metadata,
            grid_start,
            payload_start,
            block_values: block_values as usize,
            block_len: block_len as usize,
        };
        Ok(file)
    }

    /// The header of the file.
    pub fn header(&self) -> (h: Header)
        ensures
            h == spec_header(self@),
            spec_valid_image(self@),
    {
        proof {
            use_type_invariant(self);
        }
        self.header
    }

    /// The file image.
    pub fn image(&self) -> (bytes: &[u8])
        ensures
            bytes@ == self@,
    {
        self.bytes.as_slice()
    }

    /// Number of metadata entries.
    pub fn metadata_len(&self) -> (n: usize)
        ensures
            n == spec_metadata(self@).len(),
    {
        proof {
            use_type_invariant(self);
        }
        self.metadata.len()
    }

    /// The key of the metadata entry at `index`, in file order.
    pub fn metadata_key(&self, index: usize) -> (r: Option<&Vec<u8>>)
        ensures
            match r {
                Some(k) => index < spec_metadata(self@).len() && k@ == spec_metadata(
                    self@,
                )[index as int].key,
                None => index >= spec_metadata(self@).len(),
            },
    {
        proof {
            use_type_invariant(self);
        }
        if index < self.metadata.len() {
            proof {
                assert(spec_views(self.metadata@)[index as int] == self.metadata@[index as int]@);
            }
            Some(&self.metadata[index].key)
        } else {
            None
        }
    }

    /// The metadata value stored under `key`, if any.
    pub fn find(&self, key: &[u8]) -> (r: Option<&MetaValue>)
        ensures
            match r {
                Some(v) => spec_find(spec_metadata(self@), key@) == Some(v@),
                None => spec_find(spec_metadata(self@), key@).is_none(),
            },
    {
        proof {
            use_type_invariant(self);
        }
        find_entry(&self.metadata, key)
    }

    /// The stored angles (alpha, beta) of a record, as double-precision
    /// bits. Fails with an index error exactly where `index` is not below
    /// the record count.
    pub fn record_coords(&self, index: i32) -> (r: Result<(u64, u64), Error>)
        ensures
            match r {
                Ok(c) => 0 <= index < spec_header(self@).records && c == spec_record_coords(
                    self@,
                    index as int,
                ),
                Err(e) => !(0 <= index < spec_header(self@).records) && e.kind
                    == ErrorKind::Index,
            },
    {
        proof {
            use_type_invariant(self);
        }
        if index < 0 || index >= self.header.records {
            return Err(Error::new(ErrorKind::Index, "Failed to get record coordinates"));
        }
        proof {
            header_ranges(self.bytes@);
            assert(0 <= spec_payload_len(self.bytes@)) by (nonlinear_arith)
                requires
                    0 <= spec_block_len(self.bytes@),
                    spec_block_len(self.bytes@) <= spec_payload_len(self.bytes@),
            ;
        }
        let image: &[u8] = self.bytes.as_slice();
        let pos: usize = self.grid_start + GRID_ENTRY_LEN * (index as usize);
        let alpha: u64 = read_word(image, pos, 8);
        let beta: u64 = read_word(image, pos + 8, 8);
        proof {
            word_bounds(image@.subrange(pos as int, pos + 8));
            word_bounds(image@.subrange(pos + 8, pos + 16));
            pow256_values();
        }
        Ok((alpha, beta))
    }

    /// Decodes the block of a record and channel. Fails with an index
    /// error exactly where one of the two is not below its declared count.
    pub fn decode(&self, record: i32, channel: i32) -> (r: Result<Vec<Sample>, Error>)
        ensures
            match r {
                Ok(v) => spec_in_range(self@, record as int, channel as int) && v@ == spec_decode(
                    self@,
                    record as int,
                    channel as int,
                ),
                Err(e) => !spec_in_range(self@, record as int, channel as int) && e.kind
                    == ErrorKind::Index,
            },
    {
        proof {
            use_type_invariant(self);
        }
        if record < 0 || record >= self.header.records {
            return Err(Error::new(ErrorKind::Index, "record index out of range"));
        }
        if channel < 0 || channel >= self.header.channels {
            return Err(Error::new(ErrorKind::Index, "channel index out of range"));
        }
        let image: &[u8] = self.bytes.as_slice();
        let total: usize = image.len();
        let kind = self.header.quantization;
        let width: usize = kind.width();
        proof {
            header_ranges(self.bytes@);
            block_inside(
                record as int,
                channel as int,
                self.header.records as int,
                self.header.channels as int,
                self.block_len as int,
            );
            product_bound(
                record as int,
                self.header.channels as int,
                i32::MAX as int,
                i32::MAX as int,
            );
        }
        let index: u64 = (record as u64) * (self.header.channels as u64) + (channel as u64);
        let offset: u64 = index * (self.block_len as u64);
        let start: usize = self.payload_start + offset as usize;
        let mut out: Vec<Sample> = Vec::new();
        let mut pos: usize = start;
        let mut i: usize = 0;
        while i < self.block_values
            invariant
                self.wf(),
                image@ == self.bytes@,
                kind == self.header.quantization,
                width == kind.spec_width(),
                start == spec_block_start(self.bytes@, record as int, channel as int),
                total == image@.len(),
                start + self.block_len <= total,
                i <= self.block_values,
                pos == start + i * width,
                out@.len() == i,
                forall|j: int|
                    0 <= j < i ==> out@[j] == spec_dequantize_at(
                        kind,
                        image@,
                        start + j * width,
                    ),
            decreases self.block_values - i,
        {
            proof {
                let values = self.block_values as int;
                let w = width as int;
                let n = i as int;
                assert((n + 1) * w <= values * w && (n + 1) * w == n * w + w && 0 <= n * w)
                    by (nonlinear_arith)
                    requires
                        0 <= n < values,
                        0 < w,
                ;
            }
            let sample: Sample = dequantize_at(kind, image, pos);
            out.push(sample);
            pos = pos + width;
            i = i + 1;
        }
        proof {
            assert(out@ =~= spec_decode(self.bytes@, record as int, channel as int));
        }
        Ok(out)
    }

    /// The record nearest to a query direction, given one distance key per
    /// record: the record with the smallest key, and the lowest index among
    /// records with equal keys.
    pub fn nearest_neighbour(&self, distance_keys: &[u64]) -> (r: i32)
        requires
            distance_keys@.len() == spec_header(self@).records,
        ensures
            spec_is_nearest(distance_keys@, r as int),
            0 <= r < spec_header(self@).records,
    {
        proof {
            use_type_invariant(self);
            header_ranges(self.bytes@);
        }
        match nearest_index(distance_keys) {
            Some(index) => index as i32,
            None => 0,
        }
    }

    /// The record nearest to a query direction for a list of keys of any
    /// length: nothing exactly where the list does not hold one key per
    /// record, and the choice of `nearest_neighbour` otherwise.
    pub fn nearest_neighbour_checked(&self, distance_keys: &[u64]) -> (r: Option<i32>)
        ensures
            match r {
                Some(index) => {
                    &&& distance_keys@.len() == spec_header(self@).records
                    &&& spec_is_nearest(distance_keys@, index as int)
                },
                None => distance_keys@.len() != spec_header(self@).records,
            },
    {
        proof {
            use_type_invariant(self);
            header_ranges(self.bytes@);
        }
        if distance_keys.len() == self.header.records as usize {
            Some(self.nearest_neighbour(distance_keys))
        } else {
            None
        }
    }
}

} // verus!
