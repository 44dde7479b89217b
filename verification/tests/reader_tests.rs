use opendaff::codes::{ContentType, Quantization};
use opendaff::format::DaffFile;
use opendaff::header::{parse_header, Orientation};
use opendaff::metadata::{
    bytes_equal, find_entry, keys_distinct, parse_entries, parse_entry, MetaValue,
};
use opendaff::quantizer::{quantize, Sample};
use opendaff::{ContentIR, ErrorKind, Reader};

#[derive(Clone)]
enum Meta {
    Text(&'static str),
    Float(f32),
    Flag(bool),
}

#[derive(Clone)]
struct Fixture {
    magic: [u8; 4],
    version: u32,
    content: u32,
    quant: u32,
    channels: u32,
    records: u32,
    alpha_points: u32,
    beta_points: u32,
    alpha_resolution: f32,
    beta_resolution: f32,
    length: u32,
    samplerate: u32,
    symmetric: u32,
    orientation: Option<(f32, f32, f32)>,
    metadata: Vec<(&'static str, Meta)>,
    grid: Vec<(f64, f64)>,
    payload: Vec<u8>,
}

fn fixture(content: ContentType, quant: Quantization, channels: u32, records: u32) -> Fixture {
    Fixture {
        magic: [b'D', b'A', b'F', b'F'],
        version: 1,
        content: content.code() as u32,
        quant: quant.code() as u32,
        channels,
        records,
        alpha_points: records,
        beta_points: 1,
        alpha_resolution: 0.0,
        beta_resolution: 0.0,
        length: 0,
        samplerate: 44100,
        symmetric: 0,
        orientation: None,
        metadata: Vec::new(),
        grid: (0..records).map(|_| (0.0, 0.0)).collect(),
        payload: Vec::new(),
    }
}

fn put(out: &mut Vec<u8>, word: u32) {
    out.extend_from_slice(&word.to_le_bytes());
}

fn build(fx: &Fixture) -> Vec<u8> {
    let mut out: Vec<u8> = Vec::new();
    out.extend_from_slice(&fx.magic);
    put(&mut out, fx.version);
    put(&mut out, fx.content);
    put(&mut out, fx.quant);
    put(&mut out, fx.channels);
    put(&mut out, fx.records);
    put(&mut out, fx.alpha_points);
    put(&mut out, fx.beta_points);
    put(&mut out, fx.alpha_resolution.to_bits());
    put(&mut out, fx.beta_resolution.to_bits());
    put(&mut out, fx.length);
    put(&mut out, fx.samplerate);
    put(&mut out, fx.symmetric);
    match fx.orientation {
        Some((yaw, pitch, roll)) => {
            put(&mut out, 1);
            put(&mut out, yaw.to_bits());
            put(&mut out, pitch.to_bits());
            put(&mut out, roll.to_bits());
        }
        None => put(&mut out, 0),
    }
    put(&mut out, fx.metadata.len() as u32);
    for (key, value) in &fx.metadata {
        put(&mut out, key.len() as u32);
        out.extend_from_slice(key.as_bytes());
        match value {
            Meta::Text(text) => {
                put(&mut out, 1);
                put(&mut out, text.len() as u32);
                out.extend_from_slice(text.as_bytes());
            }
            Meta::Float(x) => {
                put(&mut out, 2);
                put(&mut out, x.to_bits());
            }
            Meta::Flag(b) => {
                put(&mut out, 3);
                put(&mut out, if *b { 1 } else { 0 });
            }
        }
    }
    for (alpha, beta) in &fx.grid {
        out.extend_from_slice(&alpha.to_le_bytes());
        out.extend_from_slice(&beta.to_le_bytes());
    }
    out.extend_from_slice(&fx.payload);
    out
}

fn open(fx: &Fixture) -> Reader {
    let mut reader = Reader::new().unwrap();
    let result = reader.open(build(fx));
    assert!(result.is_ok());
    reader
}

fn open_error(bytes: Vec<u8>) -> ErrorKind {
    let mut reader = Reader::new().unwrap();
    let kind = reader.open(bytes).err().unwrap().kind();
    assert!(!reader.is_valid());
    kind
}

fn floats(samples: &[Sample]) -> Vec<f32> {
    samples
        .iter()
        .map(|s| match s {
            Sample::Fixed { raw, full_scale } => *raw as f32 / *full_scale as f32,
            Sample::Single { bits } => f32::from_bits(*bits),
            Sample::Double { bits } => f64::from_bits(*bits) as f32,
        })
        .collect()
}

fn angular_distance(phi: f64, theta: f64, alpha: f64, beta: f64) -> f64 {
    let dot = theta.sin() * beta.sin() + theta.cos() * beta.cos() * (phi - alpha).cos();
    dot.clamp(-1.0, 1.0).acos()
}

fn distance_keys(grid: &[(f64, f64)], phi: f64, theta: f64) -> Vec<u64> {
    grid.iter().map(|(a, b)| angular_distance(phi, theta, *a, *b).to_bits()).collect()
}

fn ring_fixture() -> Fixture {
    let mut fx = fixture(ContentType::MagnitudeSpectrum, Quantization::Float32, 2, 36);
    fx.length = 3;
    fx.alpha_points = 36;
    fx.beta_points = 1;
    fx.alpha_resolution = (2.0 * std::f64::consts::PI / 36.0) as f32;
    fx.grid = (0..36).map(|k| (k as f64 * (2.0 * std::f64::consts::PI / 36.0), 0.0)).collect();
    for record in 0..36 {
        for channel in 0..2 {
            for bin in 0..3 {
                let value = (record * 100 + channel * 10 + bin) as f32;
                fx.payload.extend_from_slice(&value.to_le_bytes());
            }
        }
    }
    fx
}

#[test]
fn lib_test_reader_creation() {
    let reader = Reader::new();
    assert!(reader.is_ok());
}

#[test]
fn integration_test_test_reader_creation() {
    let reader = Reader::new();
    assert!(reader.is_ok(), "Failed to create reader");

    let reader = reader.unwrap();
    assert!(!reader.is_valid(), "Reader should not be valid without file");
}

#[test]
fn open_rejects_empty_image() {
    let mut reader = Reader::new().unwrap();
    let result = reader.open(Vec::new());
    assert!(result.is_err(), "Should fail to open an empty image");
    assert_eq!(result.err().unwrap().kind(), ErrorKind::Format);
    assert!(!reader.is_valid());
}

#[test]
fn closed_reader_reports_no_header() {
    let reader = Reader::new().unwrap();
    assert!(!reader.is_valid());
    assert_eq!(reader.content_type().err().unwrap().kind(), ErrorKind::NotOpen);
    assert_eq!(reader.quantization().err().unwrap().kind(), ErrorKind::NotOpen);
    assert_eq!(reader.num_channels().err().unwrap().kind(), ErrorKind::NotOpen);
    assert_eq!(reader.num_records().err().unwrap().kind(), ErrorKind::NotOpen);
    assert_eq!(reader.alpha_points().err().unwrap().kind(), ErrorKind::NotOpen);
    assert_eq!(reader.beta_points().err().unwrap().kind(), ErrorKind::NotOpen);
    assert_eq!(reader.alpha_resolution().err().unwrap().kind(), ErrorKind::NotOpen);
    assert_eq!(reader.beta_resolution().err().unwrap().kind(), ErrorKind::NotOpen);
    assert_eq!(reader.has_metadata("Author").err().unwrap().kind(), ErrorKind::NotOpen);
}

#[test]
fn stored_zeros_are_told_from_a_closed_reader() {
    let mut fx = fixture(ContentType::ImpulseResponse, Quantization::Int8, 1, 1);
    fx.alpha_points = 0;
    fx.beta_points = 0;
    fx.alpha_resolution = 0.0;
    fx.beta_resolution = 0.0;
    let mut reader = open(&fx);
    assert_eq!(reader.alpha_points().ok(), Some(0));
    assert_eq!(reader.beta_points().ok(), Some(0));
    assert_eq!(reader.alpha_resolution().ok(), Some(0));
    assert_eq!(reader.beta_resolution().ok(), Some(0));
    assert_eq!(reader.content_type().ok(), Some(ContentType::ImpulseResponse));
    reader.close();
    assert_eq!(reader.alpha_points().err().unwrap().kind(), ErrorKind::NotOpen);
    assert_eq!(reader.alpha_resolution().err().unwrap().kind(), ErrorKind::NotOpen);
    assert_eq!(reader.content_type().err().unwrap().kind(), ErrorKind::NotOpen);
}

#[test]
fn closed_reader_refuses_content_and_metadata() {
    let reader = Reader::new().unwrap();
    assert_eq!(reader.content_ir().err().unwrap().kind(), ErrorKind::NotOpen);
    assert_eq!(reader.content_ms().err().unwrap().kind(), ErrorKind::NotOpen);
    assert_eq!(reader.content_ps().err().unwrap().kind(), ErrorKind::NotOpen);
    assert_eq!(reader.content_mps().err().unwrap().kind(), ErrorKind::NotOpen);
    assert_eq!(reader.content_dft().err().unwrap().kind(), ErrorKind::NotOpen);
    assert_eq!(reader.metadata_string("Author").err().unwrap().kind(), ErrorKind::NotOpen);
    assert_eq!(reader.metadata_float("Gain").err().unwrap().kind(), ErrorKind::NotOpen);
    assert_eq!(reader.metadata_bool("Flag").err().unwrap().kind(), ErrorKind::NotOpen);
    assert_eq!(reader.orientation().err().unwrap().kind(), ErrorKind::NotOpen);
    assert_eq!(reader.file().err().unwrap().kind(), ErrorKind::NotOpen);
}

#[test]
fn header_fields_are_read_back() {
    let mut fx = fixture(ContentType::ImpulseResponse, Quantization::Int16, 2, 6);
    fx.alpha_points = 3;
    fx.beta_points = 2;
    fx.alpha_resolution = 2.0943952;
    fx.beta_resolution = 1.5707964;
    fx.length = 4;
    fx.samplerate = 48000;
    fx.payload = vec![0u8; 6 * 2 * 4 * 2];
    let reader = open(&fx);
    assert!(reader.is_valid());
    assert_eq!(reader.content_type().ok(), Some(ContentType::ImpulseResponse));
    assert_eq!(reader.quantization().ok(), Some(Quantization::Int16));
    assert_eq!(reader.num_channels().ok(), Some(2));
    assert_eq!(reader.num_records().ok(), Some(6));
    assert_eq!(reader.alpha_points().ok(), Some(3));
    assert_eq!(reader.beta_points().ok(), Some(2));
    assert_eq!(f32::from_bits(reader.alpha_resolution().ok().unwrap()), 2.0943952);
    assert_eq!(f32::from_bits(reader.beta_resolution().ok().unwrap()), 1.5707964);
    let ir = reader.content_ir().ok().unwrap();
    assert_eq!(ir.filter_length(), 4);
    assert_eq!(ir.samplerate(), 48000);
}

#[test]
fn parse_header_alone() {
    let mut fx = fixture(ContentType::DftSpectrum, Quantization::Float64, 1, 1);
    fx.symmetric = 1;
    fx.length = 5;
    let bytes = build(&fx);
    let header = parse_header(&bytes[..56]).ok().unwrap();
    assert_eq!(header.content_type, ContentType::DftSpectrum);
    assert_eq!(header.quantization, Quantization::Float64);
    assert_eq!(header.channels, 1);
    assert_eq!(header.records, 1);
    assert_eq!(header.length, 5);
    assert_eq!(header.samplerate, 44100);
    assert!(header.symmetric);
    assert_eq!(header.orientation, None);
    assert_eq!(parse_header(&bytes[..55]).err().unwrap().kind(), ErrorKind::Format);
}

#[test]
fn open_rejects_bad_signature() {
    let mut fx = fixture(ContentType::ImpulseResponse, Quantization::Int8, 1, 1);
    fx.magic = [b'R', b'I', b'F', b'F'];
    assert_eq!(open_error(build(&fx)), ErrorKind::Format);
}

#[test]
fn open_rejects_unsupported_version() {
    let mut fx = fixture(ContentType::ImpulseResponse, Quantization::Int8, 1, 1);
    fx.version = 2;
    assert_eq!(open_error(build(&fx)), ErrorKind::Format);
    fx.version = 0;
    assert_eq!(open_error(build(&fx)), ErrorKind::Format);
}

#[test]
fn open_rejects_unknown_codes() {
    let mut fx = fixture(ContentType::ImpulseResponse, Quantization::Int8, 1, 1);
    fx.content = 0;
    assert_eq!(open_error(build(&fx)), ErrorKind::Format);
    fx.content = 6;
    assert_eq!(open_error(build(&fx)), ErrorKind::Format);
    fx.content = 0xffff_ffff;
    assert_eq!(open_error(build(&fx)), ErrorKind::Format);
    fx.content = 1;
    fx.quant = 7;
    assert_eq!(open_error(build(&fx)), ErrorKind::Format);
    fx.quant = 0x8000_0001;
    assert_eq!(open_error(build(&fx)), ErrorKind::Format);
}

#[test]
fn open_rejects_bad_counts_and_flags() {
    let good = fixture(ContentType::ImpulseResponse, Quantization::Int8, 1, 1);
    assert!(Reader::new().unwrap().open(build(&good)).is_ok());
    let mut fx = good.clone();
    fx.channels = 0;
    assert_eq!(open_error(build(&fx)), ErrorKind::Format);
    let mut fx = good.clone();
    fx.records = 0;
    fx.grid.clear();
    assert_eq!(open_error(build(&fx)), ErrorKind::Format);
    let mut fx = good.clone();
    fx.channels = 0x8000_0000;
    assert_eq!(open_error(build(&fx)), ErrorKind::Format);
    let mut fx = good.clone();
    fx.length = 0x8000_0000;
    assert_eq!(open_error(build(&fx)), ErrorKind::Format);
    let mut fx = good.clone();
    fx.symmetric = 2;
    assert_eq!(open_error(build(&fx)), ErrorKind::Format);
    let mut bytes = build(&good);
    bytes[52] = 2;
    assert_eq!(open_error(bytes), ErrorKind::Format);
}

#[test]
fn open_rejects_every_truncation() {
    let mut fx = fixture(ContentType::MagnitudePhaseSpectrum, Quantization::Int24, 2, 3);
    fx.length = 2;
    fx.orientation = Some((10.0, 20.0, 30.0));
    fx.metadata = vec![("Author", Meta::Text("A. Nonymous")), ("Gain", Meta::Float(0.5))];
    fx.payload = vec![7u8; 3 * 2 * 2 * 2 * 3];
    let bytes = build(&fx);
    assert!(Reader::new().unwrap().open(bytes.clone()).is_ok());
    for cut in 0..bytes.len() {
        assert_eq!(open_error(bytes[..cut].to_vec()), ErrorKind::Format);
    }
}

#[test]
fn open_accepts_trailing_bytes() {
    let mut fx = fixture(ContentType::PhaseSpectrum, Quantization::Int8, 1, 1);
    fx.length = 2;
    fx.payload = vec![1, 2, 99, 99, 99];
    let reader = open(&fx);
    let ps = reader.content_ps().ok().unwrap();
    assert_eq!(ps.num_frequencies(), 2);
    assert_eq!(
        ps.phases(0, 0).ok().unwrap(),
        vec![
            Sample::Fixed { raw: 1, full_scale: 127 },
            Sample::Fixed { raw: 2, full_scale: 127 }
        ]
    );
}

#[test]
fn open_rejects_repeated_key_and_unknown_tag() {
    let mut fx = fixture(ContentType::ImpulseResponse, Quantization::Int8, 1, 1);
    fx.metadata = vec![("Author", Meta::Text("a")), ("Author", Meta::Flag(true))];
    assert_eq!(open_error(build(&fx)), ErrorKind::Format);
    fx.metadata = vec![("Author", Meta::Flag(true))];
    let mut bytes = build(&fx);
    assert!(Reader::new().unwrap().open(bytes.clone()).is_ok());
    let tag_at = 56 + 4 + 4 + "Author".len();
    assert_eq!(bytes[tag_at], 3);
    bytes[tag_at] = 4;
    assert_eq!(open_error(bytes.clone()), ErrorKind::Format);
    bytes[tag_at] = 0;
    assert_eq!(open_error(bytes), ErrorKind::Format);
}

#[test]
fn failed_open_closes_the_previous_file() {
    let fx = fixture(ContentType::ImpulseResponse, Quantization::Int8, 1, 1);
    let mut reader = open(&fx);
    assert!(reader.is_valid());
    assert!(reader.open(vec![1, 2, 3]).is_err());
    assert!(!reader.is_valid());
    assert_eq!(reader.num_records().err().unwrap().kind(), ErrorKind::NotOpen);
}

#[test]
fn open_replaces_the_previous_file() {
    let first = fixture(ContentType::ImpulseResponse, Quantization::Int8, 1, 1);
    let mut second = fixture(ContentType::MagnitudeSpectrum, Quantization::Int16, 3, 2);
    second.length = 1;
    second.payload = vec![0u8; 2 * 3 * 2];
    let mut reader = open(&first);
    assert_eq!(reader.content_type().ok(), Some(ContentType::ImpulseResponse));
    assert!(reader.open(build(&second)).is_ok());
    assert_eq!(reader.content_type().ok(), Some(ContentType::MagnitudeSpectrum));
    assert_eq!(reader.num_channels().ok(), Some(3));
    assert_eq!(reader.num_records().ok(), Some(2));
}

#[test]
fn close_then_reopen() {
    let fx = fixture(ContentType::ImpulseResponse, Quantization::Int8, 1, 1);
    let mut reader = open(&fx);
    reader.close();
    assert!(!reader.is_valid());
    assert_eq!(reader.content_ir().err().unwrap().kind(), ErrorKind::NotOpen);
    reader.close();
    assert!(!reader.is_valid());
    assert!(reader.open(build(&fx)).is_ok());
    assert!(reader.is_valid());
}

#[test]
fn orientation_absent_is_identity() {
    let fx = fixture(ContentType::ImpulseResponse, Quantization::Int8, 1, 1);
    let reader = open(&fx);
    assert_eq!(reader.orientation().ok().unwrap(), Orientation { yaw: 0, pitch: 0, roll: 0 });
    assert_eq!(Orientation::identity(), Orientation { yaw: 0, pitch: 0, roll: 0 });
}

#[test]
fn orientation_present_is_read_back() {
    let mut fx = fixture(ContentType::ImpulseResponse, Quantization::Int8, 1, 1);
    fx.orientation = Some((90.0, -45.0, 12.5));
    let reader = open(&fx);
    let o = reader.orientation().ok().unwrap();
    assert_eq!(f32::from_bits(o.yaw), 90.0);
    assert_eq!(f32::from_bits(o.pitch), -45.0);
    assert_eq!(f32::from_bits(o.roll), 12.5);
}

#[test]
fn metadata_string_author() {
    let mut fx = fixture(ContentType::ImpulseResponse, Quantization::Int8, 1, 1);
    let without = open(&fx);
    assert_eq!(without.has_metadata("Author").ok(), Some(false));
    assert_eq!(without.metadata_string("Author").err().unwrap().kind(), ErrorKind::NotFound);
    fx.metadata = vec![("Author", Meta::Text("Institute of Technical Acoustics"))];
    let with = open(&fx);
    assert_eq!(with.has_metadata("Author").ok(), Some(true));
    assert_eq!(
        with.metadata_string("Author").ok().unwrap(),
        "Institute of Technical Acoustics".as_bytes().to_vec()
    );
}

#[test]
fn metadata_typed_accessors() {
    let mut fx = fixture(ContentType::ImpulseResponse, Quantization::Int8, 1, 1);
    fx.metadata = vec![
        ("Author", Meta::Text("J\u{fc}rgen")),
        ("Gain", Meta::Float(-3.5)),
        ("Calibrated", Meta::Flag(true)),
        ("Simulated", Meta::Flag(false)),
        ("", Meta::Text("")),
    ];
    let reader = open(&fx);
    assert_eq!(reader.metadata_string("Author").ok().unwrap(), "J\u{fc}rgen".as_bytes().to_vec());
    assert_eq!(reader.metadata_string("").ok().unwrap(), Vec::<u8>::new());
    assert_eq!(f32::from_bits(reader.metadata_float("Gain").ok().unwrap()), -3.5);
    assert_eq!(reader.metadata_bool("Calibrated").ok(), Some(true));
    assert_eq!(reader.metadata_bool("Simulated").ok(), Some(false));
    assert_eq!(reader.has_metadata("Gain").ok(), Some(true));
    assert_eq!(reader.has_metadata("").ok(), Some(true));
    assert_eq!(reader.has_metadata("gain").ok(), Some(false));
    assert_eq!(reader.has_metadata("Gai").ok(), Some(false));
    assert_eq!(reader.metadata_float("Author").err().unwrap().kind(), ErrorKind::NotFound);
    assert_eq!(reader.metadata_bool("Gain").err().unwrap().kind(), ErrorKind::NotFound);
    assert_eq!(reader.metadata_string("Calibrated").err().unwrap().kind(), ErrorKind::NotFound);
    assert_eq!(reader.metadata_bool("Missing").err().unwrap().kind(), ErrorKind::NotFound);
}

#[test]
fn metadata_enumeration_keeps_file_order() {
    let mut fx = fixture(ContentType::ImpulseResponse, Quantization::Int8, 1, 1);
    fx.metadata =
        vec![("Zulu", Meta::Flag(true)), ("Alpha", Meta::Float(1.0)), ("Mike", Meta::Text("m"))];
    let reader = open(&fx);
    let file = reader.file().ok().unwrap();
    assert_eq!(file.metadata_len(), 3);
    assert_eq!(file.metadata_key(0).unwrap(), &"Zulu".as_bytes().to_vec());
    assert_eq!(file.metadata_key(1).unwrap(), &"Alpha".as_bytes().to_vec());
    assert_eq!(file.metadata_key(2).unwrap(), &"Mike".as_bytes().to_vec());
    assert!(file.metadata_key(3).is_none());
    assert!(matches!(file.find("Alpha".as_bytes()), Some(MetaValue::Float(_))));
    assert!(file.find("Bravo".as_bytes()).is_none());
    assert_eq!(file.image(), &build(&fx)[..]);
}

#[test]
fn parse_entry_reads_one_entry() {
    let mut bytes: Vec<u8> = vec![0xee];
    put(&mut bytes, 2);
    bytes.extend_from_slice(b"Hz");
    put(&mut bytes, 2);
    put(&mut bytes, 440.0f32.to_bits());
    bytes.push(0xee);
    let (entry, next) = parse_entry(&bytes, 1).unwrap();
    assert_eq!(entry.key, b"Hz".to_vec());
    assert!(matches!(entry.value, MetaValue::Float(bits) if f32::from_bits(bits) == 440.0));
    assert_eq!(next, bytes.len() - 1);
    assert!(parse_entry(&bytes, 0).is_none());
    assert!(parse_entry(&bytes, 2).is_none());
    assert!(parse_entry(&bytes, bytes.len()).is_none());
    assert!(parse_entry(&bytes, bytes.len() + 1).is_none());
    assert!(parse_entry(&bytes, usize::MAX).is_none());
}

#[test]
fn parse_entries_reads_a_run() {
    let mut bytes: Vec<u8> = Vec::new();
    for (key, flag) in [("a", 0u32), ("bc", 7)] {
        put(&mut bytes, key.len() as u32);
        bytes.extend_from_slice(key.as_bytes());
        put(&mut bytes, 3);
        put(&mut bytes, flag);
    }
    let (none, end) = parse_entries(&bytes, 0, 0).unwrap();
    assert!(none.is_empty());
    assert_eq!(end, 0);
    let (one, end) = parse_entries(&bytes, 0, 1).unwrap();
    assert_eq!(one.len(), 1);
    assert_eq!(end, 13);
    let (two, end) = parse_entries(&bytes, 0, 2).unwrap();
    assert_eq!(two.len(), 2);
    assert_eq!(end, bytes.len());
    assert_eq!(two[0].key, b"a".to_vec());
    assert!(matches!(two[0].value, MetaValue::Flag(false)));
    assert_eq!(two[1].key, b"bc".to_vec());
    assert!(matches!(two[1].value, MetaValue::Flag(true)));
    assert!(keys_distinct(&two));
    assert!(find_entry(&two, b"bc").is_some());
    assert!(find_entry(&two, b"b").is_none());
    assert!(parse_entries(&bytes, 0, 3).is_none());
    assert!(parse_entries(&bytes, bytes.len() + 5, 1).is_none());
    assert_eq!(parse_entries(&bytes, bytes.len() + 5, 0).map(|t| t.1), Some(bytes.len() + 5));
}

#[test]
fn bytes_equal_compares_contents() {
    assert!(bytes_equal(&[], &[]));
    assert!(bytes_equal(&[1, 2, 3], &[1, 2, 3]));
    assert!(!bytes_equal(&[1, 2, 3], &[1, 2, 4]));
    assert!(!bytes_equal(&[1, 2, 3], &[1, 2]));
    assert!(!bytes_equal(&[], &[0]));
}

#[test]
fn content_ir_on_magnitude_spectrum_is_a_mismatch() {
    let reader = open(&ring_fixture());
    assert_eq!(reader.content_ir().err().unwrap().kind(), ErrorKind::ContentTypeMismatch);
    assert_eq!(reader.content_ir().err().unwrap().message(), "Not an IR content type");
    assert!(reader.content_ms().is_ok());
}

#[test]
fn only_the_declared_content_view_is_given() {
    let kinds = [
        ContentType::ImpulseResponse,
        ContentType::MagnitudeSpectrum,
        ContentType::PhaseSpectrum,
        ContentType::MagnitudePhaseSpectrum,
        ContentType::DftSpectrum,
    ];
    for declared in kinds {
        let reader = open(&fixture(declared, Quantization::Int8, 1, 1));
        let given = [
            reader.content_ir().map(|_| ()),
            reader.content_ms().map(|_| ()),
            reader.content_ps().map(|_| ()),
            reader.content_mps().map(|_| ()),
            reader.content_dft().map(|_| ()),
        ];
        for (asked, result) in kinds.iter().zip(given) {
            if *asked == declared {
                assert!(result.is_ok());
            } else {
                assert_eq!(result.err().unwrap().kind(), ErrorKind::ContentTypeMismatch);
            }
        }
        let file = reader.file().ok().unwrap();
        assert_eq!(ContentIR::new(file).is_ok(), declared == ContentType::ImpulseResponse);
    }
}

#[test]
fn impulse_response_int16_decoding() {
    let mut fx = fixture(ContentType::ImpulseResponse, Quantization::Int16, 2, 2);
    fx.length = 3;
    let values: [i16; 12] =
        [32767, -32768, 0, 1, -1, 16384, 100, 200, 300, -100, -200, -300];
    for v in values {
        fx.payload.extend_from_slice(&v.to_le_bytes());
    }
    let reader = open(&fx);
    let ir = reader.content_ir().ok().unwrap();
    let expect = |slice: &[i16]| -> Vec<Sample> {
        slice.iter().map(|v| Sample::Fixed { raw: *v as i32, full_scale: 32767 }).collect()
    };
    assert_eq!(ir.filter_coeffs(0, 0).ok().unwrap(), expect(&values[0..3]));
    assert_eq!(ir.filter_coeffs(0, 1).ok().unwrap(), expect(&values[3..6]));
    assert_eq!(ir.filter_coeffs(1, 0).ok().unwrap(), expect(&values[6..9]));
    assert_eq!(ir.filter_coeffs(1, 1).ok().unwrap(), expect(&values[9..12]));
    let first = floats(&ir.filter_coeffs(0, 0).ok().unwrap());
    assert_eq!(first, vec![1.0, -32768.0 / 32767.0, 0.0]);
    assert_eq!(ir.filter_coeffs(0, 0).ok().unwrap(), ir.filter_coeffs(0, 0).ok().unwrap());
}

#[test]
fn decoding_with_index_out_of_range_fails() {
    let mut fx = fixture(ContentType::ImpulseResponse, Quantization::Int8, 2, 3);
    fx.length = 1;
    fx.payload = vec![1, 2, 3, 4, 5, 6];
    let reader = open(&fx);
    let ir = reader.content_ir().ok().unwrap();
    assert_eq!(
        ir.filter_coeffs(2, 1).ok().unwrap(),
        vec![Sample::Fixed { raw: 6, full_scale: 127 }]
    );
    for (record, channel) in
        [(3, 0), (0, 2), (3, 2), (-1, 0), (0, -1), (i32::MAX, 0), (0, i32::MAX), (i32::MIN, 0)]
    {
        assert_eq!(ir.filter_coeffs(record, channel).err().unwrap().kind(), ErrorKind::Index);
    }
    assert_eq!(ir.record_coords(3).err().unwrap().kind(), ErrorKind::Index);
    assert_eq!(ir.record_coords(-1).err().unwrap().kind(), ErrorKind::Index);
    assert!(ir.record_coords(2).is_ok());
    assert!(ir.filter_coeffs(0, 0).is_ok());
}

#[test]
fn empty_blocks_decode_to_nothing() {
    let fx = fixture(ContentType::PhaseSpectrum, Quantization::Float64, 2, 2);
    let reader = open(&fx);
    let ps = reader.content_ps().ok().unwrap();
    assert_eq!(ps.num_frequencies(), 0);
    assert_eq!(ps.phases(1, 1).ok().unwrap(), Vec::<Sample>::new());
    assert_eq!(ps.phases(2, 0).err().unwrap().kind(), ErrorKind::Index);
}

#[test]
fn magnitude_phase_blocks_split_in_two() {
    let mut fx = fixture(ContentType::MagnitudePhaseSpectrum, Quantization::Float32, 1, 2);
    fx.length = 2;
    for x in [1.0f32, 2.0, 0.25, -0.25, 3.0, 4.0, 0.5, -0.5] {
        fx.payload.extend_from_slice(&x.to_le_bytes());
    }
    let reader = open(&fx);
    let mps = reader.content_mps().ok().unwrap();
    assert_eq!(mps.num_frequencies(), 2);
    let (magnitudes, phases) = mps.coefficients(0, 0).ok().unwrap();
    assert_eq!(floats(&magnitudes), vec![1.0, 2.0]);
    assert_eq!(floats(&phases), vec![0.25, -0.25]);
    let (magnitudes, phases) = mps.coefficients(1, 0).ok().unwrap();
    assert_eq!(floats(&magnitudes), vec![3.0, 4.0]);
    assert_eq!(floats(&phases), vec![0.5, -0.5]);
    assert_eq!(mps.coefficients(2, 0).err().unwrap().kind(), ErrorKind::Index);
    assert_eq!(mps.coefficients(0, 1).err().unwrap().kind(), ErrorKind::Index);
}

#[test]
fn dft_round_trip_for_every_kind() {
    let kinds = [
        Quantization::Int8,
        Quantization::Int16,
        Quantization::Int24,
        Quantization::Int32,
        Quantization::Float32,
        Quantization::Float64,
    ];
    for kind in kinds {
        let mut fx = fixture(ContentType::DftSpectrum, kind, 2, 2);
        fx.length = 3;
        let mut blocks: Vec<Vec<Sample>> = Vec::new();
        for block in 0..4i32 {
            let mut samples = Vec::new();
            for i in 0..6i32 {
                let n = block * 6 + i - 11;
                let sample = match kind {
                    Quantization::Float32 => Sample::Single { bits: (n as f32 / 8.0).to_bits() },
                    Quantization::Float64 => Sample::Double { bits: (n as f64 / 8.0).to_bits() },
                    _ => Sample::Fixed { raw: n * 5, full_scale: kind.full_scale() },
                };
                fx.payload.extend_from_slice(&quantize(kind, sample).unwrap());
                samples.push(sample);
            }
            blocks.push(samples);
        }
        let reader = open(&fx);
        let dft = reader.content_dft().ok().unwrap();
        assert_eq!(dft.num_dft_coeffs(), 3);
        assert!(!dft.is_symmetric());
        for record in 0..2 {
            for channel in 0..2 {
                let decoded = dft.dft_coeffs(record, channel).ok().unwrap();
                assert_eq!(decoded.len(), 6);
                assert_eq!(decoded, blocks[(record * 2 + channel) as usize]);
            }
        }
    }
}

#[test]
fn dft_symmetric_flag_is_exposed() {
    let mut fx = fixture(ContentType::DftSpectrum, Quantization::Int8, 1, 1);
    fx.symmetric = 1;
    fx.length = 2;
    fx.payload = vec![10, 20, 30, 40];
    let reader = open(&fx);
    let dft = reader.content_dft().ok().unwrap();
    assert!(dft.is_symmetric());
    assert_eq!(floats(&dft.dft_coeffs(0, 0).ok().unwrap()).len(), 4);
}

#[test]
fn record_coords_are_the_stored_angles() {
    let mut fx = fixture(ContentType::ImpulseResponse, Quantization::Int8, 1, 3);
    fx.grid = vec![(0.0, 0.0), (1.5, -0.75), (6.25, 1.5707963267948966)];
    let reader = open(&fx);
    let ir = reader.content_ir().ok().unwrap();
    for (index, (alpha, beta)) in fx.grid.iter().enumerate() {
        let (a, b) = ir.record_coords(index as i32).ok().unwrap();
        assert_eq!(a, alpha.to_bits());
        assert_eq!(b, beta.to_bits());
    }
}

#[test]
fn nearest_neighbour_front_direction_finds_origin_record() {
    let mut fx = fixture(ContentType::ImpulseResponse, Quantization::Int8, 1, 5);
    fx.grid = vec![(1.0, 0.5), (3.0, -0.5), (0.0, 0.0), (0.2, 0.0), (0.0, 0.0)];
    let reader = open(&fx);
    let ir = reader.content_ir().ok().unwrap();
    assert_eq!(ir.file().header().records, 5);
    let index = ir.nearest_neighbour(&distance_keys(&fx.grid, 0.0, 0.0));
    assert_eq!(index, 2);
    let (alpha, beta) = ir.record_coords(index).ok().unwrap();
    assert_eq!((f64::from_bits(alpha), f64::from_bits(beta)), (0.0, 0.0));
}

#[test]
fn nearest_neighbour_is_minimal_over_a_sweep() {
    let mut fx = fixture(ContentType::PhaseSpectrum, Quantization::Int8, 1, 12);
    fx.grid = (0..12)
        .map(|k| ((k % 4) as f64 * std::f64::consts::FRAC_PI_2, (k / 4) as f64 * 0.7 - 0.7))
        .collect();
    let reader = open(&fx);
    let ps = reader.content_ps().ok().unwrap();
    for step in 0..200 {
        let phi = step as f64 * 0.0314;
        let theta = (step % 31) as f64 * 0.1 - 1.5;
        let keys = distance_keys(&fx.grid, phi, theta);
        let chosen = ps.nearest_neighbour(&keys);
        assert!(0 <= chosen && chosen < 12);
        for (j, key) in keys.iter().enumerate() {
            assert!(keys[chosen as usize] <= *key);
            if (j as i32) < chosen {
                assert!(keys[chosen as usize] < *key);
            }
        }
    }
}

#[test]
fn equator_ring_end_to_end() {
    let fx = ring_fixture();
    let reader = open(&fx);
    assert_eq!(reader.content_type().ok(), Some(ContentType::MagnitudeSpectrum));
    assert_eq!(reader.quantization().ok(), Some(Quantization::Float32));
    assert_eq!(reader.num_channels().ok(), Some(2));
    assert_eq!(reader.num_records().ok(), Some(36));
    assert_eq!(reader.alpha_points().ok(), Some(36));
    assert_eq!(reader.beta_points().ok(), Some(1));
    assert_eq!(reader.orientation().ok().unwrap(), Orientation::identity());
    let ms = reader.content_ms().ok().unwrap();
    assert_eq!(ms.num_frequencies(), 3);
    assert_eq!(ms.nearest_neighbour(&distance_keys(&fx.grid, 0.0, 0.0)), 0);
    let step = 2.0 * std::f64::consts::PI / 36.0;
    assert_eq!(ms.nearest_neighbour(&distance_keys(&fx.grid, 0.4 * step, 0.0)), 0);
    assert_eq!(ms.nearest_neighbour(&distance_keys(&fx.grid, 0.6 * step, 0.0)), 1);
    assert_eq!(ms.nearest_neighbour(&distance_keys(&fx.grid, 35.7 * step, 0.0)), 0);
    assert_eq!(ms.nearest_neighbour(&distance_keys(&fx.grid, 17.2 * step, 0.3)), 17);
    assert_eq!(floats(&ms.magnitudes(0, 0).ok().unwrap()), vec![0.0, 1.0, 2.0]);
    assert_eq!(floats(&ms.magnitudes(35, 1).ok().unwrap()), vec![3510.0, 3511.0, 3512.0]);
    assert_eq!(ms.magnitudes(36, 0).err().unwrap().kind(), ErrorKind::Index);
    assert_eq!(ms.magnitudes(0, 2).err().unwrap().kind(), ErrorKind::Index);
}

#[test]
fn parse_gives_the_same_file_as_the_reader() {
    let fx = ring_fixture();
    let file = DaffFile::parse(build(&fx)).ok().unwrap();
    assert_eq!(file.header().records, 36);
    assert_eq!(file.header().channels, 2);
    assert_eq!(
        file.decode(1, 1).ok().unwrap(),
        vec![
            Sample::Single { bits: 110.0f32.to_bits() },
            Sample::Single { bits: 111.0f32.to_bits() },
            Sample::Single { bits: 112.0f32.to_bits() }
        ]
    );
    assert_eq!(file.record_coords(0).ok().unwrap(), (0, 0));
    assert_eq!(file.nearest_neighbour(&distance_keys(&fx.grid, 0.0, 0.0)), 0);
    assert_eq!(file.nearest_neighbour_checked(&distance_keys(&fx.grid, 3.2, 0.0)), Some(18));
    assert_eq!(file.nearest_neighbour_checked(&[]), None);
    assert_eq!(file.nearest_neighbour_checked(&[1; 35]), None);
    assert_eq!(file.nearest_neighbour_checked(&[1; 37]), None);
    assert_eq!(file.nearest_neighbour_checked(&[1; 36]), Some(0));
    assert_eq!(DaffFile::parse(vec![0u8; 56]).err().unwrap().kind(), ErrorKind::Format);
}
