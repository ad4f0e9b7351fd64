use visualizer::capture::{name_len, unique_bins, select_capture_format, BlockAccumulator};
use visualizer::pcm::{
    decode_samples, is_float_format, sample_format, SampleFormat, KSDATAFORMAT_SUBTYPE_IEEE_FLOAT,
    WAVE_FORMAT_EXTENSIBLE, WAVE_FORMAT_IEEE_FLOAT,
};

#[test]
fn float_format_detection() {
    assert!(is_float_format(WAVE_FORMAT_IEEE_FLOAT, None));
    assert!(!is_float_format(1, None));
    assert!(is_float_format(WAVE_FORMAT_EXTENSIBLE, Some(KSDATAFORMAT_SUBTYPE_IEEE_FLOAT)));
    assert!(!is_float_format(WAVE_FORMAT_EXTENSIBLE, Some(0x00000001_0000_0010_8000_00aa00389b71)));
    assert!(!is_float_format(WAVE_FORMAT_EXTENSIBLE, None));
    assert!(!is_float_format(1, Some(KSDATAFORMAT_SUBTYPE_IEEE_FLOAT)));
}

#[test]
fn sample_format_selection() {
    assert_eq!(sample_format(true, 32), SampleFormat::Float32);
    assert_eq!(sample_format(false, 16), SampleFormat::Int16);
    assert_eq!(sample_format(false, 24), SampleFormat::Int24);
    assert_eq!(sample_format(false, 32), SampleFormat::Int32);
    assert_eq!(sample_format(true, 16), SampleFormat::Unsupported);
    assert_eq!(sample_format(false, 8), SampleFormat::Unsupported);
    assert_eq!(sample_format(true, 64), SampleFormat::Unsupported);
    assert_eq!(SampleFormat::Int24.bytes_per_sample(), 3);
    assert_eq!(SampleFormat::Float32.bytes_per_sample(), 4);
    assert_eq!(SampleFormat::Int16.bytes_per_sample(), 2);
    assert_eq!(SampleFormat::Int32.bytes_per_sample(), 4);
    assert_eq!(SampleFormat::Unsupported.bytes_per_sample(), 0);
}

#[test]
fn decode_16_bit() {
    let bytes = [0x00, 0x80, 0xff, 0x7f, 0x34, 0x12, 0xff, 0xff];
    assert_eq!(decode_samples(&bytes, 4, SampleFormat::Int16), vec![-32768, 32767, 0x1234, -1]);
}

#[test]
fn decode_24_bit_sign_extends() {
    let bytes = [0xff, 0xff, 0xff, 0x00, 0x00, 0x80, 0x01, 0x02, 0x03, 0xff, 0xff, 0x7f];
    assert_eq!(decode_samples(&bytes, 4, SampleFormat::Int24), vec![-1, -8388608, 0x030201, 8388607]);
}

#[test]
fn decode_32_bit() {
    let bytes = [0x00, 0x00, 0x00, 0x80, 0x78, 0x56, 0x34, 0x12, 0xfe, 0xff, 0xff, 0xff];
    assert_eq!(decode_samples(&bytes, 3, SampleFormat::Int32), vec![i32::MIN, 0x12345678, -2]);
}

#[test]
fn decode_float_keeps_bits() {
    let mut bytes = Vec::new();
    for x in [1.0f32, -0.5f32, 0.25f32] {
        bytes.extend_from_slice(&x.to_le_bytes());
    }
    let raw = decode_samples(&bytes, 3, SampleFormat::Float32);
    let back: Vec<f32> = raw.iter().map(|&v| f32::from_bits(v as u32)).collect();
    assert_eq!(back, vec![1.0f32, -0.5f32, 0.25f32]);
}

#[test]
fn decode_unsupported_is_silence() {
    assert_eq!(decode_samples(&[], 3, SampleFormat::Unsupported), vec![0, 0, 0]);
}

#[test]
fn decode_reads_only_the_prefix() {
    let bytes = [0x01, 0x00, 0x02, 0x00, 0x03];
    assert_eq!(decode_samples(&bytes, 2, SampleFormat::Int16), vec![1, 2]);
    assert_eq!(decode_samples(&bytes, 0, SampleFormat::Int16), Vec::<i32>::new());
}

#[test]
fn decoded_samples_stay_in_range() {
    let bytes: Vec<u8> = (0..=255u8).collect();
    for v in decode_samples(&bytes, 128, SampleFormat::Int16) {
        assert!((-32768..32768).contains(&v));
    }
    for v in decode_samples(&bytes, 85, SampleFormat::Int24) {
        assert!((-8388608..8388608).contains(&v));
    }
}

#[test]
fn capture_format_choice() {
    assert_eq!(select_capture_format(true, Some(2), 1), 1);
    assert_eq!(select_capture_format(false, Some(2), 1), 2);
    assert_eq!(select_capture_format(false, None, 1), 1);
    assert_eq!(select_capture_format(true, None, 1), 1);
}

#[test]
fn device_name_length() {
    assert_eq!(name_len(&[72, 105, 0, 33, 0]), 2);
    assert_eq!(name_len(&[72, 105]), 2);
    assert_eq!(name_len(&[0, 5]), 0);
    assert_eq!(name_len(&[]), 0);
}

#[test]
fn waveform_blocks_are_1024_samples() {
    let mut acc: BlockAccumulator<u32> = BlockAccumulator::new();
    assert_eq!(acc.required_elements(), 1024);
    for i in 0..1023u32 {
        acc.push(i);
    }
    assert!(acc.take_block().is_none());
    assert_eq!(acc.len(), 1023);
    acc.push(1023);
    acc.push(1024);
    let block = acc.take_block().unwrap();
    assert_eq!(block, (0..1024u32).collect::<Vec<_>>());
    assert_eq!(acc.len(), 1);
    assert!(acc.take_block().is_none());
}

#[test]
fn spectrum_mode_asks_for_1536_samples() {
    let mut acc: BlockAccumulator<u32> = BlockAccumulator::new();
    assert!(acc.observe_display_mode(Some(true)));
    assert!(acc.is_spectrum_mode());
    assert_eq!(acc.required_elements(), 1536);
    assert!(!acc.observe_display_mode(None));
    assert!(acc.is_spectrum_mode());
    for i in 0..1535u32 {
        acc.push(i);
    }
    assert!(acc.take_block().is_none());
    acc.push(1535);
    assert_eq!(acc.take_block().unwrap().len(), 1536);
    assert!(!acc.observe_display_mode(Some(false)));
    assert!(!acc.is_spectrum_mode());
    assert_eq!(acc.required_elements(), 1024);
}

#[test]
fn blocks_replay_the_stream_in_order() {
    let mut acc: BlockAccumulator<u32> = BlockAccumulator::new();
    let mut out: Vec<u32> = Vec::new();
    for i in 0..5000u32 {
        acc.push(i);
        if i == 2000 {
            acc.observe_display_mode(Some(true));
        }
        if let Some(block) = acc.take_block() {
            out.extend_from_slice(&block);
        }
    }
    assert_eq!(out.len() + acc.len(), 5000);
    assert_eq!(out, (0..out.len() as u32).collect::<Vec<_>>());
}

#[test]
fn unique_bins_keep_first_half() {
    assert_eq!(unique_bins(&vec![1, 2, 3, 4, 5]), vec![1, 2]);
    assert_eq!(unique_bins(&vec![1, 2, 3, 4]), vec![1, 2]);
    assert_eq!(unique_bins(&vec![7]), Vec::<i32>::new());
    assert_eq!(unique_bins(&Vec::<i32>::new()), Vec::<i32>::new());
}
