use cuemate_audio::convert::convert_audio_data;
use cuemate_audio::convert::convert_to_mono;
use cuemate_audio::convert::encode_pcm;
use cuemate_audio::convert::quantize;
use cuemate_audio::convert::resample_audio;

fn mean(frame: &[f32]) -> f32 {
    let mut sum = 0.0f32;
    for sample in frame {
        sum += *sample;
    }
    sum / frame.len() as f32
}

fn to_pcm(sample: f32) -> i16 {
    (sample.max(-1.0).min(1.0) * 32767.0) as i16
}

fn decode(bytes: &[u8]) -> Vec<i16> {
    let mut out = Vec::new();
    let mut k = 0;
    while k + 1 < bytes.len() {
        out.push(i16::from_le_bytes([bytes[k], bytes[k + 1]]));
        k += 2;
    }
    out
}

fn ramp(len: usize) -> Vec<f32> {
    (0..len).map(|i| i as f32).collect()
}

#[test]
fn resample_same_rate_is_identity() {
    let input: Vec<f32> = vec![0.1, -0.2, 0.3, 0.4, 0.9];
    assert_eq!(resample_audio(&input, 48000, 48000, 2, 0.0), input);
    assert_eq!(resample_audio(&input, 16000, 16000, 1, 0.0), input);
}

#[test]
fn resample_same_rate_is_identity_for_any_rate_and_channel_count() {
    let input: Vec<f32> = vec![1.0, 2.0, 3.0];
    assert_eq!(resample_audio(&input, 0, 0, 0, 0.0), input);
    assert_eq!(resample_audio(&input, 7, 7, 5, 0.0), input);
    let empty: Vec<f32> = Vec::new();
    assert_eq!(resample_audio(&empty, 44100, 44100, 2, 0.0), empty);
}

#[test]
fn resample_1600_mono_samples_from_48000_to_16000_yields_533() {
    let input = ramp(1600);
    let out = resample_audio(&input, 48000, 16000, 1, 0.0);
    assert_eq!(out.len(), 533);
    for (i, sample) in out.iter().enumerate() {
        assert_eq!(*sample, (3 * i) as f32);
    }
}

#[test]
fn resample_length_is_floor_of_scaled_length() {
    let input = ramp(441);
    assert_eq!(resample_audio(&input, 44100, 16000, 1, 0.0).len(), 160);
    let input = ramp(10);
    assert_eq!(resample_audio(&input, 3, 2, 1, 0.0).len(), 6);
    assert_eq!(resample_audio(&input, 2, 3, 1, 0.0).len(), 15);
    assert_eq!(resample_audio(&input, 48000, 1, 1, 0.0).len(), 0);
}

#[test]
fn resample_picks_the_floor_source_frame() {
    let input = ramp(10);
    let out = resample_audio(&input, 3, 2, 1, 0.0);
    assert_eq!(out, vec![0.0, 1.0, 3.0, 4.0, 6.0, 7.0]);
    let up = resample_audio(&input[..4], 1, 2, 1, 0.0);
    assert_eq!(up, vec![0.0, 0.0, 1.0, 1.0, 2.0, 2.0, 3.0, 3.0]);
}

#[test]
fn resample_copies_all_channels_of_the_source_frame() {
    let input: Vec<f32> = vec![0.0, 100.0, 1.0, 101.0, 2.0, 102.0, 3.0, 103.0, 4.0, 104.0, 5.0, 105.0];
    let out = resample_audio(&input, 48000, 16000, 2, 0.0);
    assert_eq!(out, vec![0.0, 100.0, 3.0, 103.0]);
}

#[test]
fn resample_counts_whole_output_frames_only() {
    let input = ramp(10);
    let out = resample_audio(&input, 48000, 16000, 2, 0.0);
    assert_eq!(out, vec![0.0, 1.0]);
}

#[test]
fn resample_fills_gaps_beyond_the_source_with_silence() {
    let input: Vec<f32> = vec![1.0, 2.0, 3.0];
    let out = resample_audio(&input, 1, 2, 2, -9.0);
    assert_eq!(out, vec![1.0, 2.0, 1.0, 2.0, 3.0, -9.0]);
}

#[test]
fn resample_to_rate_zero_is_empty() {
    let input = ramp(8);
    assert!(resample_audio(&input, 48000, 0, 1, 0.0).is_empty());
}

#[test]
fn resample_works_on_integer_samples() {
    let input: Vec<i32> = vec![10, 20, 30, 40, 50, 60];
    assert_eq!(resample_audio(&input, 2, 1, 1, 0), vec![10, 30, 50]);
}

#[test]
fn downmix_of_mono_is_identity() {
    let input: Vec<f32> = vec![0.25, -0.5, 0.75];
    assert_eq!(convert_to_mono(&input, 1, mean), input);
    let empty: Vec<f32> = Vec::new();
    assert_eq!(convert_to_mono(&empty, 1, mean), empty);
}

#[test]
fn downmix_averages_each_frame() {
    let stereo: Vec<f32> = vec![0.5, -0.5, 1.0, 0.0, 0.25, 0.75];
    assert_eq!(convert_to_mono(&stereo, 2, mean), vec![0.0, 0.5, 0.5]);
    let three: Vec<f32> = vec![0.3, 0.3, 0.3, 1.0, 0.0, -1.0];
    let out = convert_to_mono(&three, 3, mean);
    assert_eq!(out.len(), 2);
    assert!((out[0] - 0.3).abs() < 1e-6);
    assert_eq!(out[1], 0.0);
}

#[test]
fn downmix_leaves_out_a_trailing_partial_frame() {
    let input: Vec<f32> = vec![1.0, 0.0, 0.5, 0.5, 0.9];
    assert_eq!(convert_to_mono(&input, 2, mean), vec![0.5, 0.5]);
    assert!(convert_to_mono(&input[..1], 2, mean).is_empty());
}

#[test]
fn downmix_hands_each_frame_to_the_mixer_in_order() {
    let input: Vec<i32> = vec![1, 2, 3, 4, 5, 6];
    let out = convert_to_mono(&input, 3, |frame: &[i32]| frame[0] * 100 + frame[1] * 10 + frame[2]);
    assert_eq!(out, vec![123, 456]);
}

#[test]
fn quantize_of_one_sample_is_two_bytes() {
    for sample in [0.0f32, 0.1, -0.1, 0.5, -0.5, 0.999, 1.0, -1.0, 3.5, -7.25] {
        let bytes = quantize(&[sample], to_pcm);
        assert_eq!(bytes.len(), 2);
        let decoded = i16::from_le_bytes([bytes[0], bytes[1]]) as f64;
        let exact = (sample.max(-1.0).min(1.0) as f64 * 32767.0).round();
        assert!((decoded - exact).abs() <= 1.0);
    }
}

#[test]
fn quantize_clamps_and_scales() {
    assert_eq!(decode(&quantize(&[1.0f32], to_pcm)), vec![32767]);
    assert_eq!(decode(&quantize(&[-1.0f32], to_pcm)), vec![-32767]);
    assert_eq!(decode(&quantize(&[2.0f32], to_pcm)), vec![32767]);
    assert_eq!(decode(&quantize(&[-2.0f32], to_pcm)), vec![-32767]);
    assert_eq!(decode(&quantize(&[0.0f32], to_pcm)), vec![0]);
    assert_eq!(decode(&quantize(&[0.5f32], to_pcm)), vec![16383]);
    assert_eq!(decode(&quantize(&[-0.5f32], to_pcm)), vec![-16383]);
}

#[test]
fn quantize_is_little_endian_in_sample_order() {
    let bytes = quantize(&[1.0f32, -1.0, 0.0], to_pcm);
    assert_eq!(bytes, vec![0xFF, 0x7F, 0x01, 0x80, 0x00, 0x00]);
    let bytes = quantize(&[258i32, -2], |v: i32| v as i16);
    assert_eq!(bytes, vec![0x02, 0x01, 0xFE, 0xFF]);
}

#[test]
fn quantize_of_nothing_is_nothing() {
    let empty: Vec<f32> = Vec::new();
    assert!(quantize(&empty, to_pcm).is_empty());
}

#[test]
fn encode_pcm_agrees_with_the_standard_encoding() {
    for value in i16::MIN..=i16::MAX {
        let (low, high) = encode_pcm(value);
        assert_eq!([low, high], value.to_le_bytes());
        assert_eq!(i16::from_le_bytes([low, high]), value);
    }
}

#[test]
fn encode_pcm_exact_values() {
    assert_eq!(encode_pcm(0), (0x00, 0x00));
    assert_eq!(encode_pcm(1), (0x01, 0x00));
    assert_eq!(encode_pcm(-1), (0xFF, 0xFF));
    assert_eq!(encode_pcm(256), (0x00, 0x01));
    assert_eq!(encode_pcm(i16::MAX), (0xFF, 0x7F));
    assert_eq!(encode_pcm(i16::MIN), (0x00, 0x80));
    assert_eq!(encode_pcm(-32767), (0x01, 0x80));
}

#[test]
fn conversion_resamples_then_downmixes_then_quantizes() {
    // Six stereo frames at 48 kHz: frames 0 and 3 survive the resampling.
    let input: Vec<f32> = vec![1.0, 0.0, 0.9, 0.9, 0.8, 0.8, -1.0, -1.0, 0.7, 0.7, 0.6, 0.6];
    let bytes = convert_audio_data(&input, 48000, 2, 16000, 0.0, mean, to_pcm);
    assert_eq!(decode(&bytes), vec![16383, -32767]);
}

#[test]
fn conversion_of_mono_audio_at_the_target_rate_only_quantizes() {
    let input: Vec<f32> = vec![0.0, 1.0, -1.0, 0.5];
    let bytes = convert_audio_data(&input, 16000, 1, 16000, 0.0, mean, to_pcm);
    assert_eq!(decode(&bytes), vec![0, 32767, -32767, 16383]);
    assert_eq!(bytes.len(), 2 * input.len());
}

#[test]
fn conversion_output_length_for_the_default_target() {
    let input = vec![0.25f32; 1600];
    let bytes = convert_audio_data(&input, 48000, 1, 16000, 0.0, mean, to_pcm);
    assert_eq!(bytes.len(), 2 * 533);
    let stereo = vec![0.25f32; 960];
    let bytes = convert_audio_data(&stereo, 48000, 2, 16000, 0.0, mean, to_pcm);
    assert_eq!(bytes.len(), 2 * 160);
}
