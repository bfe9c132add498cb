use player_core::audio::sample::AudioSample;

fn bits(values: &[f32]) -> Vec<u32> {
    values.iter().map(|v| v.to_bits()).collect()
}

fn slots(sample: &AudioSample) -> [u32; 8] {
    let mut out = [0u32; 8];
    sample.write_slice(&mut out);
    out
}

#[test]
fn from_slice_keeps_values_and_channel_count() {
    for n in 0..=8usize {
        let values: Vec<f32> = (0..n).map(|i| 0.125 * (i as f32) - 0.5).collect();
        let sample = AudioSample::from_slice(&bits(&values));
        assert_eq!(sample.channels(), n);
        let mut out = vec![0u32; n];
        sample.write_slice(&mut out);
        let back: Vec<f32> = out.iter().map(|b| f32::from_bits(*b)).collect();
        assert_eq!(back, values);
    }
}

#[test]
fn from_slice_pads_with_zero() {
    let sample = AudioSample::from_slice(&bits(&[0.25, -0.75]));
    assert_eq!(
        slots(&sample),
        [0.25f32.to_bits(), (-0.75f32).to_bits(), 0, 0, 0, 0, 0, 0]
    );
}

#[test]
fn from_slice_of_eight_fills_every_slot() {
    let sample = AudioSample::from_slice(&[1, 2, 3, 4, 5, 6, 7, 8]);
    assert_eq!(sample.channels(), 8);
    assert_eq!(slots(&sample), [1, 2, 3, 4, 5, 6, 7, 8]);
}

#[test]
fn default_sample_is_empty() {
    let sample = AudioSample::default();
    assert_eq!(sample.channels(), 0);
    assert_eq!(slots(&sample), [0; 8]);
}

#[test]
fn channel_getters_read_their_slot() {
    let sample = AudioSample::from_slice(&[11, 12, 13, 14, 15, 16, 17, 18]);
    assert_eq!(sample.ch1(), 11);
    assert_eq!(sample.ch2(), 12);
    assert_eq!(sample.ch3(), 13);
    assert_eq!(sample.ch4(), 14);
    assert_eq!(sample.ch5(), 15);
    assert_eq!(sample.ch6(), 16);
    assert_eq!(sample.ch7(), 17);
    assert_eq!(sample.ch8(), 18);
}

#[test]
fn channel_getters_beyond_channels_read_zero() {
    let sample = AudioSample::from_slice(&[7]);
    assert_eq!(sample.ch1(), 7);
    assert_eq!(sample.ch2(), 0);
    assert_eq!(sample.ch8(), 0);
}

#[test]
fn write_slice_copies_a_prefix() {
    let sample = AudioSample::from_slice(&[5, 6, 7]);
    let mut two = [99u32; 2];
    sample.write_slice(&mut two);
    assert_eq!(two, [5, 6]);
    let mut none: [u32; 0] = [];
    sample.write_slice(&mut none);
}

#[test]
fn write_slice_convert_applies_the_conversion() {
    let sample = AudioSample::from_slice(&bits(&[0.5, -1.0]));
    let mut out = [0i16; 2];
    sample.write_slice_convert(&mut out, |b| (f32::from_bits(b) * 32767.0) as i16);
    assert_eq!(out, [16383, -32767]);
}

#[test]
fn write_slice_convert_reads_padding_behind_the_channels() {
    let sample = AudioSample::from_slice(&[3]);
    let mut out = [0u64; 3];
    sample.write_slice_convert(&mut out, |b| u64::from(b) + 100);
    assert_eq!(out, [103, 100, 100]);
}

#[test]
fn apply_process_maps_only_the_channels() {
    let sample = AudioSample::from_slice(&[1, 2, 3]);
    let doubled = sample.apply_process(|v| v * 2 + 1);
    assert_eq!(doubled.channels(), 3);
    assert_eq!(slots(&doubled), [3, 5, 7, 0, 0, 0, 0, 0]);
    assert_eq!(slots(&sample), [1, 2, 3, 0, 0, 0, 0, 0]);
}

#[test]
fn apply_process_with_gain_and_clamp() {
    let sample = AudioSample::from_slice(&bits(&[0.5, -0.9, 0.1]));
    let gain = 2.0f32;
    let louder = sample.apply_process(|b| (f32::from_bits(b) * gain).clamp(-1.0, 1.0).to_bits());
    let mut out = [0u32; 3];
    louder.write_slice(&mut out);
    let values: Vec<f32> = out.iter().map(|b| f32::from_bits(*b)).collect();
    assert_eq!(values, vec![1.0, -1.0, 0.2]);
}

#[test]
fn apply_process_on_empty_sample_calls_nothing() {
    let sample = AudioSample::default();
    let same = sample.apply_process(|_| panic!("no channel to process"));
    assert_eq!(same.channels(), 0);
}
