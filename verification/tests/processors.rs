use xtask::processors::{UnifiedFilterMode, Waveform};

fn rounded(index: f32) -> u32 {
    index.round() as u32
}

#[test]
fn waveform_from_index_maps_correctly() {
    assert_eq!(Waveform::from_index(rounded(0.0)), Waveform::Sine);
    assert_eq!(Waveform::from_index(rounded(1.0)), Waveform::Square);
    assert_eq!(Waveform::from_index(rounded(2.0)), Waveform::Saw);
    assert_eq!(Waveform::from_index(rounded(3.0)), Waveform::Triangle);
}

#[test]
fn waveform_from_index_out_of_range_defaults_to_sine() {
    assert_eq!(Waveform::from_index(rounded(-1.0)), Waveform::Sine);
    assert_eq!(Waveform::from_index(rounded(4.0)), Waveform::Sine);
    assert_eq!(Waveform::from_index(rounded(100.0)), Waveform::Sine);
}

#[test]
fn waveform_from_index_rounds_floats() {
    assert_eq!(Waveform::from_index(rounded(0.4)), Waveform::Sine);
    assert_eq!(Waveform::from_index(rounded(0.6)), Waveform::Square);
    assert_eq!(Waveform::from_index(rounded(1.5)), Waveform::Saw);
    assert_eq!(Waveform::from_index(rounded(2.7)), Waveform::Triangle);
}

#[test]
fn filter_modes_and_defaults() {
    assert_eq!(UnifiedFilterMode::from_index(1), UnifiedFilterMode::HighPass);
    assert_eq!(UnifiedFilterMode::from_index(2), UnifiedFilterMode::BandPass);
    assert_eq!(UnifiedFilterMode::from_index(-5), UnifiedFilterMode::LowPass);
    assert_eq!(UnifiedFilterMode::default(), UnifiedFilterMode::LowPass);
    assert_eq!(Waveform::default(), Waveform::Sine);
    assert_eq!(Waveform::variants(), vec!["Sine", "Square", "Saw", "Triangle"]);
}
