use wavefront::components::microphone::Microphone;
use wavefront::components::source::{Source, SourceType};

fn sample(tick: u64) -> (u64, u64) {
    ((tick as f64 * 0.5).to_bits(), (tick as f64).sin().to_bits())
}

#[test]
fn microphone_new_is_silent() {
    let mic = Microphone::new(250, 251, 3);
    assert_eq!((mic.x, mic.y, mic.id), (250, 251, 3));
    assert!(mic.record.is_empty());
    assert!(mic.fft_window().is_empty());
}

#[test]
fn microphone_new_is_pulled_into_the_area() {
    let mic = Microphone::new(700, 1_000_000, 0);
    assert_eq!((mic.x, mic.y), (699, 699));
}

#[test]
fn microphone_set_position_keeps_the_history() {
    let mut mic = Microphone::new(1, 2, 9);
    mic.record(1.0f64.to_bits(), 2.0f64.to_bits());
    mic.set_position(30, 40);
    assert_eq!((mic.x, mic.y, mic.id), (30, 40, 9));
    assert_eq!(mic.record.len(), 1);
    mic.set_position(u32::MAX, 0);
    assert_eq!((mic.x, mic.y), (699, 0));
}

#[test]
fn microphone_records_in_order() {
    let mut mic = Microphone::new(1, 2, 0);
    mic.record(0.5f64.to_bits(), 1.5f64.to_bits());
    mic.record(1.0f64.to_bits(), (-2.5f64).to_bits());
    assert_eq!(mic.record.len(), 2);
    assert_eq!(f64::from_bits(mic.record[0][0]), 0.5);
    assert_eq!(f64::from_bits(mic.record[0][1]), 1.5);
    assert_eq!(f64::from_bits(mic.record[1][0]), 1.0);
    assert_eq!(f64::from_bits(mic.record[1][1]), -2.5);
    assert_eq!((mic.x, mic.y, mic.id), (1, 2, 0));
}

#[test]
fn clearing_empties_history_and_window() {
    let mut mic = Microphone::new(1, 2, 5);
    for tick in 0..3000u64 {
        let (time, pressure) = sample(tick);
        mic.record(time, pressure);
    }
    mic.clear();
    assert!(mic.record.is_empty());
    assert!(mic.fft_window().is_empty());
    assert_eq!((mic.x, mic.y, mic.id), (1, 2, 5));
    mic.clear();
    assert!(mic.record.is_empty());
}

#[test]
fn short_history_is_its_own_window() {
    let mut mic = Microphone::new(1, 2, 0);
    for tick in 0..100u64 {
        let (time, pressure) = sample(tick);
        mic.record(time, pressure);
    }
    assert_eq!(mic.fft_window(), mic.record);
}

#[test]
fn window_of_exactly_the_window_size() {
    let mut mic = Microphone::new(1, 2, 0);
    for tick in 0..2048u64 {
        let (time, pressure) = sample(tick);
        mic.record(time, pressure);
    }
    assert_eq!(mic.fft_window().len(), 2048);
    assert_eq!(mic.fft_window(), mic.record);
}

#[test]
fn window_holds_the_most_recent_samples() {
    let mut mic = Microphone::new(1, 2, 0);
    for tick in 0..5000u64 {
        let (time, pressure) = sample(tick);
        mic.record(time, pressure);
    }
    let window = mic.fft_window();
    assert_eq!(window.len(), 2048);
    for (k, entry) in window.iter().enumerate() {
        let (time, pressure) = sample(5000 - 2048 + k as u64);
        assert_eq!(*entry, [time, pressure]);
    }
    assert_eq!(mic.record.len(), 5000);
}

#[test]
fn source_new_keeps_its_arguments() {
    let source = Source::new(
        350,
        351,
        10.0f32.to_bits(),
        90.0f32.to_bits(),
        10_000.0f32.to_bits(),
        SourceType::Gauss,
        4,
    );
    assert_eq!((source.x, source.y), (350, 351));
    assert_eq!(f32::from_bits(source.amplitude), 10.0);
    assert_eq!(f32::from_bits(source.phase), 90.0);
    assert_eq!(f32::from_bits(source.frequency), 10_000.0);
    assert_eq!(source.source_type, SourceType::Gauss);
    assert_eq!(source.id, 4);
}

#[test]
fn source_is_pulled_into_the_area() {
    let mut source = Source::new(700, 699, 0, 0, 0, SourceType::Sin, 0);
    assert_eq!((source.x, source.y), (699, 699));
    source.set_position(12, 5000);
    assert_eq!((source.x, source.y), (12, 699));
    source.set_position(0, 0);
    assert_eq!((source.x, source.y), (0, 0));
    assert_eq!(source.source_type, SourceType::Sin);
}

#[test]
fn source_type_defaults_to_sin() {
    assert_eq!(SourceType::default(), SourceType::Sin);
    assert_ne!(SourceType::WhiteNoise, SourceType::Gauss);
}

#[test]
fn trimming_keeps_the_window() {
    let mut mic = Microphone::new(1, 2, 0);
    for tick in 0..5000u64 {
        let (time, pressure) = sample(tick);
        mic.record(time, pressure);
    }
    let window = mic.fft_window();
    mic.trim();
    assert_eq!(mic.record, window);
    assert_eq!(mic.fft_window(), window);
    mic.trim();
    assert_eq!(mic.record, window);
    let mut short = Microphone::new(1, 2, 0);
    short.record(1, 2);
    short.trim();
    assert_eq!(short.record, vec![[1, 2]]);
}
