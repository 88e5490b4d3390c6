use pitch_detection::detector::mcleod::McLeodDetector;
use pitch_detection::detector::PitchDetector;
use pitch_tracker::{note_from_semitones, CaptureSession, NoteName};

const SIZE: usize = 1024;
const RATE: usize = 44100;

fn sine(freq: f32, len: usize) -> Vec<f32> {
    (0..len)
        .map(|i| (2.0 * std::f32::consts::PI * freq * i as f32 / RATE as f32).sin())
        .collect()
}

fn estimate(window: &[f32]) -> Option<f32> {
    let mut d = McLeodDetector::new(window.len(), window.len() / 2);
    d.get_pitch(window, RATE, 0.1, 0.7).map(|p| p.frequency)
}

#[test]
fn silence_gives_no_pitch() {
    let mut s: CaptureSession<f32> = CaptureSession::new(SIZE);
    let windows = s.on_chunk(&vec![0.0f32; SIZE]);
    assert_eq!(windows.len(), 1);
    let freq = estimate(&windows[0]).unwrap_or(0.0);
    assert_eq!(freq, 0.0);
}

#[test]
fn windows_are_analysed_in_arrival_order() {
    let freqs = [220.0f32, 330.0, 440.0, 550.0, 660.0];
    let mut stream = Vec::new();
    for f in freqs {
        stream.extend(sine(f, SIZE));
    }
    let mut s: CaptureSession<f32> = CaptureSession::new(SIZE);
    let mut windows = Vec::new();
    for chunk in stream.chunks(300) {
        windows.extend(s.on_chunk(chunk));
    }
    assert_eq!(windows.len(), freqs.len());
    for (w, f) in windows.iter().zip(freqs) {
        let got = estimate(w).expect("a pitch");
        assert!((got - f).abs() <= f * 0.01, "expected {} got {}", f, got);
    }
    let a4 = estimate(&windows[2]).unwrap() as f64;
    let n = note_from_semitones((12.0 * (a4 / 440.0).log2()).round() as i32);
    assert_eq!((n.name, n.octave), (NoteName::A, 4));
}
