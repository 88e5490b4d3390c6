//! Streaming pitch tracking: windowing of live audio, note naming and the
//! capture session's lifecycle, each with a verified contract.

mod note;
mod session;
mod window;

pub use window::WindowBuffer;
pub use window::{
    lemma_stream_preserves_samples, lemma_stream_window_order, lemma_windows_cover_stream,
    lemma_windows_then_remainder,
    remainder_of, stream_remainder, stream_windows, views, windows_of,
};
pub use note::{
    lemma_note_determines_offset, lemma_octave_up, note_from_semitones, octave_of, pitch_class, Note,
    NoteName,
};
pub use session::{
    after_release, after_start, after_stop, lemma_restart_after_stop, lemma_single_session,
    start_accepted, stop_accepted, CaptureSession, SessionController, SessionError, SessionState,
    StreamCommand,
};
