//! A tuning aid for the lyre.
//!
//! The library generates scales from historical tuning theory: the notes of
//! a mode, a genus or another family from a chosen first note, the octave of
//! each note, and its frequency under a temperament. It also holds the
//! bookkeeping of the analysis of live sound: the window of samples that a
//! transform works on, the peak of a magnitude spectrum, and the state that
//! the analyser publishes for its reader.

pub mod audio;
pub mod patterns;
pub mod pitch;
pub mod playback;
pub mod scales;
pub mod temperament;
pub mod text;
pub mod transpose;
pub mod ui;

pub use crate::audio::{AudioState, SampleBuffer};
pub use crate::scales::{
    get_string_count_defaults, Frequency, Genus, Mode, Ratio, ScaleData, ScaleType, Temperament,
};
pub use crate::ui::{NoteFilter, ScaleRequest};
