//! Core of an interactive spike-sorting viewer: a threshold-interaction
//! state machine and the derived-data pipeline behind it.
//!
//! All scalar quantities (times, voltages, intervals) are fixed-point
//! integers in units chosen by the caller; the rendering layer converts
//! to and from its own floating-point coordinates.

pub mod errors;
pub mod events;
pub mod histogram;
pub mod machine;
pub mod trace;
pub mod views;

pub use errors::SorterError;
pub use events::{EventExtractor, FeaturePoint, PeakTroughProjector, Projector, SpikeEvent,
    SyntheticExtractor};
pub use histogram::{compute_isi_histogram, Histogram};
pub use machine::{InputEvent, Mode, SpikeSorter};
pub use trace::{Sample, Trace};
pub use views::DerivedViews;
