//! Sample generation and volume control.
pub mod generator;
pub mod oscillator;
pub mod shared;
pub mod volume;

pub use generator::{BinauralGenerator, SamplePoint};
pub use oscillator::SineWaveform;
pub use volume::{Volume, VolumeBound};
