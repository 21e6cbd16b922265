//! A binaural-beat generator: two sine tones alternated into an interleaved
//! stereo stream, scaled by a shared, bounded volume.
pub mod audio;
