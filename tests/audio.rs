use std::f32::consts::PI;
use std::sync::Arc;

use oxibeats::audio::{BinauralGenerator, SamplePoint, SineWaveform, Volume, VolumeBound};

fn volume_at(level: u8) -> Volume {
    let mut v = Volume::new();
    while v.volume() < level {
        v.vol_up().unwrap();
    }
    while v.volume() > level {
        v.vol_down().unwrap();
    }
    v
}

fn amplitude(p: SamplePoint) -> f32 {
    (2. * PI * (p.cycle_pos as f32) / (p.sample_rate as f32)).sin() * (p.level as f32) / 100.
}

#[test]
fn new_volume_is_half() {
    let v = Volume::new();
    assert_eq!(v.volume(), 50);
    assert_eq!(v.vol_percent(), 50);
}

#[test]
fn fifty_increases_reach_max_then_fail() {
    let mut v = Volume::new();
    for _ in 0..50 {
        assert_eq!(v.vol_up(), Ok(()));
    }
    assert_eq!(v.volume(), 100);
    assert_eq!(v.vol_up(), Err(VolumeBound::AtMax));
    assert_eq!(v.volume(), 100);
}

#[test]
fn fifty_decreases_reach_min_then_fail() {
    let mut v = Volume::new();
    for _ in 0..50 {
        assert_eq!(v.vol_down(), Ok(()));
    }
    assert_eq!(v.volume(), 0);
    assert_eq!(v.vol_down(), Err(VolumeBound::AtMin));
    assert_eq!(v.volume(), 0);
}

#[test]
fn percent_of_min_half_max() {
    assert_eq!(volume_at(0).vol_percent(), 0);
    assert_eq!(volume_at(50).vol_percent(), 50);
    assert_eq!(volume_at(100).vol_percent(), 100);
}

#[test]
fn repeated_increase_at_max_never_changes_level() {
    let mut v = volume_at(100);
    for _ in 0..20 {
        assert_eq!(v.vol_up(), Err(VolumeBound::AtMax));
        assert_eq!(v.vol_percent(), 100);
    }
}

#[test]
fn step_up_from_min_and_down_from_max() {
    let mut v = volume_at(0);
    assert_eq!(v.vol_up(), Ok(()));
    assert_eq!(v.volume(), 1);
    let mut w = volume_at(100);
    assert_eq!(w.vol_down(), Ok(()));
    assert_eq!(w.volume(), 99);
}

#[test]
fn oscillator_positions_within_cycle() {
    let mut s = SineWaveform::new(100, 44100);
    assert_eq!(s.next(), 0);
    assert_eq!(s.next(), 100);
    assert_eq!(s.next(), 200);
    let mut t = SineWaveform::new(3, 4);
    let got: Vec<u32> = (0..6).map(|_| t.next()).collect();
    assert_eq!(got, vec![0, 3, 2, 1, 0, 3]);
}

#[test]
fn oscillator_of_zero_frequency_is_silent() {
    let mut s = SineWaveform::new(0, 8000);
    for _ in 0..5 {
        assert_eq!(s.next(), 0);
    }
}

#[test]
fn end_to_end_first_three_samples() {
    let mut g = BinauralGenerator::new(120, 40, 44100);
    let a = g.next_with(None);
    let b = g.next_with(None);
    let c = g.next_with(None);
    assert_eq!(a, SamplePoint { high: false, cycle_pos: 0, sample_rate: 44100, level: 100 });
    assert_eq!(b, SamplePoint { high: true, cycle_pos: 0, sample_rate: 44100, level: 100 });
    assert_eq!(c, SamplePoint { high: false, cycle_pos: 100, sample_rate: 44100, level: 100 });
    assert_eq!(amplitude(a), 0.0);
    assert_eq!(amplitude(b), 0.0);
    let expected = (2. * PI * 100. * 1. / 44100.).sin();
    assert!((amplitude(c) - expected).abs() < 1e-6);
    let d = g.next_with(None);
    assert_eq!(d, SamplePoint { high: true, cycle_pos: 140, sample_rate: 44100, level: 100 });
}

#[test]
fn channels_alternate_against_independent_oscillators() {
    let mut g = BinauralGenerator::new(440, 10, 48000);
    let mut low = SineWaveform::new(435, 48000);
    let mut high = SineWaveform::new(445, 48000);
    for _ in 0..1000 {
        let even = g.next_with(None);
        assert!(!even.high);
        assert_eq!(even.cycle_pos, low.next());
        let odd = g.next_with(None);
        assert!(odd.high);
        assert_eq!(odd.cycle_pos, high.next());
    }
}

#[test]
fn every_sample_in_unit_range() {
    for &(center, beat, rate) in &[(120u32, 40u32, 44100u32), (1000, 7, 8000), (5, 10, 3), (0, 0, 1)] {
        let mut g = BinauralGenerator::new(center, beat, rate);
        for i in 0..500 {
            let fresh = if i % 3 == 0 { Some(volume_at((i % 101) as u8)) } else { None };
            let p = g.next_with(fresh);
            assert!(p.level <= 100);
            assert!(p.cycle_pos < p.sample_rate);
            let x = amplitude(p);
            assert!((-1.0..=1.0).contains(&x));
        }
    }
}

#[test]
fn fresh_volume_replaces_snapshot_and_none_keeps_it() {
    let mut g = BinauralGenerator::new(120, 40, 44100);
    assert_eq!(g.next_with(Some(volume_at(30))).level, 30);
    assert_eq!(g.next_with(None).level, 30);
    assert_eq!(g.next_with(Some(volume_at(0))).level, 0);
}

#[test]
fn next_reads_shared_volume_when_free() {
    let mut g = BinauralGenerator::new(120, 40, 44100);
    assert_eq!(g.next().level, 50);
    g.next_vol.lock().unwrap().vol_up().unwrap();
    assert_eq!(g.next().level, 51);
}

#[test]
fn next_keeps_snapshot_while_writer_holds_lock() {
    let mut g = BinauralGenerator::new(120, 40, 44100);
    let shared = Arc::clone(&g.next_vol);
    let mut guard = shared.lock().unwrap();
    guard.vol_down().unwrap();
    let p = g.next();
    assert_eq!(p.level, 100);
    assert!(!p.high);
    drop(guard);
    assert_eq!(g.next().level, 49);
}

#[test]
fn stream_metadata() {
    let g = BinauralGenerator::new(120, 40, 44100);
    assert_eq!(g.channels(), 2);
    assert_eq!(g.sample_rate(), 44100);
    assert_eq!(g.current_frame_len(), None);
    assert_eq!(g.total_duration(), None);
}
