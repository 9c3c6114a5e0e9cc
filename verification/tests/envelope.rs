use constraint_audio::{envelope_segment, envelope_segments, EnvelopeSegment};

fn rank(s: &EnvelopeSegment) -> u8 {
    match s {
        EnvelopeSegment::Attack { .. } => 0,
        EnvelopeSegment::Decay { .. } => 1,
        EnvelopeSegment::Sustain => 2,
        EnvelopeSegment::Release { .. } => 3,
    }
}

/// The level of one sample, as the envelope renderer computes it from a stage.
fn level(s: &EnvelopeSegment, sustain: f64) -> f64 {
    let v = match *s {
        EnvelopeSegment::Attack { pos, len } => pos as f64 / len as f64,
        EnvelopeSegment::Decay { pos, len } => 1.0 - (pos as f64 / len as f64) * (1.0 - sustain),
        EnvelopeSegment::Sustain => sustain,
        EnvelopeSegment::Release { pos, len } => sustain * (1.0 - pos as f64 / len as f64),
    };
    v.clamp(0.0, 1.0)
}

fn samples(secs: f64, rate: f64) -> usize {
    (secs * rate).round() as usize
}

#[test]
fn test_adsr_envelope_shape() {
    let (attack, decay, sustain, release) = (0.1, 0.1, 0.5, 0.1);
    let (duration, rate) = (0.3, 1000.0);
    let num = samples(duration + release, rate);
    let segs = envelope_segments(
        num,
        samples(attack, rate),
        samples(decay, rate),
        samples(release, rate),
    );
    let buf: Vec<f64> = segs.iter().map(|s| level(s, sustain)).collect();
    assert_eq!(buf.len(), 400);
    assert!(buf[0] < 0.01);
    let max = buf.iter().fold(0.0f64, |a, &b| a.max(b));
    assert!(max > 0.99, "Peak should be near 1.0, got {max}");
    assert!(buf.last().unwrap().abs() < 0.01);
}

#[test]
fn segments_of_a_full_envelope() {
    let segs = envelope_segments(10, 2, 3, 2);
    assert_eq!(segs.len(), 10);
    assert_eq!(segs[0], EnvelopeSegment::Attack { pos: 0, len: 2 });
    assert_eq!(segs[1], EnvelopeSegment::Attack { pos: 1, len: 2 });
    assert_eq!(segs[2], EnvelopeSegment::Decay { pos: 0, len: 3 });
    assert_eq!(segs[4], EnvelopeSegment::Decay { pos: 2, len: 3 });
    assert_eq!(segs[5], EnvelopeSegment::Sustain);
    assert_eq!(segs[7], EnvelopeSegment::Sustain);
    assert_eq!(segs[8], EnvelopeSegment::Release { pos: 0, len: 2 });
    assert_eq!(segs[9], EnvelopeSegment::Release { pos: 1, len: 2 });
}

#[test]
fn stages_come_in_order_and_ramps_stay_below_their_length() {
    for &(n, a, d, r) in &[(10usize, 2usize, 3usize, 2usize), (7, 0, 0, 3), (5, 4, 4, 1), (6, 1, 1, 6), (0, 3, 3, 3)] {
        let segs = envelope_segments(n, a, d, r);
        assert_eq!(segs.len(), n);
        for w in segs.windows(2) {
            assert!(rank(&w[0]) <= rank(&w[1]));
        }
        for s in &segs {
            match *s {
                EnvelopeSegment::Attack { pos, len }
                | EnvelopeSegment::Decay { pos, len }
                | EnvelopeSegment::Release { pos, len } => assert!(1 <= len && pos < len),
                EnvelopeSegment::Sustain => {}
            }
        }
    }
}

#[test]
fn release_cut_short_when_it_does_not_fit() {
    // 6 samples, attack 2, decay 2, release 4: the release would start at
    // sample 2, but attack and decay come first, so it starts midway.
    let segs = envelope_segments(6, 2, 2, 4);
    assert_eq!(segs[3], EnvelopeSegment::Decay { pos: 1, len: 2 });
    assert_eq!(segs[4], EnvelopeSegment::Release { pos: 2, len: 4 });
    assert_eq!(segs[5], EnvelopeSegment::Release { pos: 3, len: 4 });
}

#[test]
fn empty_stages_divide_by_one() {
    let segs = envelope_segments(3, 0, 0, 0);
    assert_eq!(segs, vec![EnvelopeSegment::Sustain; 3]);
    assert_eq!(envelope_segment(0, 4, 0, 0, 4), EnvelopeSegment::Release { pos: 0, len: 4 });
    assert_eq!(envelope_segment(0, 4, 1, 0, 0), EnvelopeSegment::Attack { pos: 0, len: 1 });
}

#[test]
fn sustain_only_where_no_ramp_applies() {
    let segs = envelope_segments(8, 1, 1, 1);
    assert_eq!(rank(&segs[0]), 0);
    assert_eq!(rank(&segs[1]), 1);
    for s in &segs[2..7] {
        assert_eq!(*s, EnvelopeSegment::Sustain);
    }
    assert_eq!(segs[7], EnvelopeSegment::Release { pos: 0, len: 1 });
}

#[test]
fn ramps_advance_one_sample_at_a_time() {
    let segs = envelope_segments(12, 3, 4, 3);
    for w in segs.windows(2) {
        match (w[0], w[1]) {
            (EnvelopeSegment::Attack { pos: p, len: l }, EnvelopeSegment::Attack { pos: q, len: m })
            | (EnvelopeSegment::Decay { pos: p, len: l }, EnvelopeSegment::Decay { pos: q, len: m })
            | (EnvelopeSegment::Release { pos: p, len: l }, EnvelopeSegment::Release { pos: q, len: m }) => {
                assert_eq!(q, p + 1);
                assert_eq!(l, m);
            }
            _ => {}
        }
    }
    assert_eq!(segs[11], EnvelopeSegment::Release { pos: 2, len: 3 });
}
