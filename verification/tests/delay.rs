use kick_synth::delay::{corrosion_buffer_len, tap_indices, StereoDelay};

#[test]
fn tap_index_wraps() {
    assert_eq!(tap_indices(5, 2, 8), (3, 2));
    assert_eq!(tap_indices(1, 3, 8), (6, 5));
    assert_eq!(tap_indices(0, 0, 8), (0, 7));
    // Delays are capped at len - 1.
    assert_eq!(tap_indices(2, 100, 8), (3, 2));
    assert_eq!(tap_indices(0, 0, 1), (0, 0));
}

#[test]
fn tap_index_matches_modular_formula() {
    let len = 16usize;
    for pos in 0..len {
        for delay in 0..40usize {
            let d = delay.min(len - 1);
            let i0 = (pos + len - d) % len;
            let i1 = (pos + len - d - 1) % len;
            assert_eq!(tap_indices(pos, delay, len), (i0, i1));
        }
    }
}

#[test]
fn delay_reads_back_writes() {
    let mut d = StereoDelay::new(4, 0i32);
    assert_eq!(d.len(), 4);
    let mut last = 0;
    for x in 1..=6 {
        last = d.write(x, -x);
    }
    // Six writes into four cells: the last one landed at position 1.
    assert_eq!(last, 1);
    let (i0, _) = tap_indices(last, 0, d.len());
    assert_eq!(d.at(i0), (6, -6));
    let (i1, older) = tap_indices(last, 1, d.len());
    assert_eq!(d.at(i1), (5, -5));
    assert_eq!(d.at(older), (4, -4));
    let (i3, _) = tap_indices(last, 3, d.len());
    assert_eq!(d.at(i3), (3, -3));
}

#[test]
fn delay_reset_clears() {
    let mut d = StereoDelay::new(3, 0u8);
    d.write(7, 8);
    d.reset(0);
    assert_eq!(d.at(0), (0, 0));
    assert_eq!(d.write(1, 1), 0);
}

#[test]
fn corrosion_buffer_lengths() {
    // 4 ms at 44.1 kHz is 176 samples: 180 rounds up to 256.
    assert_eq!(corrosion_buffer_len(176), 256);
    assert_eq!(corrosion_buffer_len(0), 4);
    assert_eq!(corrosion_buffer_len(4), 8);
    assert_eq!(corrosion_buffer_len(192), 256);
    assert_eq!(corrosion_buffer_len(380), 512);
    for n in 0..2000usize {
        assert_eq!(corrosion_buffer_len(n), (n + 4).next_power_of_two());
    }
}
