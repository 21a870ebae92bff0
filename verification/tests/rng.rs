use kick_synth::rng::lcg_next;

#[test]
fn lcg_known_values() {
    assert_eq!(lcg_next(0), 1013904223);
    assert_eq!(lcg_next(1), 1015568748);
    assert_eq!(lcg_next(1337), 3239374148);
    assert_eq!(lcg_next(u32::MAX), 1012239698);
}

#[test]
fn lcg_matches_wrapping_formula() {
    let mut s: u32 = 42;
    for _ in 0..1000 {
        let expected = s.wrapping_mul(1664525).wrapping_add(1013904223);
        let next = lcg_next(s);
        assert_eq!(next, expected);
        assert_ne!(next, s);
        s = next;
    }
}
