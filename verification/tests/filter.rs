use kick_synth::filter::{
    filter_runs_at, FilterEnvControl, FilterEnvMode, FilterEnvPhase,
    FilterPosition, FilterRoute, FilterSelection, FilterType, LadderTap, SvfTap,
};

#[test]
fn filter_defaults() {
    assert_eq!(FilterType::default(), FilterType::LP24);
    assert_eq!(FilterPosition::default(), FilterPosition::PostNam);
    assert_eq!(FilterEnvMode::default(), FilterEnvMode::Trigger);
    let e = FilterEnvControl::default();
    assert_eq!(e.phase, FilterEnvPhase::Idle);
    assert_eq!(e.mode, FilterEnvMode::Trigger);
}

#[test]
fn filter_routes() {
    assert_eq!(FilterType::LP24.route(), FilterRoute::Ladder(LadderTap::Lowpass));
    assert_eq!(FilterType::HP24.route(), FilterRoute::Ladder(LadderTap::Highpass));
    assert_eq!(FilterType::LP12.route(), FilterRoute::Svf(SvfTap::Lowpass));
    assert_eq!(FilterType::HP12.route(), FilterRoute::Svf(SvfTap::Highpass));
    assert_eq!(FilterType::BP12.route(), FilterRoute::Svf(SvfTap::Bandpass));
    assert_eq!(FilterType::Notch.route(), FilterRoute::Svf(SvfTap::Notch));
}

#[test]
fn filter_runs_at_one_stage_only() {
    let stages = [FilterPosition::PreNam, FilterPosition::PostNam, FilterPosition::PostAll];
    for &pos in stages.iter() {
        let count = stages.iter().filter(|&&s| filter_runs_at(true, pos, s)).count();
        assert_eq!(count, 1);
        assert!(filter_runs_at(true, pos, pos));
        let off = stages.iter().filter(|&&s| filter_runs_at(false, pos, s)).count();
        assert_eq!(off, 0);
    }
}

#[test]
fn selection_change_detection() {
    let mut sel = FilterSelection::new();
    assert_eq!(sel.filter_type, FilterType::LP24);
    assert_eq!(sel.position, FilterPosition::PostNam);
    assert!(!sel.update(FilterType::LP24, FilterPosition::PostNam));
    assert!(sel.update(FilterType::BP12, FilterPosition::PostNam));
    assert!(!sel.update(FilterType::BP12, FilterPosition::PostNam));
    assert!(sel.update(FilterType::BP12, FilterPosition::PostAll));
    assert_eq!(sel.position, FilterPosition::PostAll);
}

#[test]
fn env_mode_from_flag() {
    assert_eq!(FilterEnvMode::from_trigger_flag(true), FilterEnvMode::Trigger);
    assert_eq!(FilterEnvMode::from_trigger_flag(false), FilterEnvMode::Gate);
}

#[test]
fn trigger_mode_closes_on_its_own() {
    let mut e = FilterEnvControl::default();
    e.trigger();
    assert_eq!(e.phase, FilterEnvPhase::Attack);
    assert!(!e.tick(false, true));
    assert!(e.tick(true, true));
    assert_eq!(e.phase, FilterEnvPhase::Decay);
    assert!(!e.tick(true, true));
    assert_eq!(e.phase, FilterEnvPhase::Sustain);
    // No note-off needed: the next tick starts the release.
    assert!(e.tick(false, true));
    assert_eq!(e.phase, FilterEnvPhase::Release);
    assert!(!e.tick(false, true));
    assert_eq!(e.phase, FilterEnvPhase::Release);
    assert!(!e.tick(true, true));
    assert_eq!(e.phase, FilterEnvPhase::Idle);
}

#[test]
fn gate_mode_holds_sustain_until_release() {
    let mut e = FilterEnvControl { phase: FilterEnvPhase::Sustain, mode: FilterEnvMode::Gate };
    for _ in 0..10 {
        assert!(!e.tick(true, true));
        assert_eq!(e.phase, FilterEnvPhase::Sustain);
    }
    assert!(e.release());
    assert_eq!(e.phase, FilterEnvPhase::Release);
    assert!(!e.release());
    assert_eq!(e.phase, FilterEnvPhase::Release);
}

#[test]
fn decay_to_floor_ends_envelope() {
    let mut e = FilterEnvControl { phase: FilterEnvPhase::Decay, mode: FilterEnvMode::Gate };
    assert!(!e.tick(true, false));
    assert_eq!(e.phase, FilterEnvPhase::Idle);
}

#[test]
fn release_and_clear_from_idle() {
    let mut e = FilterEnvControl::default();
    assert!(!e.release());
    assert_eq!(e.phase, FilterEnvPhase::Idle);
    e.trigger();
    e.clear();
    assert_eq!(e.phase, FilterEnvPhase::Idle);
    assert!(!e.tick(true, true));
    assert_eq!(e.phase, FilterEnvPhase::Idle);
}

#[test]
fn retrigger_restarts_attack() {
    let mut e = FilterEnvControl { phase: FilterEnvPhase::Release, mode: FilterEnvMode::Trigger };
    e.trigger();
    assert_eq!(e.phase, FilterEnvPhase::Attack);
    assert_eq!(e.mode, FilterEnvMode::Trigger);
}
