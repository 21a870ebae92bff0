use kick_synth::envelope::{
    amp_phase_after_tick, texture_phase_after_tick, EnvelopePhase, VoiceControl,
};

#[test]
fn idle_voice_defaults() {
    let v = VoiceControl::default();
    assert_eq!(v.current_phase, EnvelopePhase::Idle);
    assert_eq!(v.tex_env_phase, EnvelopePhase::Idle);
    assert_eq!(v.midi_note, 36);
    assert_eq!(v.static_rng_state, 1337);
    assert!(!v.fast_release);
    assert!(!v.is_sounding());
    assert!(!v.timers_advance());
}

#[test]
fn started_voice_attacks() {
    let v = VoiceControl::started(12);
    assert_eq!(v.current_phase, EnvelopePhase::Attack);
    assert_eq!(v.tex_env_phase, EnvelopePhase::Decay);
    assert_eq!(v.midi_note, 12);
    assert!(v.is_sounding());
    assert!(v.timers_advance());
}

#[test]
fn amp_envelope_runs_its_course() {
    let mut p = EnvelopePhase::Attack;
    p = amp_phase_after_tick(p, false, true);
    assert_eq!(p, EnvelopePhase::Attack);
    p = amp_phase_after_tick(p, true, true);
    assert_eq!(p, EnvelopePhase::Decay);
    p = amp_phase_after_tick(p, true, true);
    assert_eq!(p, EnvelopePhase::Sustain);
    // Sustain holds, whatever the tick reports.
    assert_eq!(amp_phase_after_tick(p, true, false), EnvelopePhase::Sustain);
    assert_eq!(amp_phase_after_tick(EnvelopePhase::Release, false, true), EnvelopePhase::Release);
    assert_eq!(amp_phase_after_tick(EnvelopePhase::Release, true, true), EnvelopePhase::Idle);
    assert_eq!(amp_phase_after_tick(EnvelopePhase::Idle, true, true), EnvelopePhase::Idle);
}

#[test]
fn decay_to_zero_sustain_ends_note() {
    assert_eq!(amp_phase_after_tick(EnvelopePhase::Decay, true, false), EnvelopePhase::Idle);
    assert_eq!(amp_phase_after_tick(EnvelopePhase::Decay, false, false), EnvelopePhase::Decay);
}

#[test]
fn texture_envelope_ends_when_exhausted() {
    assert_eq!(texture_phase_after_tick(EnvelopePhase::Decay, false), EnvelopePhase::Decay);
    assert_eq!(texture_phase_after_tick(EnvelopePhase::Decay, true), EnvelopePhase::Idle);
    assert_eq!(texture_phase_after_tick(EnvelopePhase::Release, true), EnvelopePhase::Idle);
    assert_eq!(texture_phase_after_tick(EnvelopePhase::Idle, true), EnvelopePhase::Idle);
    assert_eq!(texture_phase_after_tick(EnvelopePhase::Attack, true), EnvelopePhase::Attack);
}

#[test]
fn release_enters_release_once() {
    let mut v = VoiceControl::started(40);
    assert!(v.release());
    assert_eq!(v.current_phase, EnvelopePhase::Release);
    assert_eq!(v.tex_env_phase, EnvelopePhase::Release);
    assert!(!v.fast_release);
    // A second note-off changes nothing and does not restart the timer.
    let before = v;
    assert!(!v.release());
    assert_eq!(v, before);
}

#[test]
fn release_never_wakes_idle_voice() {
    let mut v = VoiceControl::default();
    assert!(!v.release());
    assert_eq!(v, VoiceControl::default());
}

#[test]
fn release_keeps_idle_texture() {
    let mut v = VoiceControl::started(40);
    v.tex_env_phase = EnvelopePhase::Idle;
    v.fast_release = true;
    assert!(v.release());
    assert_eq!(v.tex_env_phase, EnvelopePhase::Idle);
    assert!(!v.fast_release);
}

#[test]
fn retrigger_hands_off_running_voice() {
    let mut v = VoiceControl::started(30);
    v.current_phase = EnvelopePhase::Sustain;
    v.static_rng_state = 99;
    let h = v.handed_off().expect("running voice is handed off");
    assert_eq!(h.current_phase, EnvelopePhase::Release);
    assert_eq!(h.tex_env_phase, EnvelopePhase::Release);
    assert!(h.fast_release);
    assert_eq!(h.midi_note, 30);
    assert_eq!(h.static_rng_state, 99);
    let idle = VoiceControl::default();
    assert_eq!(idle.handed_off(), None);
}

#[test]
fn handed_off_voice_keeps_idle_texture() {
    let mut v = VoiceControl::started(30);
    v.tex_env_phase = EnvelopePhase::Idle;
    let h = v.handed_off().unwrap();
    assert_eq!(h.tex_env_phase, EnvelopePhase::Idle);
}

#[test]
fn voice_noise_steps_generator() {
    let mut v = VoiceControl::default();
    let s = v.next_static_noise();
    assert_eq!(s, 3239374148);
    assert_eq!(v.static_rng_state, 3239374148);
}
