//! Phase logic of the per-voice amplitude and texture envelopes.
//!
//! The envelope values themselves are sample arithmetic done by the audio
//! host; this module decides in which phase a voice is, what a note-on and a
//! note-off do to those phases, and where a tick moves them once the host has
//! told it whether the current phase reached its threshold.

use vstd::prelude::*;

use crate::rng::{lcg_next, spec_lcg_next};

verus! {

/// Stage of an amplitude or texture envelope.
#[derive(Debug, Clone, Copy, PartialEq, Eq, Structural)]
pub enum EnvelopePhase {
    Idle,
    Attack,
    Decay,
    Sustain,
    Release,
}

/// Position of a phase along the envelope's course: attack, decay, sustain,
/// release, and finally idle.
pub open spec fn stage_rank(p: EnvelopePhase) -> nat {
    match p {
        EnvelopePhase::Attack => 0,
        EnvelopePhase::Decay => 1,
        EnvelopePhase::Sustain => 2,
        EnvelopePhase::Release => 3,
        EnvelopePhase::Idle => 4,
    }
}

/// Where one sample tick moves the amplitude envelope.
///
/// `crossed` says that the value has reached the threshold of the current
/// phase (the peak in attack, the sustain level in decay, the silence floor in
/// release); `sustain_positive` says that the sustain level is above zero.
pub open spec fn spec_amp_after_tick(
    phase: EnvelopePhase,
    crossed: bool,
    sustain_positive: bool,
) -> EnvelopePhase {
    match phase {
        EnvelopePhase::Attack => if crossed {
            EnvelopePhase::Decay
        } else {
            EnvelopePhase::Attack
        },
        EnvelopePhase::Decay => if !crossed {
            EnvelopePhase::Decay
        } else if sustain_positive {
            EnvelopePhase::Sustain
        } else {
            EnvelopePhase::Idle
        },
        EnvelopePhase::Sustain => EnvelopePhase::Sustain,
        EnvelopePhase::Release => if crossed {
            EnvelopePhase::Idle
        } else {
            EnvelopePhase::Release
        },
        EnvelopePhase::Idle => EnvelopePhase::Idle,
    }
}

/// Where one sample tick moves the texture envelope, which only decays or
/// releases; `exhausted` says that its value has fallen to zero.
pub open spec fn spec_texture_after_tick(phase: EnvelopePhase, exhausted: bool) -> EnvelopePhase {
    match phase {
        EnvelopePhase::Decay | EnvelopePhase::Release => if exhausted {
            EnvelopePhase::Idle
        } else {
            phase
        },
        _ => phase,
    }
}

/// Next amplitude phase after one tick (see `spec_amp_after_tick`).
/// The host resets the phase timer when the result differs from `phase` and is
/// not `Idle`.
pub fn amp_phase_after_tick(phase: EnvelopePhase, crossed: bool, sustain_positive: bool) -> (next:
    EnvelopePhase)
    ensures
        next == spec_amp_after_tick(phase, crossed, sustain_positive),
        !crossed ==> next == phase,
        crossed && phase != EnvelopePhase::Sustain && phase != EnvelopePhase::Idle ==> stage_rank(
            next,
        ) > stage_rank(phase),
{
    match phase {
        EnvelopePhase::Attack => {
            if crossed {
                EnvelopePhase::Decay
            } else {
                EnvelopePhase::Attack
            }
        },
        EnvelopePhase::Decay => {
            if !crossed {
                EnvelopePhase::Decay
            } else if sustain_positive {
                EnvelopePhase::Sustain
            } else {
                EnvelopePhase::Idle
            }
        },
        EnvelopePhase::Sustain => EnvelopePhase::Sustain,
        EnvelopePhase::Release => {
            if crossed {
                EnvelopePhase::Idle
            } else {
                EnvelopePhase::Release
            }
        },
        EnvelopePhase::Idle => EnvelopePhase::Idle,
    }
}

/// Next texture phase after one tick (see `spec_texture_after_tick`).
pub fn texture_phase_after_tick(phase: EnvelopePhase, exhausted: bool) -> (next: EnvelopePhase)
    ensures
        next == spec_texture_after_tick(phase, exhausted),
        !exhausted ==> next == phase,
{
    match phase {
        EnvelopePhase::Decay | EnvelopePhase::Release => {
            if exhausted {
                EnvelopePhase::Idle
            } else {
                phase
            }
        },
        _ => phase,
    }
}

/// The phase-and-identity part of a voice: everything about a voice that is
/// not a sample value.
#[derive(Debug, Clone, Copy, PartialEq, Eq, Structural)]
pub struct VoiceControl {
    /// Phase of the amplitude envelope.
    pub current_phase: EnvelopePhase,
    /// Phase of the texture envelope.
    pub tex_env_phase: EnvelopePhase,
    /// Whether a release uses the short hand-off time instead of the
    /// user's release time.
    pub fast_release: bool,
    /// Note the voice plays (used in bass-synth mode and key tracking).
    pub midi_note: u8,
    /// State of the voice's own, repeatable noise generator.
    pub static_rng_state: u32,
}

/// Seed of every fresh voice's repeatable noise generator.
pub const VOICE_NOISE_SEED: u32 = 1337;

/// Note of a voice that no note has started yet.
pub const DEFAULT_VOICE_NOTE: u8 = 36;

/// A silent voice as the synthesiser starts with it.
pub open spec fn spec_idle_voice() -> VoiceControl {
    VoiceControl {
        current_phase: EnvelopePhase::Idle,
        tex_env_phase: EnvelopePhase::Idle,
        fast_release: false,
        midi_note: 36,
        static_rng_state: 1337,
    }
}

/// A voice that a note-on has just started on `note`.
pub open spec fn spec_started_voice(note: u8) -> VoiceControl {
    VoiceControl {
        current_phase: EnvelopePhase::Attack,
        tex_env_phase: EnvelopePhase::Decay,
        midi_note: note,
        ..spec_idle_voice()
    }
}

/// A voice is heard while either of its envelopes is not idle.
pub open spec fn spec_is_sounding(v: VoiceControl) -> bool {
    v.current_phase != EnvelopePhase::Idle || v.tex_env_phase != EnvelopePhase::Idle
}

/// What a note-off does to a voice: envelopes that are running and not yet
/// releasing start their release; the amplitude release uses the user's time.
pub open spec fn spec_released(v: VoiceControl) -> VoiceControl {
    let amp_releases = v.current_phase != EnvelopePhase::Idle && v.current_phase
        != EnvelopePhase::Release;
    let tex_releases = v.tex_env_phase != EnvelopePhase::Idle && v.tex_env_phase
        != EnvelopePhase::Release;
    VoiceControl {
        current_phase: if amp_releases {
            EnvelopePhase::Release
        } else {
            v.current_phase
        },
        tex_env_phase: if tex_releases {
            EnvelopePhase::Release
        } else {
            v.tex_env_phase
        },
        fast_release: if amp_releases {
            false
        } else {
            v.fast_release
        },
        ..v
    }
}

/// The copy of a running voice that keeps fading out, quickly, while a new
/// note takes over the main voice.
pub open spec fn spec_handed_off(v: VoiceControl) -> VoiceControl {
    VoiceControl {
        current_phase: EnvelopePhase::Release,
        tex_env_phase: if v.tex_env_phase != EnvelopePhase::Idle {
            EnvelopePhase::Release
        } else {
            EnvelopePhase::Idle
        },
        fast_release: true,
        ..v
    }
}

impl Default for VoiceControl {
    fn default() -> (v: Self)
        ensures
            v == spec_idle_voice(),
    {
        VoiceControl {
            current_phase: EnvelopePhase::Idle,
            tex_env_phase: EnvelopePhase::Idle,
            fast_release: false,
            midi_note: DEFAULT_VOICE_NOTE,
            static_rng_state: VOICE_NOISE_SEED,
        }
    }
}

impl VoiceControl {
    /// A fresh voice started by a note-on for `note`: attack on the amplitude
    /// envelope, decay on the texture envelope, a reseeded noise generator.
    pub fn started(note: u8) -> (v: Self)
        ensures
            v == spec_started_voice(note),
            spec_is_sounding(v),
    {
        VoiceControl {
            current_phase: EnvelopePhase::Attack,
            tex_env_phase: EnvelopePhase::Decay,
            fast_release: false,
            midi_note: note,
            static_rng_state: VOICE_NOISE_SEED,
        }
    }

    /// Whether the voice still produces sound (either envelope not idle).
    pub fn is_sounding(&self) -> (b: bool)
        ensures
            b == spec_is_sounding(*self),
    {
        self.current_phase != EnvelopePhase::Idle || self.tex_env_phase != EnvelopePhase::Idle
    }

    /// Whether the pitch and phase timers advance after this sample: they do
    /// while the amplitude envelope runs.
    pub fn timers_advance(&self) -> (b: bool)
        ensures
            b == (self.current_phase != EnvelopePhase::Idle),
    {
        self.current_phase != EnvelopePhase::Idle
    }

    /// Advances the voice's own noise generator by one step and returns the
    /// new state (the texture layer draws one value per sample).
    pub fn next_static_noise(&mut self) -> (state: u32)
        ensures
            state == spec_lcg_next(old(self).static_rng_state),
            *final(self) == (VoiceControl { static_rng_state: state, ..*old(self) }),
    {
        self.static_rng_state = lcg_next(self.static_rng_state);
        self.static_rng_state
    }

    /// Applies a note-off.  Returns whether the amplitude envelope entered its
    /// release now, in which case the host restarts the phase timer.
    pub fn release(&mut self) -> (restarted: bool)
        ensures
            *final(self) == spec_released(*old(self)),
            old(self).current_phase != EnvelopePhase::Idle ==> final(self).current_phase
                == EnvelopePhase::Release,
            old(self).tex_env_phase != EnvelopePhase::Idle ==> final(self).tex_env_phase
                == EnvelopePhase::Release,
            restarted == (old(self).current_phase != EnvelopePhase::Idle
                && old(self).current_phase != EnvelopePhase::Release),
    {
        let amp_releases = self.current_phase != EnvelopePhase::Idle && self.current_phase
            != EnvelopePhase::Release;
        if amp_releases {
            self.current_phase = EnvelopePhase::Release;
            self.fast_release = false;
        }
        if self.tex_env_phase != EnvelopePhase::Idle && self.tex_env_phase
            != EnvelopePhase::Release {
            self.tex_env_phase = EnvelopePhase::Release;
        }
        amp_releases
    }

    /// The voice that keeps sounding when a new note replaces this one: a
    /// quickly releasing copy if the amplitude envelope is running, `None` if
    /// it is idle (the previous releasing voice is then kept).
    pub fn handed_off(&self) -> (r: Option<Self>)
        ensures
            r == (if self.current_phase != EnvelopePhase::Idle {
                Some(spec_handed_off(*self))
            } else {
                None
            }),
    {
        if self.current_phase != EnvelopePhase::Idle {
            let tex = if self.tex_env_phase != EnvelopePhase::Idle {
                EnvelopePhase::Release
            } else {
                EnvelopePhase::Idle
            };
            Some(
                VoiceControl {
                    current_phase: EnvelopePhase::Release,
                    tex_env_phase: tex,
                    fast_release: true,
                    midi_note: self.midi_note,
                    static_rng_state: self.static_rng_state,
                },
            )
        } else {
            None
        }
    }
}

/// A tick never moves an envelope backwards along attack, decay, sustain,
/// release, idle; in particular it never leaves idle.
pub proof fn lemma_tick_moves_forward(phase: EnvelopePhase, crossed: bool, sustain_positive: bool)
    ensures
        stage_rank(spec_amp_after_tick(phase, crossed, sustain_positive)) >= stage_rank(phase),
        stage_rank(spec_texture_after_tick(phase, crossed)) >= stage_rank(phase),
        phase == EnvelopePhase::Idle ==> spec_amp_after_tick(phase, crossed, sustain_positive)
            == EnvelopePhase::Idle,
        phase == EnvelopePhase::Idle ==> spec_texture_after_tick(phase, crossed)
            == EnvelopePhase::Idle,
{
}

/// A held note stays at its sustain level: ticks leave the sustain phase
/// only through a note-off.
pub proof fn lemma_sustain_holds(crossed: bool, sustain_positive: bool)
    ensures
        spec_amp_after_tick(EnvelopePhase::Sustain, crossed, sustain_positive)
            == EnvelopePhase::Sustain,
        spec_released(
            VoiceControl { current_phase: EnvelopePhase::Sustain, ..spec_idle_voice() },
        ).current_phase == EnvelopePhase::Release,
{
}

/// A decay that reaches a zero sustain level ends the note; a positive one
/// holds it.
pub proof fn lemma_decay_end(sustain_positive: bool)
    ensures
        spec_amp_after_tick(EnvelopePhase::Decay, true, sustain_positive) == (if sustain_positive {
            EnvelopePhase::Sustain
        } else {
            EnvelopePhase::Idle
        }),
{
}

/// A note-off is idempotent, never wakes a silent envelope, and leaves each
/// envelope idle or releasing.
pub proof fn lemma_release_settles(v: VoiceControl)
    ensures
        spec_released(spec_released(v)) == spec_released(v),
        v.current_phase == EnvelopePhase::Idle ==> spec_released(v).current_phase
            == EnvelopePhase::Idle,
        v.tex_env_phase == EnvelopePhase::Idle ==> spec_released(v).tex_env_phase
            == EnvelopePhase::Idle,
        spec_released(v).current_phase == EnvelopePhase::Idle || spec_released(v).current_phase
            == EnvelopePhase::Release,
        spec_released(v).tex_env_phase == EnvelopePhase::Idle || spec_released(v).tex_env_phase
            == EnvelopePhase::Release,
        spec_is_sounding(spec_released(v)) == spec_is_sounding(v),
        spec_released(v).midi_note == v.midi_note,
{
}

/// On a retrigger, the replaced voice fades out quickly from where it was
/// (same note, same noise state) while the new voice starts from its attack.
pub proof fn lemma_retrigger_hand_off(v: VoiceControl, note: u8)
    requires
        v.current_phase != EnvelopePhase::Idle,
    ensures
        spec_handed_off(v).current_phase == EnvelopePhase::Release,
        spec_handed_off(v).fast_release,
        spec_handed_off(v).midi_note == v.midi_note,
        spec_handed_off(v).static_rng_state == v.static_rng_state,
        spec_is_sounding(spec_handed_off(v)),
        spec_started_voice(note).current_phase == EnvelopePhase::Attack,
        spec_started_voice(note).midi_note == note,
{
}

/// An envelope waits for its threshold: a tick on which the value has not
/// reached the threshold of the current phase leaves every phase as it is,
/// whatever the sustain level.  A crossing moves each timed phase (attack,
/// decay, release) strictly forward; attack always goes on to decay.
pub proof fn lemma_phase_waits_for_threshold(phase: EnvelopePhase, sustain_positive: bool)
    ensures
        spec_amp_after_tick(phase, false, sustain_positive) == phase,
        spec_texture_after_tick(phase, false) == phase,
        spec_amp_after_tick(EnvelopePhase::Attack, true, sustain_positive) == EnvelopePhase::Decay,
        phase != EnvelopePhase::Sustain && phase != EnvelopePhase::Idle ==> stage_rank(
            spec_amp_after_tick(phase, true, sustain_positive),
        ) > stage_rank(phase),
{
}

/// A note-off puts every envelope that is still sounding into its release.
pub proof fn lemma_note_off_releases(v: VoiceControl)
    ensures
        v.current_phase != EnvelopePhase::Idle ==> spec_released(v).current_phase
            == EnvelopePhase::Release,
        v.tex_env_phase != EnvelopePhase::Idle ==> spec_released(v).tex_env_phase
            == EnvelopePhase::Release,
{
}

} // verus!
