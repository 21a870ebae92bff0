//! Filter selection, routing and the phase logic of the filter envelope.
//!
//! Two architectures exist: the Moog ladder (LP24, HP24) and the TPT
//! state-variable filter (LP12, HP12, BP12, Notch).  The filter can sit at one
//! of three places in the signal chain, and its ADSR envelope runs either in
//! trigger mode (always completes attack, decay and release on its own) or in
//! gate mode (holds the sustain level until note-off).

use vstd::prelude::*;

verus! {

/// Response type of the filter.
#[derive(Debug, Clone, Copy, PartialEq, Eq, Structural)]
pub enum FilterType {
    /// 4-pole Moog ladder lowpass.
    LP24,
    /// 2-pole state-variable lowpass.
    LP12,
    /// 4-pole ladder highpass.
    HP24,
    /// 2-pole state-variable highpass.
    HP12,
    /// 2-pole state-variable bandpass.
    BP12,
    /// 2-pole state-variable notch.
    Notch,
}

impl Default for FilterType {
    fn default() -> (t: Self)
        ensures
            t == FilterType::LP24,
    {
        FilterType::LP24
    }
}

/// Which of the four outputs of the state-variable filter a type listens to.
#[derive(Debug, Clone, Copy, PartialEq, Eq, Structural)]
pub enum SvfTap {
    Lowpass,
    Highpass,
    Bandpass,
    Notch,
}

/// Which ladder output a type listens to.
#[derive(Debug, Clone, Copy, PartialEq, Eq, Structural)]
pub enum LadderTap {
    Lowpass,
    Highpass,
}

/// The architecture and output that process a filter type.
#[derive(Debug, Clone, Copy, PartialEq, Eq, Structural)]
pub enum FilterRoute {
    Ladder(LadderTap),
    Svf(SvfTap),
}

/// Route of each filter type: the 24 dB types run on the ladder, the
/// 12 dB types, bandpass and notch on the state-variable filter.
pub open spec fn spec_route(t: FilterType) -> FilterRoute {
    match t {
        FilterType::LP24 => FilterRoute::Ladder(LadderTap::Lowpass),
        FilterType::HP24 => FilterRoute::Ladder(LadderTap::Highpass),
        FilterType::LP12 => FilterRoute::Svf(SvfTap::Lowpass),
        FilterType::HP12 => FilterRoute::Svf(SvfTap::Highpass),
        FilterType::BP12 => FilterRoute::Svf(SvfTap::Bandpass),
        FilterType::Notch => FilterRoute::Svf(SvfTap::Notch),
    }
}

impl FilterType {
    /// The architecture and output that process this type.
    pub fn route(self) -> (r: FilterRoute)
        ensures
            r == spec_route(self),
    {
        match self {
            FilterType::LP24 => FilterRoute::Ladder(LadderTap::Lowpass),
            FilterType::HP24 => FilterRoute::Ladder(LadderTap::Highpass),
            FilterType::LP12 => FilterRoute::Svf(SvfTap::Lowpass),
            FilterType::HP12 => FilterRoute::Svf(SvfTap::Highpass),
            FilterType::BP12 => FilterRoute::Svf(SvfTap::Bandpass),
            FilterType::Notch => FilterRoute::Svf(SvfTap::Notch),
        }
    }
}

/// Place of the filter in the signal chain.
#[derive(Debug, Clone, Copy, PartialEq, Eq, Structural)]
pub enum FilterPosition {
    /// After the oscillators, before the amp model.
    PreNam,
    /// After the amp model, before corrosion (the default).
    PostNam,
    /// After everything, on the stereo bus.
    PostAll,
}

impl Default for FilterPosition {
    fn default() -> (p: Self)
        ensures
            p == FilterPosition::PostNam,
    {
        FilterPosition::PostNam
    }
}

/// Whether the filter processes the signal at the chain point `stage`.
pub open spec fn spec_runs_at(active: bool, position: FilterPosition, stage: FilterPosition) -> bool {
    active && position == stage
}

/// Whether the filter processes the signal at the chain point `stage`: it does
/// exactly where it is placed, and only while it is switched on.
pub fn filter_runs_at(active: bool, position: FilterPosition, stage: FilterPosition) -> (b: bool)
    ensures
        b == spec_runs_at(active, position, stage),
{
    active && position == stage
}

/// A switched-on filter runs at exactly one point of the chain, a switched-off
/// one at none.
pub proof fn lemma_filter_runs_once(active: bool, position: FilterPosition)
    ensures
        active ==> spec_runs_at(active, position, position),
        forall|stage: FilterPosition|
            stage != position ==> !#[trigger] spec_runs_at(active, position, stage),
        !active ==> forall|stage: FilterPosition| !#[trigger] spec_runs_at(active, position, stage),
{
}

/// The filter type and position that the filter state was built for; a change
/// of either clears the filter's integrators and envelope.
#[derive(Debug, Clone, Copy, PartialEq, Eq, Structural)]
pub struct FilterSelection {
    pub filter_type: FilterType,
    pub position: FilterPosition,
}

impl FilterSelection {
    /// The selection the synthesiser starts with: LP24 after the amp model.
    pub fn new() -> (s: Self)
        ensures
            s.filter_type == FilterType::LP24,
            s.position == FilterPosition::PostNam,
    {
        FilterSelection { filter_type: FilterType::LP24, position: FilterPosition::PostNam }
    }

    /// Records the current selection; returns whether it differs from the
    /// recorded one, in which case the host clears the filter state.
    pub fn update(&mut self, filter_type: FilterType, position: FilterPosition) -> (changed: bool)
        ensures
            changed == (old(self).filter_type != filter_type || old(self).position != position),
            final(self).filter_type == filter_type,
            final(self).position == position,
    {
        let changed = self.filter_type != filter_type || self.position != position;
        if changed {
            self.filter_type = filter_type;
            self.position = position;
        }
        changed
    }
}

/// Stage of the filter envelope.
#[derive(Debug, Clone, Copy, PartialEq, Eq, Structural)]
pub enum FilterEnvPhase {
    Idle,
    Attack,
    Decay,
    Sustain,
    Release,
}

/// How the filter envelope responds to note-off.
#[derive(Debug, Clone, Copy, PartialEq, Eq, Structural)]
pub enum FilterEnvMode {
    /// Fire and forget: after the decay the release begins on its own.
    Trigger,
    /// Classic: the sustain level is held until note-off.
    Gate,
}

impl Default for FilterEnvMode {
    fn default() -> (m: Self)
        ensures
            m == FilterEnvMode::Trigger,
    {
        FilterEnvMode::Trigger
    }
}

impl FilterEnvMode {
    /// The mode selected by the "filter trigger" switch.
    pub fn from_trigger_flag(trigger: bool) -> (m: Self)
        ensures
            m == (if trigger {
                FilterEnvMode::Trigger
            } else {
                FilterEnvMode::Gate
            }),
    {
        if trigger {
            FilterEnvMode::Trigger
        } else {
            FilterEnvMode::Gate
        }
    }
}

/// The phase and mode of the filter envelope (its value is sample arithmetic
/// done by the host).
#[derive(Debug, Clone, Copy, PartialEq, Eq, Structural)]
pub struct FilterEnvControl {
    pub phase: FilterEnvPhase,
    pub mode: FilterEnvMode,
}

/// Where one tick moves the filter envelope.  `crossed` says that the value
/// reached the threshold of the current phase (near the peak in attack, near
/// the sustain level in decay, below the silence floor in release);
/// `sustain_positive` says that the sustain level is above the floor.
pub open spec fn spec_filter_after_tick(
    phase: FilterEnvPhase,
    mode: FilterEnvMode,
    crossed: bool,
    sustain_positive: bool,
) -> FilterEnvPhase {
    match phase {
        FilterEnvPhase::Attack => if crossed {
            FilterEnvPhase::Decay
        } else {
            FilterEnvPhase::Attack
        },
        FilterEnvPhase::Decay => if !crossed {
            FilterEnvPhase::Decay
        } else if sustain_positive {
            FilterEnvPhase::Sustain
        } else {
            FilterEnvPhase::Idle
        },
        FilterEnvPhase::Sustain => match mode {
            FilterEnvMode::Trigger => FilterEnvPhase::Release,
            FilterEnvMode::Gate => FilterEnvPhase::Sustain,
        },
        FilterEnvPhase::Release => if crossed {
            FilterEnvPhase::Idle
        } else {
            FilterEnvPhase::Release
        },
        FilterEnvPhase::Idle => FilterEnvPhase::Idle,
    }
}

/// Whether a tick restarts the envelope's phase timer: when the attack ends,
/// and when a trigger-mode envelope leaves its sustain.
pub open spec fn spec_filter_tick_restarts(
    phase: FilterEnvPhase,
    mode: FilterEnvMode,
    crossed: bool,
) -> bool {
    (phase == FilterEnvPhase::Attack && crossed) || (phase == FilterEnvPhase::Sustain && mode
        == FilterEnvMode::Trigger)
}

/// The phase after a note-off.
pub open spec fn spec_filter_released(phase: FilterEnvPhase) -> FilterEnvPhase {
    if phase != FilterEnvPhase::Idle && phase != FilterEnvPhase::Release {
        FilterEnvPhase::Release
    } else {
        phase
    }
}

impl Default for FilterEnvControl {
    fn default() -> (e: Self)
        ensures
            e.phase == FilterEnvPhase::Idle,
            e.mode == FilterEnvMode::Trigger,
    {
        FilterEnvControl { phase: FilterEnvPhase::Idle, mode: FilterEnvMode::Trigger }
    }
}

impl FilterEnvControl {
    /// Starts the envelope from its attack, whatever phase it was in.
    pub fn trigger(&mut self)
        ensures
            final(self).phase == FilterEnvPhase::Attack,
            final(self).mode == old(self).mode,
    {
        self.phase = FilterEnvPhase::Attack;
    }

    /// Note-off: a running envelope that is not releasing yet starts its
    /// release.  Returns whether it did, in which case the host restarts the
    /// phase timer.
    pub fn release(&mut self) -> (restarted: bool)
        ensures
            final(self).phase == spec_filter_released(old(self).phase),
            final(self).mode == old(self).mode,
            restarted == (old(self).phase != FilterEnvPhase::Idle && old(self).phase
                != FilterEnvPhase::Release),
            old(self).phase != FilterEnvPhase::Idle ==> final(self).phase
                == FilterEnvPhase::Release,
            old(self).phase == FilterEnvPhase::Idle ==> final(self).phase == FilterEnvPhase::Idle,
    {
        if self.phase != FilterEnvPhase::Idle && self.phase != FilterEnvPhase::Release {
            self.phase = FilterEnvPhase::Release;
            true
        } else {
            false
        }
    }

    /// Stops the envelope.
    pub fn clear(&mut self)
        ensures
            final(self).phase == FilterEnvPhase::Idle,
            final(self).mode == old(self).mode,
    {
        self.phase = FilterEnvPhase::Idle;
    }

    /// Moves the envelope by one tick; returns whether the phase timer
    /// restarts.
    pub fn tick(&mut self, crossed: bool, sustain_positive: bool) -> (restarted: bool)
        ensures
            final(self).phase == spec_filter_after_tick(
                old(self).phase,
                old(self).mode,
                crossed,
                sustain_positive,
            ),
            final(self).mode == old(self).mode,
            restarted == spec_filter_tick_restarts(old(self).phase, old(self).mode, crossed),
            !crossed && !(old(self).phase == FilterEnvPhase::Sustain && old(self).mode
                == FilterEnvMode::Trigger) ==> final(self).phase == old(self).phase,
            restarted ==> final(self).phase != old(self).phase && final(self).phase
                != FilterEnvPhase::Idle,
    {
        match self.phase {
            FilterEnvPhase::Attack => {
                if crossed {
                    self.phase = FilterEnvPhase::Decay;
                    true
                } else {
                    false
                }
            },
            FilterEnvPhase::Decay => {
                if crossed {
                    self.phase =
                        if sustain_positive {
                            FilterEnvPhase::Sustain
                        } else {
                            FilterEnvPhase::Idle
                        };
                }
                false
            },
            FilterEnvPhase::Sustain => {
                match self.mode {
                    FilterEnvMode::Trigger => {
                        self.phase = FilterEnvPhase::Release;
                        true
                    },
                    FilterEnvMode::Gate => false,
                }
            },
            FilterEnvPhase::Release => {
                if crossed {
                    self.phase = FilterEnvPhase::Idle;
                }
                false
            },
            FilterEnvPhase::Idle => false,
        }
    }
}

/// In trigger mode the envelope never holds its sustain level: the tick after
/// reaching it starts the release, so the filter always closes on its own.
/// In gate mode the sustain level is held until note-off.
pub proof fn lemma_trigger_mode_closes_on_its_own(crossed: bool, sustain_positive: bool)
    ensures
        spec_filter_after_tick(FilterEnvPhase::Sustain, FilterEnvMode::Trigger, crossed, sustain_positive)
            == FilterEnvPhase::Release,
        spec_filter_after_tick(FilterEnvPhase::Sustain, FilterEnvMode::Gate, crossed, sustain_positive)
            == FilterEnvPhase::Sustain,
        spec_filter_released(FilterEnvPhase::Sustain) == FilterEnvPhase::Release,
{
}

/// A note-off is idempotent and never wakes an idle envelope; a tick never
/// leaves idle.
pub proof fn lemma_filter_release_settles(
    phase: FilterEnvPhase,
    mode: FilterEnvMode,
    crossed: bool,
    sustain_positive: bool,
)
    ensures
        spec_filter_released(spec_filter_released(phase)) == spec_filter_released(phase),
        spec_filter_released(FilterEnvPhase::Idle) == FilterEnvPhase::Idle,
        spec_filter_after_tick(FilterEnvPhase::Idle, mode, crossed, sustain_positive)
            == FilterEnvPhase::Idle,
        spec_filter_released(phase) == FilterEnvPhase::Idle || spec_filter_released(phase)
            == FilterEnvPhase::Release,
{
}

/// A filter envelope waits for its threshold: without a crossing a tick
/// leaves the phase as it is, whatever the mode and the sustain level, with
/// the one exception of a trigger-mode sustain, which starts its release.
/// Reaching the peak always leads from attack to decay, and a restarted phase
/// timer always belongs to a new, running phase.
pub proof fn lemma_filter_waits_for_threshold(
    phase: FilterEnvPhase,
    mode: FilterEnvMode,
    crossed: bool,
    sustain_positive: bool,
)
    ensures
        !(phase == FilterEnvPhase::Sustain && mode == FilterEnvMode::Trigger)
            ==> spec_filter_after_tick(phase, mode, false, sustain_positive) == phase,
        spec_filter_after_tick(FilterEnvPhase::Attack, mode, true, sustain_positive)
            == FilterEnvPhase::Decay,
        spec_filter_tick_restarts(phase, mode, crossed) ==> {
            let next = spec_filter_after_tick(phase, mode, crossed, sustain_positive);
            next != phase && next != FilterEnvPhase::Idle
        },
{
}

/// A note-off closes the filter over its release time: every envelope that
/// is not idle is releasing afterwards, an idle one stays idle.
pub proof fn lemma_filter_note_off_releases(phase: FilterEnvPhase)
    ensures
        phase != FilterEnvPhase::Idle ==> spec_filter_released(phase) == FilterEnvPhase::Release,
        phase == FilterEnvPhase::Idle ==> spec_filter_released(phase) == FilterEnvPhase::Idle,
{
}

} // verus!
