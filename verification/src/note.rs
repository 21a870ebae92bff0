//! Note handling: which note-ons and note-offs reach the voice.
//!
//! Notes come from three sources: MIDI note events, the editor's trigger and
//! release buttons (counted per audio block), and the automatable trigger
//! parameter (edge detected per block).  Triggered notes sound two octaves
//! below the incoming MIDI note.

use vstd::prelude::*;

verus! {

/// What the voice is asked to do.
#[derive(Debug, Clone, Copy, PartialEq, Eq, Structural)]
pub enum NoteAction {
    /// Start a note on the given (already transposed) note number.
    Trigger(u8),
    /// Release the sounding note.
    Release,
}

/// A MIDI event as the note logic sees it.
#[derive(Debug, Clone, Copy, PartialEq, Eq, Structural)]
pub enum NoteInput {
    /// A note-on; `audible` says that its velocity is above zero (a note-on
    /// of velocity zero is a note-off).
    NoteOn { note: u8, audible: bool },
    /// A note-off.
    NoteOff { note: u8 },
}

/// Note number played for a MIDI note: two octaves down, not below zero.
pub open spec fn spec_played_note(note: u8) -> u8 {
    if note >= 24 {
        (note - 24) as u8
    } else {
        0
    }
}

/// Note used by the editor buttons and the trigger parameter: the held MIDI
/// note, or 36 when none is held, played two octaves down.
pub open spec fn spec_button_note(active: Option<u8>) -> u8 {
    match active {
        Some(n) => spec_played_note(n),
        None => spec_played_note(36),
    }
}

/// Note played for a MIDI note number (two octaves down, saturating at zero).
pub fn played_note(note: u8) -> (n: u8)
    ensures
        n == spec_played_note(note),
        note >= 24 ==> n + 24 == note,
        note < 24 ==> n == 0,
{
    note.saturating_sub(24)
}

/// Which MIDI note is held and the last seen state of the trigger parameter.
#[derive(Debug, Clone, Copy, PartialEq, Eq, Structural)]
pub struct NoteControl {
    pub active_midi_note: Option<u8>,
    pub was_trigger_on: bool,
}

/// The state after a MIDI event.
pub open spec fn spec_after_input(s: NoteControl, input: NoteInput) -> NoteControl {
    match input {
        NoteInput::NoteOn { note, audible } => if audible {
            NoteControl { active_midi_note: Some(note), ..s }
        } else if s.active_midi_note == Some(note) {
            NoteControl { active_midi_note: None, ..s }
        } else {
            s
        },
        NoteInput::NoteOff { note } => if s.active_midi_note == Some(note) {
            NoteControl { active_midi_note: None, ..s }
        } else {
            s
        },
    }
}

/// The action caused by a MIDI event.
pub open spec fn spec_input_action(s: NoteControl, input: NoteInput) -> Option<NoteAction> {
    match input {
        NoteInput::NoteOn { note, audible } => if audible {
            Some(NoteAction::Trigger(spec_played_note(note)))
        } else if s.active_midi_note == Some(note) {
            Some(NoteAction::Release)
        } else {
            None
        },
        NoteInput::NoteOff { note } => if s.active_midi_note == Some(note) {
            Some(NoteAction::Release)
        } else {
            None
        },
    }
}

/// The actions of one audio block's buttons and trigger parameter, in order:
/// a button trigger (if any press was counted), a button release (only if no
/// press was counted), then the parameter's rising edge (trigger) or falling
/// edge (release).
pub open spec fn spec_block_actions(
    s: NoteControl,
    presses: u32,
    releases: u32,
    trigger_param: bool,
) -> Seq<NoteAction> {
    let note = spec_button_note(s.active_midi_note);
    let buttons: Seq<NoteAction> = if presses > 0 {
        seq![NoteAction::Trigger(note)]
    } else if releases > 0 {
        seq![NoteAction::Release]
    } else {
        seq![]
    };
    let edge: Seq<NoteAction> = if trigger_param && !s.was_trigger_on {
        seq![NoteAction::Trigger(note)]
    } else if !trigger_param && s.was_trigger_on {
        seq![NoteAction::Release]
    } else {
        seq![]
    };
    buttons + edge
}

impl NoteControl {
    /// No note held, trigger parameter off.
    pub fn new() -> (s: Self)
        ensures
            s.active_midi_note == None::<u8>,
            !s.was_trigger_on,
    {
        NoteControl { active_midi_note: None, was_trigger_on: false }
    }

    /// Applies one MIDI event and returns what the voice must do.
    pub fn on_input(&mut self, input: NoteInput) -> (action: Option<NoteAction>)
        ensures
            *final(self) == spec_after_input(*old(self), input),
            action == spec_input_action(*old(self), input),
    {
        match input {
            NoteInput::NoteOn { note, audible } => {
                if audible {
                    self.active_midi_note = Some(note);
                    Some(NoteAction::Trigger(played_note(note)))
                } else if self.active_midi_note == Some(note) {
                    self.active_midi_note = None;
                    Some(NoteAction::Release)
                } else {
                    None
                }
            },
            NoteInput::NoteOff { note } => {
                if self.active_midi_note == Some(note) {
                    self.active_midi_note = None;
                    Some(NoteAction::Release)
                } else {
                    None
                }
            },
        }
    }

    /// Handles the block-rate note sources: `presses` and `releases` are the
    /// editor button counts collected since the last block, `trigger_param`
    /// the current value of the trigger parameter.  Returns the actions in
    /// the order the voice must apply them and remembers the parameter.
    pub fn block_actions(&mut self, presses: u32, releases: u32, trigger_param: bool) -> (actions:
        Vec<NoteAction>)
        ensures
            actions@ == spec_block_actions(*old(self), presses, releases, trigger_param),
            final(self).active_midi_note == old(self).active_midi_note,
            final(self).was_trigger_on == trigger_param,
    {
        let note = match self.active_midi_note {
            Some(n) => played_note(n),
            None => played_note(36),
        };
        let mut actions: Vec<NoteAction> = Vec::new();
        if presses > 0 {
            actions.push(NoteAction::Trigger(note));
        }
        if releases > 0 && presses == 0 {
            actions.push(NoteAction::Release);
        }
        let ghost first = actions@;
        if trigger_param && !self.was_trigger_on {
            actions.push(NoteAction::Trigger(note));
        } else if !trigger_param && self.was_trigger_on {
            actions.push(NoteAction::Release);
        }
        proof {
            let s = *old(self);
            let expected = spec_block_actions(s, presses, releases, trigger_param);
            if trigger_param && !s.was_trigger_on {
                assert(actions@ =~= first + seq![NoteAction::Trigger(note)]);
            } else if !trigger_param && s.was_trigger_on {
                assert(actions@ =~= first + seq![NoteAction::Release]);
            } else {
                assert(actions@ =~= first + Seq::<NoteAction>::empty());
            }
            if presses > 0 {
                assert(first =~= seq![NoteAction::Trigger(note)]);
            } else if releases > 0 {
                assert(first =~= seq![NoteAction::Release]);
            } else {
                assert(first =~= Seq::<NoteAction>::empty());
            }
            assert(actions@ =~= expected);
        }
        self.was_trigger_on = trigger_param;
        actions
    }
}

/// A note-off, or a silent note-on, for a note other than the held one
/// changes nothing and does nothing.
pub proof fn lemma_foreign_note_off_ignored(s: NoteControl, note: u8)
    requires
        s.active_midi_note != Some(note),
    ensures
        spec_after_input(s, NoteInput::NoteOff { note }) == s,
        spec_input_action(s, NoteInput::NoteOff { note }) == None::<NoteAction>,
        spec_after_input(s, NoteInput::NoteOn { note, audible: false }) == s,
        spec_input_action(s, NoteInput::NoteOn { note, audible: false }) == None::<NoteAction>,
{
}

/// After an audible note-on the note is held and plays two octaves down; its
/// matching note-off then releases it and leaves no note held.
pub proof fn lemma_note_on_then_off(s: NoteControl, note: u8)
    ensures
        spec_after_input(s, NoteInput::NoteOn { note, audible: true }).active_midi_note == Some(
            note,
        ),
        spec_input_action(s, NoteInput::NoteOn { note, audible: true }) == Some(
            NoteAction::Trigger(spec_played_note(note)),
        ),
        spec_input_action(
            spec_after_input(s, NoteInput::NoteOn { note, audible: true }),
            NoteInput::NoteOff { note },
        ) == Some(NoteAction::Release),
        spec_after_input(
            spec_after_input(s, NoteInput::NoteOn { note, audible: true }),
            NoteInput::NoteOff { note },
        ).active_midi_note == None::<u8>,
        spec_played_note(note) <= note,
{
}

/// The trigger parameter acts on its edges only: holding it on, or off, over
/// further blocks causes no action when no button was used.
pub proof fn lemma_trigger_param_edges(s: NoteControl, on: bool)
    requires
        s.was_trigger_on == on,
    ensures
        spec_block_actions(s, 0, 0, on).len() == 0,
        spec_block_actions(s, 0, 0, !on) == (if on {
            seq![NoteAction::Release]
        } else {
            seq![NoteAction::Trigger(spec_button_note(s.active_midi_note))]
        }),
{
}

/// A counted button press wins over a counted release in the same block.
pub proof fn lemma_press_wins_over_release(s: NoteControl, presses: u32, releases: u32)
    requires
        presses > 0,
        s.was_trigger_on == false,
    ensures
        spec_block_actions(s, presses, releases, false) == seq![
            NoteAction::Trigger(spec_button_note(s.active_midi_note)),
        ],
{
    assert(spec_block_actions(s, presses, releases, false) =~= seq![
        NoteAction::Trigger(spec_button_note(s.active_midi_note)),
    ]);
}

/// The state after a sequence of MIDI events.
pub open spec fn spec_run(s: NoteControl, inputs: Seq<NoteInput>) -> NoteControl
    decreases inputs.len(),
{
    if inputs.len() == 0 {
        s
    } else {
        spec_after_input(spec_run(s, inputs.drop_last()), inputs.last())
    }
}

/// The audible press of note `n`.
pub open spec fn spec_press_of(n: u8) -> NoteInput {
    NoteInput::NoteOn { note: n, audible: true }
}

/// Whether an event presses a note audibly.
pub open spec fn is_press(i: NoteInput) -> bool {
    i matches NoteInput::NoteOn { audible: true, .. }
}

/// Whether an event lets go of note `n` (a note-off, or a silent note-on).
pub open spec fn lets_go(i: NoteInput, n: u8) -> bool {
    i == NoteInput::NoteOff { note: n } || i == NoteInput::NoteOn { note: n, audible: false }
}

/// Whether, from index `from` on, no event presses a note or lets go of `n`.
pub open spec fn undisturbed(inputs: Seq<NoteInput>, n: u8, from: int) -> bool {
    forall|j: int|
        from <= j < inputs.len() ==> !is_press(#[trigger] inputs[j]) && !lets_go(inputs[j], n)
}

/// The synthesiser is monophonic with last-note priority: after any sequence
/// of MIDI events, note `n` is held exactly when its last audible press has
/// not been followed by another press or by letting go of `n` (or, with no
/// such press, when it was held before and nothing since disturbed it).
pub proof fn lemma_last_note_priority(s: NoteControl, inputs: Seq<NoteInput>, n: u8)
    ensures
        spec_run(s, inputs).active_midi_note == Some(n) <==> ((exists|i: int|
            0 <= i < inputs.len() && #[trigger] inputs[i] == spec_press_of(n)
                && undisturbed(inputs, n, i + 1)) || (s.active_midi_note == Some(n) && undisturbed(
            inputs,
            n,
            0,
        ))),
        spec_run(s, inputs).was_trigger_on == s.was_trigger_on,
    decreases inputs.len(),
{
    if inputs.len() > 0 {
        let init = inputs.drop_last();
        let last = inputs.last();
        let k = inputs.len() - 1;
        lemma_last_note_priority(s, init, n);
        let prev = spec_run(s, init);
        // Prefix facts carry over to the whole sequence and back.
        assert forall|i: int| 0 <= i <= k implies undisturbed(inputs, n, i) == (undisturbed(
            init,
            n,
            i,
        ) && !is_press(last) && !lets_go(last, n)) by {
            if undisturbed(inputs, n, i) {
                assert forall|j: int| i <= j < init.len() implies !is_press(#[trigger] init[j])
                    && !lets_go(init[j], n) by {
                    assert(init[j] == inputs[j]);
                }
                assert(inputs[k] == last);
            }
            if undisturbed(init, n, i) && !is_press(last) && !lets_go(last, n) {
                assert forall|j: int| i <= j < inputs.len() implies !is_press(#[trigger] inputs[j])
                    && !lets_go(inputs[j], n) by {
                    if j < k {
                        assert(init[j] == inputs[j]);
                    }
                }
            }
        }
        if last == spec_press_of(n) {
            assert(undisturbed(inputs, n, k + 1));
            assert(inputs[k] == last);
        } else {
            if exists|i: int|
                0 <= i < inputs.len() && #[trigger] inputs[i] == spec_press_of(n)
                    && undisturbed(inputs, n, i + 1) {
                let i = choose|i: int|
                    0 <= i < inputs.len() && #[trigger] inputs[i] == spec_press_of(n)
                        && undisturbed(inputs, n, i + 1);
                assert(i < k);
                assert(init[i] == inputs[i]);
            }
            if exists|i: int|
                0 <= i < init.len() && #[trigger] init[i] == spec_press_of(n)
                    && undisturbed(init, n, i + 1) {
                let i = choose|i: int|
                    0 <= i < init.len() && #[trigger] init[i] == spec_press_of(n)
                        && undisturbed(init, n, i + 1);
                assert(inputs[i] == init[i]);
                if !is_press(last) && !lets_go(last, n) {
                    assert(undisturbed(inputs, n, i + 1));
                }
            }
        }
    }
}

/// A note plays exactly two octaves below the MIDI note, saturating only at
/// zero: every note from 24 up keeps its own pitch, 24 semitones down, so
/// distinct notes there stay distinct and in order.
pub proof fn lemma_two_octaves_down(note: u8, other: u8)
    ensures
        note >= 24 ==> spec_played_note(note) + 24 == note,
        note < 24 ==> spec_played_note(note) == 0,
        24 <= note < other ==> spec_played_note(note) < spec_played_note(other),
{
}

} // verus!
