# kick_synth

Control logic of a kick-drum synthesiser plugin, verified with Verus.

`src/` is the verified library:

- `envelope` — phases of the amplitude and texture envelopes, note-on,
  note-off and retrigger hand-off of a voice.
- `filter` — filter types, their routing to the ladder or state-variable
  filter, the filter's place in the signal chain, the filter envelope's
  trigger/gate phase machine.
- `note` — MIDI note-on/off, editor buttons and trigger automation turned
  into trigger and release actions (monophonic, last-note priority).
- `presets` — preset banks, categories and the editor's preset browser,
  save locations.
- `params` — oscillator, texture, drive and amp-model choices, parameter
  labels, the filter-trigger switch text, the loudness field of `.nam` files.
- `delay` — the corrosion effect's circular stereo delay line.
- `text` — trimming and file-name sanitising.
- `rng` — the linear congruential noise generator.

`app/` is the audio plugin around it (nih-plug and vizia): all floating-point
sample processing, the GUI, file I/O and preset (de)serialisation.
`tests/` exercises the library on concrete values.
