//! Choices behind the synthesiser's integer and switch parameters: oscillator
//! modes, texture types, drive models, amp models, and how they are shown and
//! parsed.

use vstd::prelude::*;
use vstd::string::*;

use crate::text::{
    char_is_whitespace, chars_of, is_white_space, lemma_trim_start, lowercase, str_to_lowercase,
    string_of, trim, trim_bounds, trim_pred, trim_start_by, trim_ws,
};

verus! {

/// Oscillator waveform mode (parameter values 1 to 5).
#[derive(Debug, Clone, Copy, PartialEq, Eq, Structural)]
pub enum OscillatorMode {
    /// Pure sine.
    Sine,
    /// Sine plus the octave above.
    Octave,
    /// Sine plus the fifth above.
    Fifth,
    /// Softly saturated sine.
    Warm,
    /// Sine plus the octave below.
    Sub,
}

/// Mode played for a waveform parameter value; values outside 1 to 5 play a
/// sine.
pub open spec fn spec_oscillator_mode(value: i32) -> OscillatorMode {
    if value == 2 {
        OscillatorMode::Octave
    } else if value == 3 {
        OscillatorMode::Fifth
    } else if value == 4 {
        OscillatorMode::Warm
    } else if value == 5 {
        OscillatorMode::Sub
    } else {
        OscillatorMode::Sine
    }
}

impl OscillatorMode {
    /// Mode played for a waveform parameter value (see `spec_oscillator_mode`).
    pub fn from_param(value: i32) -> (m: Self)
        ensures
            m == spec_oscillator_mode(value),
    {
        match value {
            2 => OscillatorMode::Octave,
            3 => OscillatorMode::Fifth,
            4 => OscillatorMode::Warm,
            5 => OscillatorMode::Sub,
            _ => OscillatorMode::Sine,
        }
    }

    /// Whether the mode needs the independent half-speed phase (sub octave).
    pub fn uses_sub_phase(self) -> (b: bool)
        ensures
            b == (self == OscillatorMode::Sub),
    {
        self == OscillatorMode::Sub
    }
}

/// Texture layer type (parameter values 1 to 6).
#[derive(Debug, Clone, Copy, PartialEq, Eq, Structural)]
pub enum TextureKind {
    /// Sparse filtered noise.
    Dust,
    /// Cubic-shaped noise.
    Crackle,
    /// Looped brown noise.
    Sampled,
    /// FM wavetable.
    Organic,
    /// Hiss and pops.
    Vinyl,
    /// Laser-like FM.
    Zap,
}

/// Texture played for a texture-type parameter value; values outside 1 to 6
/// play none.
pub open spec fn spec_texture_kind(value: i32) -> Option<TextureKind> {
    if value == 1 {
        Some(TextureKind::Dust)
    } else if value == 2 {
        Some(TextureKind::Crackle)
    } else if value == 3 {
        Some(TextureKind::Sampled)
    } else if value == 4 {
        Some(TextureKind::Organic)
    } else if value == 5 {
        Some(TextureKind::Vinyl)
    } else if value == 6 {
        Some(TextureKind::Zap)
    } else {
        None
    }
}

impl TextureKind {
    /// Texture played for a parameter value (see `spec_texture_kind`).
    pub fn from_param(value: i32) -> (k: Option<Self>)
        ensures
            k == spec_texture_kind(value),
    {
        match value {
            1 => Some(TextureKind::Dust),
            2 => Some(TextureKind::Crackle),
            3 => Some(TextureKind::Sampled),
            4 => Some(TextureKind::Organic),
            5 => Some(TextureKind::Vinyl),
            6 => Some(TextureKind::Zap),
            _ => None,
        }
    }
}

/// Saturation model of the drive stage (parameter values 1 to 5).
#[derive(Debug, Clone, Copy, PartialEq, Eq, Structural)]
pub enum DriveModel {
    TapeClassic,
    TapeModern,
    TubeTriode,
    TubePentode,
    Digital,
}

/// Model used for a drive-model parameter value; values outside 1 to 5 use
/// the classic tape model.
pub open spec fn spec_drive_model(value: i32) -> DriveModel {
    if value == 2 {
        DriveModel::TapeModern
    } else if value == 3 {
        DriveModel::TubeTriode
    } else if value == 4 {
        DriveModel::TubePentode
    } else if value == 5 {
        DriveModel::Digital
    } else {
        DriveModel::TapeClassic
    }
}

impl DriveModel {
    /// Model used for a parameter value (see `spec_drive_model`).
    pub fn from_param(value: i32) -> (m: Self)
        ensures
            m == spec_drive_model(value),
    {
        match value {
            2 => DriveModel::TapeModern,
            3 => DriveModel::TubeTriode,
            4 => DriveModel::TubePentode,
            5 => DriveModel::Digital,
            _ => DriveModel::TapeClassic,
        }
    }
}

/// Display text of a waveform parameter value.
pub open spec fn spec_waveform_label(value: i32) -> Seq<char> {
    if value == 1 {
        "Sine"@
    } else if value == 2 {
        "Octave"@
    } else if value == 3 {
        "Fifth"@
    } else if value == 4 {
        "Warm"@
    } else if value == 5 {
        "Sub"@
    } else {
        "Unknown"@
    }
}

/// Display text of a drive-model parameter value.
pub open spec fn spec_drive_model_label(value: i32) -> Seq<char> {
    if value == 1 {
        "Tape Classic"@
    } else if value == 2 {
        "Tape Modern"@
    } else if value == 3 {
        "Tube Triode"@
    } else if value == 4 {
        "Tube Pentode"@
    } else if value == 5 {
        "Digital"@
    } else {
        "Unknown"@
    }
}

/// Display text of a texture-type parameter value.
pub open spec fn spec_texture_type_label(value: i32) -> Seq<char> {
    if value == 1 {
        "Dust"@
    } else if value == 2 {
        "Crackle"@
    } else if value == 3 {
        "Sampled"@
    } else if value == 4 {
        "Organic"@
    } else if value == 5 {
        "Vinyl"@
    } else if value == 6 {
        "Zap"@
    } else {
        "Unknown"@
    }
}

/// Display text of a waveform parameter value.
pub fn waveform_label(value: i32) -> (r: String)
    ensures
        r@ == spec_waveform_label(value),
{
    let s = match value {
        1 => "Sine",
        2 => "Octave",
        3 => "Fifth",
        4 => "Warm",
        5 => "Sub",
        _ => "Unknown",
    };
    String::from_str(s)
}

/// Display text of a drive-model parameter value.
pub fn drive_model_label(value: i32) -> (r: String)
    ensures
        r@ == spec_drive_model_label(value),
{
    let s = match value {
        1 => "Tape Classic",
        2 => "Tape Modern",
        3 => "Tube Triode",
        4 => "Tube Pentode",
        5 => "Digital",
        _ => "Unknown",
    };
    String::from_str(s)
}

/// Display text of a texture-type parameter value.
pub fn texture_type_label(value: i32) -> (r: String)
    ensures
        r@ == spec_texture_type_label(value),
{
    let s = match value {
        1 => "Dust",
        2 => "Crackle",
        3 => "Sampled",
        4 => "Organic",
        5 => "Vinyl",
        6 => "Zap",
        _ => "Unknown",
    };
    String::from_str(s)
}

/// Display text of the filter-trigger switch.
pub open spec fn spec_filter_trigger_label(trigger: bool) -> Seq<char> {
    if trigger {
        "Trigger"@
    } else {
        "Gate"@
    }
}

/// Value of the filter-trigger switch typed by the user: after trimming and
/// lowercasing, "trigger", "on" and "true" mean trigger mode, "gate", "off"
/// and "false" gate mode; anything else is rejected.
pub open spec fn spec_parse_filter_trigger(s: Seq<char>) -> Option<bool> {
    let t = lowercase(trim_ws(s));
    if t == "trigger"@ || t == "on"@ || t == "true"@ {
        Some(true)
    } else if t == "gate"@ || t == "off"@ || t == "false"@ {
        Some(false)
    } else {
        None
    }
}

/// Display text of the filter-trigger switch.
pub fn filter_trigger_label(trigger: bool) -> (r: String)
    ensures
        r@ == spec_filter_trigger_label(trigger),
{
    if trigger {
        String::from_str("Trigger")
    } else {
        String::from_str("Gate")
    }
}

fn equals_literal(s: &String, lit: &str) -> (b: bool)
    ensures
        b == (s@ == lit@),
{
    let l = String::from_str(lit);
    *s == l
}

/// Parses the filter-trigger switch from user text (see
/// `spec_parse_filter_trigger`).
pub fn parse_filter_trigger(s: &str) -> (r: Option<bool>)
    ensures
        r == spec_parse_filter_trigger(s@),
{
    let t = trim(s);
    let l = str_to_lowercase(t.as_str());
    if equals_literal(&l, "trigger") || equals_literal(&l, "on") || equals_literal(&l, "true") {
        Some(true)
    } else if equals_literal(&l, "gate") || equals_literal(&l, "off") || equals_literal(
        &l,
        "false",
    ) {
        Some(false)
    } else {
        None
    }
}

/// Neural amp model.
#[derive(Debug, Clone, Copy, PartialEq, Eq, Structural)]
pub enum NamModel {
    PhilipsEL3541D,
    CultureVulture,
    JH24,
}

impl NamModel {
    /// Fixed gain (dB) applied before the model, shifting its saturation
    /// onset to a level comparable with the other models: the clean tape
    /// model gets 15 dB, the others none.
    pub fn pre_input_db(self) -> (db: i32)
        ensures
            db == (if self == NamModel::JH24 {
                15i32
            } else {
                0i32
            }),
    {
        match self {
            NamModel::PhilipsEL3541D => 0,
            NamModel::CultureVulture => 0,
            NamModel::JH24 => 15,
        }
    }

    /// Empirical output trim (dB) added on top of the loudness calibration.
    pub fn reference_trim_db(self) -> (db: i32)
        ensures
            db == (match self {
                NamModel::PhilipsEL3541D => -5i32,
                NamModel::CultureVulture => -2i32,
                NamModel::JH24 => 3i32,
            }),
    {
        match self {
            NamModel::PhilipsEL3541D => -5,
            NamModel::CultureVulture => -2,
            NamModel::JH24 => 3,
        }
    }
}

/// The key that introduces a model's integrated loudness in a `.nam` file.
pub open spec fn loudness_key() -> Seq<char> {
    seq!['"', 'l', 'o', 'u', 'd', 'n', 'e', 's', 's', '"', ':']
}

/// Start of the first occurrence of `key` in `s` at or after `from`.
pub open spec fn first_occurrence(s: Seq<char>, key: Seq<char>, from: int) -> Option<int>
    decreases s.len() + 1 - from,
{
    if from < 0 || from + key.len() > s.len() {
        None
    } else if s.subrange(from, from + key.len()) == key {
        Some(from)
    } else {
        first_occurrence(s, key, from + 1)
    }
}

/// Characters that end a loudness value: ',', '}' and white space.
pub open spec fn ends_value(c: char) -> bool {
    c == ',' || c == '}' || is_white_space(c)
}

/// Number of leading characters of `s` that do not end a value.
pub open spec fn value_len(s: Seq<char>) -> nat
    decreases s.len(),
{
    if s.len() == 0 || ends_value(s[0]) {
        0
    } else {
        1 + value_len(s.drop_first())
    }
}

/// The text of the loudness value in a `.nam` file: after the first
/// `"loudness":`, white space skipped, up to the next ',', '}' or white space,
/// trimmed.  `None` when the key is absent.
pub open spec fn spec_loudness_field(content: Seq<char>) -> Option<Seq<char>> {
    match first_occurrence(content, loudness_key(), 0) {
        None => None,
        Some(i) => {
            let rest = trim_start_by(
                content.subrange(i + loudness_key().len(), content.len() as int),
                trim_pred(false),
            );
            Some(trim_ws(rest.take(value_len(rest) as int)))
        },
    }
}

proof fn lemma_value_len(s: Seq<char>, j: int)
    requires
        0 <= j <= s.len(),
        forall|k: int| 0 <= k < j ==> !ends_value(#[trigger] s[k]),
        j == s.len() || ends_value(s[j]),
    ensures
        value_len(s) == j,
    decreases j,
{
    if j > 0 {
        let t = s.drop_first();
        assert forall|k: int| 0 <= k < j - 1 implies !ends_value(#[trigger] t[k]) by {
            assert(t[k] == s[k + 1]);
        }
        if j < s.len() {
            assert(t[j - 1] == s[j]);
        }
        lemma_value_len(t, j - 1);
    }
}

/// The text of the loudness value in a `.nam` file (see
/// `spec_loudness_field`); the host parses it as a number.
pub fn loudness_field(content: &str) -> (r: Option<String>)
    ensures
        r matches Some(t) ==> spec_loudness_field(content@) == Some(t@),
        r is None ==> spec_loudness_field(content@) is None,
{
    let v = chars_of(content);
    let key = chars_of("\"loudness\":");
    proof {
        reveal_strlit("\"loudness\":");
        assert(key@ =~= loudness_key());
    }
    let n = v.len();
    let k = key.len();
    let mut i: usize = 0;
    let mut found = false;
    while i < n && k <= n - i
        invariant
            n == v@.len(),
            k == key@.len(),
            key@ == loudness_key(),
            first_occurrence(v@, key@, 0) == first_occurrence(v@, key@, i as int),
            found ==> i + k <= n && v@.subrange(i as int, i + k) == key@,
        ensures
            found ==> i + k <= n && v@.subrange(i as int, i + k) == key@,
            !found ==> (i >= n || k > n - i),
            first_occurrence(v@, key@, 0) == first_occurrence(v@, key@, i as int),
        decreases n - i,
    {
        let mut j: usize = 0;
        let mut same = true;
        while j < k
            invariant
                i + k <= n == v@.len(),
                k == key@.len(),
                j <= k,
                same == forall|m: int| 0 <= m < j ==> v@[i + m] == key@[m],
            decreases k - j,
        {
            if v[i + j] != key[j] {
                same = false;
            }
            j += 1;
        }
        assert(same == (v@.subrange(i as int, i + k) =~= key@));
        if same {
            found = true;
            break;
        }
        i += 1;
    }
    if !found {
        assert(first_occurrence(v@, key@, i as int) is None);
        return None;
    }
    assert(first_occurrence(v@, key@, i as int) == Some(i as int));
    // Skip white space after the key.
    let mut a: usize = i + k;
    while a < n
        invariant
            i + k <= a <= n == v@.len(),
            forall|m: int| i + k <= m < a ==> is_white_space(#[trigger] v@[m]),
        ensures
            i + k <= a <= n,
            forall|m: int| i + k <= m < a ==> is_white_space(#[trigger] v@[m]),
            a == n || !is_white_space(v@[a as int]),
        decreases n - a,
    {
        if !char_is_whitespace(v[a]) {
            break;
        }
        a += 1;
    }
    // Extent of the value.
    let mut b: usize = a;
    while b < n
        invariant
            a <= b <= n == v@.len(),
            forall|m: int| a <= m < b ==> !ends_value(#[trigger] v@[m]),
        ensures
            a <= b <= n,
            forall|m: int| a <= m < b ==> !ends_value(#[trigger] v@[m]),
            b == n || ends_value(v@[b as int]),
        decreases n - b,
    {
        let c = v[b];
        if c == ',' || c == '}' || char_is_whitespace(c) {
            break;
        }
        b += 1;
    }
    let mut value: Vec<char> = Vec::new();
    for m in a..b
        invariant
            a <= b <= n == v@.len(),
            value@ == v@.subrange(a as int, m as int),
    {
        value.push(v[m]);
        assert(value@ =~= v@.subrange(a as int, m + 1));
    }
    proof {
        let after = v@.subrange(i + k, n as int);
        assert forall|m: int| 0 <= m < a - (i + k) implies (trim_pred(false))(#[trigger] after[m]) by {
            assert(after[m] == v@[m + i + k]);
        }
        if a < n {
            assert(after[a - (i + k)] == v@[a as int]);
        }
        lemma_trim_start(after, trim_pred(false), a - (i + k));
        let rest = after.subrange(a - (i + k), after.len() as int);
        assert(rest =~= v@.subrange(a as int, n as int));
        assert forall|m: int| 0 <= m < b - a implies !ends_value(#[trigger] rest[m]) by {
            assert(rest[m] == v@[m + a]);
        }
        if b < n {
            assert(rest[b - a] == v@[b as int]);
        }
        lemma_value_len(rest, b - a);
        assert(rest.take(b - a) =~= value@);
    }
    let (c, d) = trim_bounds(&value, false);
    Some(string_of(&value, c, d))
}

} // verus!
