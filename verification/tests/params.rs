use kick_synth::params::{
    drive_model_label, filter_trigger_label, loudness_field, parse_filter_trigger,
    texture_type_label, waveform_label, DriveModel, NamModel, OscillatorMode, TextureKind,
};

#[test]
fn oscillator_modes() {
    assert_eq!(OscillatorMode::from_param(1), OscillatorMode::Sine);
    assert_eq!(OscillatorMode::from_param(2), OscillatorMode::Octave);
    assert_eq!(OscillatorMode::from_param(3), OscillatorMode::Fifth);
    assert_eq!(OscillatorMode::from_param(4), OscillatorMode::Warm);
    assert_eq!(OscillatorMode::from_param(5), OscillatorMode::Sub);
    assert_eq!(OscillatorMode::from_param(0), OscillatorMode::Sine);
    assert_eq!(OscillatorMode::from_param(9), OscillatorMode::Sine);
    assert!(OscillatorMode::Sub.uses_sub_phase());
    assert!(!OscillatorMode::Octave.uses_sub_phase());
}

#[test]
fn texture_kinds() {
    assert_eq!(TextureKind::from_param(1), Some(TextureKind::Dust));
    assert_eq!(TextureKind::from_param(2), Some(TextureKind::Crackle));
    assert_eq!(TextureKind::from_param(3), Some(TextureKind::Sampled));
    assert_eq!(TextureKind::from_param(4), Some(TextureKind::Organic));
    assert_eq!(TextureKind::from_param(5), Some(TextureKind::Vinyl));
    assert_eq!(TextureKind::from_param(6), Some(TextureKind::Zap));
    assert_eq!(TextureKind::from_param(0), None);
    assert_eq!(TextureKind::from_param(7), None);
}

#[test]
fn drive_models() {
    assert_eq!(DriveModel::from_param(1), DriveModel::TapeClassic);
    assert_eq!(DriveModel::from_param(2), DriveModel::TapeModern);
    assert_eq!(DriveModel::from_param(3), DriveModel::TubeTriode);
    assert_eq!(DriveModel::from_param(4), DriveModel::TubePentode);
    assert_eq!(DriveModel::from_param(5), DriveModel::Digital);
    assert_eq!(DriveModel::from_param(-3), DriveModel::TapeClassic);
}

#[test]
fn parameter_labels() {
    let w: Vec<String> = (0..=6).map(waveform_label).collect();
    assert_eq!(w, ["Unknown", "Sine", "Octave", "Fifth", "Warm", "Sub", "Unknown"]);
    let d: Vec<String> = (0..=6).map(drive_model_label).collect();
    assert_eq!(
        d,
        ["Unknown", "Tape Classic", "Tape Modern", "Tube Triode", "Tube Pentode", "Digital", "Unknown"]
    );
    let t: Vec<String> = (0..=7).map(texture_type_label).collect();
    assert_eq!(t, ["Unknown", "Dust", "Crackle", "Sampled", "Organic", "Vinyl", "Zap", "Unknown"]);
}

#[test]
fn filter_trigger_text() {
    assert_eq!(filter_trigger_label(true), "Trigger");
    assert_eq!(filter_trigger_label(false), "Gate");
    assert_eq!(parse_filter_trigger("trigger"), Some(true));
    assert_eq!(parse_filter_trigger("  ON "), Some(true));
    assert_eq!(parse_filter_trigger("True"), Some(true));
    assert_eq!(parse_filter_trigger("GATE"), Some(false));
    assert_eq!(parse_filter_trigger("off\n"), Some(false));
    assert_eq!(parse_filter_trigger("false"), Some(false));
    assert_eq!(parse_filter_trigger("maybe"), None);
    assert_eq!(parse_filter_trigger(""), None);
    assert_eq!(parse_filter_trigger("o n"), None);
}

#[test]
fn filter_trigger_round_trip() {
    for v in [true, false] {
        assert_eq!(parse_filter_trigger(&filter_trigger_label(v)), Some(v));
    }
}

#[test]
fn nam_gains() {
    assert_eq!(NamModel::PhilipsEL3541D.pre_input_db(), 0);
    assert_eq!(NamModel::CultureVulture.pre_input_db(), 0);
    assert_eq!(NamModel::JH24.pre_input_db(), 15);
    assert_eq!(NamModel::PhilipsEL3541D.reference_trim_db(), -5);
    assert_eq!(NamModel::CultureVulture.reference_trim_db(), -2);
    assert_eq!(NamModel::JH24.reference_trim_db(), 3);
}

#[test]
fn loudness_field_extraction() {
    let json = r#"{"version": "0.5", "metadata": {"loudness": -12.5, "gain": 1}}"#;
    assert_eq!(loudness_field(json), Some("-12.5".to_string()));
    assert_eq!(loudness_field(r#"{"loudness":   -3}"#), Some("-3".to_string()));
    assert_eq!(loudness_field(r#"{"loudness":-20.25}"#), Some("-20.25".to_string()));
    assert_eq!(loudness_field(r#"{"loud": 1}"#), None);
    assert_eq!(loudness_field(""), None);
    assert_eq!(loudness_field(r#""loudness":"#), Some(String::new()));
    // The first occurrence wins.
    assert_eq!(loudness_field(r#"{"loudness": 1, "loudness": 2}"#), Some("1".to_string()));
    assert_eq!(
        loudness_field(r#"{"loudness": null}"#).map(|t| t.parse::<f32>().is_ok()),
        Some(false)
    );
}
