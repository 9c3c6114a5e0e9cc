use constraint_audio::synth::{first_equal_name, join_names};
use constraint_audio::{
    builtin_preset_names, builtin_voices, find_preset, unknown_preset_message, FilterType,
    LatticeShape,
};

fn builtin_names() -> Vec<String> {
    builtin_preset_names()
}

#[test]
fn builtin_catalogue() {
    assert_eq!(
        builtin_preset_names(),
        vec!["EisensteinBass", "LatticeLead", "HarmonicBell", "ConsonancePad", "GlitchLattice"]
    );
    let voices = builtin_voices();
    assert_eq!(voices.len(), 5);
    assert_eq!(voices[0].shape, LatticeShape::Eisenstein);
    assert_eq!(voices[0].filter_type, FilterType::Lowpass);
    assert_eq!(voices[1].shape, LatticeShape::Saw);
    assert_eq!(voices[2].shape, LatticeShape::Triangle);
    assert_eq!(voices[2].filter_type, FilterType::Bandpass);
    assert_eq!(voices[3].shape, LatticeShape::Sine);
    assert_eq!(voices[4].name, "GlitchLattice");
    assert_eq!(voices[4].shape, LatticeShape::Square);
    assert_eq!(voices[4].filter_type, FilterType::Highpass);
}

#[test]
fn find_preset_ignores_case() {
    let names = builtin_names();
    assert_eq!(find_preset(&names, "EisensteinBass"), Some(0));
    assert_eq!(find_preset(&names, "eisensteinbass"), Some(0));
    assert_eq!(find_preset(&names, "HARMONICBELL"), Some(2));
    assert_eq!(find_preset(&names, "glitchLattice"), Some(4));
}

#[test]
fn find_preset_misses() {
    let names = builtin_names();
    assert_eq!(find_preset(&names, "Lattice"), None);
    assert_eq!(find_preset(&names, ""), None);
    assert_eq!(find_preset(&Vec::new(), "LatticeLead"), None);
}

#[test]
fn find_preset_takes_the_first_match() {
    let names = vec!["pad".to_string(), "Lead".to_string(), "LEAD".to_string()];
    assert_eq!(find_preset(&names, "lead"), Some(1));
}

#[test]
fn join_names_separates_with_commas() {
    assert_eq!(join_names(&Vec::new()), "");
    assert_eq!(join_names(&vec!["a".to_string()]), "a");
    assert_eq!(
        join_names(&builtin_names()),
        "EisensteinBass, LatticeLead, HarmonicBell, ConsonancePad, GlitchLattice"
    );
}

#[test]
fn unknown_preset_message_lists_presets() {
    assert_eq!(
        unknown_preset_message("Organ", &builtin_names()),
        "Unknown preset 'Organ'. Available: EisensteinBass, LatticeLead, HarmonicBell, ConsonancePad, GlitchLattice"
    );
}

#[test]
fn first_equal_name_is_exact_and_first() {
    let names = vec!["pad".to_string(), "lead".to_string(), "lead".to_string()];
    assert_eq!(first_equal_name(&names, "lead"), Some(1));
    assert_eq!(first_equal_name(&names, "pad"), Some(0));
    assert_eq!(first_equal_name(&names, "Lead"), None);
    assert_eq!(first_equal_name(&names, "bass"), None);
    assert_eq!(first_equal_name(&Vec::new(), "pad"), None);
}
