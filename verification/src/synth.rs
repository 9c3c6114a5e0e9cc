//! The integer side of the synthesizer: which stage of an ADSR envelope each
//! sample falls in, and the lookup of built-in presets by name.

use vstd::prelude::*;

use crate::constraint_filter::FilterType;
use crate::lattice_oscillator::LatticeShape;
use crate::text::{joined, to_lowercase, unicode_lowercase};

verus! {

/// The stage of an ADSR envelope that one sample falls in.
///
/// A ramp stage holds the sample's position `pos` within the ramp and the
/// ramp's length `len` (at least 1): the ramp has advanced `pos / len` of the
/// way at that sample.
#[derive(Debug, Clone, Copy, PartialEq, Eq, Structural)]
pub enum EnvelopeSegment {
    /// Ramp from 0 up to 1.
    Attack { pos: usize, len: usize },
    /// Ramp from 1 down to the sustain level.
    Decay { pos: usize, len: usize },
    /// Hold at the sustain level.
    Sustain,
    /// Ramp from the sustain level down to 0.
    Release { pos: usize, len: usize },
}

/// A stage length as a divisor: the length, or 1 for an empty stage.
pub open spec fn divisor(len: usize) -> usize {
    if len == 0 { 1 } else { len }
}

/// The stage of sample `i` in an envelope of `num` samples whose attack,
/// decay and release stages last `attack`, `decay` and `release` samples.
/// Attack and decay come first; the release takes the last `release`
/// samples that follow them; sustain fills what is left between.
pub open spec fn segment_at(i: usize, num: usize, attack: usize, decay: usize, release: usize) -> EnvelopeSegment {
    if i < attack {
        EnvelopeSegment::Attack { pos: i, len: divisor(attack) }
    } else if i < attack + decay {
        EnvelopeSegment::Decay { pos: (i - attack) as usize, len: divisor(decay) }
    } else if i < num - release {
        EnvelopeSegment::Sustain
    } else {
        EnvelopeSegment::Release { pos: (i - (num - release)) as usize, len: divisor(release) }
    }
}

/// The order of the stages: attack, decay, sustain, release.
pub open spec fn stage_rank(s: EnvelopeSegment) -> int {
    match s {
        EnvelopeSegment::Attack { .. } => 0,
        EnvelopeSegment::Decay { .. } => 1,
        EnvelopeSegment::Sustain => 2,
        EnvelopeSegment::Release { .. } => 3,
    }
}

/// The stage lengths fit an envelope of `num` samples: the end of the decay
/// is representable once a sample reaches it, and the release is no longer
/// than the envelope once a sample passes the decay.
pub open spec fn layout_fits(num: usize, attack: usize, decay: usize, release: usize) -> bool {
    &&& num > attack ==> attack + decay <= usize::MAX
    &&& num > attack + decay ==> release <= num
}

/// Where sample `i` stands, stated from the stage lengths alone: the attack
/// takes samples `[0, attack)`, the decay `[attack, attack + decay)`, the
/// release every later sample from `num - release` on, and sustain the rest.
/// Each ramp position counts from the start of its own ramp (the release
/// from `num - release`, even when attack and decay overlap it), and each
/// ramp length is the stage length, or 1 for an empty stage.
pub open spec fn stage_is_placed(s: EnvelopeSegment, i: usize, num: usize, attack: usize, decay: usize, release: usize) -> bool {
    &&& (s is Attack) <==> i < attack
    &&& (s is Decay) <==> (attack <= i && i < attack + decay)
    &&& (s is Sustain) <==> (attack + decay <= i && i < num - release)
    &&& (s is Release) <==> (attack + decay <= i && num - release <= i)
    &&& s matches EnvelopeSegment::Attack { pos, len } ==> pos == i && len == (if attack == 0 { 1 } else { attack })
    &&& s matches EnvelopeSegment::Decay { pos, len } ==> pos == i - attack && len == (if decay == 0 { 1 } else { decay })
    &&& s matches EnvelopeSegment::Release { pos, len } ==> pos == i - (num - release) && len == (if release == 0 { 1 } else { release })
}

/// The stage of sample `i` of the envelope.
pub fn envelope_segment(i: usize, num: usize, attack: usize, decay: usize, release: usize) -> (s: EnvelopeSegment)
    requires
        attack <= i ==> attack + decay <= usize::MAX,
        attack + decay <= i ==> release <= num,
    ensures
        s == segment_at(i, num, attack, decay, release),
        stage_is_placed(s, i, num, attack, decay, release),
{
    if i < attack {
        EnvelopeSegment::Attack { pos: i, len: if attack == 0 { 1 } else { attack } }
    } else if i < attack + decay {
        EnvelopeSegment::Decay { pos: i - attack, len: if decay == 0 { 1 } else { decay } }
    } else if i < num - release {
        EnvelopeSegment::Sustain
    } else {
        EnvelopeSegment::Release { pos: i - (num - release), len: if release == 0 { 1 } else { release } }
    }
}

/// The stage of every sample of an envelope of `num` samples, in order.
pub fn envelope_segments(num: usize, attack: usize, decay: usize, release: usize) -> (v: Vec<EnvelopeSegment>)
    requires
        layout_fits(num, attack, decay, release),
    ensures
        v@.len() == num,
        forall|i: int| 0 <= i < num ==> v@[i] == segment_at(i as usize, num, attack, decay, release),
        forall|i: int| 0 <= i < num ==> stage_is_placed(#[trigger] v@[i], i as usize, num, attack, decay, release),
{
    let mut v: Vec<EnvelopeSegment> = Vec::with_capacity(num);
    let mut i: usize = 0;
    while i < num
        invariant
            i <= num,
            layout_fits(num, attack, decay, release),
            v@.len() == i,
            forall|j: int| 0 <= j < i ==> v@[j] == segment_at(j as usize, num, attack, decay, release),
            forall|j: int| 0 <= j < i ==> stage_is_placed(#[trigger] v@[j], j as usize, num, attack, decay, release),
        decreases num - i,
    {
        let s = envelope_segment(i, num, attack, decay, release);
        v.push(s);
        i = i + 1;
    }
    v
}

/// Every sample's stage is placed by the stage lengths alone: sustain holds
/// exactly between the end of the decay and the start of the release (also
/// when the decay is empty), and a release sample's position is its distance
/// from `num - release` (also when the release overlaps attack and decay).
pub proof fn lemma_stage_of_each_sample(i: usize, num: usize, attack: usize, decay: usize, release: usize)
    requires
        layout_fits(num, attack, decay, release),
        i < num,
    ensures
        (segment_at(i, num, attack, decay, release) is Attack) <==> i < attack,
        (segment_at(i, num, attack, decay, release) is Decay) <==> (attack <= i && i < attack + decay),
        (segment_at(i, num, attack, decay, release) is Sustain) <==> (attack + decay <= i && i < num - release),
        (segment_at(i, num, attack, decay, release) is Release) <==> (attack + decay <= i && num - release <= i),
        i < attack ==> segment_at(i, num, attack, decay, release)
            == (EnvelopeSegment::Attack { pos: i, len: if attack == 0 { 1 } else { attack } }),
        attack <= i < attack + decay ==> segment_at(i, num, attack, decay, release)
            == (EnvelopeSegment::Decay { pos: (i - attack) as usize, len: if decay == 0 { 1 } else { decay } }),
        attack + decay <= i < num - release ==> segment_at(i, num, attack, decay, release) == EnvelopeSegment::Sustain,
        attack + decay <= i && num - release <= i ==> segment_at(i, num, attack, decay, release)
            == (EnvelopeSegment::Release { pos: (i - (num - release)) as usize, len: if release == 0 { 1 } else { release } }),
{
}

/// The stages come in order: attack, then decay, then sustain, then release.
pub proof fn lemma_stages_in_order(i: usize, j: usize, num: usize, attack: usize, decay: usize, release: usize)
    requires
        layout_fits(num, attack, decay, release),
        i <= j < num,
    ensures
        stage_rank(segment_at(i, num, attack, decay, release)) <= stage_rank(segment_at(j, num, attack, decay, release)),
{
}

/// Every ramp sample lies strictly before the end of its ramp, so the
/// fraction `pos / len` of a ramp is in `[0, 1)`.
pub proof fn lemma_ramp_position_below_length(i: usize, num: usize, attack: usize, decay: usize, release: usize)
    requires
        layout_fits(num, attack, decay, release),
        i < num,
    ensures
        match segment_at(i, num, attack, decay, release) {
            EnvelopeSegment::Attack { pos, len } => 1 <= len && pos < len,
            EnvelopeSegment::Decay { pos, len } => 1 <= len && pos < len,
            EnvelopeSegment::Release { pos, len } => 1 <= len && pos < len,
            EnvelopeSegment::Sustain => true,
        },
{
}

/// Within a ramp, consecutive samples advance the position by one.
pub proof fn lemma_ramp_advances(i: usize, num: usize, attack: usize, decay: usize, release: usize)
    requires
        layout_fits(num, attack, decay, release),
        i + 1 < num,
        stage_rank(segment_at(i, num, attack, decay, release)) == stage_rank(segment_at((i + 1) as usize, num, attack, decay, release)),
    ensures
        match (segment_at(i, num, attack, decay, release), segment_at((i + 1) as usize, num, attack, decay, release)) {
            (EnvelopeSegment::Attack { pos: p, len: l }, EnvelopeSegment::Attack { pos: q, len: m }) => q == p + 1 && l == m,
            (EnvelopeSegment::Decay { pos: p, len: l }, EnvelopeSegment::Decay { pos: q, len: m }) => q == p + 1 && l == m,
            (EnvelopeSegment::Release { pos: p, len: l }, EnvelopeSegment::Release { pos: q, len: m }) => q == p + 1 && l == m,
            _ => true,
        },
{
}

/// The attack ramp takes the first samples, starting at position 0; the
/// decay ramp follows it, starting at position 0.
pub proof fn lemma_attack_then_decay(i: usize, num: usize, attack: usize, decay: usize, release: usize)
    requires
        layout_fits(num, attack, decay, release),
        i < num,
    ensures
        i < attack ==> segment_at(i, num, attack, decay, release) == (EnvelopeSegment::Attack { pos: i, len: divisor(attack) }),
        attack <= i < attack + decay ==> segment_at(i, num, attack, decay, release) == (EnvelopeSegment::Decay { pos: (i - attack) as usize, len: divisor(decay) }),
{
}

/// When the release fits after attack and decay, it takes exactly the last
/// `release` samples, starting at position 0 and ending at `release - 1`.
pub proof fn lemma_release_takes_last_samples(i: usize, num: usize, attack: usize, decay: usize, release: usize)
    requires
        layout_fits(num, attack, decay, release),
        attack + decay + release <= num,
        i < num,
    ensures
        (segment_at(i, num, attack, decay, release) is Release) <==> i >= num - release,
        i >= num - release ==> segment_at(i, num, attack, decay, release) == (EnvelopeSegment::Release { pos: (i - (num - release)) as usize, len: divisor(release) }),
{
}

/// The parts of a built-in preset that are not sound levels or times: its
/// name, its waveform shape and its filter kind.
pub struct PresetVoice {
    pub name: String,
    pub shape: LatticeShape,
    pub filter_type: FilterType,
}

/// The built-in presets' names, shapes and filter kinds, in catalogue order.
pub open spec fn builtin_voice_table() -> Seq<(Seq<char>, LatticeShape, FilterType)> {
    seq![
        ("EisensteinBass"@, LatticeShape::Eisenstein, FilterType::Lowpass),
        ("LatticeLead"@, LatticeShape::Saw, FilterType::Lowpass),
        ("HarmonicBell"@, LatticeShape::Triangle, FilterType::Bandpass),
        ("ConsonancePad"@, LatticeShape::Sine, FilterType::Lowpass),
        ("GlitchLattice"@, LatticeShape::Square, FilterType::Highpass),
    ]
}

/// The catalogue holds five presets: EisensteinBass (Eisenstein, low-pass),
/// LatticeLead (saw, low-pass), HarmonicBell (triangle, band-pass),
/// ConsonancePad (sine, low-pass) and GlitchLattice (square, high-pass).
pub proof fn lemma_builtin_catalogue()
    ensures
        builtin_voice_table().len() == 5,
        builtin_voice_table()[0] == ("EisensteinBass"@, LatticeShape::Eisenstein, FilterType::Lowpass),
        builtin_voice_table()[1] == ("LatticeLead"@, LatticeShape::Saw, FilterType::Lowpass),
        builtin_voice_table()[2] == ("HarmonicBell"@, LatticeShape::Triangle, FilterType::Bandpass),
        builtin_voice_table()[3] == ("ConsonancePad"@, LatticeShape::Sine, FilterType::Lowpass),
        builtin_voice_table()[4] == ("GlitchLattice"@, LatticeShape::Square, FilterType::Highpass),
        builtin_name_table() == seq!["EisensteinBass"@, "LatticeLead"@, "HarmonicBell"@, "ConsonancePad"@, "GlitchLattice"@],
{
    assert(builtin_name_table() =~= seq!["EisensteinBass"@, "LatticeLead"@, "HarmonicBell"@, "ConsonancePad"@, "GlitchLattice"@]);
}

/// The built-in presets' names, in catalogue order.
pub open spec fn builtin_name_table() -> Seq<Seq<char>> {
    builtin_voice_table().map_values(|v: (Seq<char>, LatticeShape, FilterType)| v.0)
}

fn voice(name: &str, shape: LatticeShape, filter_type: FilterType) -> (v: PresetVoice)
    ensures
        v.name@ == name@,
        v.shape == shape,
        v.filter_type == filter_type,
{
    PresetVoice { name: name.to_owned(), shape, filter_type }
}

/// The name, shape and filter kind of each built-in preset, in catalogue order.
pub fn builtin_voices() -> (v: Vec<PresetVoice>)
    ensures
        v@.len() == builtin_voice_table().len(),
        forall|i: int| 0 <= i < v@.len() ==> (#[trigger] v@[i].name@, v@[i].shape, v@[i].filter_type) == builtin_voice_table()[i],
        v@.len() == 5,
        v@[0].name@ == "EisensteinBass"@ && v@[0].shape == LatticeShape::Eisenstein && v@[0].filter_type == FilterType::Lowpass,
        v@[1].name@ == "LatticeLead"@ && v@[1].shape == LatticeShape::Saw && v@[1].filter_type == FilterType::Lowpass,
        v@[2].name@ == "HarmonicBell"@ && v@[2].shape == LatticeShape::Triangle && v@[2].filter_type == FilterType::Bandpass,
        v@[3].name@ == "ConsonancePad"@ && v@[3].shape == LatticeShape::Sine && v@[3].filter_type == FilterType::Lowpass,
        v@[4].name@ == "GlitchLattice"@ && v@[4].shape == LatticeShape::Square && v@[4].filter_type == FilterType::Highpass,
{
    let mut v: Vec<PresetVoice> = Vec::with_capacity(5);
    v.push(voice("EisensteinBass", LatticeShape::Eisenstein, FilterType::Lowpass));
    v.push(voice("LatticeLead", LatticeShape::Saw, FilterType::Lowpass));
    v.push(voice("HarmonicBell", LatticeShape::Triangle, FilterType::Bandpass));
    v.push(voice("ConsonancePad", LatticeShape::Sine, FilterType::Lowpass));
    v.push(voice("GlitchLattice", LatticeShape::Square, FilterType::Highpass));
    v
}

/// The names of the built-in presets, in catalogue order.
pub fn builtin_preset_names() -> (names: Vec<String>)
    ensures
        name_views(names@) == builtin_name_table(),
{
    let voices = builtin_voices();
    let mut names: Vec<String> = Vec::with_capacity(voices.len());
    let mut i: usize = 0;
    while i < voices.len()
        invariant
            i <= voices@.len(),
            voices@.len() == builtin_voice_table().len(),
            forall|j: int| 0 <= j < voices@.len() ==> (#[trigger] voices@[j].name@, voices@[j].shape, voices@[j].filter_type) == builtin_voice_table()[j],
            names@.len() == i,
            forall|j: int| 0 <= j < i ==> (#[trigger] names@[j])@ == builtin_voice_table()[j].0,
        decreases voices@.len() - i,
    {
        assert((voices@[i as int].name@, voices@[i as int].shape, voices@[i as int].filter_type) == builtin_voice_table()[i as int]);
        names.push(voices[i].name.clone());
        i = i + 1;
    }
    assert(name_views(names@) =~= builtin_name_table());
    names
}

/// `found` is the index of the first name in `names` whose lowercase form is
/// that of `query`, or `None` when there is no such name.
pub open spec fn is_first_match(names: Seq<Seq<char>>, query: Seq<char>, found: Option<usize>) -> bool {
    match found {
        Some(i) => {
            &&& i < names.len()
            &&& unicode_lowercase(names[i as int]) == unicode_lowercase(query)
            &&& forall|j: int| 0 <= j < i ==> unicode_lowercase(#[trigger] names[j]) != unicode_lowercase(query)
        },
        None => forall|j: int| 0 <= j < names.len() ==> unicode_lowercase(#[trigger] names[j]) != unicode_lowercase(query),
    }
}

/// The views of a list of names.
pub open spec fn name_views(names: Seq<String>) -> Seq<Seq<char>> {
    names.map_values(|s: String| s@)
}

/// `found` is the index of the first of `names` that equals `key`, or
/// `None` when none does.
pub open spec fn is_first_equal(names: Seq<Seq<char>>, key: Seq<char>, found: Option<usize>) -> bool {
    match found {
        Some(i) => {
            &&& i < names.len()
            &&& names[i as int] == key
            &&& forall|j: int| 0 <= j < i ==> #[trigger] names[j] != key
        },
        None => forall|j: int| 0 <= j < names.len() ==> #[trigger] names[j] != key,
    }
}

/// Index of the first of the (already lowercased) names that equals the
/// (already lowercased) query, or `None`.
pub fn first_equal_name(lowered_names: &Vec<String>, lowered_query: &str) -> (found: Option<usize>)
    ensures
        is_first_equal(name_views(lowered_names@), lowered_query@, found),
{
    let ghost views = name_views(lowered_names@);
    let wanted = lowered_query.to_owned();
    let mut i: usize = 0;
    while i < lowered_names.len()
        invariant
            i <= lowered_names@.len(),
            views == name_views(lowered_names@),
            wanted@ == lowered_query@,
            forall|j: int| 0 <= j < i ==> #[trigger] views[j] != lowered_query@,
        decreases lowered_names@.len() - i,
    {
        assert(views[i as int] == lowered_names@[i as int]@);
        if lowered_names[i] == wanted {
            return Some(i);
        }
        i = i + 1;
    }
    None
}

/// Index of the first preset whose name equals `query` once both are
/// lowercased, or `None` when no name matches.
pub fn find_preset(names: &Vec<String>, query: &str) -> (found: Option<usize>)
    ensures
        is_first_match(name_views(names@), query@, found),
{
    let ghost views = name_views(names@);
    let mut lowered: Vec<String> = Vec::with_capacity(names.len());
    let mut i: usize = 0;
    while i < names.len()
        invariant
            i <= names@.len(),
            views == name_views(names@),
            lowered@.len() == i,
            forall|j: int| 0 <= j < i ==> (#[trigger] lowered@[j])@ == unicode_lowercase(views[j]),
        decreases names@.len() - i,
    {
        assert(views[i as int] == names@[i as int]@);
        lowered.push(to_lowercase(names[i].as_str()));
        i = i + 1;
    }
    let wanted = to_lowercase(query);
    let found = first_equal_name(&lowered, wanted.as_str());
    proof {
        let lv = name_views(lowered@);
        assert forall|j: int| 0 <= j < names@.len() implies #[trigger] lv[j] == unicode_lowercase(views[j]) by {
            assert(lv[j] == lowered@[j]@);
        }
        match found {
            Some(k) => {
                assert forall|j: int| 0 <= j < k implies unicode_lowercase(#[trigger] views[j]) != unicode_lowercase(query@) by {
                    assert(lv[j] != wanted@);
                }
                assert(lv[k as int] == wanted@);
            },
            None => {
                assert forall|j: int| 0 <= j < names@.len() implies unicode_lowercase(#[trigger] views[j]) != unicode_lowercase(query@) by {
                    assert(lv[j] != wanted@);
                }
            },
        }
    }
    found
}

/// Lookup ignores case: queries with the same lowercase form find the same
/// preset, or both find none.
pub proof fn lemma_lookup_ignores_case(
    names: Seq<Seq<char>>,
    a: Seq<char>,
    b: Seq<char>,
    found_a: Option<usize>,
    found_b: Option<usize>,
)
    requires
        unicode_lowercase(a) == unicode_lowercase(b),
        is_first_match(names, a, found_a),
        is_first_match(names, b, found_b),
    ensures
        found_a == found_b,
{
    match (found_a, found_b) {
        (Some(i), Some(j)) => {
            if i < j {
                assert(unicode_lowercase(names[i as int]) != unicode_lowercase(b));
            } else if j < i {
                assert(unicode_lowercase(names[j as int]) != unicode_lowercase(a));
            }
        },
        (Some(i), None) => {
            assert(unicode_lowercase(names[i as int]) != unicode_lowercase(b));
        },
        (None, Some(j)) => {
            assert(unicode_lowercase(names[j as int]) != unicode_lowercase(a));
        },
        (None, None) => {},
    }
}

/// A name is always found when it is among the names, at or before its own index.
pub proof fn lemma_listed_name_is_found(names: Seq<Seq<char>>, k: int, found: Option<usize>)
    requires
        0 <= k < names.len(),
        is_first_match(names, names[k], found),
    ensures
        found matches Some(i) && i <= k,
{
    if found is None {
        assert(unicode_lowercase(names[k]) != unicode_lowercase(names[k]));
    } else {
        let i = found->0;
        if i > k {
            assert(unicode_lowercase(names[k]) != unicode_lowercase(names[k]));
        }
    }
}

/// The names joined with `", "` between each two.
pub fn join_names(names: &Vec<String>) -> (list: String)
    ensures
        list@ == joined(name_views(names@), ", "@),
{
    let ghost views = name_views(names@);
    let mut list = "".to_owned();
    proof {
        reveal_strlit("");
    }
    assert(views.take(0) =~= Seq::<Seq<char>>::empty());
    let mut i: usize = 0;
    while i < names.len()
        invariant
            i <= names@.len(),
            views == name_views(names@),
            list@ == joined(views.take(i as int), ", "@),
        decreases names@.len() - i,
    {
        if i != 0 {
            list.append(", ");
        }
        list.append(names[i].as_str());
        assert(views.take(i + 1).drop_last() =~= views.take(i as int));
        i = i + 1;
    }
    assert(views.take(names@.len() as int) =~= views);
    list
}

/// The text of the error for a preset name that names no preset.
pub open spec fn unknown_preset_text(query: Seq<char>, names: Seq<String>) -> Seq<char> {
    "Unknown preset '"@ + query + "'. Available: "@ + joined(name_views(names), ", "@)
}

/// The message that reports an unknown preset name and lists the available ones.
pub fn unknown_preset_message(query: &str, names: &Vec<String>) -> (m: String)
    ensures
        m@ == unknown_preset_text(query@, names@),
{
    let list = join_names(names);
    let mut m = "Unknown preset '".to_owned();
    m.append(query);
    m.append("'. Available: ");
    m.append(list.as_str());
    m
}

} // verus!
