//! Waveform shapes of the lattice oscillator and the parsing of their names.

use vstd::prelude::*;

use crate::text::{to_lowercase, same_text, unicode_lowercase};

verus! {

/// Waveform shapes derived from lattice geometry.
#[derive(Debug, Clone, Copy, PartialEq, Eq, Structural)]
pub enum LatticeShape {
    Sine,
    Square,
    Saw,
    Triangle,
    /// Hexagonal (A2) lattice phase mapping — Eisenstein integer inspired.
    Eisenstein,
}

/// The shape that an already lowercased name stands for: the canonical
/// names `sine`, `square`, `saw`, `triangle`, `eisenstein` and the aliases
/// `sawtooth`, `tri` and `eis`.
pub open spec fn shape_named(name: Seq<char>) -> Option<LatticeShape> {
    if name == "sine"@ {
        Some(LatticeShape::Sine)
    } else if name == "square"@ {
        Some(LatticeShape::Square)
    } else if name == "saw"@ || name == "sawtooth"@ {
        Some(LatticeShape::Saw)
    } else if name == "triangle"@ || name == "tri"@ {
        Some(LatticeShape::Triangle)
    } else if name == "eisenstein"@ || name == "eis"@ {
        Some(LatticeShape::Eisenstein)
    } else {
        None
    }
}

/// The canonical name of each shape, as the error message lists them.
pub open spec fn canonical_name(shape: LatticeShape) -> Seq<char> {
    match shape {
        LatticeShape::Sine => "sine"@,
        LatticeShape::Square => "square"@,
        LatticeShape::Saw => "saw"@,
        LatticeShape::Triangle => "triangle"@,
        LatticeShape::Eisenstein => "eisenstein"@,
    }
}

/// What parsing `name` gives: the shape of its lowercase form, if any.
pub open spec fn parsed_shape(name: Seq<char>) -> Option<LatticeShape> {
    shape_named(unicode_lowercase(name))
}

/// A shape name that names no shape; `name` is the name as lowercased.
pub struct UnknownShape {
    pub name: String,
}

/// The text of the error for an unknown shape name.
pub open spec fn unknown_shape_text(name: Seq<char>) -> Seq<char> {
    "Unknown shape '"@ + name + "'. Use: sine, square, saw, triangle, eisenstein"@
}

impl UnknownShape {
    /// The message that reports this name and lists the accepted ones.
    pub fn message(&self) -> (m: String)
        ensures
            m@ == unknown_shape_text(self.name@),
    {
        let mut m = "Unknown shape '".to_owned();
        m.append(self.name.as_str());
        m.append("'. Use: sine, square, saw, triangle, eisenstein");
        m
    }
}

/// The shape that an already lowercased name stands for.
pub fn shape_from_lowercase(name: &str) -> (shape: Option<LatticeShape>)
    ensures
        shape == shape_named(name@),
{
    if same_text(name, "sine") {
        Some(LatticeShape::Sine)
    } else if same_text(name, "square") {
        Some(LatticeShape::Square)
    } else if same_text(name, "saw") || same_text(name, "sawtooth") {
        Some(LatticeShape::Saw)
    } else if same_text(name, "triangle") || same_text(name, "tri") {
        Some(LatticeShape::Triangle)
    } else if same_text(name, "eisenstein") || same_text(name, "eis") {
        Some(LatticeShape::Eisenstein)
    } else {
        None
    }
}

/// Parse a shape name, whatever its case, into a `LatticeShape`.
pub fn parse_shape(name: &str) -> (r: Result<LatticeShape, UnknownShape>)
    ensures
        match r {
            Ok(shape) => parsed_shape(name@) == Some(shape),
            Err(e) => parsed_shape(name@) is None && e.name@ == unicode_lowercase(name@),
        },
{
    let lowered = to_lowercase(name);
    match shape_from_lowercase(lowered.as_str()) {
        Some(shape) => Ok(shape),
        None => Err(UnknownShape { name: lowered }),
    }
}

/// Each shape's canonical name parses to that shape.
pub proof fn lemma_canonical_name_parses(shape: LatticeShape)
    ensures
        shape_named(canonical_name(shape)) == Some(shape),
{
    reveal_strlit("sine");
    reveal_strlit("square");
    reveal_strlit("saw");
    reveal_strlit("sawtooth");
    reveal_strlit("triangle");
    reveal_strlit("tri");
    reveal_strlit("eisenstein");
    reveal_strlit("eis");
    match shape {
        LatticeShape::Sine => {},
        LatticeShape::Square => {
            assert("square"@ != "sine"@) by { assert("square"@.len() != "sine"@.len()); }
        },
        LatticeShape::Saw => {
            assert("saw"@ != "sine"@) by { assert("saw"@.len() != "sine"@.len()); }
            assert("saw"@ != "square"@) by { assert("saw"@.len() != "square"@.len()); }
        },
        LatticeShape::Triangle => {
            assert("triangle"@ != "sine"@) by { assert("triangle"@.len() != "sine"@.len()); }
            assert("triangle"@ != "square"@) by { assert("triangle"@.len() != "square"@.len()); }
            assert("triangle"@ != "saw"@) by { assert("triangle"@.len() != "saw"@.len()); }
            assert("triangle"@ != "sawtooth"@) by { assert("triangle"@[1] != "sawtooth"@[1]); }
        },
        LatticeShape::Eisenstein => {
            assert("eisenstein"@ != "sine"@) by { assert("eisenstein"@.len() != "sine"@.len()); }
            assert("eisenstein"@ != "square"@) by { assert("eisenstein"@.len() != "square"@.len()); }
            assert("eisenstein"@ != "saw"@) by { assert("eisenstein"@.len() != "saw"@.len()); }
            assert("eisenstein"@ != "sawtooth"@) by { assert("eisenstein"@.len() != "sawtooth"@.len()); }
            assert("eisenstein"@ != "triangle"@) by { assert("eisenstein"@.len() != "triangle"@.len()); }
            assert("eisenstein"@ != "tri"@) by { assert("eisenstein"@.len() != "tri"@.len()); }
        },
    }
}

/// Parsing ignores case: two names with the same lowercase form parse alike.
pub proof fn lemma_parse_ignores_case(a: Seq<char>, b: Seq<char>)
    requires
        unicode_lowercase(a) == unicode_lowercase(b),
    ensures
        parsed_shape(a) == parsed_shape(b),
{
}

} // verus!
