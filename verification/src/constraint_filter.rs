//! The kinds of biquad filter that the synthesizer offers.

use vstd::prelude::*;

verus! {

/// Biquad filter type.
#[derive(Debug, Clone, Copy, PartialEq, Eq, Structural)]
pub enum FilterType {
    Lowpass,
    Highpass,
    Bandpass,
}

} // verus!
