//! Choice among the surface configurations a display offers.

use vstd::prelude::*;

verus! {

/// What the choice of a surface configuration goes by.
#[derive(Clone, Copy, Debug, PartialEq, Eq, Structural)]
pub struct ConfigTraits {
    /// The configuration can show what is behind the window.
    pub transparent: bool,
    /// Samples per pixel of its multisampling.
    pub samples: u8,
}

/// A candidate is preferred to the configuration held so far if it adds
/// transparency, or if it takes fewer samples.
pub open spec fn spec_prefers(candidate: ConfigTraits, held: ConfigTraits) -> bool {
    (candidate.transparent && !held.transparent) || candidate.samples < held.samples
}

/// Whether `candidate` replaces `held` when the configurations of a display
/// are gone through one by one.
#[verifier::when_used_as_spec(spec_prefers)]
pub fn prefers(candidate: ConfigTraits, held: ConfigTraits) -> (replace: bool)
    ensures
        replace == spec_prefers(candidate, held),
{
    (candidate.transparent && !held.transparent) || candidate.samples < held.samples
}

} // verus!
