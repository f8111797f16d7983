//! Deny-read glob patterns.

use vstd::prelude::*;
use vstd::std_specs::cmp::PartialEqSpec;

verus! {

/// A deny-read glob retained in effective filesystem enforcement inputs.
#[derive(Debug)]
pub struct ValidatedDenyGlob {
    pattern: String,
}

/// A glob stands for the characters of its pattern.
impl View for ValidatedDenyGlob {
    type V = Seq<char>;

    closed spec fn view(&self) -> Seq<char> {
        self.pattern@
    }
}

impl ValidatedDenyGlob {
    /// Retains `pattern` as it is written, well formed or not.
    pub(crate) fn retain(pattern: String) -> (glob: ValidatedDenyGlob)
        ensures
            glob@ == pattern@,
    {
        ValidatedDenyGlob { pattern }
    }

    /// Returns the pattern as it was written in the policy.
    pub fn pattern(&self) -> (pattern: &str)
        ensures
            pattern@ == self@,
    {
        self.pattern.as_str()
    }
}

impl Clone for ValidatedDenyGlob {
    /// Returns a glob with the same pattern.
    fn clone(&self) -> (copy: ValidatedDenyGlob)
        ensures
            copy == *self,
    {
        ValidatedDenyGlob { pattern: self.pattern.clone() }
    }
}

impl PartialEq for ValidatedDenyGlob {
    /// Returns whether the two patterns are the same.
    fn eq(&self, other: &ValidatedDenyGlob) -> (same: bool) {
        self.pattern == other.pattern
    }
}

impl vstd::std_specs::cmp::PartialEqSpecImpl for ValidatedDenyGlob {
    open spec fn obeys_eq_spec() -> bool {
        true
    }

    open spec fn eq_spec(&self, other: &ValidatedDenyGlob) -> bool {
        self@ == other@
    }
}

impl Eq for ValidatedDenyGlob {
}

/// A glob is told by its pattern alone: two globs compare equal exactly if
/// `pattern` returns the same text for both.
pub proof fn law_globs_are_told_by_their_patterns(
    left: ValidatedDenyGlob,
    right: ValidatedDenyGlob,
)
    ensures
        ValidatedDenyGlob::obeys_eq_spec(),
        left.eq_spec(&right) <==> left@ == right@,
{
}

/// Retains every pattern, in order.
pub(crate) fn retain_all(patterns: Vec<String>) -> (globs: Vec<ValidatedDenyGlob>)
    ensures
        globs@.len() == patterns@.len(),
        forall|i: int| 0 <= i < patterns@.len() ==> (#[trigger] globs@[i])@ == patterns@[i]@,
{
    let mut globs: Vec<ValidatedDenyGlob> = Vec::new();
    for pattern in iter: patterns.into_iter()
        invariant
            globs@.len() == iter.index(),
            forall|i: int| 0 <= i < iter.index() ==> (#[trigger] globs@[i])@ == iter.seq()[i]@,
    {
        globs.push(ValidatedDenyGlob::retain(pattern));
    }
    globs
}

} // verus!
