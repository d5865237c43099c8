//! How a stage's progress becomes the ratio its deltas are applied with.

use vstd::prelude::*;
use vstd::std_specs::convert::FromSpecImpl;
use crate::ratio::Ratio;

verus! {

/// The named curves of the `interpolation` crate. The library carries such a
/// name from the stage's configuration to the caller that evaluates it and
/// never looks inside.
#[verifier::external_type_specification]
#[verifier::external_body]
pub struct ExEaseFunction(interpolation::EaseFunction);

/// The easing of a stage.
///
/// Only the linear easing is evaluated here. The value of a named or custom
/// curve is worked out by the caller, at the stage's current progress, and
/// handed to the animator with each property tick.
#[derive(Clone, Copy, Debug)]
pub enum EaseMethod {
    /// One of the named curves.
    EaseFn(interpolation::EaseFunction),
    /// The identity: the ratio is the progress.
    Linear,
    /// A curve of the caller's own, known by a number of the caller's
    /// choosing.
    Custom(u32),
}

impl EaseMethod {
    /// The ratio at `progress`, where `curve` is the value of the stage's
    /// curve at that progress.
    pub open spec fn eased(self, progress: Ratio, curve: Ratio) -> Ratio {
        match self {
            EaseMethod::Linear => progress,
            _ => curve,
        }
    }

    /// The ratio at progress `tick`: `tick` itself for the linear easing,
    /// and otherwise `curve`, the value of the stage's curve at `tick`.
    pub fn tick(&self, tick: Ratio, curve: Ratio) -> (r: Ratio)
        ensures
            r == self.eased(tick, curve),
    {
        match self {
            EaseMethod::Linear => tick,
            _ => curve,
        }
    }
}

impl Default for EaseMethod {
    fn default() -> (r: EaseMethod)
        ensures
            r == EaseMethod::Linear,
    {
        EaseMethod::Linear
    }
}

impl From<interpolation::EaseFunction> for EaseMethod {
    fn from(curve: interpolation::EaseFunction) -> (r: EaseMethod) {
        EaseMethod::EaseFn(curve)
    }
}

impl FromSpecImpl<interpolation::EaseFunction> for EaseMethod {
    open spec fn obeys_from_spec() -> bool {
        true
    }

    open spec fn from_spec(curve: interpolation::EaseFunction) -> EaseMethod {
        EaseMethod::EaseFn(curve)
    }
}

} // verus!
