//! Inference backends: a trait plus a constant-output mock for tests and
//! for wiring downstream components against a deterministic upstream signal.

use vstd::prelude::*;
use crate::camera::Frame;
use core::convert::Infallible;

verus! {

/// Run a model on a frame.
pub trait Inference {
    /// Inference output type. Concrete shapes (point list, bbox list,
    /// landmark grid, ...) are model-specific.
    type Output;

    /// Error type produced by `infer`.
    type Error;

    /// Run the model on `frame`.
    fn infer(&mut self, frame: &Frame<'_>) -> (r: Result<Self::Output, Self::Error>);
}

/// Test [`Inference`] impl that returns a clone of `output` on every call.
pub struct ConstantInference<O: Clone> {
    output: O,
}

impl<O: Clone> ConstantInference<O> {
    /// The value every call hands out a clone of.
    pub closed spec fn output(&self) -> O {
        self.output
    }

    /// New constant-output mock.
    pub fn new(output: O) -> (inf: Self)
        ensures
            inf.output() == output,
    {
        ConstantInference { output }
    }
}

impl<O: Clone> Inference for ConstantInference<O> {
    type Output = O;
    type Error = Infallible;

    /// Always succeeds with a clone of the fixed output, whatever the frame,
    /// and leaves the mock unchanged.
    fn infer(&mut self, frame: &Frame<'_>) -> (r: Result<O, Infallible>)
        ensures
            r matches Ok(v) && cloned(old(self).output(), v),
            final(self).output() == old(self).output(),
    {
        Ok(self.output.clone())
    }
}

} // verus!
