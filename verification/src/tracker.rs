//! Errors a tracker step can report.

use vstd::prelude::*;

verus! {

/// Tracker error type.
#[derive(Debug)]
pub enum TrackerError {
    /// Lost the target (occlusion, out-of-frame, detector miss).
    Lost,
    /// Numerical failure in the filter / manifold update.
    Numerical(&'static str),
    /// Backend-specific failure.
    Backend(String),
}

} // verus!
