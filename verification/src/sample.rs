//! Host-monotonic timestamps carried by every tracker output.

use vstd::prelude::*;
use vstd::std_specs::cmp::{PartialOrdSpec, PartialOrdSpecImpl};
use core::cmp::Ordering;

verus! {

/// Host-monotonic timestamp in nanoseconds since an arbitrary fixed epoch.
/// The same clock must be used by the capture, filter, and consumer sides,
/// otherwise latency compensation is meaningless.
#[derive(Copy, Clone, Debug, PartialEq, Eq, Structural, Ord, Hash)]
pub struct Timestamp(pub u64);

impl Timestamp {
    /// Nanoseconds since epoch.
    #[verifier::allow_in_spec]
    pub fn from_nanos(ns: u64) -> (t: Self)
        returns
            Timestamp(ns),
    {
        Timestamp(ns)
    }

    /// Raw nanosecond value.
    #[verifier::allow_in_spec]
    pub fn as_nanos(self) -> (ns: u64)
        returns
            self.0,
    {
        self.0
    }
}

/// Timestamps are ordered by their nanoseconds, as the derived `Ord` orders
/// them.
impl PartialOrd for Timestamp {
    fn partial_cmp(&self, other: &Self) -> (r: Option<Ordering>) {
        if self.0 < other.0 {
            Some(Ordering::Less)
        } else if self.0 == other.0 {
            Some(Ordering::Equal)
        } else {
            Some(Ordering::Greater)
        }
    }
}

impl PartialOrdSpecImpl for Timestamp {
    open spec fn obeys_partial_cmp_spec() -> bool {
        true
    }

    open spec fn partial_cmp_spec(&self, other: &Self) -> Option<Ordering> {
        if self.0 < other.0 {
            Some(Ordering::Less)
        } else if self.0 == other.0 {
            Some(Ordering::Equal)
        } else {
            Some(Ordering::Greater)
        }
    }
}

/// The order of timestamps is the order of their nanoseconds: a timestamp
/// built from fewer nanoseconds compares less, and equal nanoseconds compare
/// equal.
pub proof fn lemma_timestamp_order_is_nanos_order(a: u64, b: u64)
    ensures
        (PartialOrdSpec::partial_cmp_spec(&Timestamp::from_nanos(a), &Timestamp::from_nanos(b)) == Some(Ordering::Less))
            <==> a < b,
        (PartialOrdSpec::partial_cmp_spec(&Timestamp::from_nanos(a), &Timestamp::from_nanos(b)) == Some(Ordering::Equal))
            <==> a == b,
        (PartialOrdSpec::partial_cmp_spec(&Timestamp::from_nanos(a), &Timestamp::from_nanos(b)) == Some(Ordering::Greater))
            <==> a > b,
{
}

/// Reading back the nanoseconds of a timestamp built from them gives the
/// same nanoseconds, and rebuilding a timestamp from its nanoseconds gives
/// the same timestamp: the two conversions are mutually inverse.
pub proof fn lemma_timestamp_nanos_roundtrip(ns: u64, t: Timestamp)
    ensures
        Timestamp::from_nanos(ns).as_nanos() == ns,
        Timestamp::from_nanos(t.as_nanos()) == t,
{
}

} // verus!
