use vstd::prelude::*;

use crate::metric::Metric;

verus! {

/// One timed probe exchange, as its numbers.
pub ghost struct SampleView {
    pub start: nat,
    pub end: nat,
    pub metric: Metric,
}

/// One timed probe exchange: the clock reading before the request, the one
/// after the response, and the tag of the operation. A sample never ends
/// before it starts.
#[derive(Clone, Copy, Debug, PartialEq, Eq)]
pub struct Sample {
    start: u64,
    end: u64,
    metric: Metric,
}

impl View for Sample {
    type V = SampleView;

    closed spec fn view(&self) -> SampleView {
        SampleView { start: self.start as nat, end: self.end as nat, metric: self.metric }
    }
}

impl Sample {
    #[verifier::type_invariant]
    spec fn ordered(&self) -> bool {
        self.start <= self.end
    }

    /// The sample of an exchange timed from `start` to `end`; none where the
    /// clock ran backwards between the two readings.
    pub fn new(start: u64, end: u64, metric: Metric) -> (r: Option<Sample>)
        ensures
            r is Some <==> start <= end,
            r matches Some(s) ==> s@ == (SampleView { start: start as nat, end: end as nat, metric }),
    {
        if start <= end {
            Some(Sample { start, end, metric })
        } else {
            None
        }
    }

    /// The clock reading before the request.
    pub fn start(&self) -> (r: u64)
        ensures
            r == self@.start,
            r <= self@.end,
    {
        proof {
            use_type_invariant(self);
        }
        self.start
    }

    /// The clock reading after the response.
    pub fn end(&self) -> (r: u64)
        ensures
            r == self@.end,
            self@.start <= r,
    {
        proof {
            use_type_invariant(self);
        }
        self.end
    }

    /// The tag of the operation.
    pub fn metric(&self) -> (r: Metric)
        ensures
            r == self@.metric,
    {
        self.metric
    }

    /// The latency of the exchange, in clock ticks.
    pub fn latency(&self) -> (r: u64)
        ensures
            r == self@.end - self@.start,
    {
        proof {
            use_type_invariant(self);
        }
        self.end - self.start
    }
}

} // verus!
