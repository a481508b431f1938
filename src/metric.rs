use vstd::prelude::*;

verus! {

/// The category of a measured operation. Samples carry one of these tags,
/// and the aggregation side keys its counters and histograms by it.
#[derive(Clone, Copy, Debug, PartialEq, Eq, Hash, Structural)]
pub enum Metric {
    /// A probe whose request and response both completed.
    ResponseOk,
}

/// The name under which a tag is reported.
pub open spec fn metric_name(m: Metric) -> Seq<char> {
    match m {
        Metric::ResponseOk => "response_ok"@,
    }
}

impl Metric {
    /// The name under which this tag is reported (`response_ok` for `ResponseOk`).
    pub fn name(&self) -> (r: &'static str)
        ensures
            r@ == metric_name(*self),
    {
        match self {
            Metric::ResponseOk => "response_ok",
        }
    }
}

} // verus!
