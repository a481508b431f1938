use vstd::prelude::*;

verus! {

/// The latency percentiles that are reported for each window.
#[derive(Clone, Copy, Debug, PartialEq, Eq, Hash, Structural)]
pub enum PercentileLabel {
    P50,
    P90,
    P99,
    P999,
    P9999,
}

/// The name under which a percentile is tracked and reported.
pub open spec fn label_name(l: PercentileLabel) -> Seq<char> {
    match l {
        PercentileLabel::P50 => "p50"@,
        PercentileLabel::P90 => "p90"@,
        PercentileLabel::P99 => "p99"@,
        PercentileLabel::P999 => "p999"@,
        PercentileLabel::P9999 => "p9999"@,
    }
}

/// The rank of a percentile in hundredths of a percent (99.9 is 9990).
pub open spec fn label_rank(l: PercentileLabel) -> u64 {
    match l {
        PercentileLabel::P50 => 5000,
        PercentileLabel::P90 => 9000,
        PercentileLabel::P99 => 9900,
        PercentileLabel::P999 => 9990,
        PercentileLabel::P9999 => 9999,
    }
}

/// The reported percentiles, lowest rank first.
pub open spec fn all_labels() -> Seq<PercentileLabel> {
    seq![
        PercentileLabel::P50,
        PercentileLabel::P90,
        PercentileLabel::P99,
        PercentileLabel::P999,
        PercentileLabel::P9999,
    ]
}

impl PercentileLabel {
    /// The name under which this percentile is tracked (`p50`, `p999`, ...).
    pub fn name(&self) -> (r: &'static str)
        ensures
            r@ == label_name(*self),
    {
        match self {
            PercentileLabel::P50 => "p50",
            PercentileLabel::P90 => "p90",
            PercentileLabel::P99 => "p99",
            PercentileLabel::P999 => "p999",
            PercentileLabel::P9999 => "p9999",
        }
    }

    /// The rank of this percentile in hundredths of a percent.
    pub fn rank(&self) -> (r: u64)
        ensures
            r == label_rank(*self),
            0 < r < 10000,
    {
        match self {
            PercentileLabel::P50 => 5000,
            PercentileLabel::P90 => 9000,
            PercentileLabel::P99 => 9900,
            PercentileLabel::P999 => 9990,
            PercentileLabel::P9999 => 9999,
        }
    }

    /// Every reported percentile, lowest rank first.
    pub fn all() -> (r: Vec<PercentileLabel>)
        ensures
            r@ == all_labels(),
            forall|i: int, j: int|
                0 <= i < j < r@.len() ==> label_rank(#[trigger] r@[i]) < label_rank(#[trigger] r@[j]),
    {
        let r = vec![
            PercentileLabel::P50,
            PercentileLabel::P90,
            PercentileLabel::P99,
            PercentileLabel::P999,
            PercentileLabel::P9999,
        ];
        assert(r@ =~= all_labels());
        r
    }
}

/// What the aggregation side reports once a window has closed: the running
/// total of samples over all windows so far, and each percentile of the
/// latency distribution, where it could compute one.
#[derive(Clone, Copy, Debug, PartialEq, Eq)]
pub struct WindowSnapshot {
    pub combined_count: Option<u64>,
    pub p50: Option<u64>,
    pub p90: Option<u64>,
    pub p99: Option<u64>,
    pub p999: Option<u64>,
    pub p9999: Option<u64>,
}

/// The value of one percentile in a snapshot.
pub open spec fn snapshot_value(s: WindowSnapshot, l: PercentileLabel) -> Option<u64> {
    match l {
        PercentileLabel::P50 => s.p50,
        PercentileLabel::P90 => s.p90,
        PercentileLabel::P99 => s.p99,
        PercentileLabel::P999 => s.p999,
        PercentileLabel::P9999 => s.p9999,
    }
}

/// A snapshot whose percentiles, where all of them are present, rise with
/// their rank.
pub open spec fn snapshot_ordered(s: WindowSnapshot) -> bool {
    (s.p50 is Some && s.p90 is Some && s.p99 is Some && s.p999 is Some && s.p9999 is Some)
        ==> (s.p50->0 <= s.p90->0 && s.p90->0 <= s.p99->0 && s.p99->0 <= s.p999->0 && s.p999->0
        <= s.p9999->0)
}

impl WindowSnapshot {
    /// The value of one percentile, where the aggregation side has it.
    pub fn percentile(&self, l: PercentileLabel) -> (r: Option<u64>)
        ensures
            r == snapshot_value(*self, l),
    {
        match l {
            PercentileLabel::P50 => self.p50,
            PercentileLabel::P90 => self.p90,
            PercentileLabel::P99 => self.p99,
            PercentileLabel::P999 => self.p999,
            PercentileLabel::P9999 => self.p9999,
        }
    }

    /// Whether the percentiles rise with their rank, whenever all are present.
    pub fn is_ordered(&self) -> (r: bool)
        ensures
            r == snapshot_ordered(*self),
    {
        match (self.p50, self.p90, self.p99, self.p999, self.p9999) {
            (Some(a), Some(b), Some(c), Some(d), Some(e)) => a <= b && b <= c && c <= d && d <= e,
            _ => true,
        }
    }
}

/// The percentile values that go into a window's report line.
#[derive(Clone, Copy, Debug, PartialEq, Eq, Structural)]
pub struct Percentiles {
    pub p50: u64,
    pub p90: u64,
    pub p99: u64,
    pub p999: u64,
    pub p9999: u64,
}

/// A value the aggregation side may lack, with zero standing in for it.
pub open spec fn or_zero(v: Option<u64>) -> u64 {
    match v {
        Some(x) => x,
        None => 0,
    }
}

/// The reported values of a snapshot.
pub open spec fn reported(s: WindowSnapshot) -> Percentiles {
    Percentiles {
        p50: or_zero(s.p50),
        p90: or_zero(s.p90),
        p99: or_zero(s.p99),
        p999: or_zero(s.p999),
        p9999: or_zero(s.p9999),
    }
}

fn value_or_zero(v: Option<u64>) -> (r: u64)
    ensures
        r == or_zero(v),
{
    match v {
        Some(x) => x,
        None => 0,
    }
}

impl Percentiles {
    /// The reported values of a snapshot: each percentile that is missing
    /// is reported as zero rather than failing the report.
    pub fn from_snapshot(s: &WindowSnapshot) -> (r: Percentiles)
        ensures
            r == reported(*s),
    {
        Percentiles {
            p50: value_or_zero(s.p50),
            p90: value_or_zero(s.p90),
            p99: value_or_zero(s.p99),
            p999: value_or_zero(s.p999),
            p9999: value_or_zero(s.p9999),
        }
    }
}

} // verus!
