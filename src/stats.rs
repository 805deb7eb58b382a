//! Aggregate statistics over completed requests: exact status counts, the
//! status-class rollup, the network-error rollup and the latency histogram.

use hdrhistogram::Histogram;
use std::collections::BTreeMap;
use vstd::multiset::Multiset;
use vstd::prelude::*;

verus! {

broadcast use vstd::std_specs::btree::group_btree_axioms;

/// The kind of a request that failed before a response was received.
#[derive(Debug, Clone, Copy, PartialEq, Eq, Structural)]
pub enum NetErrKind {
    Timeout,
    Connect,
    Request,
    Body,
    Decode,
    Other,
}

/// Counts of received responses by status class (`code / 100`).
#[derive(Debug, Clone)]
pub struct StatusClassCounts {
    pub c1xx: u64,
    pub c2xx: u64,
    pub c3xx: u64,
    pub c4xx: u64,
    pub c5xx: u64,
    pub other: u64,
}

/// The class a status code falls in: 1 to 5 for `1xx` to `5xx`, 0 for any other code.
pub open spec fn status_class_of(code: u16) -> int {
    let c = code / 100;
    if 1 <= c && c <= 5 {
        c as int
    } else {
        0
    }
}

impl StatusClassCounts {
    /// The counter of class `class` (see `status_class_of`).
    pub open spec fn class_count(self, class: int) -> int {
        if class == 1 {
            self.c1xx as int
        } else if class == 2 {
            self.c2xx as int
        } else if class == 3 {
            self.c3xx as int
        } else if class == 4 {
            self.c4xx as int
        } else if class == 5 {
            self.c5xx as int
        } else {
            self.other as int
        }
    }

    /// The sum of all six counters.
    pub open spec fn total(self) -> int {
        self.c1xx + self.c2xx + self.c3xx + self.c4xx + self.c5xx + self.other
    }

    /// The counters after one more response with status `code`.
    pub open spec fn counted(self, code: u16) -> StatusClassCounts {
        let c = status_class_of(code);
        StatusClassCounts {
            c1xx: if c == 1 { (self.c1xx + 1) as u64 } else { self.c1xx },
            c2xx: if c == 2 { (self.c2xx + 1) as u64 } else { self.c2xx },
            c3xx: if c == 3 { (self.c3xx + 1) as u64 } else { self.c3xx },
            c4xx: if c == 4 { (self.c4xx + 1) as u64 } else { self.c4xx },
            c5xx: if c == 5 { (self.c5xx + 1) as u64 } else { self.c5xx },
            other: if c == 0 { (self.other + 1) as u64 } else { self.other },
        }
    }

    /// Counts one response with status `code`.
    pub fn record(&mut self, code: u16)
        requires
            old(self).class_count(status_class_of(code)) < u64::MAX,
        ensures
            *final(self) == old(self).counted(code),
            final(self).total() == old(self).total() + 1,
    {
        let c: u16 = code / 100;
        if c == 1 {
            self.c1xx = self.c1xx + 1;
        } else if c == 2 {
            self.c2xx = self.c2xx + 1;
        } else if c == 3 {
            self.c3xx = self.c3xx + 1;
        } else if c == 4 {
            self.c4xx = self.c4xx + 1;
        } else if c == 5 {
            self.c5xx = self.c5xx + 1;
        } else {
            self.other = self.other + 1;
        }
    }
}

impl Default for StatusClassCounts {
    fn default() -> (r: StatusClassCounts)
        ensures
            r.c1xx == 0 && r.c2xx == 0 && r.c3xx == 0 && r.c4xx == 0 && r.c5xx == 0 && r.other
                == 0,
    {
        StatusClassCounts { c1xx: 0, c2xx: 0, c3xx: 0, c4xx: 0, c5xx: 0, other: 0 }
    }
}

/// Counts of failed requests by kind.
#[derive(Debug, Clone)]
pub struct NetErrCounts {
    pub timeout: u64,
    pub connect: u64,
    pub request: u64,
    pub body: u64,
    pub decode: u64,
    pub other: u64,
}

impl NetErrCounts {
    /// The counter of kind `k`.
    pub open spec fn kind_count(self, k: NetErrKind) -> int {
        match k {
            NetErrKind::Timeout => self.timeout as int,
            NetErrKind::Connect => self.connect as int,
            NetErrKind::Request => self.request as int,
            NetErrKind::Body => self.body as int,
            NetErrKind::Decode => self.decode as int,
            NetErrKind::Other => self.other as int,
        }
    }

    /// The sum of all six counters.
    pub open spec fn sum(self) -> int {
        self.timeout + self.connect + self.request + self.body + self.decode + self.other
    }

    /// The counters after one more failure of kind `k`.
    pub open spec fn counted(self, k: NetErrKind) -> NetErrCounts {
        NetErrCounts {
            timeout: if k == NetErrKind::Timeout { (self.timeout + 1) as u64 } else { self.timeout },
            connect: if k == NetErrKind::Connect { (self.connect + 1) as u64 } else { self.connect },
            request: if k == NetErrKind::Request { (self.request + 1) as u64 } else { self.request },
            body: if k == NetErrKind::Body { (self.body + 1) as u64 } else { self.body },
            decode: if k == NetErrKind::Decode { (self.decode + 1) as u64 } else { self.decode },
            other: if k == NetErrKind::Other { (self.other + 1) as u64 } else { self.other },
        }
    }

    /// Counts one failure of kind `k`.
    pub fn record(&mut self, k: NetErrKind)
        requires
            old(self).kind_count(k) < u64::MAX,
        ensures
            *final(self) == old(self).counted(k),
            final(self).sum() == old(self).sum() + 1,
    {
        match k {
            NetErrKind::Timeout => self.timeout = self.timeout + 1,
            NetErrKind::Connect => self.connect = self.connect + 1,
            NetErrKind::Request => self.request = self.request + 1,
            NetErrKind::Body => self.body = self.body + 1,
            NetErrKind::Decode => self.decode = self.decode + 1,
            NetErrKind::Other => self.other = self.other + 1,
        }
    }

    /// The number of failures of all kinds.
    pub fn total(&self) -> (r: u64)
        requires
            self.sum() <= u64::MAX,
        ensures
            r == self.sum(),
    {
        self.timeout + self.connect + self.request + self.body + self.decode + self.other
    }
}

impl Default for NetErrCounts {
    fn default() -> (r: NetErrCounts)
        ensures
            r.timeout == 0 && r.connect == 0 && r.request == 0 && r.body == 0 && r.decode == 0
                && r.other == 0,
    {
        NetErrCounts { timeout: 0, connect: 0, request: 0, body: 0, decode: 0, other: 0 }
    }
}


/// The significant decimal digits that latencies are kept to.
pub const LATENCY_SIGFIG: u8 = 3;

/// A latency histogram in microseconds, held in hdrhistogram's auto-resizing
/// `Histogram<u64>`. `inner` is open for reading, for quantile queries, which
/// work in floating point; the contracts here hold while it changes only
/// through this type.
#[verifier::external_body]
pub struct LatencyHistogram {
    pub inner: Histogram<u64>,
}

/// The latency samples that a histogram holds, each as it was recorded.
pub uninterp spec fn latency_samples(h: LatencyHistogram) -> Multiset<u64>;

/// The significant decimal digits that a histogram was created with.
pub uninterp spec fn latency_sigfig(h: LatencyHistogram) -> u8;

/// Half the number of sub-buckets that hdrhistogram gives each bucket for
/// `sigfig` digits: the smallest power of two at least `10^sigfig`. Values
/// below twice this are kept exactly; above, a bucket whose values start at
/// `half * 2^b` holds them to a resolution of `2^b`.
pub open spec fn sub_bucket_half(sigfig: u8) -> int {
    if sigfig == 1 {
        16
    } else if sigfig == 2 {
        128
    } else if sigfig == 3 {
        1024
    } else if sigfig == 4 {
        16384
    } else if sigfig == 5 {
        131072
    } else {
        1
    }
}

/// `r` is the smallest of the samples to resolution `half`: unless there are
/// none, some sample `v` lies at or above `r` by at most `v / half`.
pub open spec fn resolves_min(samples: Multiset<u64>, r: u64, half: int) -> bool {
    samples.len() > 0 ==> exists|v: u64| #[trigger] samples.count(v) > 0 && r <= v && v - r <= (v as int) / half
}

/// `r` is the largest of the samples to resolution `half`: unless there are
/// none, some sample `v` lies at or below `r` by at most `v / half`.
pub open spec fn resolves_max(samples: Multiset<u64>, r: u64, half: int) -> bool {
    samples.len() > 0 ==> exists|v: u64| #[trigger] samples.count(v) > 0 && v <= r && r - v <= (v as int) / half
}

/// Relies on hdrhistogram's `Histogram::new`: with at most five significant
/// digits it builds an empty, auto-resizing histogram (`new_with_bounds(1, 2,
/// sigfig)` passes every check, and growing to a value of 2 needs a few bins).
#[verifier::external_body]
fn new_latency_histogram(sigfig: u8) -> (r: Option<LatencyHistogram>)
    ensures
        sigfig <= 5 ==> r is Some,
        r matches Some(h) ==> latency_samples(h) =~= Multiset::empty(),
        r matches Some(h) ==> latency_sigfig(h) == sigfig,
{
    Histogram::<u64>::new(sigfig).ok().map(|inner| LatencyHistogram { inner })
}

/// Relies on hdrhistogram's `Histogram::record`: on an auto-resizing
/// histogram it grows the counts to hold any `u64` and counts the value once
/// more; it fails only where the counts cannot be indexed by `usize`, which
/// holds of no 64-bit target.
#[verifier::external_body]
fn histogram_record(h: &mut LatencyHistogram, v: u64)
    ensures
        latency_samples(*final(h)) == latency_samples(*old(h)).insert(v),
        latency_sigfig(*final(h)) == latency_sigfig(*old(h)),
{
    let _ = h.inner.record(v);
}

/// Relies on hdrhistogram's `Histogram::len`: the number of recorded samples,
/// saturating at `u64::MAX`.
#[verifier::external_body]
fn histogram_len(h: &LatencyHistogram) -> (r: u64)
    ensures
        r as int == if latency_samples(*h).len() <= u64::MAX {
            latency_samples(*h).len() as int
        } else {
            u64::MAX as int
        },
{
    h.inner.len()
}

/// Relies on hdrhistogram's `Histogram::min`: the lowest equivalent of the
/// smallest recorded value (0 where a 0 was recorded), so no recorded value
/// lies below it and the smallest lies within the histogram's resolution.
#[verifier::external_body]
fn histogram_min(h: &LatencyHistogram) -> (r: u64)
    ensures
        forall|v: u64| #[trigger] latency_samples(*h).count(v) > 0 ==> r <= v,
        resolves_min(latency_samples(*h), r, sub_bucket_half(latency_sigfig(*h))),
{
    h.inner.min()
}

/// Relies on hdrhistogram's `Histogram::max`: the highest equivalent of the
/// largest recorded value, so no recorded value lies above it and the largest
/// lies within the histogram's resolution.
#[verifier::external_body]
fn histogram_max(h: &LatencyHistogram) -> (r: u64)
    ensures
        forall|v: u64| #[trigger] latency_samples(*h).count(v) > 0 ==> v <= r,
        resolves_max(latency_samples(*h), r, sub_bucket_half(latency_sigfig(*h))),
{
    h.inner.max()
}

impl LatencyHistogram {
    /// The number of samples, saturating at `u64::MAX`.
    pub fn len(&self) -> (r: u64)
        ensures
            r as int == if latency_samples(*self).len() <= u64::MAX {
                latency_samples(*self).len() as int
            } else {
                u64::MAX as int
            },
    {
        histogram_len(self)
    }

    /// The smallest sample, to the histogram's resolution: no sample lies
    /// below it, and some sample `v` lies at most `v / sub_bucket_half` above.
    pub fn min(&self) -> (r: u64)
        ensures
            forall|v: u64| #[trigger] latency_samples(*self).count(v) > 0 ==> r <= v,
            resolves_min(latency_samples(*self), r, sub_bucket_half(latency_sigfig(*self))),
    {
        histogram_min(self)
    }

    /// The largest sample, to the histogram's resolution: no sample lies above
    /// it, and some sample `v` lies at most `v / sub_bucket_half` below.
    pub fn max(&self) -> (r: u64)
        ensures
            forall|v: u64| #[trigger] latency_samples(*self).count(v) > 0 ==> v <= r,
            resolves_max(latency_samples(*self), r, sub_bucket_half(latency_sigfig(*self))),
    {
        histogram_max(self)
    }
}

/// The histogram could not be created.
#[derive(Debug, Clone, Copy, PartialEq, Eq, Structural)]
pub enum AggregatesError {
    HistogramUnavailable,
}

/// How many responses with status `code` a map of exact counts holds.
pub open spec fn code_count(m: Map<u16, u64>, code: int) -> int {
    if 0 <= code <= 65535 && m.contains_key(code as u16) {
        m[code as u16] as int
    } else {
        0
    }
}

/// The sum of the exact counts of the codes below `n`.
pub open spec fn codes_total_below(m: Map<u16, u64>, n: nat) -> int
    decreases n,
{
    if n == 0 {
        0
    } else {
        codes_total_below(m, (n - 1) as nat) + code_count(m, n - 1)
    }
}

/// The sum of all exact status counts.
pub open spec fn codes_total(m: Map<u16, u64>) -> int {
    codes_total_below(m, 65536)
}

/// Changing the count of one code changes the sum by the same amount.
pub proof fn lemma_codes_total_update(m: Map<u16, u64>, k: u16, v: u64, n: nat)
    ensures
        codes_total_below(m.insert(k, v), n) == codes_total_below(m, n) + if (k as int) < n {
            v - code_count(m, k as int)
        } else {
            0
        },
    decreases n,
{
    if n > 0 {
        lemma_codes_total_update(m, k, v, (n - 1) as nat);
    }
}

/// No single count exceeds the sum.
pub proof fn lemma_code_count_bounded(m: Map<u16, u64>, k: int, n: nat)
    requires
        0 <= k < n,
    ensures
        code_count(m, k) <= codes_total_below(m, n),
    decreases n,
{
    lemma_codes_total_nonneg(m, (n - 1) as nat);
    if k < n - 1 {
        lemma_code_count_bounded(m, k, (n - 1) as nat);
    }
}

proof fn lemma_codes_total_nonneg(m: Map<u16, u64>, n: nat)
    ensures
        codes_total_below(m, n) >= 0,
    decreases n,
{
    if n > 0 {
        lemma_codes_total_nonneg(m, (n - 1) as nat);
    }
}

/// Everything recorded about the requests of one run.
pub struct Aggregates {
    pub status_exact: BTreeMap<u16, u64>,
    pub status_class: StatusClassCounts,
    pub net_errors: NetErrCounts,
    pub latency_micros: LatencyHistogram,
}

impl Aggregates {
    /// The exact counts agree with the class rollup: both count every response.
    pub open spec fn statuses_agree(self) -> bool {
        codes_total(self.status_exact@) == self.status_class.total()
    }

    /// The latency samples recorded so far.
    pub open spec fn samples(self) -> Multiset<u64> {
        latency_samples(self.latency_micros)
    }

    /// Empty statistics, with latencies kept to `LATENCY_SIGFIG` digits.
    pub fn new() -> (r: Result<Aggregates, AggregatesError>)
        ensures
            r is Ok,
            r matches Ok(a) ==> {
                &&& a.status_exact@ == Map::<u16, u64>::empty()
                &&& a.status_class.total() == 0
                &&& a.net_errors.sum() == 0
                &&& a.samples() =~= Multiset::empty()
                &&& latency_sigfig(a.latency_micros) == LATENCY_SIGFIG
            },
    {
        match new_latency_histogram(LATENCY_SIGFIG) {
            Some(h) => Ok(
                Aggregates {
                    status_exact: BTreeMap::new(),
                    status_class: StatusClassCounts::default(),
                    net_errors: NetErrCounts::default(),
                    latency_micros: h,
                },
            ),
            None => Err(AggregatesError::HistogramUnavailable),
        }
    }

    /// Counts one response with status `code`, both exactly and by class.
    pub fn record_status(&mut self, code: u16)
        requires
            code_count(old(self).status_exact@, code as int) < u64::MAX,
            old(self).status_class.class_count(status_class_of(code)) < u64::MAX,
        ensures
            final(self).status_exact@ == old(self).status_exact@.insert(
                code,
                (code_count(old(self).status_exact@, code as int) + 1) as u64,
            ),
            final(self).status_class == old(self).status_class.counted(code),
            final(self).status_class.total() == old(self).status_class.total() + 1,
            codes_total(final(self).status_exact@) == codes_total(old(self).status_exact@) + 1,
            final(self).net_errors == old(self).net_errors,
            final(self).latency_micros == old(self).latency_micros,
    {
        let cur: u64 = match self.status_exact.get(&code) {
            Some(c) => *c,
            None => 0,
        };
        proof {
            lemma_codes_total_update(self.status_exact@, code, (cur + 1) as u64, 65536);
        }
        self.status_exact.insert(code, cur + 1);
        self.status_class.record(code);
    }

    /// Counts one failed request of kind `kind`.
    pub fn record_error(&mut self, kind: NetErrKind)
        requires
            old(self).net_errors.kind_count(kind) < u64::MAX,
        ensures
            final(self).net_errors == old(self).net_errors.counted(kind),
            final(self).net_errors.sum() == old(self).net_errors.sum() + 1,
            final(self).status_exact@ == old(self).status_exact@,
            final(self).status_class == old(self).status_class,
            final(self).latency_micros == old(self).latency_micros,
    {
        self.net_errors.record(kind);
    }

    /// Records a latency in microseconds, raised to at least 1.
    pub fn record_latency(&mut self, micros: u64)
        ensures
            final(self).samples() == old(self).samples().insert(
                if micros == 0 {
                    1
                } else {
                    micros
                },
            ),
            latency_sigfig(final(self).latency_micros) == latency_sigfig(old(self).latency_micros),
            final(self).status_exact@ == old(self).status_exact@,
            final(self).status_class == old(self).status_class,
            final(self).net_errors == old(self).net_errors,
    {
        let v: u64 = if micros == 0 {
            1
        } else {
            micros
        };
        histogram_record(&mut self.latency_micros, v);
    }
}

} // verus!
