//! Traffic-counter ingestion: two bounded ring buffers of per-tick
//! byte counts and the most recent sample as an instantaneous rate.
//!
//! Eviction is strict first-in-first-out; no smoothing or aggregation
//! happens here, only raw counters.

use vstd::prelude::*;

use crate::json::JsonValue;
use crate::json::num_field;
use crate::json::spec_num_field;

verus! {

/// One per-tick traffic counter reading.
#[derive(Clone, Copy, Debug, PartialEq, Eq, Structural)]
pub struct TrafficSample {
    /// Bytes downloaded during the tick.
    pub down: u64,
    /// Bytes uploaded during the tick.
    pub up: u64,
}

/// The counters one message of the daemon's traffic stream carries,
/// if `v` is such a message: an object with numeric `down` and `up`
/// fields.
pub open spec fn spec_parse_traffic_sample(v: JsonValue) -> Option<TrafficSample> {
    match v {
        JsonValue::Obj(f) => match (spec_num_field(f@, "down"@), spec_num_field(f@, "up"@)) {
            (Some(down), Some(up)) => Some(TrafficSample { down, up }),
            _ => None,
        },
        _ => None,
    }
}

/// Read one message of the traffic stream.
pub fn parse_traffic_sample(v: &JsonValue) -> (r: Option<TrafficSample>)
    ensures
        r == spec_parse_traffic_sample(*v),
{
    match v {
        JsonValue::Obj(f) => {
            let down = num_field(f, "down");
            let up = num_field(f, "up");
            match (down, up) {
                (Some(down), Some(up)) => Some(TrafficSample { down, up }),
                _ => None,
            }
        },
        _ => None,
    }
}

/// A fixed-capacity first-in-first-out sample history.
#[derive(Clone, Debug)]
pub struct History {
    /// The fixed capacity; mutate only through the methods below.
    pub cap: usize,
    /// Held samples, oldest first; mutate only through the methods below.
    pub items: Vec<u64>,
}

impl View for History {
    type V = Seq<u64>;

    open spec fn view(&self) -> Seq<u64> {
        self.items@
    }
}

/// What one insertion leaves in a ring of capacity `cap`: the value is
/// appended, and when the ring is full the oldest entry goes first.
pub open spec fn spec_ring_push(s: Seq<u64>, cap: nat, v: u64) -> Seq<u64> {
    if s.len() < cap {
        s.push(v)
    } else {
        s.drop_first().push(v)
    }
}

/// A whole stream of insertions, in arrival order.
pub open spec fn spec_ring_ingest(s: Seq<u64>, cap: nat, xs: Seq<u64>) -> Seq<u64>
    decreases xs.len(),
{
    if xs.len() == 0 {
        s
    } else {
        spec_ring_ingest(spec_ring_push(s, cap, xs[0]), cap, xs.drop_first())
    }
}

impl History {
    /// Whether the history respects its capacity.
    pub open spec fn wf(&self) -> bool {
        self.cap >= 1 && self@.len() <= self.cap
    }

    /// The fixed capacity.
    pub open spec fn spec_capacity(&self) -> nat {
        self.cap as nat
    }

    /// An empty history of capacity `cap`.
    pub fn new(cap: usize) -> (h: History)
        requires
            cap >= 1,
        ensures
            h.wf(),
            h.spec_capacity() == cap,
            h@.len() == 0,
    {
        History { cap, items: Vec::new() }
    }

    /// How many samples are held.
    pub fn len(&self) -> (n: usize)
        ensures
            n == self@.len(),
    {
        self.items.len()
    }

    /// The sample at `i`, oldest first.
    pub fn get(&self, i: usize) -> (v: u64)
        requires
            i < self@.len(),
        ensures
            v == self@[i as int],
    {
        self.items[i]
    }

    /// Append a sample, evicting the oldest when full.
    pub fn push(&mut self, v: u64)
        requires
            old(self).wf(),
        ensures
            final(self).wf(),
            final(self).spec_capacity() == old(self).spec_capacity(),
            final(self)@ == spec_ring_push(old(self)@, old(self).spec_capacity(), v),
    {
        if self.items.len() == self.cap {
            let ghost before = self.items@;
            self.items.remove(0);
            proof {
                assert(self.items@ =~= before.drop_first());
            }
        }
        self.items.push(v);
    }
}

/// However many samples arrive, a ring that starts within its capacity
/// stays within it.
pub proof fn lemma_ring_bound(s: Seq<u64>, cap: nat, xs: Seq<u64>)
    requires
        cap >= 1,
        s.len() <= cap,
    ensures
        spec_ring_ingest(s, cap, xs).len() <= cap,
    decreases xs.len(),
{
    if xs.len() > 0 {
        lemma_ring_bound(spec_ring_push(s, cap, xs[0]), cap, xs.drop_first());
    }
}

/// What a full ingest leaves behind: exactly the last `cap` values of
/// the history and the stream laid end to end — the oldest samples are
/// the ones evicted, in order.
pub proof fn lemma_ring_fifo(s: Seq<u64>, cap: nat, xs: Seq<u64>)
    requires
        cap >= 1,
        s.len() <= cap,
    ensures
        ({
            let all = s + xs;
            let keep = if all.len() <= cap {
                0
            } else {
                all.len() - cap
            };
            spec_ring_ingest(s, cap, xs) =~= all.subrange(keep as int, all.len() as int)
        }),
    decreases xs.len(),
{
    let all = s + xs;
    if xs.len() == 0 {
        assert(all =~= s);
    } else {
        let s1 = spec_ring_push(s, cap, xs[0]);
        assert(s1 =~= (s.push(xs[0])).subrange(
            if s.len() < cap {
                0
            } else {
                1
            },
            s.push(xs[0]).len() as int,
        ));
        lemma_ring_fifo(s1, cap, xs.drop_first());
        assert(s1 + xs.drop_first() =~= all.subrange(
            if s.len() < cap {
                0
            } else {
                1
            },
            all.len() as int,
        ));
    }
}

/// The rolling telemetry a display reads: download and upload history
/// plus the most recent per-tick counters.
#[derive(Clone, Debug)]
pub struct TrafficMonitor {
    /// Download history, oldest first.
    pub down: History,
    /// Upload history, oldest first.
    pub up: History,
    /// The most recent download count, as an instantaneous rate.
    pub current_down: u64,
    /// The most recent upload count, as an instantaneous rate.
    pub current_up: u64,
}

impl TrafficMonitor {
    /// Whether both rings respect the same capacity.
    pub open spec fn wf(&self) -> bool {
        self.down.wf() && self.up.wf() && self.down.spec_capacity() == self.up.spec_capacity()
    }

    /// An empty monitor whose rings hold `cap` samples each.
    pub fn new(cap: usize) -> (m: TrafficMonitor)
        requires
            cap >= 1,
        ensures
            m.wf(),
            m.down.spec_capacity() == cap,
            m.down@.len() == 0,
            m.up@.len() == 0,
            m.current_down == 0,
            m.current_up == 0,
    {
        TrafficMonitor {
            down: History::new(cap),
            up: History::new(cap),
            current_down: 0,
            current_up: 0,
        }
    }

    /// Ingest one sample: both counts enter their rings and become the
    /// instantaneous rates.
    pub fn on_sample(&mut self, s: TrafficSample)
        requires
            old(self).wf(),
        ensures
            final(self).wf(),
            final(self).down.spec_capacity() == old(self).down.spec_capacity(),
            final(self).down@ == spec_ring_push(
                old(self).down@,
                old(self).down.spec_capacity(),
                s.down,
            ),
            final(self).up@ == spec_ring_push(old(self).up@, old(self).up.spec_capacity(), s.up),
            final(self).current_down == s.down,
            final(self).current_up == s.up,
    {
        self.down.push(s.down);
        self.up.push(s.up);
        self.current_down = s.down;
        self.current_up = s.up;
    }
}

} // verus!
