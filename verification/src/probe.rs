//! Generation-tagged latency probing.
//!
//! Every probe batch carries the generation it was started under. A
//! trigger increments the target's generation and marks it testing;
//! a settlement is applied only when its generation is still current,
//! so a slow probe from a superseded batch can never overwrite a newer
//! result. There is no cancellation: stale work is neutralised solely
//! by this filter.

use vstd::prelude::*;

use crate::latency::LatencyStatus;

verus! {

/// The probe state of a single target.
#[derive(Clone, Copy, Debug, PartialEq, Eq, Structural)]
pub struct ProbeState {
    /// The generation of the most recent trigger.
    pub generation: u64,
    /// The last applied status.
    pub status: LatencyStatus,
}

/// The state a settlement leaves a target in: applied only when its
/// generation is the current one, discarded silently otherwise.
pub open spec fn spec_probe_settle(s: ProbeState, generation: u64, result: LatencyStatus) -> ProbeState {
    if generation == s.generation {
        ProbeState { generation: s.generation, status: result }
    } else {
        s
    }
}

impl ProbeState {
    /// A target nobody has tested yet.
    pub fn new() -> (s: ProbeState)
        ensures
            s.generation == 0,
            s.status == LatencyStatus::Pending,
    {
        ProbeState { generation: 0, status: LatencyStatus::Pending }
    }

    /// Start a new probe batch: the generation grows by one and the
    /// target shows as testing. Returns the new generation, which the
    /// in-flight operation must carry back with its result.
    pub fn trigger(&mut self) -> (generation: u64)
        requires
            old(self).generation < u64::MAX,
        ensures
            final(self).generation == old(self).generation + 1,
            final(self).status == LatencyStatus::Testing,
            generation == final(self).generation,
    {
        self.generation = self.generation + 1;
        self.status = LatencyStatus::Testing;
        self.generation
    }

    /// Apply a settlement tagged with the generation it was started
    /// under; a stale one changes nothing.
    pub fn settle(&mut self, generation: u64, result: LatencyStatus)
        ensures
            *final(self) == spec_probe_settle(*old(self), generation, result),
    {
        if generation == self.generation {
            self.status = result;
        }
    }
}

/// A settlement from a superseded batch is discarded, and one from the
/// current batch lands: if generation `g` was triggered and a newer
/// trigger moved the target to generation `h`, `g`'s eventual result
/// leaves the state untouched, while `h`'s result is applied when it
/// arrives.
pub proof fn lemma_stale_settlement_discarded(
    s: ProbeState,
    g: u64,
    h: u64,
    stale: LatencyStatus,
    fresh: LatencyStatus,
)
    requires
        s.generation == h,
        g < h,
    ensures
        spec_probe_settle(s, g, stale) == s,
        spec_probe_settle(s, h, fresh) == (ProbeState { generation: h, status: fresh }),
{
}

/// Settling a stale result and then the current one ends exactly where
/// settling the current one alone would, whatever order they arrive in.
pub proof fn lemma_settlement_order_irrelevant(
    s: ProbeState,
    g: u64,
    h: u64,
    stale: LatencyStatus,
    fresh: LatencyStatus,
)
    requires
        s.generation == h,
        g < h,
    ensures
        spec_probe_settle(spec_probe_settle(s, g, stale), h, fresh) == spec_probe_settle(
            spec_probe_settle(s, h, fresh),
            g,
            stale,
        ),
        spec_probe_settle(spec_probe_settle(s, g, stale), h, fresh) == spec_probe_settle(
            s,
            h,
            fresh,
        ),
{
}

/// The fan-out probe state of the currently inspected group: one entry
/// per member, all tagged with the batch's generation.
#[derive(Clone, Debug)]
pub struct GroupProbe {
    /// The generation of the most recent fan-out trigger.
    pub generation: u64,
    /// Per-member results, in the group's display order.
    pub results: Vec<(String, LatencyStatus)>,
}

/// One settlement applied to a member list: every entry of that name
/// takes the result, every other entry stays.
pub open spec fn spec_settle_one(
    s: Seq<(String, LatencyStatus)>,
    name: Seq<char>,
    result: LatencyStatus,
) -> Seq<(String, LatencyStatus)> {
    Seq::new(
        s.len(),
        |i: int|
            if s[i].0@ == name {
                (s[i].0, result)
            } else {
                s[i]
            },
    )
}

/// A whole batch of settlements, applied in arrival order.
pub open spec fn spec_settle_seq(
    s: Seq<(String, LatencyStatus)>,
    xs: Seq<(Seq<char>, LatencyStatus)>,
) -> Seq<(String, LatencyStatus)>
    decreases xs.len(),
{
    if xs.len() == 0 {
        s
    } else {
        spec_settle_seq(spec_settle_one(s, xs[0].0, xs[0].1), xs.drop_first())
    }
}

impl GroupProbe {
    /// No fan-out has been triggered yet.
    pub fn new() -> (g: GroupProbe)
        ensures
            g.generation == 0,
            g.results@.len() == 0,
    {
        GroupProbe { generation: 0, results: Vec::new() }
    }

    /// Start a fan-out batch over `members`: the generation grows by
    /// one and every member shows as testing. Each member's probe is
    /// spawned independently and reports back under the returned
    /// generation.
    pub fn trigger(&mut self, members: &Vec<String>) -> (generation: u64)
        requires
            old(self).generation < u64::MAX,
        ensures
            final(self).generation == old(self).generation + 1,
            final(self).results@.len() == members@.len(),
            forall|i: int|
                0 <= i < members@.len() ==> final(self).results@[i] == (
                members@[i],
                LatencyStatus::Testing,
                ),
            generation == final(self).generation,
    {
        let mut results: Vec<(String, LatencyStatus)> = Vec::new();
        let n = members.len();
        for i in 0..n
            invariant
                n == members@.len(),
                results@.len() == i,
                forall|j: int|
                    0 <= j < i ==> results@[j] == (members@[j], LatencyStatus::Testing),
        {
            let m = &members[i];
            results.push((m.clone(), LatencyStatus::Testing));
        }
        self.results = results;
        self.generation = self.generation + 1;
        self.generation
    }

    /// Apply one member's settlement. A stale generation changes
    /// nothing; a current one lands on that member alone, so one
    /// member's failure can neither block nor invalidate another's
    /// result.
    pub fn settle_member(&mut self, generation: u64, name: &String, result: LatencyStatus)
        ensures
            final(self).generation == old(self).generation,
            generation == old(self).generation ==> final(self).results@ == spec_settle_one(
                old(self).results@,
                name@,
                result,
            ),
            generation != old(self).generation ==> final(self).results@ == old(self).results@,
    {
        if generation != self.generation {
            return ;
        }
        let ghost orig = self.results@;
        let ghost gen0 = self.generation;
        let n = self.results.len();
        for i in 0..n
            invariant
                self.generation == gen0,
                n == self.results@.len(),
                orig.len() == n,
                forall|j: int| 0 <= j < n ==> #[trigger] self.results@[j].0 == orig[j].0,
                forall|j: int|
                    0 <= j < i ==> #[trigger] self.results@[j] == spec_settle_one(
                        orig,
                        name@,
                        result,
                    )[j],
                forall|j: int| i <= j < n ==> #[trigger] self.results@[j] == orig[j],
        {
            let matches_name = {
                let e = &self.results[i];
                e.0 == *name
            };
            if matches_name {
                let kept = self.results[i].0.clone();
                self.results.set(i, (kept, result));
            }
        }
        proof {
            assert(self.results@ =~= spec_settle_one(orig, name@, result));
        }
    }
}

/// A settled member keeps its name; a batch never changes the member
/// list, only statuses.
pub proof fn lemma_settle_seq_shape(
    s: Seq<(String, LatencyStatus)>,
    xs: Seq<(Seq<char>, LatencyStatus)>,
)
    ensures
        spec_settle_seq(s, xs).len() == s.len(),
        forall|i: int| 0 <= i < s.len() ==> #[trigger] spec_settle_seq(s, xs)[i].0 == s[i].0,
    decreases xs.len(),
{
    if xs.len() > 0 {
        let s1 = spec_settle_one(s, xs[0].0, xs[0].1);
        lemma_settle_seq_shape(s1, xs.drop_first());
    }
}

/// Fan-out isolation, the untouched side: a member none of the batch's
/// settlements names comes out exactly as it went in, however many of
/// the others failed.
pub proof fn lemma_fanout_isolation(
    s: Seq<(String, LatencyStatus)>,
    xs: Seq<(Seq<char>, LatencyStatus)>,
    i: int,
)
    requires
        0 <= i < s.len(),
        forall|k: int| 0 <= k < xs.len() ==> #[trigger] xs[k].0 != s[i].0@,
    ensures
        spec_settle_seq(s, xs).len() == s.len(),
        spec_settle_seq(s, xs)[i] == s[i],
    decreases xs.len(),
{
    lemma_settle_seq_shape(s, xs);
    if xs.len() > 0 {
        let s1 = spec_settle_one(s, xs[0].0, xs[0].1);
        assert(s1[i] == s[i]);
        assert(forall|k: int|
            0 <= k < xs.drop_first().len() ==> #[trigger] xs.drop_first()[k].0 != s1[i].0@);
        lemma_fanout_isolation(s1, xs.drop_first(), i);
    }
}

/// Fan-out isolation, the delivery side: a member whose own settlement
/// is the last one naming it ends with exactly that result, whatever
/// the other members' probes did. With one settlement per member, as a
/// fan-out batch produces, this is each member's only settlement.
pub proof fn lemma_fanout_delivery(
    s: Seq<(String, LatencyStatus)>,
    xs: Seq<(Seq<char>, LatencyStatus)>,
    i: int,
    k: int,
)
    requires
        0 <= i < s.len(),
        0 <= k < xs.len(),
        xs[k].0 == s[i].0@,
        forall|k2: int| k < k2 < xs.len() ==> #[trigger] xs[k2].0 != s[i].0@,
    ensures
        spec_settle_seq(s, xs).len() == s.len(),
        spec_settle_seq(s, xs)[i] == (s[i].0, xs[k].1),
    decreases xs.len(),
{
    lemma_settle_seq_shape(s, xs);
    let s1 = spec_settle_one(s, xs[0].0, xs[0].1);
    if k == 0 {
        assert(s1[i] == (s[i].0, xs[0].1));
        assert(forall|k2: int|
            0 <= k2 < xs.drop_first().len() ==> #[trigger] xs.drop_first()[k2].0 != s1[i].0@);
        lemma_fanout_isolation(s1, xs.drop_first(), i);
    } else {
        assert(s1[i].0 == s[i].0);
        assert(xs.drop_first()[k - 1] == xs[k]);
        assert(forall|k2: int|
            k - 1 < k2 < xs.drop_first().len() ==> #[trigger] xs.drop_first()[k2].0 != s1[i].0@);
        lemma_fanout_delivery(s1, xs.drop_first(), i, k - 1);
    }
}

} // verus!
