use vstd::prelude::*;
use crate::frame_clock::{lemma_sum_bound, sum};

verus! {

/// The durations recorded under one name, oldest first.
pub struct ProfileScope {
    name: String,
    durations: Vec<u64>,
}

/// An open timing scope: where it records and when it started.
pub struct ProfileToken {
    name: String,
    start_ns: u64,
}

impl ProfileToken {
    pub closed spec fn name(&self) -> Seq<char> {
        self.name@
    }

    pub closed spec fn start(&self) -> u64 {
        self.start_ns
    }
}

/// Summary of the durations recorded under one name.
#[derive(Clone, Copy, Debug, PartialEq, Eq, Structural)]
pub struct ProfileStats {
    pub count: usize,
    pub total_ns: u128,
    pub mean_ns: u128,
}

/// Count, total and mean of a series; the mean of an empty series is zero.
pub open spec fn stats_of(s: Seq<u64>) -> ProfileStats {
    ProfileStats {
        count: s.len() as usize,
        total_ns: sum(s) as u128,
        mean_ns: if s.len() == 0 {
            0
        } else {
            (sum(s) / s.len() as int) as u128
        },
    }
}

/// The series under `n` in `m`, empty where the name was never used.
pub open spec fn series_in(m: Map<Seq<char>, Seq<u64>>, n: Seq<char>) -> Seq<u64> {
    if m.contains_key(n) {
        m[n]
    } else {
        Seq::empty()
    }
}

/// The series after one more duration `d` was recorded under `n`.
pub open spec fn recorded(m: Map<Seq<char>, Seq<u64>>, n: Seq<char>, d: u64) -> Map<
    Seq<char>,
    Seq<u64>,
> {
    m.insert(n, series_in(m, n).push(d))
}

/// The duration of a scope opened at `start` and closed at `end`, zero if the
/// clock went backwards.
pub open spec fn scope_duration(start: u64, end: u64) -> u64 {
    if end >= start {
        (end - start) as u64
    } else {
        0
    }
}

/// Each closed scope adds exactly one duration to its own series and leaves every
/// other series alone: two scopes under a name that was never used leave a count of two.
pub proof fn lemma_scopes_counted(m: Map<Seq<char>, Seq<u64>>, n: Seq<char>, other: Seq<char>, d1: u64, d2: u64)
    requires
        other != n,
    ensures
        series_in(recorded(recorded(m, n, d1), n, d2), n) == series_in(m, n).push(d1).push(d2),
        series_in(recorded(m, n, d1), other) == series_in(m, other),
        !m.contains_key(n) ==> stats_of(series_in(recorded(recorded(m, n, d1), n, d2), n)).count == 2,
{
}

/// Named series of elapsed times. Names are unique; a series is created on first
/// use of its name and is never evicted.
pub struct ProfileCache {
    scopes: Vec<ProfileScope>,
}

impl ProfileCache {
    #[verifier::type_invariant]
    spec fn wf(&self) -> bool {
        forall|i: int, j: int|
            0 <= i < j < self.scopes@.len() ==> self.scopes@[i].name@ != self.scopes@[j].name@
    }

    /// The series recorded under each name that was used.
    pub closed spec fn series(&self) -> Map<Seq<char>, Seq<u64>> {
        Map::new(
            |n: Seq<char>| exists|i: int| 0 <= i < self.scopes@.len() && self.scopes@[i].name@ == n,
            |n: Seq<char>|
                self.scopes@[choose|i: int| 0 <= i < self.scopes@.len() && self.scopes@[i].name@ == n].durations@,
        )
    }

    /// The series under `n`, empty where the name was never used.
    pub open spec fn series_of(&self, n: Seq<char>) -> Seq<u64> {
        series_in(self.series(), n)
    }

    proof fn lemma_series_at(&self, i: int)
        requires
            self.wf(),
            0 <= i < self.scopes@.len(),
        ensures
            self.series().contains_key(self.scopes@[i].name@),
            self.series()[self.scopes@[i].name@] == self.scopes@[i].durations@,
    {
        let n = self.scopes@[i].name@;
        let j = choose|j: int| 0 <= j < self.scopes@.len() && self.scopes@[j].name@ == n;
        assert(i == j);
    }

    pub fn new() -> (r: ProfileCache)
        ensures
            r.series() == Map::<Seq<char>, Seq<u64>>::empty(),
    {
        let r = ProfileCache { scopes: Vec::new() };
        assert(r.series() =~= Map::<Seq<char>, Seq<u64>>::empty());
        r
    }

    fn find(&self, name: &String) -> (r: Option<usize>)
        ensures
            r matches Some(i) ==> i < self.scopes@.len() && self.scopes@[i as int].name@ == name@,
            r is None ==> !self.series().contains_key(name@),
    {
        let mut i: usize = 0;
        while i < self.scopes.len()
            invariant
                i <= self.scopes@.len(),
                forall|j: int| 0 <= j < i ==> self.scopes@[j].name@ != name@,
            decreases self.scopes@.len() - i,
        {
            if self.scopes[i].name == *name {
                return Some(i);
            }
            i = i + 1;
        }
        None
    }

    /// Appends one duration to the series named `name`, creating it on first use.
    pub fn record(&mut self, name: String, duration_ns: u64)
        ensures
            final(self).series() == recorded(old(self).series(), name@, duration_ns),
    {
        proof {
            use_type_invariant(&*self);
        }
        let ghost before = self.series();
        match self.find(&name) {
            Some(i) => {
                proof {
                    self.lemma_series_at(i as int);
                }
                let mut scopes: Vec<ProfileScope> = Vec::new();
                std::mem::swap(&mut scopes, &mut self.scopes);
                let mut scope = scopes.remove(i);
                scope.durations.push(duration_ns);
                scopes.insert(i, scope);
                proof {
                    assert forall|a: int, b: int|
                        0 <= a < b < scopes@.len() implies scopes@[a].name@ != scopes@[b].name@ by {
                        assert(old(self).scopes@[a].name@ == scopes@[a].name@);
                        assert(old(self).scopes@[b].name@ == scopes@[b].name@);
                    }
                }
                self.scopes = scopes;
                proof {
                    assert forall|a: int, b: int|
                        0 <= a < b < self.scopes@.len() implies self.scopes@[a].name@
                        != self.scopes@[b].name@ by {
                        assert(old(self).scopes@[a].name@ == self.scopes@[a].name@);
                        assert(old(self).scopes@[b].name@ == self.scopes@[b].name@);
                    }
                    assert forall|k: int| 0 <= k < self.scopes@.len() implies #[trigger] self.scopes@[k].name@
                        == old(self).scopes@[k].name@ && (k != i ==> self.scopes@[k].durations@
                        == old(self).scopes@[k].durations@) by {}
                }
                proof {
                    let target = before.insert(name@, before[name@].push(duration_ns));
                    assert forall|n: Seq<char>| #[trigger] target.contains_key(n) implies self.series().contains_key(n) by {
                        if n != name@ {
                            assert(old(self).series().contains_key(n));
                            let k = choose|k: int| 0 <= k < old(self).scopes@.len() && old(self).scopes@[k].name@ == n;
                            assert(self.scopes@[k].name@ == n);
                        } else {
                            assert(self.scopes@[i as int].name@ == n);
                        }
                    }
                    assert forall|n: Seq<char>| #[trigger] self.series().contains_key(n) implies target.contains_key(n) by {
                        let k = choose|k: int| 0 <= k < self.scopes@.len() && self.scopes@[k].name@ == n;
                        assert(old(self).scopes@[k].name@ == n);
                        assert(old(self).series().contains_key(n));
                    }
                    assert forall|n: Seq<char>| #[trigger] self.series().contains_key(n) implies self.series()[n] == target[n] by {
                        let k = choose|k: int| 0 <= k < self.scopes@.len() && self.scopes@[k].name@ == n;
                        self.lemma_series_at(k);
                        if n != name@ {
                            old(self).lemma_series_at(k);
                        }
                    }
                    assert(self.series() =~= target);
                }
            },
            None => {
                let mut durations: Vec<u64> = Vec::new();
                durations.push(duration_ns);
                let ghost key = name@;
                let mut scopes: Vec<ProfileScope> = Vec::new();
                std::mem::swap(&mut scopes, &mut self.scopes);
                scopes.push(ProfileScope { name, durations });
                proof {
                    let last = scopes@.len() - 1;
                    assert forall|a: int, b: int|
                        0 <= a < b < scopes@.len() implies scopes@[a].name@ != scopes@[b].name@ by {
                        if b == last {
                            assert(old(self).scopes@[a].name@ == scopes@[a].name@);
                        }
                    }
                }
                self.scopes = scopes;
                proof {
                    let last = self.scopes@.len() - 1;
                    assert(self.scopes@[last].durations@ =~= Seq::<u64>::empty().push(duration_ns));
                    assert forall|k: int| 0 <= k < last implies #[trigger] self.scopes@[k] == old(self).scopes@[k] by {}
                    let target = before.insert(key, Seq::<u64>::empty().push(duration_ns));
                    assert(self.scopes@[last].name@ == key);
                    assert(self.series().contains_key(key));
                    assert forall|n: Seq<char>| #[trigger] target.contains_key(n) implies self.series().contains_key(n) by {
                        if n != key {
                            assert(old(self).series().contains_key(n));
                            let k = choose|k: int| 0 <= k < old(self).scopes@.len() && old(self).scopes@[k].name@ == n;
                            assert(self.scopes@[k].name@ == n);
                        }
                    }
                    assert forall|n: Seq<char>| #[trigger] self.series().contains_key(n) implies target.contains_key(n) by {
                        let k = choose|k: int| 0 <= k < self.scopes@.len() && self.scopes@[k].name@ == n;
                        if k < last {
                            assert(old(self).scopes@[k].name@ == n);
                            assert(old(self).series().contains_key(n));
                        }
                    }
                    assert forall|n: Seq<char>| #[trigger] self.series().contains_key(n) implies self.series()[n] == target[n] by {
                        let k = choose|k: int| 0 <= k < self.scopes@.len() && self.scopes@[k].name@ == n;
                        self.lemma_series_at(k);
                        if n != key {
                            old(self).lemma_series_at(k);
                        }
                    }
                    assert(self.series() =~= target);
                }
            },
        }
    }

    /// Opens a timing scope named `name` that started at `start_ns`.
    pub fn begin(&self, name: String, start_ns: u64) -> (t: ProfileToken)
        ensures
            t.name() == name@,
            t.start() == start_ns,
    {
        ProfileToken { name, start_ns }
    }

    /// Closes a scope at `end_ns`: the time since it started (zero if the clock went
    /// backwards) is appended to its series.
    pub fn finish(&mut self, token: ProfileToken, end_ns: u64)
        ensures
            final(self).series() == recorded(
                old(self).series(),
                token.name(),
                scope_duration(token.start(), end_ns),
            ),
    {
        let d = if end_ns >= token.start_ns {
            end_ns - token.start_ns
        } else {
            0
        };
        self.record(token.name, d);
    }

    /// Count, total and mean of the durations recorded under `name`.
    pub fn query(&self, name: &str) -> (r: ProfileStats)
        ensures
            r == stats_of(self.series_of(name@)),
    {
        proof {
            use_type_invariant(&*self);
        }
        let key = name.to_owned();
        match self.find(&key) {
            None => ProfileStats { count: 0, total_ns: 0, mean_ns: 0 },
            Some(i) => {
                proof {
                    self.lemma_series_at(i as int);
                }
                let ds = &self.scopes[i].durations;
                let mut total: u128 = 0;
                let mut k: usize = 0;
                while k < ds.len()
                    invariant
                        k <= ds@.len(),
                        total == sum(ds@.take(k as int)),
                    decreases ds@.len() - k,
                {
                    proof {
                        lemma_sum_bound(ds@.take(k as int));
                        assert(ds@.take(k as int + 1).drop_last() =~= ds@.take(k as int));
                        assert(k * (u64::MAX as int) <= usize::MAX * (u64::MAX as int)) by (nonlinear_arith)
                            requires k <= usize::MAX;
                    }
                    total = total + ds[k] as u128;
                    k = k + 1;
                }
                assert(ds@.take(ds@.len() as int) =~= ds@);
                let n = ds.len();
                let mean = if n == 0 { 0 } else { total / (n as u128) };
                ProfileStats { count: n, total_ns: total, mean_ns: mean }
            },
        }
    }
}

} // verus!
