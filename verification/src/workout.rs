//! Workout planning with cached expensive computations.
//!
//! [`Cacher`] runs its calculation once and replays the first result on
//! every later call, whatever the argument — the classic single-slot cache.
//! [`Memo`] remembers one result per argument instead. [`generate_workout`]
//! uses a cacher so the simulated expensive calculation runs at most once
//! while the plan is put together.

use vstd::prelude::*;

verus! {

/// A single-slot cache around a calculation: the first call runs the
/// calculation, every later call replays that first result — even for a
/// different argument.
pub struct Cacher<T> where T: Fn(u32) -> u32 {
    calculation: T,
    value: Option<u32>,
}

impl<T> Cacher<T> where T: Fn(u32) -> u32 {
    /// The calculation the cache wraps.
    pub closed spec fn func(&self) -> T {
        self.calculation
    }

    /// The cached result, if one call has happened.
    pub closed spec fn cached(&self) -> Option<u32> {
        self.value
    }

    /// Wraps a calculation; nothing is cached yet.
    pub fn new(calculation: T) -> (c: Self)
        ensures
            c.func() == calculation,
            c.cached() is None,
    {
        Cacher { calculation, value: None }
    }

    /// The cached value, or the calculation's result on `arg` the first
    /// time. The result is cached, so the calculation never runs twice.
    pub fn value(&mut self, arg: u32) -> (v: u32)
        requires
            call_requires(old(self).func(), (arg,)),
        ensures
            final(self).func() == old(self).func(),
            match old(self).cached() {
                Some(cached) => {
                    &&& v == cached
                    &&& final(self).cached() == old(self).cached()
                },
                None => {
                    &&& call_ensures(old(self).func(), (arg,), v)
                    &&& final(self).cached() == Some(v)
                },
            },
    {
        match self.value {
            Some(v) => v,
            None => {
                let v = (self.calculation)(arg);
                self.value = Some(v);
                v
            },
        }
    }
}

/// The table a [`Memo`] has built so far, read as first match wins: the
/// result remembered for `arg`, if any call with `arg` has happened.
pub open spec fn lookup(table: Seq<(u64, u64)>, arg: u64) -> Option<u64>
    decreases table.len(),
{
    if table.len() == 0 {
        None
    } else if table[0].0 == arg {
        Some(table[0].1)
    } else {
        lookup(table.drop_first(), arg)
    }
}

/// Appending a pair for a new argument leaves every earlier argument's
/// entry alone, and fills in the new one if it was absent.
proof fn lemma_lookup_push(table: Seq<(u64, u64)>, pair: (u64, u64), arg: u64)
    ensures
        lookup(table.push(pair), arg) == (if lookup(table, arg) is Some {
            lookup(table, arg)
        } else if pair.0 == arg {
            Some(pair.1)
        } else {
            None
        }),
    decreases table.len(),
{
    if table.len() > 0 {
        assert(table.push(pair).drop_first() =~= table.drop_first().push(pair));
        lemma_lookup_push(table.drop_first(), pair, arg);
    } else {
        assert(table.push(pair).drop_first() =~= table);
    }
}

/// A memoising cache around a function: each argument's result is computed
/// once and remembered, so asking twice with the same argument gives the
/// same answer without running the function again.
pub struct Memo<T> where T: Fn(u64) -> u64 {
    func: T,
    values: Vec<(u64, u64)>,
}

impl<T> Memo<T> where T: Fn(u64) -> u64 {
    /// The function the cache wraps.
    pub closed spec fn func(&self) -> T {
        self.func
    }

    /// The argument-to-result table built so far.
    pub closed spec fn table(&self) -> Seq<(u64, u64)> {
        self.values@
    }

    /// Wraps a function; the table starts empty.
    pub fn new(func: T) -> (m: Self)
        ensures
            m.func() == func,
            m.table() == Seq::<(u64, u64)>::empty(),
    {
        Memo { func, values: Vec::new() }
    }

    /// The remembered result for `arg`, or the function's result the first
    /// time, which is then remembered. Every other argument's entry is
    /// untouched.
    pub fn value(&mut self, arg: u64) -> (v: u64)
        requires
            call_requires(old(self).func(), (arg,)),
        ensures
            final(self).func() == old(self).func(),
            match lookup(old(self).table(), arg) {
                Some(remembered) => {
                    &&& v == remembered
                    &&& final(self).table() == old(self).table()
                },
                None => {
                    &&& call_ensures(old(self).func(), (arg,), v)
                    &&& final(self).table() == old(self).table().push((arg, v))
                },
            },
            lookup(final(self).table(), arg) == Some(v),
            forall|other: u64|
                other != arg ==> lookup(final(self).table(), other) == lookup(
                    old(self).table(),
                    other,
                ),
    {
        let mut i: usize = 0;
        while i < self.values.len()
            invariant
                i <= self.values.len(),
                forall|k: int| 0 <= k < i ==> self.values@[k].0 != arg,
            decreases self.values.len() - i,
        {
            if self.values[i].0 == arg {
                let v = self.values[i].1;
                proof {
                    lemma_lookup_prefix_miss(self.values@, arg, i as int);
                }
                return v;
            }
            i = i + 1;
        }
        let v = (self.func)(arg);
        proof {
            lemma_lookup_prefix_miss(self.values@, arg, self.values@.len() as int);
            lemma_lookup_push(self.values@, (arg, v), arg);
            assert forall|other: u64| other != arg implies lookup(
                self.values@.push((arg, v)),
                other,
            ) == lookup(self.values@, other) by {
                lemma_lookup_push(self.values@, (arg, v), other);
            }
        }
        self.values.push((arg, v));
        v
    }
}

/// When no pair among the first `i` matches `arg`, the lookup is decided
/// by the rest of the table; scanning the whole table without a match
/// means the entry is absent, and stopping on a match at `i` yields that
/// pair's result.
proof fn lemma_lookup_prefix_miss(table: Seq<(u64, u64)>, arg: u64, i: int)
    requires
        0 <= i <= table.len(),
        forall|k: int| 0 <= k < i ==> table[k].0 != arg,
    ensures
        i == table.len() ==> lookup(table, arg) is None,
        i < table.len() && table[i].0 == arg ==> lookup(table, arg) == Some(table[i].1),
    decreases i,
{
    if i > 0 {
        assert(table[0].0 != arg);
        lemma_lookup_prefix_miss(table.drop_first(), arg, i - 1);
    }
}

/// A workout plan: exercise counts, a rest day, or a run.
#[derive(PartialEq, Eq, Structural, Debug)]
pub enum WorkoutPlan {
    /// Do this many pushups, then this many situps.
    Exercise { pushups: u32, situps: u32 },
    /// Take a break and stay hydrated.
    Rest,
    /// Run for this many minutes.
    Run { minutes: u32 },
}

/// The plan [`generate_workout`] arrives at: light intensity means
/// exercising at that intensity twice over; otherwise a lucky random draw
/// of three means rest, and anything else a run of that intensity.
pub open spec fn planned_workout(intensity: u32, random_number: u32) -> WorkoutPlan {
    if intensity < 25 {
        WorkoutPlan::Exercise { pushups: intensity, situps: intensity }
    } else if random_number == 3 {
        WorkoutPlan::Rest
    } else {
        WorkoutPlan::Run { minutes: intensity }
    }
}

/// Puts together the workout of the day. The expensive intensity
/// calculation is wrapped in a [`Cacher`], so even though the plan may ask
/// for it twice, it runs at most once.
pub fn generate_workout(intensity: u32, random_number: u32) -> (plan: WorkoutPlan)
    ensures
        plan == planned_workout(intensity, random_number),
{
    let calculation = |num: u32| -> (r: u32)
        ensures
            r == num,
        {
            num
        };
    let mut expensive_result = Cacher::new(calculation);
    if intensity < 25 {
        let pushups = expensive_result.value(intensity);
        let situps = expensive_result.value(intensity);
        WorkoutPlan::Exercise { pushups, situps }
    } else {
        if random_number == 3 {
            WorkoutPlan::Rest
        } else {
            let minutes = expensive_result.value(intensity);
            WorkoutPlan::Run { minutes }
        }
    }
}

} // verus!
