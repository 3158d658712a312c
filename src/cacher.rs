//! Memoised calls of a function on `u32`.
use std::collections::HashMap;
use vstd::prelude::*;

verus! {

broadcast use vstd::std_specs::hash::group_hash_axioms;

/// Calls `calc` at most once per argument and keeps each result.
pub struct Cacher<T> where T: Fn(u32) -> u32 {
    calc: T,
    value: HashMap<u32, u32>,
}

impl<T> Cacher<T> where T: Fn(u32) -> u32 {
    /// The function whose results are kept.
    pub closed spec fn func(&self) -> T {
        self.calc
    }

    /// The results kept so far, by argument.
    pub closed spec fn cached(&self) -> Map<u32, u32> {
        self.value@
    }

    /// The function accepts every argument, and every kept result is one
    /// that the function can return for its argument.
    pub closed spec fn wf(&self) -> bool {
        &&& forall|x: u32| #[trigger] self.calc.requires((x,))
        &&& forall|k: u32| #[trigger]
            self.value@.contains_key(k) ==> self.calc.ensures((k,), self.value@[k])
    }

    /// A cache over `func`, with nothing kept yet.
    pub fn new(func: T) -> (r: Cacher<T>)
        requires
            forall|x: u32| #[trigger] func.requires((x,)),
        ensures
            r.wf(),
            r.func() == func,
            r.cached() == Map::<u32, u32>::empty(),
    {
        Cacher { calc: func, value: HashMap::new() }
    }

    /// The function's result for `arg`: the kept one if there is one, else
    /// a fresh call, whose result is then kept.
    pub fn value(&mut self, arg: u32) -> (r: u32)
        requires
            old(self).wf(),
        ensures
            final(self).wf(),
            final(self).func() == old(self).func(),
            old(self).func().ensures((arg,), r),
            old(self).cached().contains_key(arg) ==> {
                &&& r == old(self).cached()[arg]
                &&& final(self).cached() == old(self).cached()
            },
            !old(self).cached().contains_key(arg) ==> final(self).cached()
                == old(self).cached().insert(arg, r),
    {
        if let Some(n) = self.value.get(&arg) {
            return *n;
        }
        let n = (self.calc)(arg);
        self.value.insert(arg, n);
        n
    }
}

/// A day's training, as the workout planner decides it.
#[derive(Clone, Copy, PartialEq, Eq, Debug, Structural)]
pub enum Workout {
    /// Push-ups, then sit-ups.
    Strength { pushups: u32, situps: u32 },
    /// A day off.
    Rest,
    /// A run of the given length.
    Run { minutes: u32 },
}

/// Plans a workout from its intensity: below 25, push-ups and sit-ups, as
/// many of each as `calc` gives for the intensity; otherwise a rest day when
/// the random number is 3, else a run of that many minutes. The sit-ups
/// reuse the result kept for the push-ups.
pub fn generate_workout_with_closure_and_cacher<F>(intensity: u32, random_number: u32, calc: F) -> (r: Workout)
    where F: Fn(u32) -> u32,
    requires
        forall|x: u32| #[trigger] calc.requires((x,)),
    ensures
        intensity < 25 ==> match r {
            Workout::Strength { pushups, situps } => pushups == situps && calc.ensures(
                (intensity,),
                pushups,
            ),
            _ => false,
        },
        intensity >= 25 && random_number == 3 ==> r == Workout::Rest,
        intensity >= 25 && random_number != 3 ==> match r {
            Workout::Run { minutes } => calc.ensures((intensity,), minutes),
            _ => false,
        },
{
    let mut expensive = Cacher::new(calc);
    if intensity < 25 {
        let pushups = expensive.value(intensity);
        let situps = expensive.value(intensity);
        Workout::Strength { pushups, situps }
    } else if random_number == 3 {
        Workout::Rest
    } else {
        Workout::Run { minutes: expensive.value(intensity) }
    }
}

} // verus!
