//! Shoes picked by size, and a counter that counts from one to five.
use vstd::prelude::*;

verus! {

#[derive(PartialEq, Debug)]
pub struct Shoe {
    pub size: u32,
    pub style: String,
}

/// Holds of the shoes of size `size`.
pub open spec fn has_size(size: u32) -> spec_fn(Shoe) -> bool {
    |s: Shoe| s.size == size
}

/// The shoes of the given size, in the order given.
pub fn shoes_in_my_size(shoes: Vec<Shoe>, shoe_size: u32) -> (r: Vec<Shoe>)
    ensures
        r@ == shoes@.filter(has_size(shoe_size)),
{
    let ghost all = shoes@;
    let mut rest = shoes;
    let mut r: Vec<Shoe> = Vec::new();
    let n = rest.len();
    let mut k: usize = 0;
    while k < n
        invariant
            k <= n,
            n == all.len(),
            rest@ == all.subrange(k as int, n as int),
            r@ == all.subrange(0, k as int).filter(has_size(shoe_size)),
        decreases n - k,
    {
        let s = rest.remove(0);
        let ghost prefix = all.subrange(0, k + 1);
        proof {
            reveal(Seq::filter);
            assert(prefix.drop_last() =~= all.subrange(0, k as int));
            assert(prefix.last() == all[k as int]);
            assert(s == all[k as int]);
            assert(rest@ =~= all.subrange(k + 1, n as int));
        }
        let keep = s.size == shoe_size;
        proof {
            assert(keep == has_size(shoe_size)(prefix.last()));
        }
        if keep {
            r.push(s);
        }
        proof {
            reveal(Seq::filter);
            assert(prefix.filter(has_size(shoe_size)) == if has_size(shoe_size)(prefix.last()) {
                prefix.drop_last().filter(has_size(shoe_size)).push(prefix.last())
            } else {
                prefix.drop_last().filter(has_size(shoe_size))
            });
            assert(r@ == prefix.filter(has_size(shoe_size)));
        }
        k = k + 1;
    }
    proof {
        assert(all.subrange(0, n as int) =~= all);
    }
    r
}

/// Counts from one to five, then is done.
pub struct Counter {
    count: u32,
}

impl Counter {
    /// How far the counter has gone.
    pub closed spec fn count(&self) -> u32 {
        self.count
    }

    pub fn new() -> (r: Counter)
        ensures
            r.count() == 0,
    {
        Counter { count: 0 }
    }

    /// The next number, from one to five; `None` afterwards.
    pub fn next(&mut self) -> (r: Option<u32>)
        ensures
            old(self).count() < 5 ==> r == Some((old(self).count() + 1) as u32),
            old(self).count() < 5 ==> final(self).count() == old(self).count() + 1,
            old(self).count() >= 5 ==> r is None && final(self).count() >= 5,
    {
        if self.count < 6 {
            self.count = self.count + 1;
        }
        if self.count < 6 {
            Some(self.count)
        } else {
            None
        }
    }
}

} // verus!
