//! Metrics collection: named counters held as an association list in
//! first-seen order.

use vstd::prelude::*;

verus! {

/// Value of the first counter named `k`, if any.
pub open spec fn spec_counter_get(m: Seq<(Seq<char>, u64)>, k: Seq<char>) -> Option<u64>
    decreases m.len(),
{
    if m.len() == 0 {
        Option::None
    } else if m[0].0 == k {
        Option::Some(m[0].1)
    } else {
        spec_counter_get(m.skip(1), k)
    }
}

/// Index of the first counter named `k`, or -1 when there is none.
pub open spec fn spec_counter_find(m: Seq<(Seq<char>, u64)>, k: Seq<char>) -> int
    decreases m.len(),
{
    if m.len() == 0 {
        -1
    } else if m[0].0 == k {
        0
    } else {
        let rest = spec_counter_find(m.skip(1), k);
        if rest == -1 {
            -1
        } else {
            rest + 1
        }
    }
}

/// `spec_counter_find` finds the first index with the key, and
/// `spec_counter_get` reads its value.
pub proof fn lemma_counter_find(m: Seq<(Seq<char>, u64)>, k: Seq<char>)
    ensures
        spec_counter_find(m, k) == -1 ==> spec_counter_get(m, k) is None && forall|j: int|
            0 <= j < m.len() ==> (#[trigger] m[j]).0 != k,
        spec_counter_find(m, k) != -1 ==> 0 <= spec_counter_find(m, k) < m.len() && m[
            spec_counter_find(m, k)].0 == k && spec_counter_get(m, k) == Option::Some(
            m[spec_counter_find(m, k)].1,
        ) && forall|j: int| 0 <= j < spec_counter_find(m, k) ==> (#[trigger] m[j]).0 != k,
    decreases m.len(),
{
    if m.len() > 0 && m[0].0 != k {
        lemma_counter_find(m.skip(1), k);
        assert(forall|j: int| 1 <= j < m.len() ==> m.skip(1)[j - 1] == #[trigger] m[j]);
    }
}

/// Mathematical model of [`Metrics`]: the counters in first-seen order.
pub open spec fn spec_counters(v: Seq<(String, u64)>) -> Seq<(Seq<char>, u64)> {
    v.map_values(|p: (String, u64)| (p.0@, p.1))
}

/// Simple metrics collector.
#[derive(Debug)]
pub struct Metrics {
    counters: Vec<(String, u64)>,
}

impl View for Metrics {
    type V = Seq<(Seq<char>, u64)>;

    closed spec fn view(&self) -> Seq<(Seq<char>, u64)> {
        spec_counters(self.counters@)
    }
}

impl Metrics {
    /// A new collector with no counters.
    pub fn new() -> (r: Metrics)
        ensures
            r@ == Seq::<(Seq<char>, u64)>::empty(),
    {
        let r = Metrics { counters: Vec::new() };
        proof {
            assert(r@ =~= Seq::<(Seq<char>, u64)>::empty());
        }
        r
    }

    /// Bump the counter named `name`, creating it at one when absent.
    pub fn increment(&mut self, name: &str)
        requires
            match spec_counter_get(old(self)@, name@) {
                Option::Some(v) => v < u64::MAX,
                Option::None => true,
            },
        ensures
            spec_counter_get(final(self)@, name@) == Option::Some(
                match spec_counter_get(old(self)@, name@) {
                    Option::Some(v) => (v + 1) as u64,
                    Option::None => 1u64,
                },
            ),
            final(self)@.len() == if spec_counter_get(old(self)@, name@) is Some {
                old(self)@.len() as int
            } else {
                old(self)@.len() + 1int
            },
            forall|k: Seq<char>|
                k != name@ ==> #[trigger] spec_counter_get(final(self)@, k) == spec_counter_get(
                    old(self)@,
                    k,
                ),
    {
        let ghost m = self@;
        let owned: String = name.to_owned();
        let mut i: usize = 0;
        let mut found: bool = false;
        while i < self.counters.len() && !found
            invariant
                i <= self.counters.len(),
                m == spec_counters(self.counters@),
                owned@ == name@,
                !found ==> forall|j: int| 0 <= j < i ==> (#[trigger] m[j]).0 != name@,
                found ==> i < m.len() && m[i as int].0 == name@ && forall|j: int|
                    0 <= j < i ==> (#[trigger] m[j]).0 != name@,
            decreases self.counters.len() - i + (if found {
                0int
            } else {
                1int
            }),
        {
            if self.counters[i].0 == owned {
                found = true;
            } else {
                i = i + 1;
            }
        }
        proof {
            lemma_counter_find(m, name@);
        }
        if found {
            let count = self.counters[i].1;
            proof {
                assert(spec_counter_get(m, name@) == Option::Some(m[spec_counter_find(m, name@)].1));
                assert(spec_counter_find(m, name@) == i) by {
                    lemma_counter_find(m, name@);
                    if spec_counter_find(m, name@) < i {
                        assert(m[spec_counter_find(m, name@)].0 == name@);
                    }
                }
            }
            let key = self.counters[i].0.clone();
            self.counters.set(i, (key, count + 1));
            proof {
                assert(spec_counters(self.counters@) =~= m.update(
                    i as int,
                    (name@, (count + 1) as u64),
                ));
                lemma_counter_updated(m, i as int, name@, (count + 1) as u64);
            }
        } else {
            self.counters.push((owned, 1));
            proof {
                assert(spec_counters(self.counters@) =~= m.push((name@, 1u64)));
                lemma_counter_pushed(m, name@, 1u64);
            }
        }
    }

    /// Value of the counter named `name`, if it exists.
    pub fn get(&self, name: &str) -> (r: Option<u64>)
        ensures
            r == spec_counter_get(self@, name@),
    {
        let ghost m = self@;
        let owned: String = name.to_owned();
        let mut i: usize = 0;
        while i < self.counters.len()
            invariant
                i <= self.counters.len(),
                m == spec_counters(self.counters@),
                owned@ == name@,
                forall|j: int| 0 <= j < i ==> (#[trigger] m[j]).0 != name@,
            decreases self.counters.len() - i,
        {
            if self.counters[i].0 == owned {
                proof {
                    assert(m[i as int].0 == name@);
                    lemma_counter_find(m, name@);
                    assert(spec_counter_find(m, name@) == i) by {
                        if spec_counter_find(m, name@) < i && spec_counter_find(m, name@) >= 0 {
                            assert(m[spec_counter_find(m, name@)].0 == name@);
                        }
                        if spec_counter_find(m, name@) > i {
                            assert(m[i as int].0 != name@);
                        }
                    }
                }
                return Option::Some(self.counters[i].1);
            }
            i = i + 1;
        }
        proof {
            lemma_counter_find(m, name@);
            if spec_counter_find(m, name@) != -1 {
                assert(m[spec_counter_find(m, name@)].0 == name@);
            }
        }
        Option::None
    }
}

/// Updating the value at the first index with a key changes that key's
/// counter and no other.
proof fn lemma_counter_updated(m: Seq<(Seq<char>, u64)>, i: int, k: Seq<char>, v: u64)
    requires
        0 <= i < m.len(),
        m[i].0 == k,
        forall|j: int| 0 <= j < i ==> (#[trigger] m[j]).0 != k,
    ensures
        spec_counter_get(m.update(i, (k, v)), k) == Option::Some(v),
        forall|k2: Seq<char>|
            k2 != k ==> #[trigger] spec_counter_get(m.update(i, (k, v)), k2) == spec_counter_get(
                m,
                k2,
            ),
    decreases m.len(),
{
    if i == 0 {
        assert(m.update(0, (k, v))[0] == (k, v));
        assert(spec_counter_get(m.update(0, (k, v)), k) == Option::Some(v)) by {
            assert(m.update(0, (k, v))[0].0 == k);
        }
        assert forall|k2: Seq<char>| k2 != k implies #[trigger] spec_counter_get(
            m.update(0, (k, v)),
            k2,
        ) == spec_counter_get(m, k2) by {
            assert(m.update(0, (k, v))[0].0 == k);
            assert(m[0].0 == k);
            assert(m.update(0, (k, v)).skip(1) =~= m.skip(1));
        }
    } else {
        lemma_counter_updated(m.skip(1), i - 1, k, v);
        assert(m.update(i, (k, v)).skip(1) =~= m.skip(1).update(i - 1, (k, v)));
        assert(m.update(i, (k, v))[0] == m[0]);
        assert(m[0].0 != k);
        assert forall|k2: Seq<char>| k2 != k implies #[trigger] spec_counter_get(
            m.update(i, (k, v)),
            k2,
        ) == spec_counter_get(m, k2) by {
            if m[0].0 != k2 {
                assert(spec_counter_get(m.update(i, (k, v)), k2) == spec_counter_get(
                    m.skip(1).update(i - 1, (k, v)),
                    k2,
                ));
            }
        }
    }
}

/// Appending a fresh key adds its counter and changes no other.
proof fn lemma_counter_pushed(m: Seq<(Seq<char>, u64)>, k: Seq<char>, v: u64)
    requires
        forall|j: int| 0 <= j < m.len() ==> (#[trigger] m[j]).0 != k,
    ensures
        spec_counter_get(m.push((k, v)), k) == Option::Some(v),
        forall|k2: Seq<char>|
            k2 != k ==> #[trigger] spec_counter_get(m.push((k, v)), k2) == spec_counter_get(m, k2),
    decreases m.len(),
{
    if m.len() == 0 {
        assert(m.push((k, v))[0] == (k, v));
        assert forall|k2: Seq<char>| k2 != k implies #[trigger] spec_counter_get(
            m.push((k, v)),
            k2,
        ) == spec_counter_get(m, k2) by {
            assert(m.push((k, v))[0].0 == k);
            assert(m.push((k, v)).skip(1) =~= Seq::<(Seq<char>, u64)>::empty());
            assert(spec_counter_get(m.push((k, v)).skip(1), k2) is None);
            assert(spec_counter_get(m, k2) is None);
        }
        assert(spec_counter_get(m.push((k, v)), k) == Option::Some(v)) by {
            assert(m.push((k, v))[0].0 == k);
        }
    } else {
        lemma_counter_pushed(m.skip(1), k, v);
        assert(m.push((k, v)).skip(1) =~= m.skip(1).push((k, v)));
        assert(m.push((k, v))[0] == m[0]);
        assert(m[0].0 != k);
        assert(spec_counter_get(m.push((k, v)), k) == spec_counter_get(
            m.skip(1).push((k, v)),
            k,
        ));
        assert forall|k2: Seq<char>| k2 != k implies #[trigger] spec_counter_get(
            m.push((k, v)),
            k2,
        ) == spec_counter_get(m, k2) by {
            if m[0].0 == k2 {
            } else {
                assert(spec_counter_get(m.push((k, v)), k2) == spec_counter_get(
                    m.skip(1).push((k, v)),
                    k2,
                ));
                assert(spec_counter_get(m.skip(1).push((k, v)), k2) == spec_counter_get(
                    m.skip(1),
                    k2,
                ));
            }
        }
    }
}

impl Default for Metrics {
    fn default() -> (r: Metrics)
        ensures
            r@ == Seq::<(Seq<char>, u64)>::empty(),
    {
        Metrics::new()
    }
}

} // verus!
