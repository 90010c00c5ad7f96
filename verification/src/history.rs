use vstd::prelude::*;

verus! {

/// No two entries share a date key.
pub open spec fn keys_unique(s: Seq<(Seq<char>, u64)>) -> bool {
    forall|i: int, j: int| 0 <= i < j < s.len() ==> s[i].0 != s[j].0
}

pub open spec fn contains_key(s: Seq<(Seq<char>, u64)>, k: Seq<char>) -> bool {
    exists|i: int| 0 <= i < s.len() && s[i].0 == k
}

pub open spec fn key_index(s: Seq<(Seq<char>, u64)>, k: Seq<char>) -> int {
    choose|i: int| 0 <= i < s.len() && s[i].0 == k
}

pub open spec fn saturating_add_u64(a: u64, b: u64) -> u64 {
    if a + b <= u64::MAX {
        (a + b) as u64
    } else {
        u64::MAX
    }
}

/// The minutes recorded under `k`, if any.
pub open spec fn spec_get(s: Seq<(Seq<char>, u64)>, k: Seq<char>) -> Option<u64> {
    if contains_key(s, k) {
        Some(s[key_index(s, k)].1)
    } else {
        None
    }
}

/// Adding `m` minutes under `k`: raise the existing entry, or append a new
/// one at the end.
pub open spec fn spec_add(s: Seq<(Seq<char>, u64)>, k: Seq<char>, m: u64) -> Seq<
    (Seq<char>, u64),
> {
    if contains_key(s, k) {
        let i = key_index(s, k);
        s.update(i, (k, saturating_add_u64(s[i].1, m)))
    } else {
        s.push((k, m))
    }
}

/// The view of one stored entry.
pub open spec fn entry_view(p: (String, u64)) -> (Seq<char>, u64) {
    (p.0@, p.1)
}

/// The per-day record of focused minutes: date keys, each held once, with a
/// non-negative minute count.
pub struct History {
    entries: Vec<(String, u64)>,
}

impl View for History {
    type V = Seq<(Seq<char>, u64)>;

    closed spec fn view(&self) -> Seq<(Seq<char>, u64)> {
        self.entries@.map_values(|p: (String, u64)| entry_view(p))
    }
}

impl History {
    pub open spec fn wf(&self) -> bool {
        keys_unique(self@)
    }

    pub fn new() -> (r: History)
        ensures
            r@ == Seq::<(Seq<char>, u64)>::empty(),
            r.wf(),
    {
        let r = History { entries: Vec::new() };
        proof {
            assert(r@ =~= Seq::<(Seq<char>, u64)>::empty());
        }
        r
    }

    pub fn len(&self) -> (n: usize)
        ensures
            n == self@.len(),
    {
        self.entries.len()
    }

    /// The entries in insertion order, for persisting and display.
    pub fn entries(&self) -> (r: &Vec<(String, u64)>)
        ensures
            r@.len() == self@.len(),
            forall|i: int| 0 <= i < r@.len() ==> self@[i] == entry_view(r@[i]),
    {
        &self.entries
    }

    /// The index of the entry keyed `key`, scanning from the front.
    fn find(&self, key: &String) -> (r: Option<usize>)
        ensures
            match r {
                Some(i) => i < self@.len() && self@[i as int].0 == key@,
                None => forall|j: int| 0 <= j < self@.len() ==> self@[j].0 != key@,
            },
    {
        let mut i: usize = 0;
        while i < self.entries.len()
            invariant
                i <= self@.len(),
                forall|j: int| 0 <= j < i ==> self@[j].0 != key@,
            decreases self@.len() - i,
        {
            if self.entries[i].0 == *key {
                return Some(i);
            }
            i = i + 1;
        }
        None
    }

    pub fn get(&self, key: &String) -> (r: Option<u64>)
        requires
            self.wf(),
        ensures
            r == spec_get(self@, key@),
    {
        match self.find(key) {
            Some(i) => {
                proof {
                    let ki = key_index(self@, key@);
                    assert(0 <= ki < self@.len() && self@[ki].0 == key@);
                    assert(ki == i);
                }
                Some(self.entries[i].1)
            },
            None => None,
        }
    }

    /// Record `minutes` more under `key`, creating the entry if it is new.
    pub fn add_minutes(&mut self, key: &String, minutes: u64)
        requires
            old(self).wf(),
        ensures
            final(self)@ == spec_add(old(self)@, key@, minutes),
            final(self).wf(),
    {
        match self.find(key) {
            Some(i) => {
                proof {
                    let ki = key_index(old(self)@, key@);
                    assert(0 <= ki < old(self)@.len() && old(self)@[ki].0 == key@);
                    assert(ki == i);
                }
                let cur = self.entries[i].1;
                let newv: u64 = if cur <= u64::MAX - minutes {
                    cur + minutes
                } else {
                    u64::MAX
                };
                self.entries[i].1 = newv;
                proof {
                    assert(final(self)@ =~= spec_add(old(self)@, key@, minutes));
                }
            },
            None => {
                self.entries.push((key.clone(), minutes));
                proof {
                    assert(final(self)@ =~= spec_add(old(self)@, key@, minutes));
                }
            },
        }
    }
}

/// The day number chrono assigns to the date written in `s` as `YYYY-MM-DD`,
/// when `s` parses as a valid calendar date; later dates carry larger numbers.
pub uninterp spec fn parsed_day(s: Seq<char>) -> Option<i32>;

/// Relies on chrono::NaiveDate::parse_from_str with the `%Y-%m-%d` format and
/// on chrono::Datelike::num_days_from_ce, which numbers calendar days from a
/// fixed origin in date order; the result depends on the key alone.
#[verifier::external_body]
fn parse_date_key(s: &str) -> (r: Option<i32>)
    ensures
        r == parsed_day(s@),
{
    chrono::NaiveDate::parse_from_str(s, "%Y-%m-%d").ok().map(
        |d| chrono::Datelike::num_days_from_ce(&d),
    )
}

/// Whether the entry's key is a well-formed calendar date.
pub open spec fn is_dated(p: (Seq<char>, u64)) -> bool {
    parsed_day(p.0) is Some
}

/// The day number of a dated entry.
pub open spec fn day_of(p: (Seq<char>, u64)) -> int {
    parsed_day(p.0)->0 as int
}

/// The view of one date-tagged working triple.
pub open spec fn triple_view(t: (i32, String, u64)) -> (Seq<char>, u64) {
    (t.1@, t.2)
}

proof fn lemma_map_values_push<A, B>(s: Seq<A>, x: A, f: spec_fn(A) -> B)
    ensures
        s.push(x).map_values(f) =~= s.map_values(f).push(f(x)),
{
}

proof fn lemma_map_values_insert<A, B>(s: Seq<A>, pos: int, x: A, f: spec_fn(A) -> B)
    requires
        0 <= pos <= s.len(),
    ensures
        s.insert(pos, x).map_values(f) =~= s.map_values(f).insert(pos, f(x)),
{
    s.insert_ensures(pos, x);
    s.map_values(f).insert_ensures(pos, f(x));
}

proof fn lemma_filter_take_step<A>(s: Seq<A>, i: int, pred: spec_fn(A) -> bool)
    requires
        0 <= i < s.len(),
    ensures
        s.take(i + 1).filter(pred) == if pred(s[i]) {
            s.take(i).filter(pred).push(s[i])
        } else {
            s.take(i).filter(pred)
        },
{
    reveal_with_fuel(Seq::filter, 2);
    let t1 = s.take(i + 1);
    assert(t1.drop_last() =~= s.take(i));
    assert(t1.last() == s[i]);
    assert(t1.len() == i + 1);
    assert(t1.filter(pred) == if pred(t1.last()) {
        t1.drop_last().filter(pred).push(t1.last())
    } else {
        t1.drop_last().filter(pred)
    });
}

/// Insert a date-tagged triple into a run kept weakly descending by day
/// number, in front of the first strictly older entry.
fn insert_by_day(sorted: &mut Vec<(i32, String, u64)>, item: (i32, String, u64))
    requires
        forall|i: int, j: int|
            0 <= i < j < old(sorted)@.len() ==> old(sorted)@[i].0 >= old(sorted)@[j].0,
    ensures
        exists|pos: int|
            0 <= pos <= old(sorted)@.len() && final(sorted)@ == old(sorted)@.insert(pos, item),
        forall|i: int, j: int|
            0 <= i < j < final(sorted)@.len() ==> final(sorted)@[i].0 >= final(sorted)@[j].0,
{
    let mut pos: usize = 0;
    while pos < sorted.len() && sorted[pos].0 >= item.0
        invariant
            pos <= sorted@.len(),
            forall|q: int| 0 <= q < pos ==> sorted@[q].0 >= item.0,
        decreases sorted@.len() - pos,
    {
        pos = pos + 1;
    }
    proof {
        old(sorted)@.insert_ensures(pos as int, item);
    }
    sorted.insert(pos, item);
}

impl History {
    /// The display order of the history page: entries whose keys are valid
    /// dates first, most recent date first, then the entries with unreadable
    /// keys, in stored order.
    #[verifier::loop_isolation(false)]
    pub fn sorted_view(&self) -> (r: Vec<(String, u64)>)
        ensures
            ({
                let rv = r@.map_values(|p: (String, u64)| entry_view(p));
                let valid = self@.filter(|p: (Seq<char>, u64)| is_dated(p));
                let invalid = self@.filter(|p: (Seq<char>, u64)| !is_dated(p));
                let n = valid.len() as int;
                &&& rv.len() == valid.len() + invalid.len()
                &&& rv.subrange(0, n).to_multiset() == valid.to_multiset()
                &&& rv.subrange(n, rv.len() as int) == invalid
                &&& (forall|i: int| 0 <= i < n ==> is_dated(#[trigger] rv[i]))
                &&& (forall|i: int, j: int|
                    0 <= i < j < n ==> day_of(rv[i]) >= day_of(rv[j]))
            }),
    {
        broadcast use vstd::seq_lib::group_to_multiset_ensures;

        let ghost ev = |p: (String, u64)| entry_view(p);
        let ghost tv = |t: (i32, String, u64)| triple_view(t);
        let ghost datedp = |p: (Seq<char>, u64)| is_dated(p);
        let ghost undatedp = |p: (Seq<char>, u64)| !is_dated(p);

        let mut valid: Vec<(i32, String, u64)> = Vec::new();
        let mut invalid: Vec<(String, u64)> = Vec::new();
        let mut i: usize = 0;
        proof {
            assert(self@.take(0).filter(datedp) =~= Seq::<(Seq<char>, u64)>::empty());
            assert(self@.take(0).filter(undatedp) =~= Seq::<(Seq<char>, u64)>::empty());
            assert(valid@.map_values(tv) =~= Seq::<(Seq<char>, u64)>::empty());
            assert(invalid@.map_values(ev) =~= Seq::<(Seq<char>, u64)>::empty());
        }
        while i < self.entries.len()
            invariant
                i <= self@.len(),
                self@.len() == self.entries@.len(),
                forall|k: int|
                    0 <= k < self@.len() ==> self@[k] == entry_view(self.entries@[k]),
                valid@.map_values(tv) == self@.take(i as int).filter(datedp),
                invalid@.map_values(ev) == self@.take(i as int).filter(undatedp),
                forall|k: int|
                    0 <= k < valid@.len() ==> parsed_day(#[trigger] valid@[k].1@) == Some(
                        valid@[k].0,
                    ),
            decreases self@.len() - i,
        {
            let day = parse_date_key(self.entries[i].0.as_str());
            proof {
                lemma_filter_take_step(self@, i as int, datedp);
                lemma_filter_take_step(self@, i as int, undatedp);
            }
            match day {
                Some(d) => {
                    let t = (d, self.entries[i].0.clone(), self.entries[i].1);
                    proof {
                        lemma_map_values_push(valid@, t, tv);
                        assert(tv(t) == self@[i as int]);
                        assert(is_dated(self@[i as int]));
                    }
                    valid.push(t);
                    proof {
                        assert(valid@.map_values(tv) =~= self@.take(i + 1).filter(datedp));
                        assert(invalid@.map_values(ev) =~= self@.take(i + 1).filter(undatedp));
                    }
                },
                None => {
                    let p = (self.entries[i].0.clone(), self.entries[i].1);
                    proof {
                        lemma_map_values_push(invalid@, p, ev);
                        assert(ev(p) == self@[i as int]);
                        assert(!is_dated(self@[i as int]));
                    }
                    invalid.push(p);
                    proof {
                        assert(valid@.map_values(tv) =~= self@.take(i + 1).filter(datedp));
                        assert(invalid@.map_values(ev) =~= self@.take(i + 1).filter(undatedp));
                    }
                },
            }
            i = i + 1;
        }
        proof {
            assert(self@.take(self@.len() as int) =~= self@);
        }

        let mut sorted: Vec<(i32, String, u64)> = Vec::new();
        let mut j: usize = 0;
        proof {
            assert(valid@.take(0).map_values(tv) =~= Seq::<(Seq<char>, u64)>::empty());
            assert(sorted@.map_values(tv) =~= Seq::<(Seq<char>, u64)>::empty());
            assert(Seq::<(Seq<char>, u64)>::empty().to_multiset() =~= Seq::<(
                Seq<char>,
                u64,
            )>::empty().to_multiset());
        }
        while j < valid.len()
            invariant
                j <= valid@.len(),
                sorted@.map_values(tv).to_multiset() == valid@.take(
                    j as int,
                ).map_values(tv).to_multiset(),
                forall|p: int, q: int|
                    0 <= p < q < sorted@.len() ==> sorted@[p].0 >= sorted@[q].0,
                forall|k: int|
                    0 <= k < sorted@.len() ==> parsed_day(#[trigger] sorted@[k].1@) == Some(
                        sorted@[k].0,
                    ),
                forall|k: int|
                    0 <= k < valid@.len() ==> parsed_day(#[trigger] valid@[k].1@) == Some(
                        valid@[k].0,
                    ),
            decreases valid@.len() - j,
        {
            let item = (valid[j].0, valid[j].1.clone(), valid[j].2);
            proof {
                assert(item == valid@[j as int]);
            }
            let ghost pre = sorted@;
            insert_by_day(&mut sorted, item);
            proof {
                broadcast use vstd::seq_lib::group_to_multiset_ensures;

                let pos = choose|pos: int|
                    0 <= pos <= pre.len() && sorted@ == pre.insert(pos, item);
                lemma_map_values_insert(pre, pos, item, tv);
                assert(sorted@.map_values(tv).to_multiset() == pre.map_values(
                    tv,
                ).to_multiset().insert(tv(item)));
                assert(valid@.take(j + 1).drop_last() =~= valid@.take(j as int));
                lemma_map_values_push(valid@.take(j as int), valid@[j as int], tv);
                assert(valid@.take(j + 1) =~= valid@.take(j as int).push(valid@[j as int]));
                assert(valid@.take(j + 1).map_values(tv).to_multiset() == valid@.take(
                    j as int,
                ).map_values(tv).to_multiset().insert(tv(item)));
            }
            j = j + 1;
        }
        proof {
            assert(valid@.take(valid@.len() as int) =~= valid@);
        }

        let mut r: Vec<(String, u64)> = Vec::new();
        let mut k: usize = 0;
        proof {
            assert(r@.map_values(ev) =~= sorted@.map_values(tv).take(0));
        }
        while k < sorted.len()
            invariant
                k <= sorted@.len(),
                r@.len() == k,
                r@.map_values(ev) == sorted@.map_values(tv).take(k as int),
            decreases sorted@.len() - k,
        {
            let p = (sorted[k].1.clone(), sorted[k].2);
            proof {
                lemma_map_values_push(r@, p, ev);
                assert(ev(p) == tv(sorted@[k as int]));
                assert(sorted@.map_values(tv).take(k + 1) =~= sorted@.map_values(tv).take(
                    k as int,
                ).push(tv(sorted@[k as int])));
            }
            r.push(p);
            k = k + 1;
        }
        proof {
            assert(sorted@.map_values(tv).take(sorted@.len() as int) =~= sorted@.map_values(tv));
            assert(r@.map_values(ev) =~= sorted@.map_values(tv));
        }
        let ghost sorted_pairs = sorted@.map_values(tv);
        let mut k2: usize = 0;
        while k2 < invalid.len()
            invariant
                k2 <= invalid@.len(),
                r@.len() == sorted_pairs.len() + k2,
                r@.map_values(ev) == sorted_pairs + invalid@.map_values(ev).take(k2 as int),
            decreases invalid@.len() - k2,
        {
            let p = (invalid[k2].0.clone(), invalid[k2].1);
            proof {
                lemma_map_values_push(r@, p, ev);
                assert(invalid@.map_values(ev).take(k2 + 1) =~= invalid@.map_values(ev).take(
                    k2 as int,
                ).push(ev(invalid@[k2 as int])));
                assert((sorted_pairs + invalid@.map_values(ev).take(k2 as int)).push(ev(p))
                    =~= sorted_pairs + invalid@.map_values(ev).take(k2 + 1));
            }
            r.push(p);
            k2 = k2 + 1;
        }
        proof {
            broadcast use vstd::seq_lib::group_to_multiset_ensures;

            let rv = r@.map_values(ev);
            let validf = self@.filter(datedp);
            let invalidf = self@.filter(undatedp);
            assert(invalid@.map_values(ev).take(invalid@.len() as int) =~= invalid@.map_values(
                ev,
            ));
            assert(rv =~= sorted_pairs + invalidf);
            assert(sorted_pairs.to_multiset() == validf.to_multiset());
            assert(sorted_pairs.to_multiset().len() == sorted_pairs.len());
            assert(validf.to_multiset().len() == validf.len());
            assert(sorted_pairs.len() == validf.len());
            assert(rv.subrange(0, validf.len() as int) =~= sorted_pairs);
            assert(rv.subrange(validf.len() as int, rv.len() as int) =~= invalidf);
            assert forall|q: int| 0 <= q < sorted_pairs.len() implies is_dated(
                #[trigger] rv[q],
            ) by {
                assert(rv[q] == tv(sorted@[q]));
            }
            assert forall|p: int, q: int|
                0 <= p < q < sorted_pairs.len() implies day_of(rv[p]) >= day_of(rv[q]) by {
                assert(rv[p] == tv(sorted@[p]));
                assert(rv[q] == tv(sorted@[q]));
            }
        }
        r
    }
}

} // verus!
