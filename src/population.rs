use crate::progress::Progress;
use crate::table::{is_nan_bits, order_key, total_order_key};
use vstd::multiset::Multiset;
use vstd::prelude::*;
use vstd::seq_lib::group_to_multiset_ensures;

verus! {

/// A seed's score as a rank: `Ordered` carries a key whose integer order is
/// the total order of the score, `Unscored` stands for a seed that has not been
/// scored yet (a score of minus infinity), and `Unordered` for a score that is
/// not a number, which is kept but never ranked.
#[derive(Debug, Clone, Copy, PartialEq, Eq, Structural)]
pub enum ScoreKey {
    Unscored,
    Ordered(i64),
    Unordered,
}

impl ScoreKey {
    /// The key of a score given by its binary64 bit pattern: `Unordered` for
    /// a NaN, else the score's place in the total order.
    pub fn from_bits(bits: u64) -> (r: ScoreKey)
        ensures
            is_nan_bits(bits) ==> r is Unordered,
            !is_nan_bits(bits) ==> r == ScoreKey::Ordered(total_order_key(bits) as i64),
            !is_nan_bits(bits) ==> r.level() == total_order_key(bits),
    {
        match order_key(bits) {
            Some(k) => ScoreKey::Ordered(k),
            None => ScoreKey::Unordered,
        }
    }

    /// Position of the key on one integer line: every ordered key lies above
    /// `Unscored`, which lies above `Unordered`.
    pub open spec fn level(self) -> int {
        match self {
            ScoreKey::Ordered(k) => k as int,
            ScoreKey::Unscored => i64::MIN - 1,
            ScoreKey::Unordered => i64::MIN - 2,
        }
    }

    pub open spec fn is_ranked(self) -> bool {
        !(self is Unordered)
    }

    /// Whether `self` ranks at least as high as `other`.
    pub fn at_least(&self, other: &ScoreKey) -> (r: bool)
        ensures
            r == (self.level() >= other.level()),
    {
        match (self, other) {
            (ScoreKey::Ordered(a), ScoreKey::Ordered(b)) => *a >= *b,
            (ScoreKey::Ordered(_), _) => true,
            (ScoreKey::Unscored, ScoreKey::Ordered(_)) => false,
            (ScoreKey::Unscored, _) => true,
            (ScoreKey::Unordered, ScoreKey::Unordered) => true,
            (ScoreKey::Unordered, _) => false,
        }
    }

    pub fn ranked(&self) -> (r: bool)
        ensures
            r == self.is_ranked(),
    {
        !matches!(self, ScoreKey::Unordered)
    }
}

/// One start of the search: its stable index, its last score, its progress,
/// and its point in parameter space (opaque here).
pub struct Seed<P> {
    pub index: usize,
    pub score: ScoreKey,
    pub progress: Progress,
    pub point: P,
}

/// What one step of the ascent produced for a seed: the new point, the score
/// of the step, whether that score beat the seed's frontier by the required
/// ratio, and whether the gradient fell below the critical-point threshold.
pub struct Outcome<P> {
    pub point: P,
    pub score: ScoreKey,
    pub improved: bool,
    pub stationary: bool,
}

/// A fresh seed at stable index `index`.
pub open spec fn fresh_seed<P>(index: int, point: P) -> Seed<P> {
    Seed {
        index: index as usize,
        score: ScoreKey::Unscored,
        progress: Progress { time: 0, frontier_time: 0, done: false },
        point,
    }
}

/// A seed after its outcome of a step, if it had one.
pub open spec fn updated_seed<P>(s: Seed<P>, o: Option<Outcome<P>>, limit: i32) -> Seed<P> {
    match o {
        None => s,
        Some(o) => Seed {
            index: s.index,
            score: o.score,
            progress: s.progress.advanced(o.improved, o.stationary, limit),
            point: o.point,
        },
    }
}

/// Every seed after its outcome.
pub open spec fn updated_seeds<P>(
    seeds: Seq<Seed<P>>,
    outcomes: Seq<Option<Outcome<P>>>,
    limit: i32,
) -> Seq<Seed<P>> {
    Seq::new(seeds.len(), |i: int| updated_seed(seeds[i], outcomes[i], limit))
}

/// Whether a seed's score sits at level `v`.
pub open spec fn with_level<P>(v: int) -> spec_fn(Seed<P>) -> bool {
    |s: Seed<P>| s.score.level() == v
}

/// `a` keeps, among the seeds of each score level, the order that `b` has.
pub open spec fn keeps_ties<P>(a: Seq<Seed<P>>, b: Seq<Seed<P>>) -> bool {
    forall|v: int| #[trigger] a.filter(with_level::<P>(v)) == b.filter(with_level::<P>(v))
}

/// Seeds in order of descending score.
pub open spec fn ranked_descending<P>(s: Seq<Seed<P>>) -> bool {
    forall|i: int, j: int| 0 <= i < j < s.len() ==> s[i].score.level() >= s[j].score.level()
}

/// The outcomes fit the seeds: one for each seed that still runs, none for a
/// stopped one, and a running seed can take one more step.
pub open spec fn outcomes_fit<P>(seeds: Seq<Seed<P>>, outcomes: Seq<Option<Outcome<P>>>) -> bool {
    &&& outcomes.len() == seeds.len()
    &&& forall|i: int| 0 <= i < seeds.len() ==> (#[trigger] outcomes[i] is Some <==> !seeds[i].progress.done)
    &&& forall|i: int| 0 <= i < seeds.len() && !seeds[i].progress.done ==> #[trigger] seeds[i].progress.time < i32::MAX
}

/// The seeds of one search, with the number of steps a seed may go without
/// improving.
pub struct Population<P> {
    seeds: Vec<Seed<P>>,
    frontier_time_limit: i32,
}

impl<P> View for Population<P> {
    type V = Seq<Seed<P>>;

    closed spec fn view(&self) -> Seq<Seed<P>> {
        self.seeds@
    }
}

impl<P> Population<P> {
    pub closed spec fn limit(&self) -> i32 {
        self.frontier_time_limit
    }

    pub open spec fn wf(&self) -> bool {
        &&& 0 <= self.limit()
        &&& forall|i: int| 0 <= i < self@.len() ==> (#[trigger] self@[i]).progress.wf()
    }

    /// An empty population whose seeds stop after `frontier_time_limit` steps
    /// without improvement.
    pub fn new(frontier_time_limit: i32) -> (r: Population<P>)
        requires
            0 <= frontier_time_limit,
        ensures
            r.wf(),
            r@.len() == 0,
            r.limit() == frontier_time_limit,
    {
        Population { seeds: Vec::new(), frontier_time_limit }
    }

    pub fn frontier_time_limit(&self) -> (r: i32)
        ensures
            r == self.limit(),
    {
        self.frontier_time_limit
    }

    pub fn len(&self) -> (r: usize)
        ensures
            r == self@.len(),
    {
        self.seeds.len()
    }

    /// The seeds, in their current order.
    pub fn seeds(&self) -> (r: &Vec<Seed<P>>)
        ensures
            r@ == self@,
    {
        &self.seeds
    }

    /// Discards every seed and starts one fresh seed at each of `points`: the
    /// seed at position `i` gets stable index `i`, no score, and no steps.
    pub fn reset(&mut self, points: Vec<P>)
        requires
            old(self).wf(),
        ensures
            final(self).wf(),
            final(self).limit() == old(self).limit(),
            final(self)@.len() == points@.len(),
            forall|i: int|
                0 <= i < points@.len() ==> #[trigger] final(self)@[i] == fresh_seed(i, points@[i]),
    {
        let ghost orig = points@;
        let n = points.len();
        let mut points = points;
        let mut reversed: Vec<Seed<P>> = Vec::new();
        while points.len() > 0
            invariant
                points@ == orig.take(points@.len() as int),
                n == orig.len(),
                reversed@.len() + points@.len() == n,
                forall|j: int|
                    0 <= j < reversed@.len() ==> #[trigger] reversed@[j] == fresh_seed(
                        n - 1 - j,
                        orig[n - 1 - j],
                    ),
            decreases points@.len(),
        {
            let point = points.pop().unwrap();
            let index = points.len();
            assert(point == orig[index as int]);
            reversed.push(
                Seed { index, score: ScoreKey::Unscored, progress: Progress::new(), point },
            );
            assert(points@ =~= orig.take(points@.len() as int));
        }
        let mut seeds: Vec<Seed<P>> = Vec::new();
        while reversed.len() > 0
            invariant
                n == orig.len(),
                reversed@.len() + seeds@.len() == n,
                forall|j: int|
                    0 <= j < reversed@.len() ==> #[trigger] reversed@[j] == fresh_seed(
                        n - 1 - j,
                        orig[n - 1 - j],
                    ),
                forall|j: int| 0 <= j < seeds@.len() ==> #[trigger] seeds@[j] == fresh_seed(j, orig[j]),
            decreases reversed@.len(),
        {
            let seed = reversed.pop().unwrap();
            seeds.push(seed);
        }
        self.seeds = seeds;
    }

    /// Positions of the seeds that have not stopped, in increasing order.
    pub fn pending(&self) -> (r: Vec<usize>)
        ensures
            forall|k: int| 0 <= k < r@.len() ==> #[trigger] r@[k] < self@.len(),
            forall|k: int| 0 <= k < r@.len() ==> !self@[#[trigger] r@[k] as int].progress.done,
            forall|k: int, l: int| 0 <= k < l < r@.len() ==> r@[k] < r@[l],
            forall|i: int|
                0 <= i < self@.len() && !(#[trigger] self@[i]).progress.done ==> exists|k: int|
                    0 <= k < r@.len() && r@[k] == i,
    {
        let mut r: Vec<usize> = Vec::new();
        let mut i: usize = 0;
        while i < self.seeds.len()
            invariant
                i <= self@.len(),
                self@ == self.seeds@,
                forall|k: int| 0 <= k < r@.len() ==> #[trigger] r@[k] < i,
                forall|k: int| 0 <= k < r@.len() ==> !self@[#[trigger] r@[k] as int].progress.done,
                forall|k: int, l: int| 0 <= k < l < r@.len() ==> r@[k] < r@[l],
                forall|j: int|
                    0 <= j < i && !(#[trigger] self@[j]).progress.done ==> exists|k: int|
                        0 <= k < r@.len() && r@[k] == j,
            decreases self@.len() - i,
        {
            let ghost before = r@;
            if !self.seeds[i].progress.done {
                r.push(i);
            }
            assert forall|j: int|
                0 <= j <= i && !(#[trigger] self@[j]).progress.done implies exists|k: int|
                    0 <= k < r@.len() && r@[k] == j by {
                if j < i {
                    let k = choose|k: int| 0 <= k < before.len() && before[k] == j;
                    assert(r@[k] == j);
                } else {
                    assert(r@[r@.len() - 1] == j);
                }
            }
            i = i + 1;
        }
        r
    }

    /// Gives each running seed its outcome of a step, in place.
    fn apply(&mut self, outcomes: Vec<Option<Outcome<P>>>)
        requires
            old(self).wf(),
            outcomes_fit(old(self)@, outcomes@),
        ensures
            final(self).wf(),
            final(self).limit() == old(self).limit(),
            final(self)@ == updated_seeds(old(self)@, outcomes@, old(self).limit()),
    {
        let ghost start = self.seeds@;
        let ghost orig = outcomes@;
        let limit = self.frontier_time_limit;
        let mut outcomes = outcomes;
        while outcomes.len() > 0
            invariant
                outcomes_fit(start, orig),
                outcomes@.len() <= orig.len(),
                outcomes@ == orig.take(outcomes@.len() as int),
                self.seeds@.len() == start.len(),
                limit == self.frontier_time_limit,
                0 <= limit,
                forall|j: int| 0 <= j < start.len() ==> (#[trigger] start[j]).progress.wf(),
                forall|j: int|
                    outcomes@.len() <= j < start.len() ==> #[trigger] self.seeds@[j]
                        == updated_seed(start[j], orig[j], limit),
                forall|j: int| 0 <= j < outcomes@.len() ==> #[trigger] self.seeds@[j] == start[j],
            decreases outcomes@.len(),
        {
            let ghost before = outcomes@;
            let outcome = outcomes.pop().unwrap();
            let i = outcomes.len();
            assert(before[i as int] == orig[i as int]);
            assert(outcomes@ =~= orig.take(outcomes@.len() as int));
            match outcome {
                None => {},
                Some(o) => {
                    let index = self.seeds[i].index;
                    let progress = self.seeds[i].progress.advance(o.improved, o.stationary, limit);
                    self.seeds.set(i, Seed { index, score: o.score, progress, point: o.point });
                },
            }
        }
        assert(self.seeds@ =~= updated_seeds(start, orig, limit));
    }

    /// Orders the seeds by descending score, seeds of equal score keeping
    /// their order. Returns how many seeds are ranked.
    fn rank(&mut self) -> (ranked: usize)
        requires
            old(self).wf(),
        ensures
            final(self).wf(),
            final(self).limit() == old(self).limit(),
            final(self)@.len() == old(self)@.len(),
            final(self)@.to_multiset() == old(self)@.to_multiset(),
            keeps_ties(final(self)@, old(self)@),
            ranked_descending(final(self)@),
            ranked <= final(self)@.len(),
            forall|i: int| 0 <= i < final(self)@.len() ==> (i < ranked <==> (#[trigger] final(self)@[i]).score.is_ranked()),
    {
        broadcast use group_to_multiset_ensures;

        let mut rest: Vec<Seed<P>> = Vec::new();
        std::mem::swap(&mut rest, &mut self.seeds);
        let ghost start = rest@;
        let mut sorted: Vec<Seed<P>> = Vec::new();
        while rest.len() > 0
            invariant
                sorted@.to_multiset().add(rest@.to_multiset()) == start.to_multiset(),
                forall|v: int|
                    #[trigger] start.filter(with_level::<P>(v)) == sorted@.filter(with_level::<P>(v))
                        + rest@.filter(with_level::<P>(v)),
                ranked_descending(sorted@),
                forall|i: int, j: int|
                    0 <= i < sorted@.len() && 0 <= j < rest@.len() ==> (#[trigger] sorted@[i]).score.level()
                        >= (#[trigger] rest@[j]).score.level(),
                forall|i: int| 0 <= i < sorted@.len() ==> (#[trigger] sorted@[i]).progress.wf(),
                forall|i: int| 0 <= i < rest@.len() ==> (#[trigger] rest@[i]).progress.wf(),
            decreases rest@.len(),
        {
            let mut best: usize = 0;
            let mut j: usize = 1;
            while j < rest.len()
                invariant
                    1 <= j <= rest@.len(),
                    best < rest@.len(),
                    forall|k: int| 0 <= k < j ==> rest@[best as int].score.level() >= (#[trigger] rest@[k]).score.level(),
                    forall|k: int| 0 <= k < best ==> rest@[best as int].score.level() > (#[trigger] rest@[k]).score.level(),
                decreases rest@.len() - j,
            {
                if !rest[best].score.at_least(&rest[j].score) {
                    best = j;
                }
                j = j + 1;
            }
            let ghost before_sorted = sorted@;
            let ghost before_rest = rest@;
            let seed = rest.remove(best);
            assert(seed == before_rest[best as int]);
            proof {
                vstd::seq_lib::to_multiset_remove(before_rest, best as int);
            }
            sorted.push(seed);
            proof {
                before_rest.to_multiset_ensures();
                sorted@.to_multiset_ensures();
            }
            assert(before_rest.to_multiset().count(seed) > 0);
            let ghost ms = before_sorted.to_multiset();
            let ghost mr = before_rest.to_multiset();
            proof {
                vstd::seq_lib::to_multiset_build(before_sorted, seed);
            }
            assert(sorted@.to_multiset() == ms.insert(seed));
            assert(rest@.to_multiset() == mr.remove(seed));
            assert(ms.insert(seed).add(mr.remove(seed)) =~= ms.add(mr));
            assert forall|i: int, k: int|
                0 <= i < sorted@.len() && 0 <= k < rest@.len() implies (#[trigger] sorted@[i]).score.level()
                    >= (#[trigger] rest@[k]).score.level() by {
                let kk = if k < best { k } else { k + 1 };
                assert(rest@[k] == before_rest[kk]);
            }
            assert forall|v: int|
                #[trigger] start.filter(with_level::<P>(v)) == sorted@.filter(with_level::<P>(v))
                    + rest@.filter(with_level::<P>(v)) by {
                lemma_move_keeps_ties(before_sorted, before_rest, best as int, v);
            }
            assert forall|i: int| 0 <= i < rest@.len() implies (#[trigger] rest@[i]).progress.wf() by {
                let kk = if i < best { i } else { i + 1 };
                assert(rest@[i] == before_rest[kk]);
            }
        }
        assert(rest@.to_multiset() =~= Multiset::empty());
        assert forall|v: int| #[trigger] sorted@.filter(with_level::<P>(v)) == start.filter(with_level::<P>(v)) by {
            assert(rest@ =~= Seq::<Seed<P>>::empty());
            assert(rest@.filter(with_level::<P>(v)) =~= Seq::<Seed<P>>::empty());
            assert(sorted@.filter(with_level::<P>(v)) + rest@.filter(with_level::<P>(v)) =~= sorted@.filter(with_level::<P>(v)));
        }
        proof {
            start.to_multiset_ensures();
            sorted@.to_multiset_ensures();
        }
        self.seeds = sorted;
        let mut ranked: usize = 0;
        while ranked < self.seeds.len() && self.seeds[ranked].score.ranked()
            invariant
                ranked <= self.seeds@.len(),
                forall|i: int| 0 <= i < ranked ==> (#[trigger] self.seeds@[i]).score.is_ranked(),
            decreases self.seeds@.len() - ranked,
        {
            ranked = ranked + 1;
        }
        assert forall|i: int| 0 <= i < self@.len() implies (i < ranked <==> (#[trigger] self@[i]).score.is_ranked()) by {
            if i >= ranked {
                assert(!self.seeds@[ranked as int].score.is_ranked());
                assert(self.seeds@[ranked as int].score.level() >= self.seeds@[i].score.level());
            }
        }
        ranked
    }

    /// Takes one step: each running seed takes its outcome, a stopped seed
    /// stays as it is, and the seeds are then ordered by descending score,
    /// seeds of equal score keeping their order. Returns how many seeds are
    /// ranked; they come first, and the seeds whose score is not a number
    /// follow them.
    pub fn step(&mut self, outcomes: Vec<Option<Outcome<P>>>) -> (ranked: usize)
        requires
            old(self).wf(),
            outcomes_fit(old(self)@, outcomes@),
        ensures
            final(self).wf(),
            final(self).limit() == old(self).limit(),
            final(self)@.len() == old(self)@.len(),
            final(self)@.to_multiset() == updated_seeds(old(self)@, outcomes@, old(self).limit()).to_multiset(),
            keeps_ties(final(self)@, updated_seeds(old(self)@, outcomes@, old(self).limit())),
            ranked_descending(final(self)@),
            ranked <= final(self)@.len(),
            forall|i: int| 0 <= i < final(self)@.len() ==> (i < ranked <==> (#[trigger] final(self)@[i]).score.is_ranked()),
    {
        self.apply(outcomes);
        let ranked = self.rank();
        ranked
    }

    /// The position of the first seed with stable index `index`, if any.
    pub fn lookup_index(&self, index: usize) -> (r: Option<usize>)
        ensures
            r matches Some(p) ==> p < self@.len() && self@[p as int].index == index && forall|q: int|
                0 <= q < p ==> (#[trigger] self@[q]).index != index,
            r is None ==> forall|q: int| 0 <= q < self@.len() ==> (#[trigger] self@[q]).index != index,
    {
        let mut i: usize = 0;
        while i < self.seeds.len()
            invariant
                i <= self@.len(),
                self@ == self.seeds@,
                forall|q: int| 0 <= q < i ==> (#[trigger] self@[q]).index != index,
            decreases self@.len() - i,
        {
            if self.seeds[i].index == index {
                return Some(i);
            }
            i = i + 1;
        }
        None
    }
}

/// Moving the first seed of highest level from `rest` to the end of
/// `sorted` keeps, for every level, the concatenation of the two filtered
/// sequences.
proof fn lemma_move_keeps_ties<P>(sorted: Seq<Seed<P>>, rest: Seq<Seed<P>>, best: int, v: int)
    requires
        0 <= best < rest.len(),
        forall|k: int| 0 <= k < best ==> rest[best].score.level() > (#[trigger] rest[k]).score.level(),
    ensures
        sorted.filter(with_level::<P>(v)) + rest.filter(with_level::<P>(v)) == sorted.push(
            rest[best],
        ).filter(with_level::<P>(v)) + rest.remove(best).filter(with_level::<P>(v)),
{
    let f = with_level::<P>(v);
    let x = rest[best];
    let a = rest.subrange(0, best);
    let c = rest.subrange(best + 1, rest.len() as int);
    assert(rest =~= a + seq![x] + c);
    assert(rest.remove(best) =~= a + c);
    Seq::filter_distributes_over_add(a + seq![x], c, f);
    Seq::filter_distributes_over_add(a, seq![x], f);
    Seq::filter_distributes_over_add(a, c, f);
    Seq::filter_distributes_over_add(sorted, seq![x], f);
    assert(sorted.push(x) =~= sorted + seq![x]);
    reveal_with_fuel(Seq::filter, 2);
    assert(seq![x].drop_last() =~= Seq::<Seed<P>>::empty());
    if x.score.level() == v {
        assert(seq![x].filter(f) =~= seq![x]);
        assert forall|k: int| 0 <= k < a.len() implies !f(a[k]) by {
            assert(a[k] == rest[k]);
        }
        a.lemma_all_neg_filter_empty(f);
        assert(a.filter(f) =~= Seq::<Seed<P>>::empty());
    } else {
        assert(seq![x].filter(f) =~= Seq::<Seed<P>>::empty());
    }
    assert(sorted.filter(f) + rest.filter(f) =~= sorted.push(x).filter(f) + rest.remove(best).filter(f));
}

proof fn lemma_filter_prepend<P>(x: Seed<P>, s: Seq<Seed<P>>, v: int)
    ensures
        (seq![x] + s).filter(with_level::<P>(v)) == (if x.score.level() == v {
            seq![x] + s.filter(with_level::<P>(v))
        } else {
            s.filter(with_level::<P>(v))
        }),
{
    let f = with_level::<P>(v);
    Seq::filter_distributes_over_add(seq![x], s, f);
    reveal_with_fuel(Seq::filter, 2);
    assert(seq![x].drop_last() =~= Seq::<Seed<P>>::empty());
    if x.score.level() == v {
        assert(seq![x].filter(f) =~= seq![x]);
    } else {
        assert(seq![x].filter(f) =~= Seq::<Seed<P>>::empty());
    }
}

proof fn lemma_level_present<P>(a: Seq<Seed<P>>, b: Seq<Seed<P>>, i: int)
    requires
        keeps_ties(a, b),
        0 <= i < a.len(),
    ensures
        exists|j: int| 0 <= j < b.len() && (#[trigger] b[j]).score.level() == a[i].score.level(),
{
    let f = with_level::<P>(a[i].score.level());
    a.lemma_filter_contains(f, i);
    assert(b.filter(f).contains(a[i]));
    b.lemma_filter_contains_rev(f, a[i]);
    let j = choose|j: int| 0 <= j < b.len() && b[j] == a[i];
    assert(b[j].score.level() == a[i].score.level());
}

/// Two orders of the same seeds that are both descending and both keep the
/// order among equal scores are the same order: a step's result is
/// determined by the population and the outcomes alone.
pub proof fn lemma_ranking_is_unique<P>(a: Seq<Seed<P>>, b: Seq<Seed<P>>, c: Seq<Seed<P>>)
    requires
        ranked_descending(a),
        ranked_descending(b),
        keeps_ties(a, c),
        keeps_ties(b, c),
    ensures
        a == b,
    decreases a.len(),
{
    assert(keeps_ties(a, b)) by {
        assert forall|v: int| #[trigger] a.filter(with_level::<P>(v)) == b.filter(with_level::<P>(v)) by {
            assert(a.filter(with_level::<P>(v)) == c.filter(with_level::<P>(v)));
            assert(b.filter(with_level::<P>(v)) == c.filter(with_level::<P>(v)));
        }
    }
    assert(keeps_ties(b, a)) by {
        assert forall|v: int| #[trigger] b.filter(with_level::<P>(v)) == a.filter(with_level::<P>(v)) by {
            assert(a.filter(with_level::<P>(v)) == c.filter(with_level::<P>(v)));
            assert(b.filter(with_level::<P>(v)) == c.filter(with_level::<P>(v)));
        }
    }
    if a.len() == 0 {
        if b.len() > 0 {
            lemma_level_present(b, a, 0);
        }
        assert(a =~= b);
    } else {
        if b.len() == 0 {
            lemma_level_present(a, b, 0);
        }
        let x = a[0];
        let y = b[0];
        lemma_level_present(a, b, 0);
        lemma_level_present(b, a, 0);
        let l = x.score.level();
        assert(y.score.level() == l);
        let ra = a.drop_first();
        let rb = b.drop_first();
        assert(a =~= seq![x] + ra);
        assert(b =~= seq![y] + rb);
        lemma_filter_prepend(x, ra, l);
        lemma_filter_prepend(y, rb, l);
        assert(a.filter(with_level::<P>(l))[0] == x);
        assert(b.filter(with_level::<P>(l))[0] == y);
        assert(x == y);
        assert forall|v: int| #[trigger] ra.filter(with_level::<P>(v)) == rb.filter(with_level::<P>(v)) by {
            lemma_filter_prepend(x, ra, v);
            lemma_filter_prepend(x, rb, v);
            assert(a.filter(with_level::<P>(v)) == b.filter(with_level::<P>(v)));
            if l == v {
                assert(ra.filter(with_level::<P>(v)) =~= a.filter(with_level::<P>(v)).drop_first());
                assert(rb.filter(with_level::<P>(v)) =~= b.filter(with_level::<P>(v)).drop_first());
            }
        }
        lemma_ranking_is_unique(ra, rb, rb);
    }
}

/// Outcomes split between two workers: `a`'s where it has one, else `b`'s.
pub open spec fn merged<P>(a: Seq<Option<Outcome<P>>>, b: Seq<Option<Outcome<P>>>) -> Seq<
    Option<Outcome<P>>,
> {
    Seq::new(a.len(), |i: int| if a[i] is Some { a[i] } else { b[i] })
}

/// Splitting a step's outcomes into two disjoint parts and applying one part
/// after the other gives every seed what applying them all at once gives: a
/// seed's update reads only its own state and outcome.
pub proof fn lemma_disjoint_updates_compose<P>(
    seeds: Seq<Seed<P>>,
    a: Seq<Option<Outcome<P>>>,
    b: Seq<Option<Outcome<P>>>,
    limit: i32,
)
    requires
        a.len() == seeds.len(),
        b.len() == seeds.len(),
        forall|i: int| 0 <= i < seeds.len() ==> !(#[trigger] a[i] is Some && b[i] is Some),
    ensures
        updated_seeds(updated_seeds(seeds, a, limit), b, limit) == updated_seeds(
            seeds,
            merged(a, b),
            limit,
        ),
{
    assert(updated_seeds(updated_seeds(seeds, a, limit), b, limit) =~= updated_seeds(
        seeds,
        merged(a, b),
        limit,
    ));
}

/// A stopped seed comes out of a step unchanged: same point, same score,
/// same progress.
pub proof fn lemma_stopped_seed_unchanged<P>(
    seeds: Seq<Seed<P>>,
    outcomes: Seq<Option<Outcome<P>>>,
    limit: i32,
    i: int,
)
    requires
        outcomes_fit(seeds, outcomes),
        0 <= i < seeds.len(),
        seeds[i].progress.done,
    ensures
        updated_seeds(seeds, outcomes, limit)[i] == seeds[i],
{
    assert(outcomes[i] is None);
}

} // verus!
