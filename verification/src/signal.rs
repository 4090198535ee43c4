//! A signal materialized as a fixed-size sliding window over an unbounded
//! numeric sequence. The generator itself (random or periodic) lives outside
//! the library; each tick hands the window the freshest batch of points and
//! the window drops the same number of oldest points, so its length never
//! changes.

use vstd::prelude::*;

verus! {

/// A sliding window over a signal. `points` holds the most recent points in
/// order, oldest first; `tick_rate` is how many points the window advances
/// by on every tick.
pub struct Signal<T> {
    pub points: Vec<T>,
    pub tick_rate: usize,
}

/// The window after one tick: the `fresh.len()` oldest points are dropped
/// and `fresh` is appended.
pub open spec fn tick_window<T>(window: Seq<T>, fresh: Seq<T>) -> Seq<T> {
    window.skip(fresh.len() as int) + fresh
}

/// The window after a whole sequence of ticks, applied in order.
pub open spec fn run_ticks<T>(window: Seq<T>, batches: Seq<Seq<T>>) -> Seq<T>
    decreases batches.len(),
{
    if batches.len() == 0 {
        window
    } else {
        run_ticks(tick_window(window, batches[0]), batches.skip(1))
    }
}

impl<T> Signal<T> {
    /// Well-formed: the window holds at least one batch, so a tick never
    /// drains it below its fixed capacity.
    pub open spec fn wf(self) -> bool {
        self.tick_rate <= self.points@.len()
    }

    pub fn new(points: Vec<T>, tick_rate: usize) -> (s: Signal<T>)
        requires
            tick_rate <= points@.len(),
        ensures
            s.wf(),
            s.points == points,
            s.tick_rate == tick_rate,
    {
        Signal { points, tick_rate }
    }

    /// Advance the window by one tick: drop the `tick_rate` oldest points
    /// and append the `tick_rate` freshest. The window length is unchanged.
    pub fn on_tick(&mut self, fresh: Vec<T>)
        requires
            old(self).wf(),
            fresh@.len() == old(self).tick_rate,
        ensures
            final(self).wf(),
            final(self).tick_rate == old(self).tick_rate,
            final(self).points@ == tick_window(old(self).points@, fresh@),
            final(self).points@.len() == old(self).points@.len(),
    {
        let ghost orig = self.points@;
        let ghost fresh0 = fresh@;
        let mut i: usize = 0;
        while i < self.tick_rate
            invariant
                i <= self.tick_rate,
                self.tick_rate == fresh0.len(),
                self.tick_rate <= orig.len(),
                self.points@ == orig.skip(i as int),
            decreases self.tick_rate - i,
        {
            self.points.remove(0);
            proof {
                assert(self.points@ =~= orig.skip(i + 1));
            }
            i = i + 1;
        }
        let mut fresh = fresh;
        proof {
            assert(self.points@ + fresh@ =~= orig.skip(fresh0.len() as int) + fresh0);
        }
        while fresh.len() > 0
            invariant
                self.tick_rate == fresh0.len(),
                self.tick_rate <= orig.len(),
                self.points@ + fresh@ == orig.skip(fresh0.len() as int) + fresh0,
            decreases fresh@.len(),
        {
            let ghost before = self.points@;
            let ghost rest = fresh@;
            let p = fresh.remove(0);
            self.points.push(p);
            proof {
                assert(self.points@ + fresh@ =~= before + rest);
            }
        }
        proof {
            assert(self.points@ =~= self.points@ + fresh@);
            assert(self.points@ =~= tick_window(orig, fresh0));
        }
    }
}

/// However many ticks arrive, the window length never changes: after any
/// sequence of full batches the window is as long as it started.
pub proof fn lemma_window_length_constant<T>(window: Seq<T>, batches: Seq<Seq<T>>, rate: nat)
    requires
        rate <= window.len(),
        forall|i: int| 0 <= i < batches.len() ==> #[trigger] batches[i].len() == rate,
    ensures
        run_ticks(window, batches).len() == window.len(),
    decreases batches.len(),
{
    if batches.len() > 0 {
        assert(batches[0].len() == rate);
        let next = tick_window(window, batches[0]);
        assert(next.len() == window.len());
        assert(forall|i: int|
            0 <= i < batches.skip(1).len() ==> #[trigger] batches.skip(1)[i].len() == rate);
        lemma_window_length_constant(next, batches.skip(1), rate);
    }
}

} // verus!
