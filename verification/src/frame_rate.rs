use std::collections::VecDeque;
use vstd::prelude::*;

verus! {

/// The last `m` elements of `s` (all of `s` when it is shorter).
pub open spec fn window(s: Seq<i64>, m: nat) -> Seq<i64> {
    if s.len() > m {
        s.skip(s.len() - m)
    } else {
        s
    }
}

/// How many of `n` recorded timestamps a window of capacity `m` keeps.
pub open spec fn kept(n: nat, m: nat) -> nat {
    if n < m {
        n
    } else {
        m
    }
}

/// What a window that keeps at most `m` timestamps holds after starting
/// empty and recording each timestamp of `ts` in turn.
pub open spec fn replay(ts: Seq<i64>, m: nat) -> Seq<i64>
    decreases ts.len(),
{
    if ts.len() == 0 {
        Seq::empty()
    } else {
        window(replay(ts.drop_last(), m).push(ts.last()), m)
    }
}

/// The frame rate measured over a window: `frames` frame intervals took
/// `elapsed_micros` microseconds, so the rate is
/// `frames * 1_000_000 / elapsed_micros` frames per second.
#[derive(Clone, Copy, Debug, PartialEq, Eq, Structural)]
pub struct FpsSample {
    pub frames: usize,
    pub elapsed_micros: i128,
}

/// A sliding window over the timestamps (in microseconds) of the most
/// recent frames, from which the frame rate is measured.
pub struct FrameRate {
    deque: VecDeque<i64>,
    max_store: usize,
}

impl View for FrameRate {
    type V = Seq<i64>;

    closed spec fn view(&self) -> Seq<i64> {
        self.deque@
    }
}

impl FrameRate {
    #[verifier::type_invariant]
    spec fn inv(self) -> bool {
        &&& self.max_store >= 2
        &&& self.deque@.len() <= self.max_store
    }

    /// How many timestamps the window keeps at most.
    pub closed spec fn max_store(&self) -> nat {
        self.max_store as nat
    }

    /// An empty window that keeps at most `max_store` timestamps.
    pub fn new(max_store: usize) -> (r: Self)
        requires
            max_store >= 2,
        ensures
            r@ == Seq::<i64>::empty(),
            r.max_store() == max_store,
    {
        FrameRate { deque: VecDeque::new(), max_store }
    }

    /// Records the timestamp of a frame, dropping the oldest one when the
    /// window would hold more than `max_store` timestamps.
    pub fn add(&mut self, frame_time: i64)
        ensures
            final(self)@ == window(old(self)@.push(frame_time), old(self).max_store()),
            final(self)@.len() == kept(old(self)@.len() + 1, old(self).max_store()),
            final(self)@.last() == frame_time,
            final(self)@ == old(self)@.push(frame_time).subrange(
                old(self)@.len() + 1 - kept(old(self)@.len() + 1, old(self).max_store()),
                old(self)@.len() + 1 as int,
            ),
            final(self).max_store() == old(self).max_store(),
            final(self)@.len() <= final(self).max_store(),
            final(self).max_store() >= 2,
    {
        proof {
            use_type_invariant(&*self);
        }
        let mut deque = VecDeque::new();
        std::mem::swap(&mut deque, &mut self.deque);
        deque.push_back(frame_time);
        if deque.len() > self.max_store {
            deque.pop_front();
        }
        proof {
            let s = old(self)@.push(frame_time);
            if s.len() > self.max_store {
                assert(deque@ =~= s.skip(s.len() - self.max_store));
            }
        }
        self.deque = deque;
        proof {
            lemma_window_is_latest(old(self)@.push(frame_time), self.max_store as nat);
        }
    }

    /// The frame intervals in the window and the time they took; `None`
    /// when the window holds fewer than two timestamps (a rate of zero).
    pub fn get_fps(&self) -> (r: Option<FpsSample>)
        ensures
            self@.len() <= 1 ==> r is None,
            self@.len() > 1 ==> (r matches Some(f) && f.frames == self@.len() - 1
                && f.elapsed_micros == self@.last() - self@[0]),
    {
        if self.deque.len() <= 1 {
            None
        } else {
            let n = self.deque.len();
            let first: i64 = self.deque[0];
            let last: i64 = self.deque[n - 1];
            let elapsed: i128 = last as i128 - first as i128;
            Some(FpsSample { frames: n - 1, elapsed_micros: elapsed })
        }
    }
}

/// A window of capacity `m >= 1` holds the latest `min(len, m)` elements
/// of the history, in order, ending with the newest one.
pub proof fn lemma_window_is_latest(s: Seq<i64>, m: nat)
    requires
        m >= 1,
    ensures
        window(s, m).len() == kept(s.len(), m),
        window(s, m) == s.subrange(s.len() - kept(s.len(), m), s.len() as int),
        s.len() > 0 ==> window(s, m).last() == s.last(),
        forall|i: int|
            0 <= i < window(s, m).len() ==> #[trigger] window(s, m)[i] == s[s.len() - kept(
                s.len(),
                m,
            ) + i],
{
    assert(window(s, m) =~= s.subrange(s.len() - kept(s.len(), m), s.len() as int));
}

/// Recording one more timestamp into a window of the last `m` timestamps
/// gives the last `m` timestamps of the longer history.
pub proof fn lemma_window_push(s: Seq<i64>, t: i64, m: nat)
    requires
        m >= 1,
    ensures
        window(window(s, m).push(t), m) == window(s.push(t), m),
{
    if s.len() > m {
        let w = s.skip(s.len() - m);
        assert(w.push(t).len() == m + 1);
        assert(window(w.push(t), m) =~= w.push(t).skip(1));
        assert(w.push(t).skip(1) =~= s.push(t).skip(s.push(t).len() - m));
    } else if s.len() == m {
        assert(window(s.push(t), m) =~= s.push(t).skip(1));
    }
}

/// A frame-rate window that starts empty and records the timestamps `ts`
/// one after another holds exactly the last `m` of them, in the order in
/// which they were recorded.
pub proof fn lemma_keeps_latest(ts: Seq<i64>, m: nat)
    requires
        m >= 1,
    ensures
        replay(ts, m) == window(ts, m),
        replay(ts, m).len() <= m,
        replay(ts, m).len() == kept(ts.len(), m),
        replay(ts, m) == ts.subrange(ts.len() - kept(ts.len(), m), ts.len() as int),
        ts.len() > 0 ==> replay(ts, m).last() == ts.last(),
    decreases ts.len(),
{
    lemma_window_is_latest(ts, m);
    if ts.len() > 0 {
        lemma_keeps_latest(ts.drop_last(), m);
        lemma_window_push(ts.drop_last(), ts.last(), m);
        assert(ts.drop_last().push(ts.last()) =~= ts);
    }
}

/// After recording the timestamps `ts` into an empty window of capacity
/// `m`, the rate is measured over the latest `min(len, m)` of them: from the
/// oldest one still kept to the newest one recorded.
pub proof fn lemma_rate_over_latest(ts: Seq<i64>, m: nat)
    requires
        m >= 2,
        ts.len() >= 2,
    ensures
        replay(ts, m).len() - 1 == kept(ts.len(), m) - 1,
        kept(ts.len(), m) >= 2,
        replay(ts, m).last() - replay(ts, m)[0] == ts.last() - ts[ts.len() - kept(ts.len(), m)],
{
    lemma_keeps_latest(ts, m);
}

} // verus!
