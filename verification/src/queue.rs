use vstd::prelude::*;

use crate::track::{Track, TrackView};

verus! {

/// Policy for what plays next when the current track finishes.
#[derive(Clone, Copy, Debug, PartialEq, Eq, Structural)]
pub enum LoopMode {
    /// Play each track once, in queue order; the default.
    NoLoop,
    /// Rotate the finished track to the tail of the queue.
    LoopQueue,
    /// Replay the same track indefinitely.
    LoopTrack,
}

/// The structural ways a queue or registry operation can fail.
#[derive(Clone, Copy, Debug, PartialEq, Eq, Structural)]
pub enum QueueError {
    /// `pop` or `peek` was invoked on a queue with no entries.
    EmptyQueue,
    /// The named tenant has no registered queue.
    NoQueueFound(u64),
}

/// Mathematical value of a [`TracksQueue`]: the ordered track views and the
/// loop mode.
pub struct QueueView {
    pub tracks: Seq<TrackView>,
    pub loop_mode: LoopMode,
}

impl QueueView {
    /// The view of a freshly created queue.
    pub open spec fn empty() -> QueueView {
        QueueView { tracks: Seq::<TrackView>::empty(), loop_mode: LoopMode::NoLoop }
    }
}

/// An ordered, FIFO sequence of tracks for one tenant — index 0 is the
/// currently loaded track — together with the tenant's loop mode.
#[derive(Debug)]
pub struct TracksQueue {
    tracks: Vec<Track>,
    loop_mode: LoopMode,
}

impl View for TracksQueue {
    type V = QueueView;

    closed spec fn view(&self) -> QueueView {
        QueueView { tracks: self.tracks.deep_view(), loop_mode: self.loop_mode }
    }
}

/// Relies on rand's `SliceRandom::shuffle`: a Fisher–Yates in-place
/// permutation of the slice — the same elements, rearranged, length kept.
#[verifier::external_body]
fn shuffle_in_place(v: &mut Vec<Track>)
    ensures
        final(v)@.len() == old(v)@.len(),
        final(v).deep_view().to_multiset() == old(v).deep_view().to_multiset(),
{
    rand::seq::SliceRandom::shuffle(v.as_mut_slice(), &mut rand::thread_rng());
}

impl TracksQueue {
    /// An empty queue with the default loop mode.
    pub fn new() -> (q: TracksQueue)
        ensures
            q@ == QueueView::empty(),
    {
        let q = TracksQueue { tracks: Vec::new(), loop_mode: LoopMode::NoLoop };
        proof {
            assert(q@.tracks =~= Seq::<TrackView>::empty());
        }
        q
    }

    /// Appends `track` to the tail. Never fails.
    pub fn push(&mut self, track: Track)
        ensures
            final(self)@.tracks == old(self)@.tracks.push(track@),
            final(self)@.loop_mode == old(self)@.loop_mode,
    {
        let ghost pre = self.tracks.deep_view();
        self.tracks.push(track);
        proof {
            assert(self.tracks.deep_view() =~= pre.push(track@));
        }
    }

    /// Appends a copy of every track of `tracks` to the tail, in order.
    pub fn push_all(&mut self, tracks: &Vec<Track>)
        ensures
            final(self)@.tracks == old(self)@.tracks + tracks.deep_view(),
            final(self)@.loop_mode == old(self)@.loop_mode,
    {
        proof {
            assert(self@.tracks =~= old(self)@.tracks + tracks.deep_view().subrange(0, 0));
        }
        let mut i: usize = 0;
        while i < tracks.len()
            invariant
                i <= tracks.len(),
                self@.tracks == old(self)@.tracks + tracks.deep_view().subrange(0, i as int),
                self@.loop_mode == old(self)@.loop_mode,
            decreases tracks.len() - i,
        {
            proof {
                assert(forall|k: int|
                    0 <= k < tracks@.len()
                        ==> tracks.deep_view()[k] == #[trigger] tracks@[k].deep_view());
            }
            let c = tracks[i].clone();
            self.push(c);
            i += 1;
            proof {
                assert(self@.tracks =~= old(self)@.tracks + tracks.deep_view().subrange(
                    0,
                    i as int,
                ));
            }
        }
        proof {
            assert(tracks.deep_view().subrange(0, i as int) =~= tracks.deep_view());
        }
    }

    /// Removes and returns the head (index 0), preserving the relative order
    /// of the remaining entries; fails with `EmptyQueue` on an empty queue,
    /// leaving it unchanged.
    pub fn pop(&mut self) -> (r: Result<Track, QueueError>)
        ensures
            old(self)@.tracks.len() == 0 ==> r == Err::<Track, QueueError>(QueueError::EmptyQueue)
                && *final(self) == *old(self),
            old(self)@.tracks.len() > 0 ==> {
                &&& r matches Ok(t) && t@ == old(self)@.tracks[0]
                &&& final(self)@.tracks == old(self)@.tracks.drop_first()
                &&& final(self)@.loop_mode == old(self)@.loop_mode
            },
    {
        if self.tracks.len() == 0 {
            Err(QueueError::EmptyQueue)
        } else {
            let ghost pre = self.tracks.deep_view();
            let t = self.tracks.remove(0);
            proof {
                assert(self.tracks.deep_view() =~= pre.drop_first());
            }
            Ok(t)
        }
    }

    /// Returns a copy of the head without removing it; fails with
    /// `EmptyQueue` on an empty queue.
    pub fn peek(&self) -> (r: Result<Track, QueueError>)
        ensures
            self@.tracks.len() == 0 ==> r == Err::<Track, QueueError>(QueueError::EmptyQueue),
            self@.tracks.len() > 0 ==> (r matches Ok(t) && t@ == self@.tracks[0]),
    {
        if self.tracks.len() == 0 {
            Err(QueueError::EmptyQueue)
        } else {
            Ok(self.tracks[0].clone())
        }
    }

    /// Whether the queue holds no tracks.
    pub fn is_empty(&self) -> (r: bool)
        ensures
            r == (self@.tracks.len() == 0),
    {
        self.tracks.len() == 0
    }

    /// The number of queued tracks.
    pub fn len(&self) -> (r: usize)
        ensures
            r == self@.tracks.len(),
    {
        self.tracks.len()
    }

    /// A copy of the full ordered contents at the instant of the call,
    /// independent of later mutations of the queue.
    pub fn current_queue(&self) -> (r: Vec<Track>)
        ensures
            r.deep_view() == self@.tracks,
    {
        let mut out: Vec<Track> = Vec::new();
        proof {
            assert(out.deep_view() =~= self.tracks.deep_view().subrange(0, 0));
        }
        let mut i: usize = 0;
        while i < self.tracks.len()
            invariant
                i <= self.tracks.len(),
                out.deep_view() == self.tracks.deep_view().subrange(0, i as int),
            decreases self.tracks.len() - i,
        {
            let ghost pre = out.deep_view();
            let ghost pre_raw = out@;
            proof {
                assert(pre.len() == pre_raw.len());
                assert(pre.len() == i as int);
                assert(forall|k: int|
                    0 <= k < pre.len() ==> pre[k] == #[trigger] pre_raw[k].deep_view());
            }
            let c = self.tracks[i].clone();
            out.push(c);
            i += 1;
        }
        proof {
            assert(self.tracks.deep_view().subrange(0, i as int) =~= self.tracks.deep_view());
        }
        out
    }

    /// Removes all contents; the loop mode is kept.
    pub fn clear(&mut self)
        ensures
            final(self)@.tracks == Seq::<TrackView>::empty(),
            final(self)@.loop_mode == old(self)@.loop_mode,
    {
        self.tracks.clear();
        proof {
            assert(self.tracks.deep_view() =~= Seq::<TrackView>::empty());
        }
    }

    /// Randomly permutes the entire contents in place, including index 0:
    /// the same tracks remain queued, in some order, and the loop mode is
    /// kept. No ordering guarantee is preserved across the call.
    pub fn shuffle(&mut self)
        ensures
            final(self)@.tracks.to_multiset() == old(self)@.tracks.to_multiset(),
            final(self)@.tracks.len() == old(self)@.tracks.len(),
            final(self)@.loop_mode == old(self)@.loop_mode,
    {
        shuffle_in_place(&mut self.tracks);
    }

    /// Sets the loop mode; the contents are untouched.
    pub fn set_loop_mode(&mut self, mode: LoopMode)
        ensures
            final(self)@.loop_mode == mode,
            final(self)@.tracks == old(self)@.tracks,
    {
        self.loop_mode = mode;
    }

    /// The current loop mode.
    pub fn loop_mode(&self) -> (r: LoopMode)
        ensures
            r == self@.loop_mode,
    {
        self.loop_mode
    }
}

/// Law: popping a non-empty queue removes exactly the head — the very track
/// `peek` returns, by the `ensures` of [`TracksQueue::peek`] and
/// [`TracksQueue::pop`] — and leaves one track fewer, every remaining track
/// keeping its relative order.
pub proof fn lemma_pop_preserves_order(s: Seq<TrackView>)
    requires
        s.len() > 0,
    ensures
        s.drop_first().len() == s.len() - 1,
        forall|i: int| 0 <= i < s.len() - 1 ==> s.drop_first()[i] == s[i + 1],
{
}

/// The queue view after appending each track of `pushed`, in order; one step
/// is exactly what the `ensures` of [`TracksQueue::push`] states.
pub open spec fn after_pushes(q: QueueView, pushed: Seq<TrackView>) -> QueueView
    decreases pushed.len(),
{
    if pushed.len() == 0 {
        q
    } else {
        after_pushes(
            QueueView { tracks: q.tracks.push(pushed[0]), loop_mode: q.loop_mode },
            pushed.drop_first(),
        )
    }
}

/// Law: a run of pushes appends exactly the pushed tracks, in order, without
/// altering what was already queued or the loop mode. So the length after
/// `n` pushes grows by `n`, and after any run of pushes into an initially
/// empty queue the head is the first-pushed track, unchanged.
pub proof fn lemma_pushes_accumulate(q: QueueView, pushed: Seq<TrackView>)
    ensures
        after_pushes(q, pushed).tracks == q.tracks + pushed,
        after_pushes(q, pushed).loop_mode == q.loop_mode,
        after_pushes(q, pushed).tracks.len() == q.tracks.len() + pushed.len(),
        q.tracks.len() == 0 && pushed.len() > 0 ==> after_pushes(q, pushed).tracks[0] == pushed[0],
    decreases pushed.len(),
{
    if pushed.len() == 0 {
        assert(after_pushes(q, pushed).tracks =~= q.tracks + pushed);
    } else {
        let q1 = QueueView { tracks: q.tracks.push(pushed[0]), loop_mode: q.loop_mode };
        lemma_pushes_accumulate(q1, pushed.drop_first());
        assert(q.tracks.push(pushed[0]) + pushed.drop_first() =~= q.tracks + pushed);
    }
}

/// The heads collected by `n` successive pops from a queue whose contents
/// are `s`; one step is exactly what the `ensures` of [`TracksQueue::pop`]
/// states.
pub open spec fn collected_by_pops(s: Seq<TrackView>, n: int) -> Seq<TrackView>
    decreases n,
{
    if n <= 0 {
        Seq::<TrackView>::empty()
    } else {
        seq![s[0]] + collected_by_pops(s.drop_first(), n - 1)
    }
}

/// The contents left behind by `n` successive pops.
pub open spec fn remaining_after_pops(s: Seq<TrackView>, n: int) -> Seq<TrackView>
    decreases n,
{
    if n <= 0 {
        s
    } else {
        remaining_after_pops(s.drop_first(), n - 1)
    }
}

/// Law: each pop removes exactly the head, so `n` pops from a queue holding
/// `s` collect precisely the first `n` queued tracks, in order, and leave the
/// rest. Draining a queue of `n` tracks by `n` pops therefore removes every
/// track exactly once — no duplicate removal, nothing left behind.
pub proof fn lemma_pops_drain(s: Seq<TrackView>, n: int)
    requires
        0 <= n <= s.len(),
    ensures
        collected_by_pops(s, n) == s.take(n),
        remaining_after_pops(s, n) == s.skip(n),
    decreases n,
{
    if n <= 0 {
        assert(collected_by_pops(s, n) =~= s.take(n));
        assert(remaining_after_pops(s, n) =~= s.skip(n));
    } else {
        lemma_pops_drain(s.drop_first(), n - 1);
        assert(seq![s[0]] + s.drop_first().take(n - 1) =~= s.take(n));
        assert(s.drop_first().skip(n - 1) =~= s.skip(n));
    }
}

} // verus!
