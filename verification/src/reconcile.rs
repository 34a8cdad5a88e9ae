use vstd::prelude::*;

use crate::queue::{LoopMode, QueueView, TracksQueue};
use crate::registry::Registry;
use crate::track::{spec_display, Track, TrackView};

verus! {

/// What the reconciler decides on a "track ended" event, computed entirely
/// under the queue's exclusive section; the caller performs the network
/// side (play or stop command, end-of-queue notice) only after releasing it.
#[derive(Debug)]
pub enum EndedOutcome {
    /// No queue is registered for the tenant: a stale event for a torn-down
    /// session, to be logged and discarded.
    Discarded,
    /// The queue held nothing to advance: a no-op, no command, no notice.
    Idle,
    /// Issue a play command to the node for this track.
    PlayNext(Track),
    /// The last track finished: issue a stop command and send an
    /// end-of-queue notice to `notify_target`.
    EndOfQueue { notify_target: u64 },
}

/// The queue contents after a "track ended" event for `handle` is applied:
/// under `NoLoop` the head is popped (an already empty queue stays empty);
/// under `LoopQueue` the head rotates to the tail, but only when it is the
/// track the event reports — a stale event leaves the queue untouched;
/// under `LoopTrack` the contents never change.
pub open spec fn spec_ended_tracks(q: QueueView, handle: Seq<char>) -> Seq<TrackView> {
    match q.loop_mode {
        LoopMode::NoLoop => if q.tracks.len() == 0 {
            q.tracks
        } else {
            q.tracks.drop_first()
        },
        LoopMode::LoopQueue => if q.tracks.len() > 0 && q.tracks[0].playable_handle == handle {
            q.tracks.drop_first().push(q.tracks[0])
        } else {
            q.tracks
        },
        LoopMode::LoopTrack => q.tracks,
    }
}

/// The decision owed for a "track ended" event against a queue with view
/// `q`: exactly when each outcome comes, and which track any play command
/// targets.
pub open spec fn spec_ended_outcome_ok(q: QueueView, handle: Seq<char>, r: EndedOutcome) -> bool {
    match q.loop_mode {
        LoopMode::NoLoop => if q.tracks.len() == 0 {
            r == EndedOutcome::Idle
        } else if q.tracks.len() == 1 {
            r == (EndedOutcome::EndOfQueue { notify_target: q.tracks[0].notify_target })
        } else {
            r matches EndedOutcome::PlayNext(t) && t@ == q.tracks[1]
        },
        LoopMode::LoopQueue => if q.tracks.len() == 0 {
            r == EndedOutcome::Idle
        } else {
            r matches EndedOutcome::PlayNext(t) && t@ == spec_ended_tracks(q, handle)[0]
        },
        LoopMode::LoopTrack => if q.tracks.len() == 0 {
            r == EndedOutcome::Idle
        } else {
            r matches EndedOutcome::PlayNext(t) && t@ == q.tracks[0]
        },
    }
}

/// Advances one queue for a "track ended" event reporting `ended_handle`,
/// per the queue's loop mode, and returns the action owed afterwards.
pub fn ended_step(queue: &mut TracksQueue, ended_handle: &String) -> (r: EndedOutcome)
    ensures
        final(queue)@.tracks == spec_ended_tracks(old(queue)@, ended_handle@),
        final(queue)@.loop_mode == old(queue)@.loop_mode,
        spec_ended_outcome_ok(old(queue)@, ended_handle@, r),
{
    match queue.loop_mode() {
        LoopMode::NoLoop => {
            if queue.is_empty() {
                EndedOutcome::Idle
            } else if queue.len() == 1 {
                match queue.pop() {
                    Ok(finished) => EndedOutcome::EndOfQueue {
                        notify_target: finished.notify_target,
                    },
                    Err(_) => vstd::pervasive::unreached(),
                }
            } else {
                match queue.pop() {
                    Ok(_) => (),
                    Err(_) => vstd::pervasive::unreached(),
                }
                match queue.peek() {
                    Ok(next) => EndedOutcome::PlayNext(next),
                    Err(_) => vstd::pervasive::unreached(),
                }
            }
        },
        LoopMode::LoopQueue => {
            if queue.is_empty() {
                EndedOutcome::Idle
            } else {
                let current = match queue.peek() {
                    Ok(t) => t,
                    Err(_) => vstd::pervasive::unreached(),
                };
                if current.has_handle(ended_handle) {
                    let ghost pre = queue@.tracks;
                    queue.push(current);
                    match queue.pop() {
                        Ok(_) => (),
                        Err(_) => vstd::pervasive::unreached(),
                    }
                    proof {
                        assert(queue@.tracks =~= pre.drop_first().push(pre[0]));
                    }
                    match queue.peek() {
                        Ok(next) => EndedOutcome::PlayNext(next),
                        Err(_) => vstd::pervasive::unreached(),
                    }
                } else {
                    EndedOutcome::PlayNext(current)
                }
            }
        },
        LoopMode::LoopTrack => {
            match queue.peek() {
                Ok(head) => EndedOutcome::PlayNext(head),
                Err(_) => EndedOutcome::Idle,
            }
        },
    }
}

/// Reconciles a "track ended" event for `tenant`: locates the tenant's
/// queue, advances it per the loop mode, and returns the action owed. A
/// tenant without a queue yields `Discarded` and changes nothing; every
/// other tenant's queue is untouched.
pub fn on_track_ended(reg: &mut Registry, tenant: u64, ended_handle: &String) -> (r:
    EndedOutcome)
    ensures
        !old(reg)@.contains_key(tenant) ==> r == EndedOutcome::Discarded && *final(reg) == *old(
            reg,
        ),
        old(reg)@.contains_key(tenant) ==> {
            &&& final(reg)@.contains_key(tenant)
            &&& final(reg)@[tenant]@.tracks == spec_ended_tracks(
                old(reg)@[tenant]@,
                ended_handle@,
            )
            &&& final(reg)@[tenant]@.loop_mode == old(reg)@[tenant]@.loop_mode
            &&& spec_ended_outcome_ok(old(reg)@[tenant]@, ended_handle@, r)
            &&& final(reg)@ == old(reg)@.insert(tenant, final(reg)@[tenant])
        },
{
    if !reg.has_queue(tenant) {
        return EndedOutcome::Discarded;
    }
    let queue = reg.get_or_create_queue(tenant);
    ended_step(queue, ended_handle)
}

/// What a "now playing" notice contains: the head track's display metadata
/// — absent strings already replaced by the placeholder — and where to send
/// the notice.
#[derive(Debug)]
pub struct NowPlaying {
    pub title: String,
    pub author: String,
    pub uri: String,
    pub length_ms: u64,
    pub notify_target: u64,
}

/// Reconciles a "track started" event for `tenant`: captures the head
/// track's display metadata under the queue's exclusive section, so the
/// caller can send the notice after releasing it. A tenant without a queue,
/// or with an empty one, yields `None`: the event is discarded.
pub fn on_track_started(reg: &Registry, tenant: u64) -> (r: Option<NowPlaying>)
    ensures
        match r {
            Some(np) => reg@.contains_key(tenant) && reg@[tenant]@.tracks.len() > 0 && {
                let head = reg@[tenant]@.tracks[0];
                &&& np.title@ == spec_display(head.title)
                &&& np.author@ == spec_display(head.author)
                &&& np.uri@ == head.uri
                &&& np.length_ms == head.length_ms
                &&& np.notify_target == head.notify_target
            },
            None => !reg@.contains_key(tenant) || reg@[tenant]@.tracks.len() == 0,
        },
{
    match reg.get_queue(tenant) {
        None => None,
        Some(queue) => match queue.peek() {
            Err(_) => None,
            Ok(head) => Some(
                NowPlaying {
                    title: head.display_title(),
                    author: head.display_author(),
                    uri: head.uri.clone(),
                    length_ms: head.length_ms,
                    notify_target: head.notify_target,
                },
            ),
        },
    }
}

} // verus!
