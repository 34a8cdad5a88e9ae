use vstd::prelude::*;
use vstd::string::StrSliceExecFns;
use vstd::string::StringExecFns;

use crate::queue::{LoopMode, QueueError};
use crate::registry::Registry;
use crate::track::{Track, TrackView};

verus! {

/// How many tracks a queue-listing page shows.
pub const TRACKS_PER_PAGE: usize = 10;

/// Appends one track to the tenant's queue, registering an empty queue
/// first when the tenant had none. Never fails.
pub fn enqueue_track(reg: &mut Registry, tenant: u64, track: Track)
    ensures
        final(reg)@.contains_key(tenant),
        old(reg)@.contains_key(tenant) ==> final(reg)@[tenant]@.tracks == old(reg)@[tenant]@.tracks.push(track@) && final(reg)@[tenant]@.loop_mode == old(reg)@[tenant]@.loop_mode,
        !old(reg)@.contains_key(tenant) ==> final(reg)@[tenant]@.tracks == seq![track@] && final(reg)@[tenant]@.loop_mode == LoopMode::NoLoop,
        final(reg)@ == old(reg)@.insert(tenant, final(reg)@[tenant]),
{
    let queue = reg.get_or_create_queue(tenant);
    queue.push(track);
    proof {
        assert(Seq::<TrackView>::empty().push(track@) =~= seq![track@]);
    }
}

/// Appends every track of `tracks` to the tenant's queue, in order,
/// registering an empty queue first when the tenant had none, and returns a
/// copy of the resulting queue's head — the track whose play command is owed
/// — or `EmptyQueue` when nothing ended up queued (an empty playlist into an
/// empty queue).
pub fn enqueue_playlist(reg: &mut Registry, tenant: u64, tracks: &Vec<Track>) -> (r: Result<
    Track,
    QueueError,
>)
    ensures
        final(reg)@.contains_key(tenant),
        ({
            let prior = if old(reg)@.contains_key(tenant) {
                old(reg)@[tenant]@.tracks
            } else {
                Seq::<TrackView>::empty()
            };
            &&& final(reg)@[tenant]@.tracks == prior + tracks.deep_view()
        }),
        old(reg)@.contains_key(tenant) ==> final(reg)@[tenant]@.loop_mode == old(reg)@[tenant]@.loop_mode,
        !old(reg)@.contains_key(tenant) ==> final(reg)@[tenant]@.loop_mode == LoopMode::NoLoop,
        final(reg)@[tenant]@.tracks.len() == 0 ==> r == Err::<Track, QueueError>(
            QueueError::EmptyQueue,
        ),
        final(reg)@[tenant]@.tracks.len() > 0 ==> (r matches Ok(t) && t@ == final(reg)@[tenant]@.tracks[0]),
        final(reg)@ == old(reg)@.insert(tenant, final(reg)@[tenant]),
{
    let queue = reg.get_or_create_queue(tenant);
    queue.push_all(tracks);
    queue.peek()
}

/// Decides a skip request: `Ok` when a stop command to the node is owed —
/// the node's "track ended" event then advances the queue — `EmptyQueue`
/// when nothing is queued to skip, `NoQueueFound` when the tenant has no
/// queue. Reads only; never mutates.
pub fn skip(reg: &Registry, tenant: u64) -> (r: Result<(), QueueError>)
    ensures
        !reg@.contains_key(tenant) ==> r == Err::<(), QueueError>(
            QueueError::NoQueueFound(tenant),
        ),
        reg@.contains_key(tenant) && reg@[tenant]@.tracks.len() == 0 ==> r == Err::<
            (),
            QueueError,
        >(QueueError::EmptyQueue),
        reg@.contains_key(tenant) && reg@[tenant]@.tracks.len() > 0 ==> r == Ok::<
            (),
            QueueError,
        >(()),
{
    match reg.get_queue(tenant) {
        None => Err(QueueError::NoQueueFound(tenant)),
        Some(queue) => {
            if queue.is_empty() {
                Err(QueueError::EmptyQueue)
            } else {
                Ok(())
            }
        },
    }
}

/// Clears the tenant's queue — the caller then owes the node a stop
/// command. The loop mode is kept; `NoQueueFound` when the tenant has no
/// queue, and then nothing changes.
pub fn stop(reg: &mut Registry, tenant: u64) -> (r: Result<(), QueueError>)
    ensures
        !old(reg)@.contains_key(tenant) ==> r == Err::<(), QueueError>(
            QueueError::NoQueueFound(tenant),
        ) && *final(reg) == *old(reg),
        old(reg)@.contains_key(tenant) ==> {
            &&& r == Ok::<(), QueueError>(())
            &&& final(reg)@.contains_key(tenant)
            &&& final(reg)@[tenant]@.tracks == Seq::<TrackView>::empty()
            &&& final(reg)@[tenant]@.loop_mode == old(reg)@[tenant]@.loop_mode
            &&& final(reg)@ == old(reg)@.insert(tenant, final(reg)@[tenant])
        },
{
    if !reg.has_queue(tenant) {
        return Err(QueueError::NoQueueFound(tenant));
    }
    let queue = reg.get_or_create_queue(tenant);
    queue.clear();
    Ok(())
}

/// Randomly permutes the tenant's entire queue in place: the same tracks,
/// in some order. `EmptyQueue` when there is nothing to shuffle,
/// `NoQueueFound` when the tenant has no queue; either way nothing changes.
pub fn shuffle(reg: &mut Registry, tenant: u64) -> (r: Result<(), QueueError>)
    ensures
        !old(reg)@.contains_key(tenant) ==> r == Err::<(), QueueError>(
            QueueError::NoQueueFound(tenant),
        ) && *final(reg) == *old(reg),
        old(reg)@.contains_key(tenant) && old(reg)@[tenant]@.tracks.len() == 0 ==> r == Err::<
            (),
            QueueError,
        >(QueueError::EmptyQueue) && final(reg)@ == old(reg)@,
        old(reg)@.contains_key(tenant) && old(reg)@[tenant]@.tracks.len() > 0 ==> {
            &&& r == Ok::<(), QueueError>(())
            &&& final(reg)@.contains_key(tenant)
            &&& final(reg)@[tenant]@.tracks.to_multiset() == old(reg)@[tenant]@.tracks.to_multiset()
            &&& final(reg)@[tenant]@.tracks.len() == old(reg)@[tenant]@.tracks.len()
            &&& final(reg)@[tenant]@.loop_mode == old(reg)@[tenant]@.loop_mode
            &&& final(reg)@ == old(reg)@.insert(tenant, final(reg)@[tenant])
        },
{
    let ghost pre = reg@;
    if !reg.has_queue(tenant) {
        return Err(QueueError::NoQueueFound(tenant));
    }
    let queue = reg.get_or_create_queue(tenant);
    if queue.is_empty() {
        proof {
            assert(pre.insert(tenant, pre[tenant]) =~= pre);
        }
        return Err(QueueError::EmptyQueue);
    }
    queue.shuffle();
    Ok(())
}

/// Sets the tenant's loop mode; the queued tracks are untouched.
/// `NoQueueFound` when the tenant has no queue, and then nothing changes.
pub fn set_loop_mode(reg: &mut Registry, tenant: u64, mode: LoopMode) -> (r: Result<
    (),
    QueueError,
>)
    ensures
        !old(reg)@.contains_key(tenant) ==> r == Err::<(), QueueError>(
            QueueError::NoQueueFound(tenant),
        ) && *final(reg) == *old(reg),
        old(reg)@.contains_key(tenant) ==> {
            &&& r == Ok::<(), QueueError>(())
            &&& final(reg)@.contains_key(tenant)
            &&& final(reg)@[tenant]@.loop_mode == mode
            &&& final(reg)@[tenant]@.tracks == old(reg)@[tenant]@.tracks
            &&& final(reg)@ == old(reg)@.insert(tenant, final(reg)@[tenant])
        },
{
    if !reg.has_queue(tenant) {
        return Err(QueueError::NoQueueFound(tenant));
    }
    let queue = reg.get_or_create_queue(tenant);
    queue.set_loop_mode(mode);
    Ok(())
}

/// Parses a loop-mode name as the loop command takes it: `"none"`,
/// `"queue"` or `"track"`; anything else is rejected.
pub fn parse_loop_mode(mode: &str) -> (r: Option<LoopMode>)
    ensures
        r == Some(LoopMode::NoLoop) <==> mode@ == "none"@,
        r == Some(LoopMode::LoopQueue) <==> mode@ == "queue"@,
        r == Some(LoopMode::LoopTrack) <==> mode@ == "track"@,
        r is None <==> mode@ != "none"@ && mode@ != "queue"@ && mode@ != "track"@,
{
    proof {
        reveal_strlit("none");
        reveal_strlit("queue");
        reveal_strlit("track");
        assert("none"@ != "queue"@ && "none"@ != "track"@) by {
            assert("none"@.len() == 4 && "queue"@.len() == 5 && "track"@.len() == 5);
        }
        assert("queue"@ != "track"@) by {
            assert("queue"@[0] == 'q' && "track"@[0] == 't');
        }
    }
    let m = mode.to_owned();
    if m == "none".to_owned() {
        Some(LoopMode::NoLoop)
    } else if m == "queue".to_owned() {
        Some(LoopMode::LoopQueue)
    } else if m == "track".to_owned() {
        Some(LoopMode::LoopTrack)
    } else {
        None
    }
}

/// The closed set of user commands the queue surface answers to.
#[derive(Clone, Copy, Debug, PartialEq, Eq, Structural)]
pub enum CommandKind {
    Join,
    Leave,
    Play,
    Pause,
    Resume,
    Stop,
    Skip,
    Shuffle,
    ShowQueue,
    NowPlaying,
    SetLoopMode,
}

/// Which command a registered command name denotes, if any.
pub open spec fn spec_command_kind(name: Seq<char>) -> Option<CommandKind> {
    if name == "join"@ {
        Some(CommandKind::Join)
    } else if name == "leave"@ {
        Some(CommandKind::Leave)
    } else if name == "play"@ {
        Some(CommandKind::Play)
    } else if name == "pause"@ {
        Some(CommandKind::Pause)
    } else if name == "resume"@ {
        Some(CommandKind::Resume)
    } else if name == "stop"@ {
        Some(CommandKind::Stop)
    } else if name == "skip"@ {
        Some(CommandKind::Skip)
    } else if name == "shuffle"@ {
        Some(CommandKind::Shuffle)
    } else if name == "queue"@ {
        Some(CommandKind::ShowQueue)
    } else if name == "np"@ {
        Some(CommandKind::NowPlaying)
    } else if name == "loop"@ {
        Some(CommandKind::SetLoopMode)
    } else {
        None
    }
}

/// Resolves a command name to the command it denotes; an unknown name is
/// rejected.
pub fn parse_command_name(name: &str) -> (r: Option<CommandKind>)
    ensures
        r == spec_command_kind(name@),
{
    let n = name.to_owned();
    if n == "join".to_owned() {
        Some(CommandKind::Join)
    } else if n == "leave".to_owned() {
        Some(CommandKind::Leave)
    } else if n == "play".to_owned() {
        Some(CommandKind::Play)
    } else if n == "pause".to_owned() {
        Some(CommandKind::Pause)
    } else if n == "resume".to_owned() {
        Some(CommandKind::Resume)
    } else if n == "stop".to_owned() {
        Some(CommandKind::Stop)
    } else if n == "skip".to_owned() {
        Some(CommandKind::Skip)
    } else if n == "shuffle".to_owned() {
        Some(CommandKind::Shuffle)
    } else if n == "queue".to_owned() {
        Some(CommandKind::ShowQueue)
    } else if n == "np".to_owned() {
        Some(CommandKind::NowPlaying)
    } else if n == "loop".to_owned() {
        Some(CommandKind::SetLoopMode)
    } else {
        None
    }
}

/// Whether the first four characters of `q` read `http`: such a query is a
/// link to resolve, anything else a text search.
pub open spec fn spec_is_link(q: Seq<char>) -> bool {
    q.len() >= 4 && q.subrange(0, 4) == "http"@
}

/// Builds the identifier handed to the node's resolver: a link is used as
/// it is, anything else becomes a text search.
pub fn build_search_query(q: &str) -> (r: String)
    ensures
        spec_is_link(q@) ==> r@ == q@,
        !spec_is_link(q@) ==> r@ == "ytsearch:"@ + q@,
{
    let len = q.unicode_len();
    if len >= 4 {
        let prefix = q.substring_char(0, 4);
        if prefix.to_owned() == "http".to_owned() {
            return q.to_owned();
        }
    }
    let mut out = "ytsearch:".to_owned();
    out.append(q);
    out
}

/// A copy of the tenant's currently loaded track (index 0), as the
/// now-playing command reads it. `EmptyQueue` when the queue holds nothing,
/// `NoQueueFound` when the tenant has no queue.
pub fn peek_current(reg: &Registry, tenant: u64) -> (r: Result<Track, QueueError>)
    ensures
        !reg@.contains_key(tenant) ==> r == Err::<Track, QueueError>(
            QueueError::NoQueueFound(tenant),
        ),
        reg@.contains_key(tenant) && reg@[tenant]@.tracks.len() == 0 ==> r == Err::<
            Track,
            QueueError,
        >(QueueError::EmptyQueue),
        reg@.contains_key(tenant) && reg@[tenant]@.tracks.len() > 0 ==> (r matches Ok(t) && t@
            == reg@[tenant]@.tracks[0]),
{
    match reg.get_queue(tenant) {
        None => Err(QueueError::NoQueueFound(tenant)),
        Some(queue) => queue.peek(),
    }
}

/// A copy of the tenant's full queue contents at the instant of the call,
/// independent of later mutations. `NoQueueFound` when the tenant has no
/// queue.
pub fn queue_snapshot(reg: &Registry, tenant: u64) -> (r: Result<Vec<Track>, QueueError>)
    ensures
        !reg@.contains_key(tenant) ==> r == Err::<Vec<Track>, QueueError>(
            QueueError::NoQueueFound(tenant),
        ),
        reg@.contains_key(tenant) ==> (r matches Ok(v) && v.deep_view()
            == reg@[tenant]@.tracks),
{
    match reg.get_queue(tenant) {
        None => Err(QueueError::NoQueueFound(tenant)),
        Some(queue) => Ok(queue.current_queue()),
    }
}

/// How many pages the queue listing spans: the number of queued tracks
/// divided by the page size, rounded up.
pub open spec fn spec_num_pages(len: int) -> int {
    if len == 0 {
        0
    } else {
        (len - 1) / (TRACKS_PER_PAGE as int) + 1
    }
}

/// The number of queue-listing pages for `len` queued tracks.
pub fn num_pages(len: usize) -> (r: usize)
    ensures
        r == spec_num_pages(len as int),
{
    if len == 0 {
        0
    } else {
        (len - 1) / TRACKS_PER_PAGE + 1
    }
}

/// The half-open slice `[begin, end)` of the queue listing's page `page`
/// (pages count from 1), or `None` when the page is out of bounds — under
/// `page` 1 or over the page count, as for an empty queue.
pub fn page_bounds(len: usize, page: usize) -> (r: Option<(usize, usize)>)
    ensures
        r is Some <==> 1 <= page <= spec_num_pages(len as int),
        r matches Some(be) ==> {
            &&& be.0 == (page - 1) * (TRACKS_PER_PAGE as int)
            &&& be.1 == (if be.0 + (TRACKS_PER_PAGE as int) <= len as int {
                be.0 + (TRACKS_PER_PAGE as int)
            } else {
                len as int
            })
            &&& be.0 < len as int
            &&& be.0 < be.1 <= len as int
        },
{
    if page < 1 {
        return None;
    }
    let pages = num_pages(len);
    if page > pages {
        return None;
    }
    let begin = (page - 1) * TRACKS_PER_PAGE;
    proof {
        assert(begin < len) by (nonlinear_arith)
            requires
                begin == (page - 1) * TRACKS_PER_PAGE,
                1 <= page <= spec_num_pages(len as int),
                spec_num_pages(len as int) == (len - 1) / (TRACKS_PER_PAGE as int) + 1,
                len > 0,
                TRACKS_PER_PAGE == 10,
        ;
    }
    let end = if len - begin > TRACKS_PER_PAGE {
        begin + TRACKS_PER_PAGE
    } else {
        len
    };
    Some((begin, end))
}

/// Milliseconds of the current track still to play, given the node's
/// reported playback position: the track length minus the position, floored
/// at zero.
pub fn remaining_ms(length_ms: u64, position_ms: u64) -> (r: u64)
    ensures
        position_ms <= length_ms ==> r == length_ms - position_ms,
        position_ms > length_ms ==> r == 0,
{
    length_ms.saturating_sub(position_ms)
}

} // verus!
