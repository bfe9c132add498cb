//! What holds of the worker's state machine: the queue stays within its
//! capacity and its target, a seek leaves nothing stale behind, the current
//! time follows the packets, and a closed source lets its worker go.

use crate::audio::buffer::after_push_run;
use crate::audio::sample::AudioSample;
use crate::audio::source::worker::after_events;
use crate::audio::source::worker::event_in_order;
use crate::audio::source::worker::horizon_after;
use crate::audio::source::worker::may_write;
use crate::audio::source::worker::plays_in_order;
use crate::audio::source::worker::stage_follows;
use crate::audio::source::worker::worker_transition;
use crate::audio::source::worker::write_out;
use crate::audio::source::worker::write_reach;
use crate::audio::source::worker::PipelineState;
use crate::audio::source::worker::SourceState;
use crate::audio::source::worker::WorkerAction;
use crate::audio::source::worker::WorkerEvent;
use crate::audio::source::cover_of;
use crate::audio::source::MediaProbe;
use crate::info::media::MediaInfoView;
use vstd::prelude::*;

verus! {

/// The bounded wait-then-write never takes the queue over its capacity.
pub proof fn lemma_write_out_within_capacity(
    s: SourceState,
    queue: Seq<AudioSample>,
    capacity: nat,
)
    requires
        queue.len() <= capacity,
    ensures
        write_out(s, queue, capacity).1.len() <= capacity,
    decreases s.pending.len() - s.written,
{
    if s.written < s.pending.len() && may_write(queue.len(), s.chunk_len(), s.target)
        && s.status.playing && !s.status.dropping_frames {
        lemma_write_out_within_capacity(
            SourceState { written: s.written + s.chunk_len(), ..s },
            after_push_run(queue, capacity, s.chunk()),
            capacity,
        );
    }
}

/// With a target no larger than the capacity, the bounded wait-then-write
/// never takes the occupancy above the target: the free space stays at or
/// above `capacity - target`, unless it was below that to begin with, and
/// then nothing is written.
pub proof fn lemma_write_out_within_target(s: SourceState, queue: Seq<AudioSample>, capacity: nat)
    requires
        s.target <= capacity,
    ensures
        queue.len() <= s.target ==> write_out(s, queue, capacity).1.len() <= s.target,
        queue.len() > s.target ==> write_out(s, queue, capacity).1 == queue,
    decreases s.pending.len() - s.written,
{
    if s.written < s.pending.len() && may_write(queue.len(), s.chunk_len(), s.target)
        && s.status.playing && !s.status.dropping_frames {
        let chunk = s.chunk();
        assert(chunk.take(chunk.len() as int) =~= chunk);
        lemma_write_out_within_target(
            SourceState { written: s.written + s.chunk_len(), ..s },
            after_push_run(queue, capacity, chunk),
            capacity,
        );
    }
}

/// With a target no larger than the capacity, what the bounded
/// wait-then-write adds to the queue is a run of the pending frames, whole
/// and in order, starting at the first frame not yet dealt with: no frame
/// is skipped, cut or written twice.
pub proof fn lemma_write_out_appends_in_order(
    s: SourceState,
    queue: Seq<AudioSample>,
    capacity: nat,
)
    requires
        s.target <= capacity,
        s.written <= s.pending.len(),
    ensures
        s.written <= write_reach(s, queue, capacity) <= s.pending.len(),
        write_out(s, queue, capacity).1 == queue + s.pending.subrange(
            s.written as int,
            write_reach(s, queue, capacity) as int,
        ),
    decreases s.pending.len() - s.written,
{
    if s.written < s.pending.len() && may_write(queue.len(), s.chunk_len(), s.target)
        && s.status.playing && !s.status.dropping_frames {
        let chunk = s.chunk();
        let next = SourceState { written: s.written + s.chunk_len(), ..s };
        let grown = after_push_run(queue, capacity, chunk);
        assert(chunk.take(chunk.len() as int) =~= chunk);
        lemma_write_out_appends_in_order(next, grown, capacity);
        let reach = write_reach(next, grown, capacity);
        assert(queue + s.pending.subrange(s.written as int, reach as int) =~= grown
            + s.pending.subrange(next.written as int, reach as int));
    } else {
        assert(queue + s.pending.subrange(s.written as int, s.written as int) =~= queue);
    }
}

/// A chunk is never longer than the chunk size, taken as one where it is
/// zero, and never empty while frames are left: the writer asks for no more
/// room at a time than one chunk size, however long the decoded unit is.
pub proof fn lemma_chunk_is_bounded(s: SourceState)
    requires
        s.written < s.pending.len(),
    ensures
        0 < s.chunk_len(),
        s.chunk_len() <= s.pending.len() - s.written,
        s.chunk_size > 0 ==> s.chunk_len() <= s.chunk_size,
        s.chunk_size == 0 ==> s.chunk_len() == 1,
        s.chunk().len() == s.chunk_len(),
{
}

/// The writer makes progress whenever it may: with playback on, nothing
/// being dropped and room for the next chunk under the target, a poll
/// writes at least that chunk.
pub proof fn lemma_write_makes_progress(s: SourceState, queue: Seq<AudioSample>, capacity: nat)
    requires
        s.written < s.pending.len(),
        s.status.playing,
        !s.status.dropping_frames,
        may_write(queue.len(), s.chunk_len(), s.target),
    ensures
        write_reach(s, queue, capacity) >= s.written + s.chunk_len(),
        write_reach(s, queue, capacity) > s.written,
{
    let next = SourceState { written: s.written + s.chunk_len(), ..s };
    lemma_write_reach_goes_forward(next, after_push_run(queue, capacity, s.chunk()), capacity);
}

/// A poll of the writer never goes back in the pending frames.
pub proof fn lemma_write_reach_goes_forward(s: SourceState, queue: Seq<AudioSample>, capacity: nat)
    ensures
        write_reach(s, queue, capacity) >= s.written,
    decreases s.pending.len() - s.written,
{
    if s.written < s.pending.len() && may_write(queue.len(), s.chunk_len(), s.target)
        && s.status.playing && !s.status.dropping_frames {
        lemma_write_reach_goes_forward(
            SourceState { written: s.written + s.chunk_len(), ..s },
            after_push_run(queue, capacity, s.chunk()),
            capacity,
        );
    }
}

/// While frames are being dropped, the bounded wait-then-write queues
/// nothing and throws away all that is pending.
pub proof fn lemma_dropping_writes_nothing(s: SourceState, queue: Seq<AudioSample>, capacity: nat)
    requires
        s.status.dropping_frames,
    ensures
        write_out(s, queue, capacity).1 == queue,
        write_out(s, queue, capacity).0.pending == Seq::<AudioSample>::empty(),
        !(write_out(s, queue, capacity).2 is Sleep),
{
}

/// While playback is paused, the bounded wait-then-write queues nothing.
pub proof fn lemma_paused_writes_nothing(s: SourceState, queue: Seq<AudioSample>, capacity: nat)
    requires
        !s.status.playing,
    ensures
        write_out(s, queue, capacity).1 == queue,
{
}

/// No step of the worker takes the queue over its capacity.
pub proof fn lemma_step_within_capacity(
    s: SourceState,
    queue: Seq<AudioSample>,
    capacity: nat,
    event: WorkerEvent,
)
    requires
        queue.len() <= capacity,
    ensures
        worker_transition(s, queue, capacity, event).1.len() <= capacity,
{
    match event {
        WorkerEvent::Resampled { frames, delay } => {
            lemma_write_out_within_capacity(
                SourceState { pending: frames@, written: 0, more: delay, ..s },
                queue,
                capacity,
            );
        },
        _ => {
            lemma_write_out_within_capacity(s, queue, capacity);
        },
    }
}

/// With a target no larger than the capacity, no step of the worker takes
/// the occupancy above the target, unless it was above it before, and then
/// the step adds nothing.
pub proof fn lemma_step_within_target(
    s: SourceState,
    queue: Seq<AudioSample>,
    capacity: nat,
    event: WorkerEvent,
)
    requires
        s.target <= capacity,
    ensures
        queue.len() <= s.target ==> worker_transition(s, queue, capacity, event).1.len()
            <= s.target,
        worker_transition(s, queue, capacity, event).1.len() <= queue.len()
            || worker_transition(s, queue, capacity, event).1.len() <= s.target,
{
    match event {
        WorkerEvent::Resampled { frames, delay } => {
            lemma_write_out_within_target(
                SourceState { pending: frames@, written: 0, more: delay, ..s },
                queue,
                capacity,
            );
        },
        _ => {
            lemma_write_out_within_target(s, queue, capacity);
        },
    }
}

/// While playback is paused, an available source's worker does no
/// decoding: holding a packet, waiting for room or waiting at the end of
/// the stream, it is told to sleep, and neither the source nor the queue
/// changes.
pub proof fn lemma_paused_worker_waits(
    s: SourceState,
    queue: Seq<AudioSample>,
    capacity: nat,
    event: WorkerEvent,
)
    requires
        s.status.avaliable,
        !s.status.playing,
        s.phase is Paused || s.phase is EndOfStream || (s.phase is Writing
            && !s.status.dropping_frames && s.written < s.pending.len()),
    ensures
        worker_transition(s, queue, capacity, event) == (s, queue, WorkerAction::Sleep),
{
}

/// When playback resumes at the end of the stream, the worker is told to
/// rewind, and the source is no longer at its end.
pub proof fn lemma_resume_rewinds(s: SourceState, queue: Seq<AudioSample>, capacity: nat)
    requires
        s.status.avaliable,
        s.status.playing,
        s.phase is EndOfStream,
    ensures
        worker_transition(s, queue, capacity, WorkerEvent::Tick).2 is Rewind,
        !worker_transition(s, queue, capacity, WorkerEvent::Tick).0.status.is_end,
        worker_transition(s, queue, capacity, WorkerEvent::Tick).1 == queue,
{
}

/// A source that is no longer available tells whoever reports to exit, and
/// queues nothing: a closed source's worker ends at its next poll.
pub proof fn lemma_unavailable_source_exits(
    s: SourceState,
    queue: Seq<AudioSample>,
    capacity: nat,
    event: WorkerEvent,
)
    requires
        !s.status.avaliable,
    ensures
        worker_transition(s, queue, capacity, event).2 is Exit,
        worker_transition(s, queue, capacity, event).1 == queue,
        !worker_transition(s, queue, capacity, event).0.status.avaliable,
{
}

/// Every step of the worker takes the pipeline along its life: it stays in
/// its stage or moves on as `stage_follows` allows. Opening a file takes
/// it to opening, and closing it to closed.
pub proof fn lemma_stages_follow(
    s: SourceState,
    queue: Seq<AudioSample>,
    capacity: nat,
    event: WorkerEvent,
    probe: MediaProbe,
)
    ensures
        stage_follows(s.phase.stage(), worker_transition(s, queue, capacity, event).0.phase.stage()),
        probe is Opened ==> s.probed(probe).phase.stage() == PipelineState::Opening,
        !(probe is Opened) ==> s.probed(probe).phase == s.phase,
        s.closed().phase.stage() == PipelineState::Closed,
{
    match event {
        WorkerEvent::Resampled { frames, delay } => {
            lemma_write_out_stays_decoding(
                SourceState { pending: frames@, written: 0, more: delay, ..s },
                queue,
                capacity,
            );
        },
        _ => {
            lemma_write_out_stays_decoding(s, queue, capacity);
        },
    }
}

/// The bounded wait-then-write leaves the worker in one of the phases of
/// decoding.
pub proof fn lemma_write_out_stays_decoding(s: SourceState, queue: Seq<AudioSample>, capacity: nat)
    ensures
        write_out(s, queue, capacity).0.phase.stage() == PipelineState::Decoding,
    decreases s.pending.len() - s.written,
{
    if s.written < s.pending.len() && may_write(queue.len(), s.chunk_len(), s.target)
        && s.status.playing && !s.status.dropping_frames {
        lemma_write_out_stays_decoding(
            SourceState { written: s.written + s.chunk_len(), ..s },
            after_push_run(queue, capacity, s.chunk()),
            capacity,
        );
    }
}

/// What is known of the media is set when the file is opened and by
/// nothing else: a file that stands open leaves the source with exactly the
/// cover, the duration and the bit rate that came with it, and no step of
/// the worker and no other operation on the source changes any of them.
pub proof fn lemma_media_info_is_set_at_open(
    s: SourceState,
    queue: Seq<AudioSample>,
    capacity: nat,
    event: WorkerEvent,
    probe: MediaProbe,
    time: i64,
    playing: bool,
    size: nat,
)
    ensures
        probe matches MediaProbe::Opened { streams, duration, bitrate } ==> s.probed(
            probe,
        ).media_info == (MediaInfoView { duration, bitrate, cover: cover_of(streams@) }),
        worker_transition(s, queue, capacity, event).0.media_info == s.media_info,
        s.closed().media_info == s.media_info,
        s.unavailable().media_info == s.media_info,
        s.with_playing(playing).media_info == s.media_info,
        s.dropping().media_info == s.media_info,
        s.seek_requested(time).media_info == s.media_info,
        s.resized(size).media_info == s.media_info,
{
    lemma_step_keeps_settings(s, queue, capacity, event);
}

/// A new source is coherent, and every operation on a source and every
/// step of its worker keeps it so: a worker at work always has an open,
/// available source.
pub proof fn lemma_operations_keep_coherence(
    s: SourceState,
    queue: Seq<AudioSample>,
    capacity: nat,
    event: WorkerEvent,
    probe: MediaProbe,
    time: i64,
    playing: bool,
    size: nat,
)
    requires
        s.coherent(),
    ensures
        SourceState::fresh(size).coherent(),
        worker_transition(s, queue, capacity, event).0.coherent(),
        s.probed(probe).coherent(),
        s.closed().coherent(),
        !s.opened ==> s.unavailable().coherent(),
        s.with_playing(playing).coherent(),
        s.dropping().coherent(),
        s.seek_requested(time).coherent(),
        s.resized(size).coherent(),
{
    lemma_stages_follow(s, queue, capacity, event, probe);
    lemma_step_keeps_settings(s, queue, capacity, event);
}

/// Once a source is closed, whoever still reports for its worker is told
/// to exit, and neither the source nor the queue changes any more.
pub proof fn lemma_closed_source_exits(
    s: SourceState,
    queue: Seq<AudioSample>,
    capacity: nat,
    event: WorkerEvent,
)
    ensures
        worker_transition(s.closed(), queue, capacity, event) == (
            s.closed(),
            queue,
            WorkerAction::Exit,
        ),
        !s.closed().status.avaliable,
        !s.closed().takes_seeks(),
        s.worker_live() ==> !s.closed().status.playing && s.closed().status.current_time == 0,
{
}

/// No step of the worker changes whether the source is available or open,
/// its sizing or what is known of the media.
pub proof fn lemma_step_keeps_settings(
    s: SourceState,
    queue: Seq<AudioSample>,
    capacity: nat,
    event: WorkerEvent,
)
    ensures
        worker_transition(s, queue, capacity, event).0.status.avaliable == s.status.avaliable,
        worker_transition(s, queue, capacity, event).0.opened == s.opened,
        worker_transition(s, queue, capacity, event).0.target == s.target,
        worker_transition(s, queue, capacity, event).0.chunk_size == s.chunk_size,
        worker_transition(s, queue, capacity, event).0.media_info == s.media_info,
    decreases 0nat,
{
    match event {
        WorkerEvent::Resampled { frames, delay } => {
            lemma_write_out_keeps_settings(
                SourceState { pending: frames@, written: 0, more: delay, ..s },
                queue,
                capacity,
            );
        },
        _ => {
            lemma_write_out_keeps_settings(s, queue, capacity);
        },
    }
}

/// The bounded wait-then-write changes nothing of the source but the
/// pending frames and the worker's phase.
pub proof fn lemma_write_out_keeps_settings(s: SourceState, queue: Seq<AudioSample>, capacity: nat)
    ensures
        write_out(s, queue, capacity).0.status == s.status,
        write_out(s, queue, capacity).0.opened == s.opened,
        write_out(s, queue, capacity).0.seek_request == s.seek_request,
        write_out(s, queue, capacity).0.target == s.target,
        write_out(s, queue, capacity).0.chunk_size == s.chunk_size,
        write_out(s, queue, capacity).0.media_info == s.media_info,
        !(write_out(s, queue, capacity).0.phase is Seeking),
        !(write_out(s, queue, capacity).0.phase is Paused),
    decreases s.pending.len() - s.written,
{
    if s.written < s.pending.len() && may_write(queue.len(), s.chunk_len(), s.target)
        && s.status.playing && !s.status.dropping_frames {
        lemma_write_out_keeps_settings(
            SourceState { written: s.written + s.chunk_len(), ..s },
            after_push_run(queue, capacity, s.chunk()),
            capacity,
        );
    }
}

/// A seek request puts the source into dropping mode, and the worker keeps
/// it there until the seek is through: whatever the worker does meanwhile,
/// decoded audio is dropped as long as a seek is in progress.
pub proof fn lemma_seek_keeps_dropping(
    s: SourceState,
    queue: Seq<AudioSample>,
    capacity: nat,
    event: WorkerEvent,
    time: i64,
)
    requires
        s.drops_while_seeking(),
    ensures
        worker_transition(s, queue, capacity, event).0.drops_while_seeking(),
        s.seek_requested(time).drops_while_seeking(),
        s.seek_requested(time).seeking(),
{
    match event {
        WorkerEvent::Resampled { frames, delay } => {
            lemma_write_out_keeps_settings(
                SourceState { pending: frames@, written: 0, more: delay, ..s },
                queue,
                capacity,
            );
        },
        _ => {
            lemma_write_out_keeps_settings(s, queue, capacity);
        },
    }
}

/// While decoded audio is being dropped, no step of the worker adds a
/// frame to the queue: the queue stays as it is, or is emptied by a seek
/// that came through.
pub proof fn lemma_dropping_queues_nothing(
    s: SourceState,
    queue: Seq<AudioSample>,
    capacity: nat,
    event: WorkerEvent,
)
    requires
        s.status.dropping_frames,
    ensures
        worker_transition(s, queue, capacity, event).1 == queue || worker_transition(
            s,
            queue,
            capacity,
            event,
        ).1 == Seq::<AudioSample>::empty(),
{
}

/// When a seek comes through, the queue is empty and nothing is pending:
/// no frame from before the seek is left to reach the output. Dropping
/// ends with it, unless a newer request already waits.
pub proof fn lemma_seek_completion_empties_queue(
    s: SourceState,
    queue: Seq<AudioSample>,
    capacity: nat,
)
    requires
        s.status.avaliable,
        s.phase is Seeking,
    ensures
        worker_transition(s, queue, capacity, WorkerEvent::SeekDone(true)).1 == Seq::<
            AudioSample,
        >::empty(),
        worker_transition(s, queue, capacity, WorkerEvent::SeekDone(true)).0.pending == Seq::<
            AudioSample,
        >::empty(),
        worker_transition(s, queue, capacity, WorkerEvent::SeekDone(true)).0.status.dropping_frames
            == (s.seek_request is Some),
        worker_transition(s, queue, capacity, WorkerEvent::SeekDone(true)).0.phase is Reading,
        worker_transition(s, queue, capacity, WorkerEvent::SeekDone(true)).2 is ReadPacket,
{
}

/// When the stream runs out with no seek waiting, the source is at its
/// end, at time zero and no longer playing, and the worker sleeps.
pub proof fn lemma_exhaustion_ends_stream(s: SourceState, queue: Seq<AudioSample>, capacity: nat)
    requires
        s.status.avaliable,
        s.phase is Reading,
        s.seek_request is None,
    ensures
        worker_transition(s, queue, capacity, WorkerEvent::Exhausted).0.status.is_end,
        worker_transition(s, queue, capacity, WorkerEvent::Exhausted).0.status.current_time == 0,
        !worker_transition(s, queue, capacity, WorkerEvent::Exhausted).0.status.playing,
        worker_transition(s, queue, capacity, WorkerEvent::Exhausted).0.phase is EndOfStream,
        worker_transition(s, queue, capacity, WorkerEvent::Exhausted).1 == queue,
        worker_transition(s, queue, capacity, WorkerEvent::Exhausted).2 is Sleep,
{
}

/// One step of an available source, on an event that keeps times in order
/// and is not the end of the stream, never takes the current time back.
pub proof fn lemma_step_keeps_time(
    s: SourceState,
    queue: Seq<AudioSample>,
    capacity: nat,
    event: WorkerEvent,
)
    requires
        s.status.avaliable,
        s.in_time(),
        event_in_order(s.horizon(), event),
        !(event is Exhausted),
    ensures
        s.status.current_time <= worker_transition(s, queue, capacity, event).0.status.current_time,
        worker_transition(s, queue, capacity, event).0.in_time(),
        worker_transition(s, queue, capacity, event).0.horizon() <= horizon_after(
            s.horizon(),
            event,
        ),
        worker_transition(s, queue, capacity, event).0.status.avaliable,
{
    match event {
        WorkerEvent::Resampled { frames, delay } => {
            lemma_write_out_keeps_settings(
                SourceState { pending: frames@, written: 0, more: delay, ..s },
                queue,
                capacity,
            );
        },
        _ => {
            lemma_write_out_keeps_settings(s, queue, capacity);
        },
    }
}

/// A run that plays in order from a horizon also plays in order from any
/// earlier one.
pub proof fn lemma_plays_in_order_from_earlier(earlier: i64, horizon: i64, events: Seq<WorkerEvent>)
    requires
        earlier <= horizon,
        plays_in_order(horizon, events),
    ensures
        plays_in_order(earlier, events),
    decreases events.len(),
{
    if events.len() > 0 {
        lemma_plays_in_order_from_earlier(
            horizon_after(earlier, events[0]),
            horizon_after(horizon, events[0]),
            events.drop_first(),
        );
    }
}

/// While a stream plays through undisturbed, with packets whose times
/// never go back, the current time never goes back either: after any run
/// of such events it is at least what it was.
pub proof fn lemma_time_never_goes_back(
    s: SourceState,
    queue: Seq<AudioSample>,
    capacity: nat,
    events: Seq<WorkerEvent>,
)
    requires
        s.status.avaliable,
        s.in_time(),
        plays_in_order(s.horizon(), events),
    ensures
        s.status.current_time <= after_events(s, queue, capacity, events).0.status.current_time,
        after_events(s, queue, capacity, events).0.in_time(),
        after_events(s, queue, capacity, events).0.status.avaliable,
    decreases events.len(),
{
    if events.len() > 0 {
        let next = worker_transition(s, queue, capacity, events[0]);
        lemma_step_keeps_time(s, queue, capacity, events[0]);
        lemma_plays_in_order_from_earlier(
            next.0.horizon(),
            horizon_after(s.horizon(), events[0]),
            events.drop_first(),
        );
        lemma_time_never_goes_back(next.0, next.1, capacity, events.drop_first());
    }
}

/// The current time is non-decreasing all along such a run: of any two
/// points of it, the later has the later or the same time.
pub proof fn lemma_time_is_monotonic(
    s: SourceState,
    queue: Seq<AudioSample>,
    capacity: nat,
    events: Seq<WorkerEvent>,
    i: int,
    j: int,
)
    requires
        s.status.avaliable,
        s.in_time(),
        plays_in_order(s.horizon(), events),
        0 <= i <= j <= events.len(),
    ensures
        after_events(s, queue, capacity, events.take(i)).0.status.current_time <= after_events(
            s,
            queue,
            capacity,
            events.take(j),
        ).0.status.current_time,
    decreases events.len(),
{
    if i == 0 {
        assert(events.take(0) =~= Seq::<WorkerEvent>::empty());
        lemma_take_plays_in_order(s.horizon(), events, j);
        lemma_time_never_goes_back(s, queue, capacity, events.take(j));
    } else {
        let next = worker_transition(s, queue, capacity, events[0]);
        let rest = events.drop_first();
        lemma_step_keeps_time(s, queue, capacity, events[0]);
        lemma_plays_in_order_from_earlier(
            next.0.horizon(),
            horizon_after(s.horizon(), events[0]),
            rest,
        );
        assert(events.take(i).drop_first() =~= rest.take(i - 1));
        assert(events.take(j).drop_first() =~= rest.take(j - 1));
        assert(events.take(i)[0] == events[0]);
        assert(events.take(j)[0] == events[0]);
        lemma_time_is_monotonic(next.0, next.1, capacity, rest, i - 1, j - 1);
    }
}

/// A beginning of a run that plays in order plays in order.
pub proof fn lemma_take_plays_in_order(horizon: i64, events: Seq<WorkerEvent>, n: int)
    requires
        plays_in_order(horizon, events),
        0 <= n <= events.len(),
    ensures
        plays_in_order(horizon, events.take(n)),
    decreases events.len(),
{
    if n > 0 {
        let rest = events.drop_first();
        lemma_take_plays_in_order(horizon_after(horizon, events[0]), rest, n - 1);
        assert(events.take(n).drop_first() =~= rest.take(n - 1));
        assert(events.take(n)[0] == events[0]);
    }
}

} // verus!
