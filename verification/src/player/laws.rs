//! What holds of a player as a whole: however the worker and the output
//! callback interleave, the queue stays within its capacity and its target,
//! and `stop` leaves nothing to play.

use crate::audio::device::DeviceProbe;
use crate::audio::sample::AudioSample;
use crate::audio::source::laws::lemma_step_keeps_settings;
use crate::audio::source::laws::lemma_step_within_capacity;
use crate::audio::source::laws::lemma_step_within_target;
use crate::audio::source::worker::WorkerEvent;
use crate::audio::source::MediaProbe;
use crate::player::state::after_engine_steps;
use crate::player::state::EngineStep;
use crate::player::state::PlayerState;
use vstd::prelude::*;

verus! {

/// `stop` leaves the queue empty and the source paused and dropping; it
/// does not touch the current time. Where the source takes seeks, a seek
/// to time zero waits for the worker.
pub proof fn lemma_stop_halts(p: PlayerState)
    requires
        p.wf(),
        p.source is Some,
    ensures
        p.stopped().device->0.frames == Seq::<AudioSample>::empty(),
        !p.stopped().source->0.status.playing,
        p.stopped().source->0.status.dropping_frames,
        p.stopped().source->0.status.current_time == p.source->0.status.current_time,
        p.source->0.takes_seeks() ==> p.stopped().source->0.seek_request == Some(0i64),
        p.stopped().wf(),
{
}

/// After the stream has run out by itself, `stop` leaves the queue empty,
/// the current time at zero and playback off.
pub proof fn lemma_stop_after_end_of_stream(p: PlayerState)
    requires
        p.wf(),
        p.source matches Some(source) && source.status.avaliable && source.phase is Reading
            && source.seek_request is None,
    ensures
        p.worker_stepped(WorkerEvent::Exhausted).0.source->0.status.is_end,
        p.worker_stepped(WorkerEvent::Exhausted).0.stopped().device->0.frames == Seq::<AudioSample>::empty(),
        p.worker_stepped(WorkerEvent::Exhausted).0.stopped().source->0.status.current_time == 0,
        !p.worker_stepped(WorkerEvent::Exhausted).0.stopped().source->0.status.playing,
{
}

/// Media opened on an available device is the player's source from then
/// on, with exactly the duration and the bit rate that came with the file,
/// and the player reports them.
pub proof fn lemma_open_reports_media(p: PlayerState, probe: MediaProbe)
    requires
        !p.needs_device(),
    ensures
        probe matches MediaProbe::Opened { streams, duration, bitrate } ==> {
            &&& p.media_opened(probe).source matches Some(source)
            &&& source.opened
            &&& source.media_info.duration == duration
            &&& source.media_info.bitrate == bitrate
        },
{
}

/// Every transport operation and every step of the worker keeps a source
/// beside a device.
pub proof fn lemma_operations_keep_wf(
    p: PlayerState,
    device_probe: DeviceProbe,
    media_probe: MediaProbe,
    event: WorkerEvent,
    time: i64,
    level: u32,
    amplitude: u32,
    mute: bool,
)
    requires
        p.wf(),
    ensures
        p.device_probed(device_probe, amplitude).wf(),
        p.media_opened(media_probe).wf(),
        p.closed().wf(),
        p.played().wf(),
        p.paused().wf(),
        p.stopped().wf(),
        p.sought(time).wf(),
        p.with_volume(level, amplitude).wf(),
        p.with_mute(mute).wf(),
        p.worker_stepped(event).0.wf(),
{
}

/// However the worker's bounded wait-then-writes and the callback's pops
/// interleave, the queue never holds more than its capacity.
pub proof fn lemma_engine_within_capacity(p: PlayerState, steps: Seq<EngineStep>)
    requires
        p.device matches Some(device) && device.frames.len() <= device.capacity,
    ensures
        after_engine_steps(p, steps).device matches Some(device) && device.frames.len()
            <= device.capacity,
        after_engine_steps(p, steps).device->0.capacity == p.device->0.capacity,
    decreases steps.len(),
{
    if steps.len() > 0 {
        let next = match steps[0] {
            EngineStep::Worker(event) => p.worker_stepped(event).0,
            EngineStep::Callback(slots) => p.filled(slots),
        };
        match steps[0] {
            EngineStep::Worker(event) => {
                if p.source is Some {
                    lemma_step_within_capacity(
                        p.source->0,
                        p.device->0.frames,
                        p.device->0.capacity,
                        event,
                    );
                }
            },
            EngineStep::Callback(slots) => {},
        }
        lemma_engine_within_capacity(next, steps.drop_first());
    }
}

/// With a target occupancy no larger than the capacity, however the
/// worker's bounded wait-then-writes and the callback's pops interleave,
/// the occupancy never rises above the target: the free space never falls
/// below the capacity less the target, and never exceeds the capacity.
pub proof fn lemma_engine_within_target(p: PlayerState, steps: Seq<EngineStep>)
    requires
        p.device is Some,
        p.source is Some,
        p.source->0.target <= p.device->0.capacity,
        p.occupancy() <= p.source->0.target,
    ensures
        after_engine_steps(p, steps).occupancy() <= p.source->0.target,
        p.device->0.capacity - after_engine_steps(p, steps).occupancy() >= p.device->0.capacity
            - p.source->0.target,
        p.device->0.capacity - after_engine_steps(p, steps).occupancy() <= p.device->0.capacity,
    decreases steps.len(),
{
    if steps.len() > 0 {
        let next = match steps[0] {
            EngineStep::Worker(event) => p.worker_stepped(event).0,
            EngineStep::Callback(slots) => p.filled(slots),
        };
        match steps[0] {
            EngineStep::Worker(event) => {
                lemma_step_within_target(
                    p.source->0,
                    p.device->0.frames,
                    p.device->0.capacity,
                    event,
                );
                lemma_step_keeps_settings(
                    p.source->0,
                    p.device->0.frames,
                    p.device->0.capacity,
                    event,
                );
            },
            EngineStep::Callback(slots) => {},
        }
        lemma_engine_within_target(next, steps.drop_first());
    }
}

/// While the device is not playing, no run of output callbacks changes the
/// queue, however many there are.
pub proof fn lemma_paused_engine_keeps_queue(p: PlayerState, slots: Seq<nat>)
    requires
        p.device matches Some(device) && !device.context.playing,
    ensures
        after_engine_steps(p, slots.map(|i: int, n: nat| EngineStep::Callback(n))) == p,
    decreases slots.len(),
{
    let steps = slots.map(|i: int, n: nat| EngineStep::Callback(n));
    if slots.len() > 0 {
        assert(p.device->0.frames.skip(0) =~= p.device->0.frames);
        assert(p.filled(slots[0]) == p);
        assert(steps.drop_first() =~= slots.drop_first().map(
            |i: int, n: nat| EngineStep::Callback(n),
        ));
        lemma_paused_engine_keeps_queue(p, slots.drop_first());
    }
}

} // verus!
