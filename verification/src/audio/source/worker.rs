//! The worker's state machine: what the worker can observe, what it can be
//! told to do, and the step from one state of the source to the next.

use crate::audio::buffer::after_push_run;
use crate::audio::sample::AudioSample;
use crate::audio::source::cover_of;
use crate::audio::source::FFmpegSourceStatus;
use crate::audio::source::MediaProbe;
use crate::info::media::MediaInfoView;
use vstd::prelude::*;

verus! {

/// The stage of a pipeline's life. A pipeline goes from idle through
/// opening to decoding, from there to the end of the stream and back, and
/// from any stage to closed.
#[derive(Debug, Clone, Copy, PartialEq, Eq, Structural)]
pub enum PipelineState {
    /// Nothing is open.
    Idle,
    /// A file is open and its worker is about to start.
    Opening,
    /// The worker demuxes, decodes and queues audio, seeks included.
    Decoding,
    /// The stream ran out; the worker waits for playback to resume.
    EndOfStream,
    /// The worker has ended.
    Closed,
}

/// Where the worker stands.
#[derive(Debug, Clone, Copy)]
pub enum WorkerPhase {
    /// The source has not been opened.
    Idle,
    /// The source is open; its worker has not reported yet.
    Starting,
    /// The worker was told to seek the container to this time.
    Seeking(i64),
    /// The worker was told to read the next packet.
    Reading,
    /// The worker holds a packet and sleeps until playback resumes.
    Paused { audio: bool, pts: Option<i64> },
    /// The worker was told to hand over the next decoded, resampled frame.
    Receiving,
    /// The worker was told to hand over what the resampler still holds.
    Flushing,
    /// The worker sleeps until the queue has room for the next chunk of the
    /// pending frames.
    Writing,
    /// The stream ran out; the worker sleeps until playback resumes.
    EndOfStream,
    /// The worker was told to rewind the container to the start.
    Rewinding,
    /// The worker has ended, or was told to.
    Exited,
}

impl WorkerPhase {
    /// The stage of the pipeline's life that the phase belongs to.
    pub open spec fn stage(&self) -> PipelineState {
        match *self {
            WorkerPhase::Idle => PipelineState::Idle,
            WorkerPhase::Starting => PipelineState::Opening,
            WorkerPhase::EndOfStream => PipelineState::EndOfStream,
            WorkerPhase::Exited => PipelineState::Closed,
            _ => PipelineState::Decoding,
        }
    }
}

/// Whether a pipeline may go from one stage to another in one step of its
/// worker: it may stay, end, start decoding once opened, reach the end of
/// the stream while decoding, and return from there to decoding.
pub open spec fn stage_follows(from: PipelineState, to: PipelineState) -> bool {
    ||| from == to
    ||| to == PipelineState::Closed && from != PipelineState::Idle
    ||| from == PipelineState::Opening && to == PipelineState::Decoding
    ||| from == PipelineState::Decoding && to == PipelineState::EndOfStream
    ||| from == PipelineState::EndOfStream && to == PipelineState::Decoding
}

/// What the worker observed since its last action.
#[derive(Debug)]
pub enum WorkerEvent {
    /// The worker has just been started.
    Start,
    /// A container seek ended; the flag says whether it succeeded. After a
    /// successful `SeekContainer` the worker has also flushed the decoder
    /// and reset the resampler.
    SeekDone(bool),
    /// A packet was read. `audio` says whether it belongs to the selected
    /// audio stream, `pts` is its presentation time if it has one.
    Packet { audio: bool, pts: Option<i64> },
    /// The container has no more packets.
    Exhausted,
    /// The resampler produced these frames. `delay` says whether it holds
    /// more output for the same input.
    Resampled { frames: Vec<AudioSample>, delay: bool },
    /// The decoder has no further frame for the packet it was given.
    NoFrame,
    /// Decoding or resampling failed.
    Failed,
    /// One polling interval has passed.
    Tick,
}

/// What the worker has to do next.
#[derive(Debug, Clone, Copy)]
pub enum WorkerAction {
    /// Seek the container to this time; on success flush the decoder and
    /// reset the resampler; report `SeekDone`.
    SeekContainer(i64),
    /// Read the next packet; report `Packet` or `Exhausted`.
    ReadPacket,
    /// Send the packet just reported to the decoder, then do as for
    /// `ReceiveFrame`.
    Decode,
    /// Receive the next frame from the decoder and resample it; report
    /// `Resampled`, `NoFrame` or `Failed`.
    ReceiveFrame,
    /// Take what the resampler still holds; report `Resampled` or `Failed`.
    FlushResampler,
    /// Sleep for one polling interval; report `Tick`.
    Sleep,
    /// Seek the container to its start; report `SeekDone`.
    Rewind,
    /// Signal completion and end.
    Exit,
}

/// A source as contracts see it.
pub struct SourceState {
    /// What is known about the media.
    pub media_info: MediaInfoView,
    /// The shared playback status.
    pub status: FFmpegSourceStatus,
    /// Whether a file is open: seek requests can be taken.
    pub opened: bool,
    /// Where the worker stands.
    pub phase: WorkerPhase,
    /// The seek request that the worker has not yet picked up.
    pub seek_request: Option<i64>,
    /// The resampled frames being written to the queue.
    pub pending: Seq<AudioSample>,
    /// How many of the pending frames have been dealt with.
    pub written: nat,
    /// Whether the resampler holds more output behind the pending frames.
    pub more: bool,
    /// Largest number of frames written to the queue in one piece.
    pub chunk_size: nat,
    /// Target occupancy of the queue.
    pub target: nat,
}

/// The queue occupancy, in frames, that holds 80 ms of audio at this
/// sample rate.
pub open spec fn target_occupancy(sample_rate: u32) -> nat {
    (sample_rate as nat * 2) / 25
}

/// Whether a chunk may be written: with it the queue holds no more than
/// the target. In terms of free space: the free space is not below the
/// watermark `chunk_len + capacity - target`.
pub open spec fn may_write(occupancy: nat, chunk_len: nat, target: nat) -> bool {
    occupancy + chunk_len <= target
}

impl SourceState {
    /// A source that has not been opened: nothing known of the media, every
    /// flag off, at time zero, with `size` as target occupancy and half of
    /// it as chunk size.
    pub open spec fn fresh(size: nat) -> SourceState {
        SourceState {
            media_info: MediaInfoView { duration: 0, bitrate: 0, cover: None },
            status: FFmpegSourceStatus {
                dropping_frames: false,
                avaliable: false,
                playing: false,
                current_time: 0,
                is_end: false,
            },
            opened: false,
            phase: WorkerPhase::Idle,
            seek_request: None,
            pending: Seq::empty(),
            written: 0,
            more: false,
            chunk_size: size / 2,
            target: size,
        }
    }

    /// The source with another value of the `playing` flag.
    pub open spec fn with_playing(&self, playing: bool) -> SourceState {
        SourceState { status: FFmpegSourceStatus { playing, ..self.status }, ..*self }
    }

    /// The source once decoded audio is to be dropped.
    pub open spec fn dropping(&self) -> SourceState {
        SourceState {
            status: FFmpegSourceStatus { dropping_frames: true, ..self.status },
            ..*self
        }
    }

    /// The source no longer available.
    pub open spec fn unavailable(&self) -> SourceState {
        SourceState { status: FFmpegSourceStatus { avaliable: false, ..self.status }, ..*self }
    }

    /// Whether the source has a worker at work: it was started and has
    /// not ended.
    pub open spec fn worker_live(&self) -> bool {
        !(self.phase is Idle || self.phase is Starting || self.phase is Exited)
    }

    /// The source after it was closed: not available, not open, with no
    /// seek request waiting, and with its worker ended. A worker that was
    /// at work leaves the source as `finished` says.
    pub open spec fn closed(&self) -> SourceState {
        let ended = if self.worker_live() {
            self.finished()
        } else {
            SourceState { phase: WorkerPhase::Exited, ..*self }
        };
        SourceState { opened: false, seek_request: None, ..ended.unavailable() }
    }

    /// What holds of every source that was made by `fresh` and changed only
    /// by what this library offers: a source whose worker is at work, or
    /// about to start, is open and available.
    pub open spec fn coherent(&self) -> bool {
        (self.worker_live() || self.phase is Starting) ==> self.opened && self.status.avaliable
    }

    /// Whether seek requests reach the worker: a file is open and the
    /// worker has not ended.
    pub open spec fn takes_seeks(&self) -> bool {
        self.opened && !(self.phase is Exited)
    }

    /// The source with a seek to `time` requested: the request waits for
    /// the worker, and decoded audio is dropped from now on.
    pub open spec fn seek_requested(&self, time: i64) -> SourceState {
        SourceState { seek_request: Some(time), ..self.dropping() }
    }

    /// The source with another target occupancy, and half of it as chunk
    /// size.
    pub open spec fn resized(&self, size: nat) -> SourceState {
        SourceState { chunk_size: size / 2, target: size, ..*self }
    }

    /// The source with the media facts that `probe` brought, and, where
    /// everything stands, open, available and waiting for its worker.
    pub open spec fn probed(&self, probe: MediaProbe) -> SourceState {
        match probe {
            MediaProbe::ContainerFailed(_) => *self,
            MediaProbe::NoAudioStream { streams } => SourceState {
                media_info: MediaInfoView { cover: cover_of(streams@), ..self.media_info },
                ..*self
            },
            MediaProbe::DecoderFailed { streams, .. } => SourceState {
                media_info: MediaInfoView { cover: cover_of(streams@), ..self.media_info },
                ..*self
            },
            MediaProbe::ResamplerFailed { streams, duration, bitrate, .. } => SourceState {
                media_info: MediaInfoView { cover: cover_of(streams@), duration, bitrate },
                ..*self
            },
            MediaProbe::Opened { streams, duration, bitrate } => SourceState {
                media_info: MediaInfoView { cover: cover_of(streams@), duration, bitrate },
                status: FFmpegSourceStatus { avaliable: true, ..self.status },
                opened: true,
                phase: WorkerPhase::Starting,
                seek_request: None,
                pending: Seq::empty(),
                written: 0,
                more: false,
                ..*self
            },
        }
    }

    /// The length of the next chunk of the pending frames: the chunk size,
    /// taken as one where it is zero, or what is left if that is less.
    pub open spec fn chunk_len(&self) -> nat {
        let step = if self.chunk_size == 0 {
            1
        } else {
            self.chunk_size
        };
        let rest = (self.pending.len() - self.written) as nat;
        if step < rest {
            step
        } else {
            rest
        }
    }

    /// The next chunk of the pending frames.
    pub open spec fn chunk(&self) -> Seq<AudioSample> {
        self.pending.subrange(self.written as int, (self.written + self.chunk_len()) as int)
    }

    /// The state after the pending frames are done with, written or
    /// thrown away.
    pub open spec fn slice_done(&self) -> (SourceState, WorkerAction) {
        let cleared = SourceState { pending: Seq::empty(), written: 0, more: false, ..*self };
        if self.more {
            (SourceState { phase: WorkerPhase::Flushing, ..cleared }, WorkerAction::FlushResampler)
        } else {
            (SourceState { phase: WorkerPhase::Receiving, ..cleared }, WorkerAction::ReceiveFrame)
        }
    }

    /// How the worker ends once the source is no longer available: not
    /// playing, at time zero, at the end.
    pub open spec fn finished(&self) -> SourceState {
        SourceState {
            status: FFmpegSourceStatus {
                playing: false,
                current_time: 0,
                is_end: true,
                ..self.status
            },
            phase: WorkerPhase::Exited,
            pending: Seq::empty(),
            written: 0,
            more: false,
            ..*self
        }
    }

    /// The state after the stream ran out with no seek pending: at the end,
    /// at time zero, not playing.
    pub open spec fn exhausted(&self) -> SourceState {
        SourceState {
            status: FFmpegSourceStatus {
                playing: false,
                current_time: 0,
                is_end: true,
                ..self.status
            },
            phase: WorkerPhase::EndOfStream,
            ..*self
        }
    }

    /// The state once the pending seek request is picked up.
    pub open spec fn seek_taken(&self, time: i64) -> SourceState {
        SourceState { seek_request: None, phase: WorkerPhase::Seeking(time), ..*self }
    }

    /// The state after a container seek ended: nothing is pending, the
    /// worker reads on, and frames are dropped only as long as a newer
    /// request waits.
    pub open spec fn seek_done(&self) -> SourceState {
        SourceState {
            status: FFmpegSourceStatus {
                dropping_frames: self.seek_request is Some,
                ..self.status
            },
            phase: WorkerPhase::Reading,
            pending: Seq::empty(),
            written: 0,
            more: false,
            ..*self
        }
    }

    /// What a packet leads to once playback is on: a packet of the audio
    /// stream sets the current time, if it carries one, and is decoded;
    /// any other packet is skipped.
    pub open spec fn accept_packet(&self, audio: bool, pts: Option<i64>) -> (
        SourceState,
        WorkerAction,
    ) {
        if audio {
            let current_time = match pts {
                Some(time) => time,
                None => self.status.current_time,
            };
            (
                SourceState {
                    status: FFmpegSourceStatus { current_time, ..self.status },
                    phase: WorkerPhase::Receiving,
                    ..*self
                },
                WorkerAction::Decode,
            )
        } else {
            (SourceState { phase: WorkerPhase::Reading, ..*self }, WorkerAction::ReadPacket)
        }
    }
}

/// The bounded wait-then-write of the pending frames, chunk by chunk, as
/// far as it gets without waiting.
///
/// A chunk is written when the queue would then hold no more than the
/// target and playback is on. Where it cannot be written yet the worker
/// sleeps, unless frames are being dropped: then all that is pending is
/// thrown away, as it is where the flag is found set right before the
/// write.
///
/// With a target no larger than the capacity every chunk that is written
/// fits. With a larger target a chunk may be written that the queue has no
/// room for: the queue takes the frames that fit, and the rest of the chunk
/// is lost.
pub open spec fn write_out(s: SourceState, queue: Seq<AudioSample>, capacity: nat) -> (
    SourceState,
    Seq<AudioSample>,
    WorkerAction,
)
    decreases s.pending.len() - s.written,
{
    if s.written >= s.pending.len() {
        (s.slice_done().0, queue, s.slice_done().1)
    } else if !may_write(queue.len(), s.chunk_len(), s.target) || !s.status.playing {
        if s.status.dropping_frames {
            (s.slice_done().0, queue, s.slice_done().1)
        } else {
            (SourceState { phase: WorkerPhase::Writing, ..s }, queue, WorkerAction::Sleep)
        }
    } else if s.status.dropping_frames {
        (s.slice_done().0, queue, s.slice_done().1)
    } else {
        write_out(
            SourceState { written: s.written + s.chunk_len(), ..s },
            after_push_run(queue, capacity, s.chunk()),
            capacity,
        )
    }
}

/// One step of a worker whose source is available and whose phase is one
/// of the live ones. An event that does not answer the outstanding action
/// changes nothing, and the action is asked for again.
pub open spec fn live_transition(
    s: SourceState,
    queue: Seq<AudioSample>,
    capacity: nat,
    event: WorkerEvent,
) -> (SourceState, Seq<AudioSample>, WorkerAction) {
    match s.phase {
        WorkerPhase::Reading => match event {
            WorkerEvent::Packet { audio, pts } => match s.seek_request {
                Some(time) => (s.seek_taken(time), queue, WorkerAction::SeekContainer(time)),
                None => {
                    let kept = SourceState {
                        status: FFmpegSourceStatus { dropping_frames: false, ..s.status },
                        ..s
                    };
                    if !kept.status.playing {
                        (
                            SourceState { phase: WorkerPhase::Paused { audio, pts }, ..kept },
                            queue,
                            WorkerAction::Sleep,
                        )
                    } else {
                        (kept.accept_packet(audio, pts).0, queue, kept.accept_packet(audio, pts).1)
                    }
                },
            },
            WorkerEvent::Exhausted => match s.seek_request {
                Some(time) => (s.seek_taken(time), queue, WorkerAction::SeekContainer(time)),
                None => (s.exhausted(), queue, WorkerAction::Sleep),
            },
            _ => (s, queue, WorkerAction::ReadPacket),
        },
        WorkerPhase::Seeking(time) => match event {
            WorkerEvent::SeekDone(done) => (
                s.seek_done(),
                if done {
                    Seq::empty()
                } else {
                    queue
                },
                WorkerAction::ReadPacket,
            ),
            _ => (s, queue, WorkerAction::SeekContainer(time)),
        },
        WorkerPhase::Paused { audio, pts } => match event {
            WorkerEvent::Tick => if s.status.playing {
                (s.accept_packet(audio, pts).0, queue, s.accept_packet(audio, pts).1)
            } else {
                (s, queue, WorkerAction::Sleep)
            },
            _ => (s, queue, WorkerAction::Sleep),
        },
        WorkerPhase::Receiving => match event {
            WorkerEvent::Resampled { frames, delay } => write_out(
                SourceState { pending: frames@, written: 0, more: delay, ..s },
                queue,
                capacity,
            ),
            WorkerEvent::NoFrame => (
                SourceState { phase: WorkerPhase::Reading, ..s },
                queue,
                WorkerAction::ReadPacket,
            ),
            WorkerEvent::Failed => (
                SourceState { phase: WorkerPhase::Exited, ..s },
                queue,
                WorkerAction::Exit,
            ),
            _ => (s, queue, WorkerAction::ReceiveFrame),
        },
        WorkerPhase::Flushing => match event {
            WorkerEvent::Resampled { frames, delay } => write_out(
                SourceState { pending: frames@, written: 0, more: delay, ..s },
                queue,
                capacity,
            ),
            WorkerEvent::NoFrame => (
                SourceState { phase: WorkerPhase::Reading, ..s },
                queue,
                WorkerAction::ReadPacket,
            ),
            WorkerEvent::Failed => (
                SourceState { phase: WorkerPhase::Exited, ..s },
                queue,
                WorkerAction::Exit,
            ),
            _ => (s, queue, WorkerAction::FlushResampler),
        },
        WorkerPhase::Writing => match event {
            WorkerEvent::Tick => write_out(s, queue, capacity),
            _ => (s, queue, WorkerAction::Sleep),
        },
        WorkerPhase::EndOfStream => match event {
            WorkerEvent::Tick => if s.status.playing {
                (
                    SourceState {
                        status: FFmpegSourceStatus { is_end: false, ..s.status },
                        phase: WorkerPhase::Rewinding,
                        ..s
                    },
                    queue,
                    WorkerAction::Rewind,
                )
            } else {
                (s, queue, WorkerAction::Sleep)
            },
            _ => (s, queue, WorkerAction::Sleep),
        },
        WorkerPhase::Rewinding => match event {
            WorkerEvent::SeekDone(done) => if done {
                (SourceState { phase: WorkerPhase::Reading, ..s }, queue, WorkerAction::ReadPacket)
            } else {
                (SourceState { phase: WorkerPhase::Exited, ..s }, queue, WorkerAction::Exit)
            },
            _ => (s, queue, WorkerAction::Rewind),
        },
        _ => (s, queue, WorkerAction::Exit),
    }
}

/// One step of the worker: the state of the source and the contents of the
/// queue after the event, and what the worker has to do next.
///
/// No worker belongs to a source that was never opened or whose worker has
/// ended: whoever reports there is told to exit. A worker introduces
/// itself with `Start`; one that reports anything else to a source that
/// waits for its worker belongs to an earlier source and is told to exit.
/// A worker that finds its source no longer available ends.
pub open spec fn worker_transition(
    s: SourceState,
    queue: Seq<AudioSample>,
    capacity: nat,
    event: WorkerEvent,
) -> (SourceState, Seq<AudioSample>, WorkerAction) {
    match s.phase {
        WorkerPhase::Idle => (s, queue, WorkerAction::Exit),
        WorkerPhase::Exited => (s, queue, WorkerAction::Exit),
        WorkerPhase::Starting => if !(event is Start) {
            (s, queue, WorkerAction::Exit)
        } else if !s.status.avaliable {
            (SourceState { phase: WorkerPhase::Exited, ..s }, queue, WorkerAction::Exit)
        } else {
            (SourceState { phase: WorkerPhase::Reading, ..s }, queue, WorkerAction::ReadPacket)
        },
        _ => if !s.status.avaliable {
            (s.finished(), queue, WorkerAction::Exit)
        } else {
            live_transition(s, queue, capacity, event)
        },
    }
}

/// How far into the pending frames one bounded wait-then-write gets: the
/// index behind the last chunk it writes.
pub open spec fn write_reach(s: SourceState, queue: Seq<AudioSample>, capacity: nat) -> nat
    decreases s.pending.len() - s.written,
{
    if s.written >= s.pending.len() {
        s.written
    } else if !may_write(queue.len(), s.chunk_len(), s.target) || !s.status.playing
        || s.status.dropping_frames {
        s.written
    } else {
        write_reach(
            SourceState { written: s.written + s.chunk_len(), ..s },
            after_push_run(queue, capacity, s.chunk()),
            capacity,
        )
    }
}

impl SourceState {
    /// Whether a seek is in progress: a request waits for the worker, or
    /// the worker is seeking the container.
    pub open spec fn seeking(&self) -> bool {
        self.seek_request is Some || self.phase is Seeking
    }

    /// Decoded audio is dropped for as long as a seek is in progress.
    pub open spec fn drops_while_seeking(&self) -> bool {
        self.seeking() ==> self.status.dropping_frames
    }

    /// The latest presentation time the source knows of: that of the
    /// packet it holds while paused, or else the current time.
    pub open spec fn horizon(&self) -> i64 {
        match self.phase {
            WorkerPhase::Paused { audio: true, pts: Some(time) } => time,
            _ => self.status.current_time,
        }
    }

    /// The packet held while paused is not older than the current time.
    pub open spec fn in_time(&self) -> bool {
        self.status.current_time <= self.horizon()
    }
}

/// Whether an event keeps presentation times in order: a packet of the
/// audio stream that carries a time is not older than `horizon`.
pub open spec fn event_in_order(horizon: i64, event: WorkerEvent) -> bool {
    match event {
        WorkerEvent::Packet { audio: true, pts: Some(time) } => horizon <= time,
        _ => true,
    }
}

/// The horizon behind an event: the time of a packet of the audio stream,
/// where that is later.
pub open spec fn horizon_after(horizon: i64, event: WorkerEvent) -> i64 {
    match event {
        WorkerEvent::Packet { audio: true, pts: Some(time) } => if horizon <= time {
            time
        } else {
            horizon
        },
        _ => horizon,
    }
}

/// Whether a run of events is that of a stream played through undisturbed
/// and not yet at its end: the packets' presentation times never go back,
/// starting from `horizon`, and the stream does not run out.
pub open spec fn plays_in_order(horizon: i64, events: Seq<WorkerEvent>) -> bool
    decreases events.len(),
{
    if events.len() == 0 {
        true
    } else {
        &&& !(events[0] is Exhausted)
        &&& event_in_order(horizon, events[0])
        &&& plays_in_order(horizon_after(horizon, events[0]), events.drop_first())
    }
}

/// The source and the queue after the worker went through a run of
/// events, with nothing else touching them.
pub open spec fn after_events(
    s: SourceState,
    queue: Seq<AudioSample>,
    capacity: nat,
    events: Seq<WorkerEvent>,
) -> (SourceState, Seq<AudioSample>)
    decreases events.len(),
{
    if events.len() == 0 {
        (s, queue)
    } else {
        let next = worker_transition(s, queue, capacity, events[0]);
        after_events(next.0, next.1, capacity, events.drop_first())
    }
}

} // verus!
