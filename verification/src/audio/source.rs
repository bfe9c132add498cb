//! The decode pipeline of one opened media source.
//!
//! Demuxing, decoding and resampling happen outside this library, in a
//! worker that owns the container, the decoder and the resampler. This
//! module holds everything that worker has to decide: it is a state machine
//! that takes what the worker last observed (`WorkerEvent`) and answers with
//! what the worker has to do next (`WorkerAction`). Backpressure, pausing,
//! seeking and the end of the stream are all decided here; the writes into
//! the frame queue are made here as well.
//!
//! `worker` states the machine, `laws` proves what holds of it, and this
//! file holds the source itself. All times are in milliseconds.

pub mod laws;
pub mod worker;

use crate::audio::buffer::FrameQueue;
use crate::audio::device::AudioDevice;
use crate::audio::sample::frame_slot;
use crate::audio::sample::lemma_slot_count;
use crate::audio::sample::slot_count;
use crate::audio::sample::AudioSample;
use crate::audio::source::worker::live_transition;
use crate::audio::source::worker::may_write;
use crate::audio::source::worker::worker_transition;
use crate::audio::source::worker::write_out;
use crate::audio::source::worker::PipelineState;
use crate::audio::source::worker::SourceState;
use crate::audio::source::worker::WorkerAction;
use crate::audio::source::worker::WorkerEvent;
use crate::audio::source::worker::WorkerPhase;
use crate::info::media::MediaInfo;
use crate::metadata::ffmpeg::first_attached;
use crate::metadata::ffmpeg::first_picture_from_input_context;
use crate::metadata::ffmpeg::StreamPicture;
use vstd::prelude::*;
use vstd::slice::slice_subrange;

verus! {

/// Why a source operation failed.
#[derive(Debug)]
pub enum Error {
    /// The decoding library refused the media file.
    OpenMediaFileWithFFmpeg { message: String, source: String },
    /// The media file holds nothing to play.
    OpenMediaFile { message: String },
    /// There is nothing to close.
    CloseMediaFile { message: String },
    /// There is nothing to seek in.
    Seek { message: String },
    /// The worker's completion signal could not be received.
    ChannelRecv { message: String, source: String },
    /// The seek request could not be handed to the worker.
    SendSeek { message: String, source: String },
}

/// The playback status that the worker and the controller share.
#[derive(Debug, Clone, Copy)]
pub struct FFmpegSourceStatus {
    /// A seek is in progress: decoded audio is thrown away, not queued.
    pub dropping_frames: bool,
    /// The source is open and usable.
    pub avaliable: bool,
    /// The worker streams audio into the queue.
    pub playing: bool,
    /// Presentation time of the last packet seen.
    pub current_time: i64,
    /// The stream ran out.
    pub is_end: bool,
}

/// Which step of building the decoder failed.
#[derive(Debug, Clone, Copy)]
pub enum DecoderStage {
    /// Creating the codec context from the stream's parameters.
    Context,
    /// Creating the audio decoder.
    Decoder,
    /// Copying the stream's parameters into the decoder.
    Parameters,
}

/// What opening a media file outside this library came to. `streams` is
/// what each stream of the container says about an attached picture.
#[derive(Debug)]
pub enum MediaProbe {
    /// The container could not be opened; the string describes the cause.
    ContainerFailed(String),
    /// The container has no audio stream.
    NoAudioStream { streams: Vec<StreamPicture> },
    /// The decoder could not be built.
    DecoderFailed { streams: Vec<StreamPicture>, stage: DecoderStage, cause: String },
    /// The resampler could not be built. `duration` is the container's
    /// length, `bitrate` its bit rate in bits per second.
    ResamplerFailed { streams: Vec<StreamPicture>, duration: i64, bitrate: i64, cause: String },
    /// Container, decoder and resampler stand. `duration` is the
    /// container's length, `bitrate` its bit rate in bits per second.
    Opened { streams: Vec<StreamPicture>, duration: i64, bitrate: i64 },
}

/// The cover picture that a container's streams give: the picture of the
/// first stream marked as an attached picture.
pub open spec fn cover_of(streams: Seq<StreamPicture>) -> Option<Seq<u8>> {
    match first_attached(streams) {
        Some(i) => Some(streams[i].data@),
        None => None,
    }
}

/// The message that goes with a failure to build the decoder.
pub open spec fn stage_message(stage: DecoderStage) -> Seq<char> {
    match stage {
        DecoderStage::Context => "failed to create codec context"@,
        DecoderStage::Decoder => "failed to create audio decoder"@,
        DecoderStage::Parameters => "failed to set codec parameters"@,
    }
}

/// Whether `error` is the failure that goes with what opening the media
/// file came to. A file that stands open is no failure.
pub open spec fn open_failure(probe: MediaProbe, error: Error) -> bool {
    match probe {
        MediaProbe::ContainerFailed(cause) => {
            &&& error matches Error::OpenMediaFileWithFFmpeg { message, source }
            &&& message@
                == "the file could not be opened, either because the file does not exist, cannot be accessed, or the file format is not supported"@
            &&& source == cause
        },
        MediaProbe::NoAudioStream { .. } => {
            &&& error matches Error::OpenMediaFile { message }
            &&& message@ == "failed to get audio stream"@
        },
        MediaProbe::DecoderFailed { stage, cause, .. } => {
            &&& error matches Error::OpenMediaFileWithFFmpeg { message, source }
            &&& message@ == stage_message(stage)
            &&& source == cause
        },
        MediaProbe::ResamplerFailed { cause, .. } => {
            &&& error matches Error::OpenMediaFileWithFFmpeg { message, source }
            &&& message@ == "failed to create resampler"@
            &&& source == cause
        },
        MediaProbe::Opened { .. } => false,
    }
}

/// Whether `error` is the failure of a seek on this source: no file is
/// open, or the worker has ended. A source that takes seeks has none.
pub open spec fn seek_failure(s: SourceState, error: Error) -> bool {
    if !s.opened {
        &&& error matches Error::Seek { message }
        &&& message@ == "no file opened"@
    } else if s.phase is Exited {
        &&& error matches Error::SendSeek { message, source }
        &&& message@ == "decoding thread may have terminated"@
        &&& source@ == "sending on a closed channel"@
    } else {
        false
    }
}

/// Whether `error` says that there is no file to close.
pub open spec fn close_failure(error: Error) -> bool {
    &&& error matches Error::CloseMediaFile { message }
    &&& message@ == "no file opened"@
}

/// What a source can be asked to do, whatever produces its audio.
pub trait AudioSource {
    /// The source as contracts see it.
    spec fn state(&self) -> SourceState;

    /// Closes the source: it stops being available, takes no more seek
    /// requests, its worker is ended, and the queue is emptied. Whoever
    /// still reports for the worker is told to exit. Fails where no file
    /// is open.
    fn close(&mut self, queue: &mut FrameQueue) -> (result: Result<(), Error>)
        ensures
            final(queue).limit() == old(queue).limit(),
            result is Ok <==> old(self).state().opened,
            result matches Err(error) ==> close_failure(error),
            old(self).state().opened ==> {
                &&& final(self).state() == old(self).state().closed()
                &&& final(queue)@ == Seq::<AudioSample>::empty()
            },
            !old(self).state().opened ==> {
                &&& final(self).state() == old(self).state().unavailable()
                &&& final(queue)@ == old(queue)@
            },
    ;

    /// Tells the worker to stream audio into the queue.
    fn streaming(&mut self) -> (result: Result<(), Error>)
        ensures
            result is Ok,
            final(self).state() == old(self).state().with_playing(true),
    ;

    /// Tells the worker to hold: nothing is decoded or queued while paused.
    fn pause(&mut self) -> (result: Result<(), Error>)
        ensures
            result is Ok,
            final(self).state() == old(self).state().with_playing(false),
    ;

    /// Asks the worker to continue from `time`. The request replaces one
    /// that the worker has not picked up yet, and from now on decoded audio
    /// is dropped until the seek is through. Fails where no file is open,
    /// and where the worker has ended.
    fn seek(&mut self, time: i64) -> (result: Result<(), Error>)
        ensures
            result is Ok <==> old(self).state().takes_seeks(),
            result matches Err(error) ==> seek_failure(old(self).state(), error),
            final(self).state() == if old(self).state().takes_seeks() {
                old(self).state().seek_requested(time)
            } else {
                old(self).state()
            },
    ;

    /// Makes the worker throw away the decoded audio it has in hand.
    fn clear_buffer(&mut self)
        ensures
            final(self).state() == old(self).state().dropping(),
    ;

    /// Length of the media.
    fn get_duration(&self) -> (duration: i64)
        ensures
            duration == self.state().media_info.duration,
    ;

    /// Bitrate of the media.
    fn get_bitrate(&self) -> (bitrate: i64)
        ensures
            bitrate == self.state().media_info.bitrate,
    ;

    /// Presentation time of the last packet seen.
    fn get_current_time(&self) -> (time: i64)
        ensures
            time == self.state().status.current_time,
    ;

    /// Sets the largest number of frames written in one piece.
    fn set_buffer_chunk_size(&mut self, size: usize)
        ensures
            final(self).state() == (SourceState { chunk_size: size as nat, ..old(self).state() }),
    ;

    /// Whether the stream ran out.
    fn is_end(&self) -> (end: bool)
        ensures
            end == self.state().status.is_end,
    ;

    /// Whether the worker streams audio into the queue.
    fn is_streaming(&self) -> (streaming: bool)
        ensures
            streaming == self.state().status.playing,
    ;

    /// Sets the target occupancy of the queue, and the chunk size to half
    /// of it.
    fn set_dynamic_device_buffer_size(&mut self, size: usize)
        ensures
            final(self).state() == old(self).state().resized(size as nat),
    ;

    /// What is known about the media.
    fn get_media_info(&self) -> (info: &MediaInfo)
        ensures
            info@ == self.state().media_info,
    ;
}

/// The decode pipeline of one media source: the shared status, the pending
/// seek request, the backpressure sizing, and where its worker stands.
pub struct FFmpegSource {
    media_info: MediaInfo,
    opened: bool,
    phase: WorkerPhase,
    seek_request: Option<i64>,
    status: FFmpegSourceStatus,
    pending: Vec<AudioSample>,
    written: usize,
    more: bool,
    buffer_chunk_size: usize,
    dynamic_device_buffer_size: usize,
}

impl View for FFmpegSource {
    type V = SourceState;

    closed spec fn view(&self) -> SourceState {
        SourceState {
            media_info: self.media_info@,
            status: self.status,
            opened: self.opened,
            phase: self.phase,
            seek_request: self.seek_request,
            pending: self.pending@,
            written: self.written as nat,
            more: self.more,
            chunk_size: self.buffer_chunk_size as nat,
            target: self.dynamic_device_buffer_size as nat,
        }
    }
}

impl FFmpegSource {
    /// The shared playback status.
    pub fn status(&self) -> (status: FFmpegSourceStatus)
        ensures
            status == self@.status,
    {
        self.status
    }

    /// Where the worker stands.
    pub fn phase(&self) -> (phase: WorkerPhase)
        ensures
            phase == self@.phase,
    {
        self.phase
    }

    /// The stage of the pipeline's life.
    pub fn stage(&self) -> (stage: PipelineState)
        ensures
            stage == self@.phase.stage(),
    {
        match self.phase {
            WorkerPhase::Idle => PipelineState::Idle,
            WorkerPhase::Starting => PipelineState::Opening,
            WorkerPhase::EndOfStream => PipelineState::EndOfStream,
            WorkerPhase::Exited => PipelineState::Closed,
            _ => PipelineState::Decoding,
        }
    }

    /// Whether a file is open.
    pub fn is_open(&self) -> (opened: bool)
        ensures
            opened == self@.opened,
    {
        self.opened
    }

    /// A source that has not been opened, with the given target occupancy
    /// and half of it as chunk size.
    pub fn new(dynamic_device_buffer_size: usize) -> (source: FFmpegSource)
        ensures
            source@ == SourceState::fresh(dynamic_device_buffer_size as nat),
    {
        FFmpegSource {
            media_info: MediaInfo::default(),
            opened: false,
            phase: WorkerPhase::Idle,
            seek_request: None,
            status: FFmpegSourceStatus {
                dropping_frames: false,
                avaliable: false,
                playing: false,
                current_time: 0,
                is_end: false,
            },
            pending: Vec::new(),
            written: 0,
            more: false,
            buffer_chunk_size: dynamic_device_buffer_size / 2,
            dynamic_device_buffer_size,
        }
    }

    /// Splits interleaved samples into frames of `channels` values each.
    /// Samples behind the last whole frame are left out.
    pub fn ffmpeg_frame_to_slice(pcm: &[u32], channels: usize) -> (frames: Vec<AudioSample>)
        requires
            0 < channels <= 8,
        ensures
            frames@.len() == slot_count(pcm@.len() as int, channels as int),
            forall|k: int|
                0 <= k < frames@.len() ==> (#[trigger] frames@[k])@ == frame_slot(
                    pcm@,
                    channels as int,
                    k,
                ),
            forall|k: int|
                0 <= k < frames@.len() ==> (#[trigger] frames@[k]).channel_count() == channels,
    {
        let len: usize = pcm.len();
        let count: usize = len / channels;
        let mut frames: Vec<AudioSample> = Vec::new();
        let mut k: usize = 0;
        let mut base: usize = 0;
        proof {
            assert(0 * (channels as int) == 0) by (nonlinear_arith);
        }
        while k < count
            invariant
                0 < channels <= 8,
                len == pcm@.len(),
                count == len / channels,
                k <= count,
                base == k * channels,
                frames@.len() == k,
                forall|j: int|
                    0 <= j < k ==> (#[trigger] frames@[j])@ == frame_slot(pcm@, channels as int, j),
                forall|j: int| 0 <= j < k ==> (#[trigger] frames@[j]).channel_count() == channels,
            decreases count - k,
        {
            proof {
                lemma_slot_count(len as int, channels as int, k as int);
                assert((k + 1) * channels == k * channels + channels) by (nonlinear_arith);
            }
            let frame = AudioSample::from_slice(slice_subrange(pcm, base, base + channels));
            frames.push(frame);
            base += channels;
            k += 1;
        }
        frames
    }

    /// Takes in what opening the media file came to.
    ///
    /// Once container, decoder and resampler stand, the source is open and
    /// available, knows its cover, its duration and its bit rate, and waits
    /// for its worker.
    /// Every failure is returned as its error; what was learned of the
    /// media before the failing step stays recorded.
    pub fn open(&mut self, probe: MediaProbe) -> (result: Result<(), Error>)
        ensures
            final(self)@ == old(self)@.probed(probe),
            result is Ok <==> probe is Opened,
            result matches Err(error) ==> open_failure(probe, error),
    {
        match probe {
            MediaProbe::ContainerFailed(cause) => Err(
                Error::OpenMediaFileWithFFmpeg {
                    message: "the file could not be opened, either because the file does not exist, cannot be accessed, or the file format is not supported".to_owned(),
                    source: cause,
                },
            ),
            MediaProbe::NoAudioStream { streams } => {
                self.media_info.cover = first_picture_from_input_context(streams.as_slice());
                Err(Error::OpenMediaFile { message: "failed to get audio stream".to_owned() })
            },
            MediaProbe::DecoderFailed { streams, stage, cause } => {
                self.media_info.cover = first_picture_from_input_context(streams.as_slice());
                let message: String = match stage {
                    DecoderStage::Context => "failed to create codec context".to_owned(),
                    DecoderStage::Decoder => "failed to create audio decoder".to_owned(),
                    DecoderStage::Parameters => "failed to set codec parameters".to_owned(),
                };
                Err(Error::OpenMediaFileWithFFmpeg { message, source: cause })
            },
            MediaProbe::ResamplerFailed { streams, duration, bitrate, cause } => {
                self.media_info.cover = first_picture_from_input_context(streams.as_slice());
                self.media_info.duration = duration;
                self.media_info.bitrate = bitrate;
                Err(
                    Error::OpenMediaFileWithFFmpeg {
                        message: "failed to create resampler".to_owned(),
                        source: cause,
                    },
                )
            },
            MediaProbe::Opened { streams, duration, bitrate } => {
                self.media_info.cover = first_picture_from_input_context(streams.as_slice());
                self.media_info.duration = duration;
                self.media_info.bitrate = bitrate;
                self.opened = true;
                self.phase = WorkerPhase::Starting;
                self.seek_request = None;
                self.pending = Vec::new();
                self.written = 0;
                self.more = false;
                self.status.avaliable = true;
                Ok(())
            },
        }
    }

    /// Ends the work on the pending frames and says where the worker goes
    /// on: with what the resampler still holds, or with the decoder's next
    /// frame.
    fn slice_done(&mut self) -> (action: WorkerAction)
        ensures
            (final(self)@, action) == old(self)@.slice_done(),
    {
        let more: bool = self.more;
        self.pending = Vec::new();
        self.written = 0;
        self.more = false;
        if more {
            self.phase = WorkerPhase::Flushing;
            WorkerAction::FlushResampler
        } else {
            self.phase = WorkerPhase::Receiving;
            WorkerAction::ReceiveFrame
        }
    }

    /// One poll of the bounded wait-then-write: writes the pending frames
    /// to the queue chunk by chunk for as long as the queue stays within
    /// the target, and says whether the worker has to sleep and poll again
    /// or can go on decoding. See `write_out`.
    fn blocking_write_buffer(&mut self, queue: &mut FrameQueue) -> (action: WorkerAction)
        ensures
            (final(self)@, final(queue)@, action) == write_out(
                old(self)@,
                old(queue)@,
                old(queue).limit(),
            ),
            final(queue).limit() == old(queue).limit(),
    {
        let ghost capacity = queue.limit();
        let ghost goal = write_out(self@, queue@, capacity);
        loop
            invariant
                capacity == old(queue).limit(),
                goal == write_out(old(self)@, old(queue)@, capacity),
                queue.limit() == capacity,
                write_out(self@, queue@, capacity) == goal,
            decreases self.pending.len() - self.written,
        {
            let len: usize = self.pending.len();
            if self.written >= len {
                return self.slice_done();
            }
            let step: usize = if self.buffer_chunk_size == 0 {
                1
            } else {
                self.buffer_chunk_size
            };
            let rest: usize = len - self.written;
            let n: usize = if step < rest {
                step
            } else {
                rest
            };
            let occupancy: usize = queue.occupancy();
            let room: bool = n <= usize::MAX - occupancy && occupancy + n
                <= self.dynamic_device_buffer_size;
            assert(room == may_write(queue@.len(), self@.chunk_len(), self@.target));
            if !room || !self.status.playing {
                if self.status.dropping_frames {
                    return self.slice_done();
                }
                self.phase = WorkerPhase::Writing;
                return WorkerAction::Sleep;
            }
            if self.status.dropping_frames {
                return self.slice_done();
            }
            let chunk = slice_subrange(self.pending.as_slice(), self.written, self.written + n);
            assert(chunk@ == self@.chunk());
            queue.push_run(chunk);
            self.written = self.written + n;
        }
    }

    /// Takes in what the decoder and the resampler handed over: frames go
    /// to the queue by the bounded wait-then-write, a decoder out of frames
    /// sends the worker to the next packet, and a failure ends the worker.
    fn decode_to_buffer(&mut self, queue: &mut FrameQueue, event: WorkerEvent) -> (action:
        WorkerAction)
        requires
            old(self)@.phase is Receiving || old(self)@.phase is Flushing,
        ensures
            (final(self)@, final(queue)@, action) == live_transition(
                old(self)@,
                old(queue)@,
                old(queue).limit(),
                event,
            ),
            final(queue).limit() == old(queue).limit(),
    {
        match event {
            WorkerEvent::Resampled { frames, delay } => {
                self.pending = frames;
                self.written = 0;
                self.more = delay;
                self.blocking_write_buffer(queue)
            },
            WorkerEvent::NoFrame => {
                self.phase = WorkerPhase::Reading;
                WorkerAction::ReadPacket
            },
            WorkerEvent::Failed => {
                self.phase = WorkerPhase::Exited;
                WorkerAction::Exit
            },
            _ => match self.phase {
                WorkerPhase::Flushing => WorkerAction::FlushResampler,
                _ => WorkerAction::ReceiveFrame,
            },
        }
    }

    /// Goes on with a packet once playback is on.
    fn accept_packet(&mut self, audio: bool, pts: Option<i64>) -> (action: WorkerAction)
        ensures
            (final(self)@, action) == old(self)@.accept_packet(audio, pts),
    {
        if audio {
            match pts {
                Some(time) => {
                    self.status.current_time = time;
                },
                None => {},
            }
            self.phase = WorkerPhase::Receiving;
            WorkerAction::Decode
        } else {
            self.phase = WorkerPhase::Reading;
            WorkerAction::ReadPacket
        }
    }

    /// Picks up the pending seek request, if there is one.
    fn take_seek(&mut self) -> (action: Option<WorkerAction>)
        ensures
            match old(self)@.seek_request {
                Some(time) => {
                    &&& final(self)@ == old(self)@.seek_taken(time)
                    &&& action == Some(WorkerAction::SeekContainer(time))
                },
                None => final(self)@ == old(self)@ && action is None,
            },
    {
        match self.seek_request {
            Some(time) => {
                self.seek_request = None;
                self.phase = WorkerPhase::Seeking(time);
                Some(WorkerAction::SeekContainer(time))
            },
            None => None,
        }
    }

    /// One step of the worker: takes in what the worker observed, changes
    /// the source and the queue accordingly, and returns what the worker
    /// has to do next. See `worker_transition`.
    pub fn worker_step(&mut self, queue: &mut FrameQueue, event: WorkerEvent) -> (action:
        WorkerAction)
        ensures
            (final(self)@, final(queue)@, action) == worker_transition(
                old(self)@,
                old(queue)@,
                old(queue).limit(),
                event,
            ),
            final(queue).limit() == old(queue).limit(),
    {
        match self.phase {
            WorkerPhase::Idle => {
                return WorkerAction::Exit;
            },
            WorkerPhase::Exited => {
                return WorkerAction::Exit;
            },
            WorkerPhase::Starting => {
                match event {
                    WorkerEvent::Start => {
                        if !self.status.avaliable {
                            self.phase = WorkerPhase::Exited;
                            return WorkerAction::Exit;
                        }
                        self.phase = WorkerPhase::Reading;
                        return WorkerAction::ReadPacket;
                    },
                    _ => {
                        return WorkerAction::Exit;
                    },
                }
            },
            _ => {},
        }
        if !self.status.avaliable {
            self.status.playing = false;
            self.status.current_time = 0;
            self.status.is_end = true;
            self.phase = WorkerPhase::Exited;
            self.pending = Vec::new();
            self.written = 0;
            self.more = false;
            return WorkerAction::Exit;
        }
        match self.phase {
            WorkerPhase::Reading => match event {
                WorkerEvent::Packet { audio, pts } => match self.take_seek() {
                    Some(action) => action,
                    None => {
                        self.status.dropping_frames = false;
                        if !self.status.playing {
                            self.phase = WorkerPhase::Paused { audio, pts };
                            WorkerAction::Sleep
                        } else {
                            self.accept_packet(audio, pts)
                        }
                    },
                },
                WorkerEvent::Exhausted => match self.take_seek() {
                    Some(action) => action,
                    None => {
                        self.status.playing = false;
                        self.status.current_time = 0;
                        self.status.is_end = true;
                        self.phase = WorkerPhase::EndOfStream;
                        WorkerAction::Sleep
                    },
                },
                _ => WorkerAction::ReadPacket,
            },
            WorkerPhase::Seeking(time) => match event {
                WorkerEvent::SeekDone(done) => {
                    if done {
                        AudioDevice::clear_buffer(queue);
                    }
                    self.pending = Vec::new();
                    self.written = 0;
                    self.more = false;
                    self.status.dropping_frames = self.seek_request.is_some();
                    self.phase = WorkerPhase::Reading;
                    WorkerAction::ReadPacket
                },
                _ => WorkerAction::SeekContainer(time),
            },
            WorkerPhase::Paused { audio, pts } => match event {
                WorkerEvent::Tick => {
                    if self.status.playing {
                        self.accept_packet(audio, pts)
                    } else {
                        WorkerAction::Sleep
                    }
                },
                _ => WorkerAction::Sleep,
            },
            WorkerPhase::Receiving => self.decode_to_buffer(queue, event),
            WorkerPhase::Flushing => self.decode_to_buffer(queue, event),
            WorkerPhase::Writing => match event {
                WorkerEvent::Tick => self.blocking_write_buffer(queue),
                _ => WorkerAction::Sleep,
            },
            WorkerPhase::EndOfStream => match event {
                WorkerEvent::Tick => {
                    if self.status.playing {
                        self.status.is_end = false;
                        self.phase = WorkerPhase::Rewinding;
                        WorkerAction::Rewind
                    } else {
                        WorkerAction::Sleep
                    }
                },
                _ => WorkerAction::Sleep,
            },
            WorkerPhase::Rewinding => match event {
                WorkerEvent::SeekDone(done) => {
                    if done {
                        self.phase = WorkerPhase::Reading;
                        WorkerAction::ReadPacket
                    } else {
                        self.phase = WorkerPhase::Exited;
                        WorkerAction::Exit
                    }
                },
                _ => WorkerAction::Rewind,
            },
            _ => WorkerAction::Exit,
        }
    }
}

impl AudioSource for FFmpegSource {
    open spec fn state(&self) -> SourceState {
        self@
    }

    fn close(&mut self, queue: &mut FrameQueue) -> (result: Result<(), Error>) {
        self.status.avaliable = false;
        if !self.opened {
            return Err(Error::CloseMediaFile { message: "no file opened".to_owned() });
        }
        match self.phase {
            WorkerPhase::Idle => {},
            WorkerPhase::Starting => {},
            WorkerPhase::Exited => {},
            _ => {
                self.status.playing = false;
                self.status.current_time = 0;
                self.status.is_end = true;
                self.pending = Vec::new();
                self.written = 0;
                self.more = false;
            },
        }
        self.phase = WorkerPhase::Exited;
        self.opened = false;
        self.seek_request = None;
        AudioDevice::clear_buffer(queue);
        Ok(())
    }

    fn streaming(&mut self) -> (result: Result<(), Error>) {
        self.status.playing = true;
        Ok(())
    }

    fn pause(&mut self) -> (result: Result<(), Error>) {
        self.status.playing = false;
        Ok(())
    }

    fn seek(&mut self, time: i64) -> (result: Result<(), Error>) {
        if !self.opened {
            return Err(Error::Seek { message: "no file opened".to_owned() });
        }
        match self.phase {
            WorkerPhase::Exited => {
                return Err(
                    Error::SendSeek {
                        message: "decoding thread may have terminated".to_owned(),
                        source: "sending on a closed channel".to_owned(),
                    },
                );
            },
            _ => {},
        }
        self.seek_request = Some(time);
        self.status.dropping_frames = true;
        Ok(())
    }

    fn clear_buffer(&mut self) {
        self.status.dropping_frames = true;
    }

    fn get_duration(&self) -> (duration: i64) {
        self.media_info.duration
    }

    fn get_bitrate(&self) -> (bitrate: i64) {
        self.media_info.bitrate
    }

    fn get_current_time(&self) -> (time: i64) {
        self.status.current_time
    }

    fn set_buffer_chunk_size(&mut self, size: usize) {
        self.buffer_chunk_size = size;
    }

    fn is_end(&self) -> (end: bool) {
        self.status.is_end
    }

    fn is_streaming(&self) -> (streaming: bool) {
        self.status.playing
    }

    fn set_dynamic_device_buffer_size(&mut self, size: usize) {
        self.dynamic_device_buffer_size = size;
        self.buffer_chunk_size = size / 2;
    }

    fn get_media_info(&self) -> (info: &MediaInfo) {
        &self.media_info
    }
}

} // verus!
