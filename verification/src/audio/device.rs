//! The output device: its control state, and the callback that fills the
//! hardware's buffer from the frame queue.
//!
//! The hardware stream itself lives outside this library. Whoever owns it
//! reports what the hardware answered (`DeviceProbe`), asks this state
//! whether the stream may be started, and calls `AudioDevice::fill_output`
//! from the driver's callback.

use crate::audio::buffer::after_discard;
use crate::audio::buffer::FrameQueue;
use crate::audio::sample::frame_slot;
use crate::audio::sample::lemma_slot_count;
use crate::audio::sample::lemma_slot_order;
use crate::audio::sample::slot_count;
use crate::audio::sample::AudioSample;
use vstd::prelude::*;

verus! {

/// Capacity, in frames, of the queue that a device is made with.
pub const BUFFER_CAPACITY: usize = 64_000;

/// Why a device operation failed.
#[derive(Debug)]
pub enum Error {
    /// No usable output device was found.
    InitDevice { message: String },
    /// The device's supported configurations could not be listed.
    DeviceConfig { message: String, source: String },
    /// The output stream could not be built.
    BuildStream { source: String },
    /// The device is not in a state in which its stream can be started.
    OpenDevice { message: String },
    /// The hardware refused to start the stream.
    PlayStream { source: String },
    /// The hardware refused to pause the stream.
    PauseStream { source: String },
}

/// How the device wants its samples represented.
#[derive(Debug, Clone, Copy, PartialEq, Eq, Structural)]
pub enum SampleFormat {
    /// Signed 16-bit integers.
    I16,
    /// Unsigned 16-bit integers.
    U16,
    /// 32-bit floating point.
    F32,
}

/// The format negotiated with the device when it was initialised.
#[derive(Debug, Clone, Copy)]
pub struct DeviceSampleFormat {
    /// Frames per second.
    pub sample_rate: u32,
    /// Representation of one sample.
    pub sample_format: SampleFormat,
    /// Channels per frame.
    pub channel_count: u16,
}

/// What the hardware layer answered when asked for the default output
/// device and a stream on it.
#[derive(Debug)]
pub enum DeviceProbe {
    /// There is no default output device.
    NoDevice,
    /// The device's supported configurations could not be listed; the
    /// string describes the cause.
    ConfigsFailed(String),
    /// The device lists no supported output configuration.
    NoConfig,
    /// A format was chosen, but the stream could not be built; the string
    /// describes the cause.
    StreamFailed(DeviceSampleFormat, String),
    /// A stream was built with this format.
    Ready(DeviceSampleFormat),
}

/// The state the output callback reads on every invocation.
#[derive(Debug, Clone, Copy)]
pub struct AudioDeviceContext {
    /// Whether output is muted.
    pub mute: bool,
    /// Output gain as a linear amplitude, held as the bit pattern of a
    /// 32-bit IEEE-754 number.
    pub volume_amplitude: u32,
    /// Whether the callback consumes queued frames.
    pub playing: bool,
}

impl AudioDeviceContext {
    /// Whether the callback takes frames from the queue: it does while
    /// playing and not muted.
    pub open spec fn consuming(&self) -> bool {
        self.playing && !self.mute
    }
}

/// Whether `gained` is what channel `i` of `frame` becomes under the gain
/// function: its result on a meaningful slot, the stored word on another.
pub open spec fn slot_gained<G: Fn(u32, u32) -> u32>(
    gain: G,
    frame: AudioSample,
    amplitude: u32,
    i: int,
    gained: u32,
) -> bool {
    if i < frame.channel_count() {
        call_ensures(gain, (frame.slots()[i], amplitude), gained)
    } else {
        gained == frame.slots()[i]
    }
}

/// Whether `out` is channel `i` of `frame` after gain and conversion to the
/// device's representation.
pub open spec fn slot_rendered<T, G: Fn(u32, u32) -> u32, C: Fn(u32) -> T>(
    gain: G,
    convert: C,
    frame: AudioSample,
    amplitude: u32,
    i: int,
    out: T,
) -> bool {
    exists|gained: u32|
        slot_gained(gain, frame, amplitude, i, gained) && call_ensures(convert, (gained,), out)
}

/// Whether an output frame slot holds what `source` calls for: the rendered
/// frame, or silence where there is none.
pub open spec fn slot_filled<T, G: Fn(u32, u32) -> u32, C: Fn(u32) -> T>(
    slot: Seq<T>,
    source: Option<AudioSample>,
    amplitude: u32,
    gain: G,
    convert: C,
    silence: T,
) -> bool {
    match source {
        Some(frame) => forall|i: int|
            0 <= i < slot.len() ==> slot_rendered(gain, convert, frame, amplitude, i, #[trigger] slot[i]),
        None => forall|i: int| 0 <= i < slot.len() ==> #[trigger] slot[i] == silence,
    }
}

/// The frame that output slot `k` of one callback plays: the `k`-th queued
/// frame while the device is consuming and the queue reaches that far,
/// nothing otherwise.
pub open spec fn slot_source(
    context: AudioDeviceContext,
    frames: Seq<AudioSample>,
    k: int,
) -> Option<AudioSample> {
    if context.consuming() && k < frames.len() {
        Some(frames[k])
    } else {
        None
    }
}

/// How many frames one callback with `slots` output slots takes from a
/// queue of `len` frames.
pub open spec fn frames_consumed(context: AudioDeviceContext, len: nat, slots: nat) -> nat {
    if !context.consuming() {
        0
    } else if slots <= len {
        slots
    } else {
        len
    }
}

/// Whether `gained` is a result of the gain function on `value` at
/// amplitude `level`.
spec fn gain_gives<G: Fn(u32, u32) -> u32>(gain: &G, value: u32, level: u32, gained: u32) -> bool {
    call_ensures(*gain, (value, level), gained)
}

/// Whether `out` is a result of the conversion of `value`.
spec fn convert_gives<T, C: Fn(u32) -> T>(convert: &C, value: u32, out: T) -> bool {
    call_ensures(*convert, (value,), out)
}

/// Fills a frame slot with silence.
fn zero_frame<T: Copy>(frame: &mut [T], silence: T)
    ensures
        final(frame)@.len() == old(frame)@.len(),
        forall|i: int| 0 <= i < old(frame)@.len() ==> #[trigger] final(frame)@[i] == silence,
{
    let n: usize = frame.len();
    let mut i: usize = 0;
    while i < n
        invariant
            i <= n,
            frame@.len() == n,
            forall|j: int| 0 <= j < i ==> #[trigger] frame@[j] == silence,
        decreases n - i,
    {
        frame[i] = silence;
        i += 1;
    }
}

/// Fills one output slot, `data[base..base + channels]`, from `source`:
/// with the frame after gain and conversion, or with silence where there
/// is none.
fn write_slot<T: Copy, G: Fn(u32, u32) -> u32, C: Fn(u32) -> T>(
    data: &mut [T],
    base: usize,
    channels: usize,
    source: Option<AudioSample>,
    amplitude: u32,
    gain: &G,
    convert: &C,
    silence: T,
)
    requires
        0 < channels,
        source is Some ==> channels <= 8,
        base + channels <= old(data)@.len(),
        forall|sample: u32, level: u32| call_requires(*gain, (sample, level)),
        forall|sample: u32| call_requires(*convert, (sample,)),
    ensures
        final(data)@.len() == old(data)@.len(),
        final(data)@.take(base as int) == old(data)@.take(base as int),
        final(data)@.skip(base + channels) == old(data)@.skip(base + channels),
        slot_filled(
            final(data)@.subrange(base as int, base + channels),
            source,
            amplitude,
            *gain,
            *convert,
            silence,
        ),
{
    let ghost before = data@;
    let (head, rest) = data.split_at_mut(base);
    let (frame, tail) = rest.split_at_mut(channels);
    let ghost kept_head = head@;
    let ghost kept_tail = tail@;
    match source {
        Some(audio_sample) => {
            let level: u32 = amplitude;
            let apply_gain = |value: u32| -> (gained: u32)
                ensures
                    gain_gives(gain, value, level, gained),
                { gain(value, level) };
            let to_device = |value: u32| -> (out: T)
                ensures
                    convert_gives(convert, value, out),
                { convert(value) };
            let gained = audio_sample.apply_process(apply_gain);
            assert(forall|j: int|
                0 <= j < 8 ==> slot_gained(
                    *gain,
                    audio_sample,
                    amplitude,
                    j,
                    #[trigger] gained.slots()[j],
                ));
            gained.write_slice_convert(frame, to_device);
            assert forall|j: int| 0 <= j < channels implies slot_rendered(
                *gain,
                *convert,
                audio_sample,
                amplitude,
                j,
                #[trigger] frame@[j],
            ) by {
                assert(slot_gained(*gain, audio_sample, amplitude, j, gained.slots()[j]));
                assert(call_ensures(*convert, (gained.slots()[j],), frame@[j]));
            }
        },
        None => {
            zero_frame(frame, silence);
        },
    }
    proof {
        let slot = frame@;
        assert(data@ =~= kept_head + (slot + kept_tail));
        assert(data@.take(base as int) =~= before.take(base as int));
        assert(data@.skip(base + channels) =~= before.skip(base + channels));
        assert(data@.subrange(base as int, base + channels) =~= slot);
    }
}

/// The output callback: fills `data`, a buffer of interleaved samples with
/// `channels` samples to a frame slot, for one invocation by the driver.
///
/// For each whole slot in order: while the device is not playing, or is
/// muted, the slot is silence and the queue is left alone. Otherwise one
/// frame is popped; each of its meaningful channels goes through
/// `gain(value, amplitude)` and then every channel through `convert`; an
/// empty queue gives silence. Samples behind the last whole slot are not
/// touched. The callback never waits.
///
/// A slot can be of any width as long as it only takes silence. A frame
/// fills a slot of at most eight samples: where the device consumes and
/// frames are queued, `channels` is at most eight.
pub fn audio_output_stream<T: Copy, G: Fn(u32, u32) -> u32, C: Fn(u32) -> T>(
    data: &mut [T],
    context: &AudioDeviceContext,
    queue: &mut FrameQueue,
    channels: u16,
    gain: G,
    convert: C,
    silence: T,
)
    requires
        0 < channels,
        context.consuming() && old(queue)@.len() > 0 ==> channels <= 8,
        forall|sample: u32, level: u32| call_requires(gain, (sample, level)),
        forall|sample: u32| call_requires(convert, (sample,)),
    ensures
        final(data)@.len() == old(data)@.len(),
        forall|k: int|
            0 <= k < slot_count(old(data)@.len() as int, channels as int) ==> slot_filled(
                #[trigger] frame_slot(final(data)@, channels as int, k),
                slot_source(*context, old(queue)@, k),
                context.volume_amplitude,
                gain,
                convert,
                silence,
            ),
        final(data)@.skip(slot_count(old(data)@.len() as int, channels as int) * channels)
            == old(data)@.skip(slot_count(old(data)@.len() as int, channels as int) * channels),
        final(queue)@ == old(queue)@.skip(
            frames_consumed(
                *context,
                old(queue)@.len(),
                slot_count(old(data)@.len() as int, channels as int) as nat,
            ) as int,
        ),
        !context.consuming() ==> final(queue)@ == old(queue)@,
        final(queue).limit() == old(queue).limit(),
{
    let width: usize = channels as usize;
    let len: usize = data.len();
    let slots: usize = len / width;
    let ghost before = data@;
    let ghost frames = queue@;
    let ghost ch = channels as int;
    let mut k: usize = 0;
    let mut base: usize = 0;
    proof {
        assert(frames.skip(0) =~= frames);
        assert(0 * ch == 0) by (nonlinear_arith);
        assert((len as int / ch) * ch <= len) by (nonlinear_arith)
            requires
                0 < ch,
                0 <= len,
        ;
    }
    while k < slots
        invariant
            0 < channels,
            context.consuming() && frames.len() > 0 ==> channels <= 8,
            frames == old(queue)@,
            width == channels,
            ch == channels,
            len == before.len(),
            data@.len() == len,
            slots == len / width,
            slots * ch <= len,
            k <= slots,
            base == k * ch,
            forall|sample: u32, level: u32| call_requires(gain, (sample, level)),
            forall|sample: u32| call_requires(convert, (sample,)),
            forall|j: int|
                0 <= j < k ==> slot_filled(
                    #[trigger] frame_slot(data@, ch, j),
                    slot_source(*context, frames, j),
                    context.volume_amplitude,
                    gain,
                    convert,
                    silence,
                ),
            data@.skip(base as int) == before.skip(base as int),
            queue@ == frames.skip(frames_consumed(*context, frames.len(), k as nat) as int),
            queue.limit() == old(queue).limit(),
        decreases slots - k,
    {
        proof {
            lemma_slot_count(len as int, ch, k as int);
        }
        let ghost entering = data@;
        let source: Option<AudioSample> = if context.playing && !context.mute {
            queue.pop_one()
        } else {
            None
        };
        proof {
            let next = frames_consumed(*context, frames.len(), (k + 1) as nat);
            assert(source == slot_source(*context, frames, k as int));
            assert(queue@ =~= frames.skip(next as int));
        }
        write_slot(
            data,
            base,
            width,
            source,
            context.volume_amplitude,
            &gain,
            &convert,
            silence,
        );
        proof {
            assert((k + 1) * ch == k * ch + ch) by (nonlinear_arith);
            assert(frame_slot(data@, ch, k as int) == data@.subrange(base as int, base + width));
            assert forall|j: int| 0 <= j < k implies slot_filled(
                #[trigger] frame_slot(data@, ch, j),
                slot_source(*context, frames, j),
                context.volume_amplitude,
                gain,
                convert,
                silence,
            ) by {
                lemma_slot_order(j, k as int, ch);
                assert(frame_slot(data@, ch, j) =~= data@.take(base as int).subrange(
                    j * ch,
                    (j + 1) * ch,
                ));
                assert(frame_slot(entering, ch, j) =~= entering.take(base as int).subrange(
                    j * ch,
                    (j + 1) * ch,
                ));
            }
            assert(data@.skip(base + width) =~= before.skip(base + width)) by {
                assert(entering.skip(base + width) =~= entering.skip(base as int).skip(
                    width as int,
                ));
                assert(before.skip(base + width) =~= before.skip(base as int).skip(width as int));
            }
        }
        base += width;
        k += 1;
    }
}

/// What repeated callbacks leave of the queue: `slots[i]` is the number of
/// whole output slots of the `i`-th invocation.
pub open spec fn frames_after_callbacks(
    context: AudioDeviceContext,
    frames: Seq<AudioSample>,
    slots: Seq<nat>,
) -> Seq<AudioSample>
    decreases slots.len(),
{
    if slots.len() == 0 {
        frames
    } else {
        frames_after_callbacks(
            context,
            frames.skip(frames_consumed(context, frames.len(), slots[0]) as int),
            slots.drop_first(),
        )
    }
}

/// While the device is not playing, any number of callback invocations
/// leaves the queue exactly as it was, and every output slot of each of
/// them is silence.
pub proof fn lemma_paused_callbacks_are_silent(
    context: AudioDeviceContext,
    frames: Seq<AudioSample>,
    slots: Seq<nat>,
)
    requires
        !context.playing,
    ensures
        frames_after_callbacks(context, frames, slots) == frames,
        forall|k: int| slot_source(context, frames, k) is None,
        forall|n: nat| frames_consumed(context, frames.len(), n) == 0,
    decreases slots.len(),
{
    if slots.len() > 0 {
        assert(frames.skip(0) =~= frames);
        lemma_paused_callbacks_are_silent(context, frames, slots.drop_first());
    }
}

/// A device that takes no frame can run the callback whatever the width of
/// its slots, as long as it has a stream of at least one channel: while it
/// is not playing, while it is muted, and while nothing is queued.
pub proof fn lemma_silent_device_can_fill(device: DeviceState)
    requires
        device.stream_built,
        device.sample_format matches Some(format) && format.channel_count > 0,
        !device.context.playing || device.context.mute || device.frames.len() == 0,
    ensures
        device.can_fill(),
{
}

/// A muted device, too, plays silence and leaves the queue alone.
pub proof fn lemma_muted_callbacks_are_silent(
    context: AudioDeviceContext,
    frames: Seq<AudioSample>,
    slots: Seq<nat>,
)
    requires
        context.mute,
    ensures
        frames_after_callbacks(context, frames, slots) == frames,
        forall|k: int| slot_source(context, frames, k) is None,
    decreases slots.len(),
{
    if slots.len() > 0 {
        assert(frames.skip(0) =~= frames);
        lemma_muted_callbacks_are_silent(context, frames, slots.drop_first());
    }
}

/// A consuming device plays the queued frames in the order they were
/// queued, one to a slot, and silence once the queue has run dry.
pub proof fn lemma_callback_plays_in_order(
    context: AudioDeviceContext,
    frames: Seq<AudioSample>,
    slots: nat,
)
    requires
        context.consuming(),
    ensures
        forall|k: int| 0 <= k < frames.len() ==> slot_source(context, frames, k) == Some(frames[k]),
        forall|k: int| frames.len() <= k ==> slot_source(context, frames, k) is None,
        frames.skip(frames_consumed(context, frames.len(), slots) as int).len() + frames_consumed(
            context,
            frames.len(),
            slots,
        ) == frames.len(),
{
}

/// Whether `error` is the failure that goes with the hardware layer's
/// answer. A built stream is no failure.
pub open spec fn probe_failure(probe: DeviceProbe, error: Error) -> bool {
    match probe {
        DeviceProbe::NoDevice => {
            &&& error matches Error::InitDevice { message }
            &&& message@ == "failed to get default output device"@
        },
        DeviceProbe::ConfigsFailed(cause) => {
            &&& error matches Error::DeviceConfig { message, source }
            &&& message@ == "failed to get supported output configs"@
            &&& source == cause
        },
        DeviceProbe::NoConfig => {
            &&& error matches Error::InitDevice { message }
            &&& message@ == "the audio device does not have a supported output format"@
        },
        DeviceProbe::StreamFailed(_, cause) => {
            &&& error matches Error::BuildStream { source }
            &&& source == cause
        },
        DeviceProbe::Ready(_) => false,
    }
}

/// Whether `error` says that the device is not available.
pub open spec fn unavailable_failure(error: Error) -> bool {
    &&& error matches Error::OpenDevice { message }
    &&& message@ == "the audio device is not available"@
}

/// The control state of an output device, as contracts see it.
pub struct DeviceState {
    /// Whether the device can be used.
    pub available: bool,
    /// Whether a hardware stream has been built for it.
    pub stream_built: bool,
    /// The negotiated format, once there is one.
    pub sample_format: Option<DeviceSampleFormat>,
    /// What the callback reads.
    pub context: AudioDeviceContext,
    /// The queued frames, oldest first.
    pub frames: Seq<AudioSample>,
    /// The fixed capacity of the queue.
    pub capacity: nat,
}

impl DeviceState {
    /// What holds of every device: an available device has a stream, and a
    /// device with a stream has a format.
    pub open spec fn wf(&self) -> bool {
        &&& self.available ==> self.stream_built
        &&& self.stream_built ==> self.sample_format is Some
    }

    /// A device that has not been initialised: unavailable, without stream
    /// or format, unmuted, at zero amplitude, playing, with an empty queue
    /// of `BUFFER_CAPACITY` frames.
    pub open spec fn fresh() -> DeviceState {
        DeviceState {
            available: false,
            stream_built: false,
            sample_format: None,
            context: AudioDeviceContext { mute: false, volume_amplitude: 0, playing: true },
            frames: Seq::empty(),
            capacity: BUFFER_CAPACITY as nat,
        }
    }

    /// The device after the hardware layer's answer is taken in: a built
    /// stream makes it available with the negotiated format, a stream that
    /// could not be built leaves the format recorded, and every other
    /// answer changes nothing.
    pub open spec fn probed(&self, probe: DeviceProbe) -> DeviceState {
        match probe {
            DeviceProbe::StreamFailed(format, _) => DeviceState {
                sample_format: Some(format),
                ..*self
            },
            DeviceProbe::Ready(format) => DeviceState {
                available: true,
                stream_built: true,
                sample_format: Some(format),
                ..*self
            },
            _ => *self,
        }
    }

    /// The device with another value of the callback's `playing` flag.
    pub open spec fn with_playing(&self, playing: bool) -> DeviceState {
        DeviceState { context: AudioDeviceContext { playing, ..self.context }, ..*self }
    }

    /// The device with another value of the callback's `mute` flag.
    pub open spec fn with_mute(&self, mute: bool) -> DeviceState {
        DeviceState { context: AudioDeviceContext { mute, ..self.context }, ..*self }
    }

    /// The device with another gain.
    pub open spec fn with_amplitude(&self, amplitude: u32) -> DeviceState {
        DeviceState {
            context: AudioDeviceContext { volume_amplitude: amplitude, ..self.context },
            ..*self
        }
    }

    /// The device with an empty queue.
    pub open spec fn flushed(&self) -> DeviceState {
        DeviceState { frames: Seq::empty(), ..*self }
    }

    /// Whether the callback can run on this device: a stream was built, for
    /// at least one channel, and for at most eight where the device
    /// consumes and frames are queued.
    pub open spec fn can_fill(&self) -> bool {
        &&& self.stream_built
        &&& self.sample_format matches Some(format) && 0 < format.channel_count && (
        self.context.consuming() && self.frames.len() > 0 ==> format.channel_count <= 8)
    }
}

/// How far the hardware side of a device has come.
pub(crate) enum Hardware {
    /// Nothing has been negotiated.
    Untouched,
    /// A format was chosen, but no stream stands.
    Negotiated(DeviceSampleFormat),
    /// A stream stands with this format; the flag says whether the device
    /// is still usable.
    Built(DeviceSampleFormat, bool),
}

/// An output device: availability, the negotiated format, the callback's
/// context and the frame queue that the callback drains.
pub struct AudioDevice {
    pub(crate) hardware: Hardware,
    pub(crate) queue: FrameQueue,
    pub(crate) context: AudioDeviceContext,
}

impl View for AudioDevice {
    type V = DeviceState;

    open(crate) spec fn view(&self) -> DeviceState {
        DeviceState {
            available: self.hardware matches Hardware::Built(_, true),
            stream_built: self.hardware is Built,
            sample_format: match self.hardware {
                Hardware::Untouched => None,
                Hardware::Negotiated(format) => Some(format),
                Hardware::Built(format, _) => Some(format),
            },
            context: self.context,
            frames: self.queue@,
            capacity: self.queue.limit(),
        }
    }
}

impl AudioDevice {
    /// Every device meets `DeviceState::wf`.
    pub proof fn lemma_wf(&self)
        ensures
            self@.wf(),
    {
    }

    /// A device that has not been initialised.
    pub fn new() -> (device: AudioDevice)
        ensures
            device@ == DeviceState::fresh(),
    {
        AudioDevice {
            hardware: Hardware::Untouched,
            queue: FrameQueue::new(BUFFER_CAPACITY),
            context: AudioDeviceContext { mute: false, volume_amplitude: 0, playing: true },
        }
    }

    /// Takes in what the hardware layer answered for the default output
    /// device.
    ///
    /// A built stream makes the device available with the negotiated
    /// format. A stream that could not be built leaves the format recorded
    /// and the rest as it was. Every other answer changes nothing. Each
    /// failure is returned as its error.
    pub fn init_default_device(&mut self, probe: DeviceProbe) -> (result: Result<(), Error>)
        ensures
            final(self)@ == old(self)@.probed(probe),
            result is Ok <==> probe is Ready,
            result matches Err(error) ==> probe_failure(probe, error),
    {
        match probe {
            DeviceProbe::NoDevice => Err(
                Error::InitDevice { message: "failed to get default output device".to_owned() },
            ),
            DeviceProbe::ConfigsFailed(cause) => Err(
                Error::DeviceConfig {
                    message: "failed to get supported output configs".to_owned(),
                    source: cause,
                },
            ),
            DeviceProbe::NoConfig => Err(
                Error::InitDevice {
                    message: "the audio device does not have a supported output format".to_owned(),
                },
            ),
            DeviceProbe::StreamFailed(format, cause) => {
                self.hardware = match self.hardware {
                    Hardware::Built(_, available) => Hardware::Built(format, available),
                    _ => Hardware::Negotiated(format),
                };
                Err(Error::BuildStream { source: cause })
            },
            DeviceProbe::Ready(format) => {
                self.hardware = Hardware::Built(format, true);
                Ok(())
            },
        }
    }

    /// Decides whether the hardware stream may be started: it may on an
    /// available device with a stream. The caller then starts it.
    pub fn open(&self) -> (result: Result<(), Error>)
        ensures
            result is Ok <==> self@.available,
            result matches Err(error) ==> unavailable_failure(error),
    {
        match self.hardware {
            Hardware::Built(_, true) => Ok(()),
            _ => Err(Error::OpenDevice { message: "the audio device is not available".to_owned() }),
        }
    }

    /// Stops the callback from consuming frames. The hardware stream keeps
    /// running and plays silence.
    pub fn pause(&mut self)
        ensures
            final(self)@ == old(self)@.with_playing(false),
    {
        self.context.playing = false;
    }

    /// Lets the callback consume frames again.
    pub fn resume(&mut self)
        ensures
            final(self)@ == old(self)@.with_playing(true),
    {
        self.context.playing = true;
    }

    /// Gives up the hardware stream: the device becomes unavailable and
    /// loses its stream and its format. The queue and the callback's
    /// context are kept, so that `init_default_device` can bring the same
    /// device back. The caller stops and releases the stream itself.
    pub fn close(&mut self) -> (result: Result<(), Error>)
        ensures
            result is Ok,
            final(self)@ == (DeviceState {
                available: false,
                stream_built: false,
                sample_format: None,
                ..old(self)@
            }),
    {
        self.hardware = Hardware::Untouched;
        Ok(())
    }

    /// Records a fault that the driver reported on its own: the device
    /// becomes unavailable, and later operations that need it find it so.
    pub fn on_stream_error(&mut self)
        ensures
            final(self)@ == (DeviceState { available: false, ..old(self)@ }),
    {
        self.hardware = match self.hardware {
            Hardware::Built(format, _) => Hardware::Built(format, false),
            Hardware::Negotiated(format) => Hardware::Negotiated(format),
            Hardware::Untouched => Hardware::Untouched,
        };
    }

    /// Drops every queued frame.
    pub fn clear_output_buffer(&mut self)
        ensures
            final(self)@ == old(self)@.flushed(),
    {
        Self::clear_buffer(&mut self.queue);
    }

    /// Whether the device can be used.
    pub fn is_available(&self) -> (available: bool)
        ensures
            available == self@.available,
    {
        match self.hardware {
            Hardware::Built(_, available) => available,
            _ => false,
        }
    }

    /// Whether the output callback can run on this device.
    pub fn can_fill(&self) -> (possible: bool)
        ensures
            possible == self@.can_fill(),
    {
        match self.hardware {
            Hardware::Built(format, _) => {
                let silent: bool = !self.context.playing || self.context.mute
                    || self.queue.occupancy() == 0;
                0 < format.channel_count && (silent || format.channel_count <= 8)
            },
            _ => false,
        }
    }

    /// The negotiated format, once there is one.
    pub fn sample_format(&self) -> (format: Option<DeviceSampleFormat>)
        ensures
            format == self@.sample_format,
            self@.wf(),
    {
        match self.hardware {
            Hardware::Untouched => None,
            Hardware::Negotiated(format) => Some(format),
            Hardware::Built(format, _) => Some(format),
        }
    }

    /// What the callback reads.
    pub fn context(&self) -> (context: AudioDeviceContext)
        ensures
            context == self@.context,
    {
        self.context
    }

    /// Number of frames queued.
    pub fn queued(&self) -> (len: usize)
        ensures
            len == self@.frames.len(),
            len <= self@.capacity,
    {
        self.queue.occupancy()
    }

    /// Sets the gain that the callback applies, a linear amplitude given as
    /// the bit pattern of a 32-bit IEEE-754 number.
    pub fn set_volume(&mut self, amplitude: u32)
        ensures
            final(self)@ == old(self)@.with_amplitude(amplitude),
    {
        self.context.volume_amplitude = amplitude;
    }

    /// Switches muting on or off.
    pub fn set_mute(&mut self, mute: bool)
        ensures
            final(self)@ == old(self)@.with_mute(mute),
    {
        self.context.mute = mute;
    }

    /// Drops every frame of `queue`, by a discard of as many frames as the
    /// queue has room for.
    pub fn clear_buffer(queue: &mut FrameQueue)
        ensures
            final(queue)@ == after_discard(old(queue)@, old(queue).limit()),
            final(queue)@ == Seq::<AudioSample>::empty(),
            final(queue).limit() == old(queue).limit(),
    {
        let capacity: usize = queue.capacity();
        queue.discard(capacity);
    }

    /// Runs the output callback on this device's context, queue and channel
    /// count: see `audio_output_stream`.
    pub fn fill_output<T: Copy, G: Fn(u32, u32) -> u32, C: Fn(u32) -> T>(
        &mut self,
        data: &mut [T],
        gain: G,
        convert: C,
        silence: T,
    )
        requires
            old(self)@.can_fill(),
            forall|sample: u32, level: u32| call_requires(gain, (sample, level)),
            forall|sample: u32| call_requires(convert, (sample,)),
        ensures
            final(data)@.len() == old(data)@.len(),
            forall|k: int|
                0 <= k < slot_count(
                    old(data)@.len() as int,
                    old(self)@.sample_format->0.channel_count as int,
                ) ==> slot_filled(
                    #[trigger] frame_slot(
                        final(data)@,
                        old(self)@.sample_format->0.channel_count as int,
                        k,
                    ),
                    slot_source(old(self)@.context, old(self)@.frames, k),
                    old(self)@.context.volume_amplitude,
                    gain,
                    convert,
                    silence,
                ),
            final(data)@.skip(
                slot_count(
                    old(data)@.len() as int,
                    old(self)@.sample_format->0.channel_count as int,
                ) * old(self)@.sample_format->0.channel_count,
            ) == old(data)@.skip(
                slot_count(
                    old(data)@.len() as int,
                    old(self)@.sample_format->0.channel_count as int,
                ) * old(self)@.sample_format->0.channel_count,
            ),
            final(self)@ == (DeviceState {
                frames: old(self)@.frames.skip(
                    frames_consumed(
                        old(self)@.context,
                        old(self)@.frames.len(),
                        slot_count(
                            old(data)@.len() as int,
                            old(self)@.sample_format->0.channel_count as int,
                        ) as nat,
                    ) as int,
                ),
                ..old(self)@
            }),
    {
        let context: AudioDeviceContext = self.context;
        match self.hardware {
            Hardware::Built(format, _) => {
                audio_output_stream(
                    data,
                    &context,
                    &mut self.queue,
                    format.channel_count,
                    gain,
                    convert,
                    silence,
                );
            },
            _ => {},
        }
    }
}

} // verus!
