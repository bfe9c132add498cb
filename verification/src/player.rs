//! The playback controller: owns at most one output device and one decode
//! pipeline, and offers the transport operations over both.
//!
//! The controller does no I/O. Whoever drives it probes the hardware and
//! the media file and hands over what came of it, runs the output callback
//! through `fill_output`, and runs the decode worker through `worker_step`.
//!
//! `state` says what each operation does to a player, `laws` proves what
//! holds of the whole, and this file holds the player itself.

pub mod laws;
pub mod state;

use crate::audio::device;
use crate::audio::device::probe_failure;
use crate::audio::device::slot_filled;
use crate::audio::device::slot_source;
use crate::audio::device::unavailable_failure;
use crate::audio::device::AudioDevice;
use crate::audio::device::DeviceProbe;
use crate::audio::device::DeviceSampleFormat;
use crate::audio::device::DeviceState;
use crate::audio::sample::frame_slot;
use crate::audio::sample::slot_count;
use crate::audio::source;
use crate::audio::source::close_failure;
use crate::audio::source::open_failure;
use crate::audio::source::seek_failure;
use crate::audio::source::worker::target_occupancy;
use crate::audio::source::worker::WorkerAction;
use crate::audio::source::worker::WorkerEvent;
use crate::audio::source::AudioSource;
use crate::audio::source::FFmpegSource;
use crate::audio::source::MediaProbe;
use crate::info::media::MediaInfo;
use crate::player::state::PlayerState;
use vstd::prelude::*;

verus! {

/// The volume level of a new player: the bit pattern of the 32-bit
/// IEEE-754 number one, full volume.
pub const FULL_VOLUME: u32 = 0x3f80_0000;

/// Why a transport operation failed.
#[derive(Debug)]
pub enum Error {
    /// The output device failed.
    Device { source: device::Error },
    /// The media source failed.
    Source { source: source::Error },
}

/// Whether `error` is the device failure that goes with the hardware
/// layer's answer.
pub open spec fn device_failure(probe: DeviceProbe, error: Error) -> bool {
    error matches Error::Device { source } && probe_failure(probe, source)
}

/// Whether `error` says that the device is not available.
pub open spec fn no_device_failure(error: Error) -> bool {
    error matches Error::Device { source } && unavailable_failure(source)
}

/// The transport operations of a player.
pub trait Player {
    /// The player as contracts see it.
    spec fn state(&self) -> PlayerState;

    /// Takes in what the hardware layer answered for the default output
    /// device; `amplitude` is the gain that goes with the current volume
    /// level. Succeeds exactly where a stream was built.
    fn init_device_defalut(&mut self, probe: DeviceProbe, amplitude: u32) -> (result: Result<
        (),
        Error,
    >)
        ensures
            final(self).state() == old(self).state().device_probed(probe, amplitude),
            result is Ok <==> probe is Ready,
            result matches Err(error) ==> device_failure(probe, error),
    ;

    /// Opens media, given what opening the file came to. Needs an available
    /// device. Closes the earlier source first.
    fn open(&mut self, probe: MediaProbe) -> (result: Result<(), Error>)
        ensures
            final(self).state() == old(self).state().media_opened(probe),
            result is Ok <==> !old(self).state().needs_device() && probe is Opened,
            result matches Err(error) ==> if old(self).state().needs_device() {
                no_device_failure(error)
            } else {
                error matches Error::Source { source } && open_failure(probe, source)
            },
    ;

    /// Closes the source, if there is one. Fails where the source is not
    /// open.
    fn close(&mut self) -> (result: Result<(), Error>)
        ensures
            final(self).state() == old(self).state().closed(),
            result is Err <==> (old(self).state().source matches Some(source) && !source.opened),
            result matches Err(error) ==> error matches Error::Source { source } && close_failure(
                source,
            ),
    ;

    /// Starts or resumes playback. Needs an available device.
    fn play(&mut self) -> (result: Result<(), Error>)
        ensures
            final(self).state() == old(self).state().played(),
            result is Ok <==> !old(self).state().needs_device(),
            result matches Err(error) ==> no_device_failure(error),
    ;

    /// Stops playback: pauses the source, throws away what is buffered,
    /// and asks for a seek to time zero. Where the seek cannot be asked
    /// for, that failure is returned, and the first two steps stand.
    fn stop(&mut self) -> (result: Result<(), Error>)
        ensures
            final(self).state() == old(self).state().stopped(),
            result is Err <==> old(self).state().seek_fails(),
            result matches Err(error) ==> {
                &&& error matches Error::Source { source }
                &&& seek_failure(old(self).state().halted().source->0, source)
            },
    ;

    /// Pauses the device and the source.
    fn pause(&mut self) -> (result: Result<(), Error>)
        ensures
            final(self).state() == old(self).state().paused(),
            result is Ok,
    ;

    /// Asks the source to continue from `time`.
    fn seek(&mut self, time: i64) -> (result: Result<(), Error>)
        ensures
            final(self).state() == old(self).state().sought(time),
            result is Err <==> old(self).state().seek_fails(),
            result matches Err(error) ==> {
                &&& error matches Error::Source { source }
                &&& seek_failure(old(self).state().source->0, source)
            },
    ;

    /// Bitrate of the media, cut to 32 bits; zero without a source.
    fn get_bitrate(&self) -> (bitrate: u32)
        ensures
            bitrate == match self.state().source {
                Some(source) => source.media_info.bitrate as u32,
                None => 0u32,
            },
    ;

    /// Length of the media; zero without a source.
    fn get_duration(&self) -> (duration: i64)
        ensures
            duration == match self.state().source {
                Some(source) => source.media_info.duration,
                None => 0i64,
            },
    ;

    /// Presentation time of the last packet seen; zero without a source.
    fn get_current_time(&self) -> (time: i64)
        ensures
            time == match self.state().source {
                Some(source) => source.status.current_time,
                None => 0i64,
            },
    ;

    /// Whether the source is streaming.
    fn is_playing(&self) -> (playing: bool)
        ensures
            playing == match self.state().source {
                Some(source) => source.status.playing,
                None => false,
            },
    ;

    /// The volume level last set.
    fn get_volume(&self) -> (volume: u32)
        ensures
            volume == self.state().volume,
    ;

    /// Sets the volume level; `amplitude` is the gain that goes with it.
    fn set_volume(&mut self, volume: u32, amplitude: u32) -> (result: Result<(), Error>)
        ensures
            final(self).state() == old(self).state().with_volume(volume, amplitude),
            result is Ok,
    ;

    /// Switches muting on or off.
    fn set_mute(&mut self, mute: bool) -> (result: Result<(), Error>)
        ensures
            final(self).state() == old(self).state().with_mute(mute),
            result is Ok,
    ;

    /// What is known about the media, if there is a source.
    fn get_media_info(&self) -> (info: Option<&MediaInfo>)
        ensures
            match self.state().source {
                Some(source) => info matches Some(media) && media@ == source.media_info,
                None => info is None,
            },
    ;
}

/// A device together with the source that plays through it.
struct Deck {
    device: AudioDevice,
    source: Option<FFmpegSource>,
}

/// The player: at most one output device and one decode pipeline, and the
/// volume level.
pub struct YakoPlayer {
    deck: Option<Deck>,
    volume: u32,
}

impl View for YakoPlayer {
    type V = PlayerState;

    closed spec fn view(&self) -> PlayerState {
        PlayerState {
            device: match self.deck {
                Some(deck) => Some(deck.device@),
                None => None,
            },
            source: match self.deck {
                Some(deck) => match deck.source {
                    Some(source) => Some(source@),
                    None => None,
                },
                None => None,
            },
            volume: self.volume,
        }
    }
}

impl YakoPlayer {
    /// Every player meets `PlayerState::wf`.
    pub proof fn lemma_wf(&self)
        ensures
            self@.wf(),
    {
    }

    /// A player without device or source, at full volume.
    pub fn new() -> (player: YakoPlayer)
        ensures
            player@ == (PlayerState { device: None, source: None, volume: FULL_VOLUME }),
    {
        YakoPlayer { deck: None, volume: FULL_VOLUME }
    }

    /// Whether the device has to be initialised before media can be opened
    /// or played.
    pub fn needs_device(&self) -> (needed: bool)
        ensures
            needed == self@.needs_device(),
    {
        match &self.deck {
            Some(deck) => !deck.device.is_available(),
            None => true,
        }
    }

    /// Whether the output callback can run: there is a device with a
    /// stream of at least one channel, and of at most eight where the
    /// device consumes and frames are queued.
    pub fn can_fill(&self) -> (possible: bool)
        ensures
            possible == (self@.device matches Some(device) && device.can_fill()),
    {
        match &self.deck {
            Some(deck) => deck.device.can_fill(),
            None => false,
        }
    }

    /// Whether there is a source with a file open.
    pub fn has_open_source(&self) -> (open: bool)
        ensures
            open == (self@.source matches Some(source) && source.opened),
    {
        match &self.deck {
            Some(deck) => match &deck.source {
                Some(source) => source.is_open(),
                None => false,
            },
            None => false,
        }
    }

    /// The format negotiated with the device, once there is one.
    pub fn device_format(&self) -> (format: Option<DeviceSampleFormat>)
        ensures
            format == match self@.device {
                Some(device) => device.sample_format,
                None => None,
            },
    {
        match &self.deck {
            Some(deck) => deck.device.sample_format(),
            None => None,
        }
    }

    /// Records a fault that the driver reported on its own: the device, if
    /// there is one, becomes unavailable.
    pub fn on_stream_error(&mut self)
        ensures
            final(self)@ == (PlayerState {
                device: match old(self)@.device {
                    Some(device) => Some(DeviceState { available: false, ..device }),
                    None => None,
                },
                ..old(self)@
            }),
    {
        match &mut self.deck {
            Some(deck) => {
                deck.device.on_stream_error();
            },
            None => {},
        }
    }

    /// One step of the decode worker on this player's source and queue.
    pub fn worker_step(&mut self, event: WorkerEvent) -> (action: WorkerAction)
        ensures
            (final(self)@, action) == old(self)@.worker_stepped(event),
    {
        match &mut self.deck {
            Some(deck) => match &mut deck.source {
                Some(source) => source.worker_step(&mut deck.device.queue, event),
                None => WorkerAction::Exit,
            },
            None => WorkerAction::Exit,
        }
    }
}

impl YakoPlayer {
    /// Runs the output callback on this player's device: see
    /// `audio_output_stream`.
    pub fn fill_output<T: Copy, G: Fn(u32, u32) -> u32, C: Fn(u32) -> T>(
        &mut self,
        data: &mut [T],
        gain: G,
        convert: C,
        silence: T,
    )
        requires
            old(self)@.device matches Some(device) && device.can_fill(),
            forall|sample: u32, level: u32| call_requires(gain, (sample, level)),
            forall|sample: u32| call_requires(convert, (sample,)),
        ensures
            final(data)@.len() == old(data)@.len(),
            forall|k: int|
                0 <= k < slot_count(
                    old(data)@.len() as int,
                    old(self)@.device->0.sample_format->0.channel_count as int,
                ) ==> slot_filled(
                    #[trigger] frame_slot(
                        final(data)@,
                        old(self)@.device->0.sample_format->0.channel_count as int,
                        k,
                    ),
                    slot_source(old(self)@.device->0.context, old(self)@.device->0.frames, k),
                    old(self)@.device->0.context.volume_amplitude,
                    gain,
                    convert,
                    silence,
                ),
            final(data)@.skip(
                slot_count(
                    old(data)@.len() as int,
                    old(self)@.device->0.sample_format->0.channel_count as int,
                ) * old(self)@.device->0.sample_format->0.channel_count,
            ) == old(data)@.skip(
                slot_count(
                    old(data)@.len() as int,
                    old(self)@.device->0.sample_format->0.channel_count as int,
                ) * old(self)@.device->0.sample_format->0.channel_count,
            ),
            final(self)@ == old(self)@.filled(
                slot_count(
                    old(data)@.len() as int,
                    old(self)@.device->0.sample_format->0.channel_count as int,
                ) as nat,
            ),
    {
        match &mut self.deck {
            Some(deck) => {
                deck.device.fill_output(data, gain, convert, silence);
            },
            None => {},
        }
    }
}

impl Default for YakoPlayer {
    /// A player without device or source, at full volume.
    fn default() -> (player: Self)
        ensures
            player@ == (PlayerState { device: None, source: None, volume: FULL_VOLUME }),
    {
        YakoPlayer::new()
    }
}

impl Player for YakoPlayer {
    open spec fn state(&self) -> PlayerState {
        self@
    }

    fn init_device_defalut(&mut self, probe: DeviceProbe, amplitude: u32) -> (result: Result<
        (),
        Error,
    >) {
        let ready: Option<DeviceSampleFormat> = match &probe {
            DeviceProbe::Ready(format) => Some(*format),
            _ => None,
        };
        match &mut self.deck {
            Some(deck) => {
                match deck.device.init_default_device(probe) {
                    Ok(()) => {},
                    Err(error) => {
                        return Err(Error::Device { source: error });
                    },
                }
                deck.device.set_volume(amplitude);
                match deck.device.open() {
                    Ok(()) => {},
                    Err(error) => {
                        return Err(Error::Device { source: error });
                    },
                }
                match ready {
                    Some(format) => match &mut deck.source {
                        Some(source) => {
                            source.set_dynamic_device_buffer_size(sizing_for(format.sample_rate));
                        },
                        None => {},
                    },
                    None => {},
                }
                Ok(())
            },
            None => {
                let mut device = AudioDevice::new();
                match device.init_default_device(probe) {
                    Ok(()) => {},
                    Err(error) => {
                        return Err(Error::Device { source: error });
                    },
                }
                device.set_volume(amplitude);
                match device.open() {
                    Ok(()) => {},
                    Err(error) => {
                        return Err(Error::Device { source: error });
                    },
                }
                self.deck = Some(Deck { device, source: None });
                Ok(())
            },
        }
    }

    fn open(&mut self, probe: MediaProbe) -> (result: Result<(), Error>) {
        match &mut self.deck {
            Some(deck) => {
                match deck.device.open() {
                    Ok(()) => {},
                    Err(error) => {
                        return Err(Error::Device { source: error });
                    },
                }
                let size: usize = match deck.device.sample_format() {
                    Some(format) => sizing_for(format.sample_rate),
                    None => 0,
                };
                match &mut deck.source {
                    Some(earlier) => {
                        if earlier.is_open() {
                            let _ = earlier.close(&mut deck.device.queue);
                        }
                    },
                    None => {},
                }
                let mut source = FFmpegSource::new(size);
                match source.open(probe) {
                    Ok(()) => {},
                    Err(error) => {
                        return Err(Error::Source { source: error });
                    },
                }
                deck.source = Some(source);
                Ok(())
            },
            None => Err(
                Error::Device {
                    source: device::Error::OpenDevice {
                        message: "the audio device is not available".to_owned(),
                    },
                },
            ),
        }
    }

    fn close(&mut self) -> (result: Result<(), Error>) {
        match &mut self.deck {
            Some(deck) => match &mut deck.source {
                Some(source) => match source.close(&mut deck.device.queue) {
                    Ok(()) => Ok(()),
                    Err(error) => Err(Error::Source { source: error }),
                },
                None => Ok(()),
            },
            None => Ok(()),
        }
    }

    fn play(&mut self) -> (result: Result<(), Error>) {
        match &mut self.deck {
            Some(deck) => {
                match deck.device.open() {
                    Ok(()) => {},
                    Err(error) => {
                        return Err(Error::Device { source: error });
                    },
                }
                deck.device.resume();
                match &mut deck.source {
                    Some(source) => {
                        let _ = source.streaming();
                    },
                    None => {},
                }
                Ok(())
            },
            None => Err(
                Error::Device {
                    source: device::Error::OpenDevice {
                        message: "the audio device is not available".to_owned(),
                    },
                },
            ),
        }
    }

    fn stop(&mut self) -> (result: Result<(), Error>) {
        match &mut self.deck {
            Some(deck) => match &mut deck.source {
                Some(source) => {
                    let _ = source.pause();
                    source.clear_buffer();
                    deck.device.clear_output_buffer();
                    match source.seek(0) {
                        Ok(()) => Ok(()),
                        Err(error) => Err(Error::Source { source: error }),
                    }
                },
                None => Ok(()),
            },
            None => Ok(()),
        }
    }

    fn pause(&mut self) -> (result: Result<(), Error>) {
        match &mut self.deck {
            Some(deck) => {
                deck.device.pause();
                match &mut deck.source {
                    Some(source) => {
                        let _ = source.pause();
                    },
                    None => {},
                }
                Ok(())
            },
            None => Ok(()),
        }
    }

    fn seek(&mut self, time: i64) -> (result: Result<(), Error>) {
        match &mut self.deck {
            Some(deck) => match &mut deck.source {
                Some(source) => match source.seek(time) {
                    Ok(()) => Ok(()),
                    Err(error) => Err(Error::Source { source: error }),
                },
                None => Ok(()),
            },
            None => Ok(()),
        }
    }

    fn get_bitrate(&self) -> (bitrate: u32) {
        match &self.deck {
            Some(deck) => match &deck.source {
                Some(source) => source.get_bitrate() as u32,
                None => 0,
            },
            None => 0,
        }
    }

    fn get_duration(&self) -> (duration: i64) {
        match &self.deck {
            Some(deck) => match &deck.source {
                Some(source) => source.get_duration(),
                None => 0,
            },
            None => 0,
        }
    }

    fn get_current_time(&self) -> (time: i64) {
        match &self.deck {
            Some(deck) => match &deck.source {
                Some(source) => source.get_current_time(),
                None => 0,
            },
            None => 0,
        }
    }

    fn is_playing(&self) -> (playing: bool) {
        match &self.deck {
            Some(deck) => match &deck.source {
                Some(source) => source.is_streaming(),
                None => false,
            },
            None => false,
        }
    }

    fn get_volume(&self) -> (volume: u32) {
        self.volume
    }

    fn set_volume(&mut self, volume: u32, amplitude: u32) -> (result: Result<(), Error>) {
        self.volume = volume;
        match &mut self.deck {
            Some(deck) => {
                deck.device.set_volume(amplitude);
            },
            None => {},
        }
        Ok(())
    }

    fn set_mute(&mut self, mute: bool) -> (result: Result<(), Error>) {
        match &mut self.deck {
            Some(deck) => {
                deck.device.set_mute(mute);
            },
            None => {},
        }
        Ok(())
    }

    fn get_media_info(&self) -> (info: Option<&MediaInfo>) {
        match &self.deck {
            Some(deck) => match &deck.source {
                Some(source) => Some(source.get_media_info()),
                None => None,
            },
            None => None,
        }
    }
}

/// The target occupancy, in frames, for a device of this sample rate:
/// 80 ms of audio.
pub fn sizing_for(sample_rate: u32) -> (size: usize)
    ensures
        size == target_occupancy(sample_rate),
{
    let wide: u64 = sample_rate as u64;
    let frames: u64 = wide * 2 / 25;
    frames as usize
}

} // verus!
