//! A player as contracts see it, and what each transport operation, each
//! step of the worker and each run of the output callback does to it.

use crate::audio::device::frames_consumed;
use crate::audio::device::DeviceProbe;
use crate::audio::device::DeviceState;
use crate::audio::source::worker::target_occupancy;
use crate::audio::source::worker::worker_transition;
use crate::audio::source::worker::SourceState;
use crate::audio::source::worker::WorkerAction;
use crate::audio::source::worker::WorkerEvent;
use crate::audio::source::MediaProbe;
use vstd::prelude::*;

verus! {

/// A player as contracts see it.
pub struct PlayerState {
    /// The output device, once there is one.
    pub device: Option<DeviceState>,
    /// The decode pipeline of the media last opened, once there is one.
    pub source: Option<SourceState>,
    /// The volume level last set, as the bit pattern of a 32-bit IEEE-754
    /// number between zero and one.
    pub volume: u32,
}

impl PlayerState {
    /// A source exists only beside a device.
    pub open spec fn wf(&self) -> bool {
        self.source is Some ==> self.device is Some
    }

    /// Whether the device has to be initialised before media can be opened
    /// or played: there is none, or it is not available.
    pub open spec fn needs_device(&self) -> bool {
        match self.device {
            Some(device) => !device.available,
            None => true,
        }
    }

    /// The target occupancy that goes with the device's sample rate.
    pub open spec fn sizing(&self) -> nat {
        match self.device {
            Some(device) => match device.sample_format {
                Some(format) => target_occupancy(format.sample_rate),
                None => 0,
            },
            None => 0,
        }
    }

    /// The player after the hardware layer's answer is taken in.
    ///
    /// A built stream gives an available device, a new one where there was
    /// none, with the gain set to `amplitude`; the source, if there is one,
    /// is resized to the device's sample rate. Any other answer goes to the
    /// device that is there and creates none.
    pub open spec fn device_probed(&self, probe: DeviceProbe, amplitude: u32) -> PlayerState {
        match probe {
            DeviceProbe::Ready(format) => {
                let base = match self.device {
                    Some(device) => device,
                    None => DeviceState::fresh(),
                };
                PlayerState {
                    device: Some(base.probed(probe).with_amplitude(amplitude)),
                    source: match self.source {
                        Some(source) => Some(source.resized(target_occupancy(format.sample_rate))),
                        None => None,
                    },
                    ..*self
                }
            },
            _ => PlayerState {
                device: match self.device {
                    Some(device) => Some(device.probed(probe)),
                    None => None,
                },
                ..*self
            },
        }
    }

    /// The player after its source, if it has an open one, is closed: the
    /// source is closed and the queue emptied.
    pub open spec fn source_closed(&self) -> PlayerState {
        match self.source {
            Some(source) => if source.opened {
                PlayerState {
                    device: match self.device {
                        Some(device) => Some(device.flushed()),
                        None => None,
                    },
                    source: Some(source.closed()),
                    ..*self
                }
            } else {
                *self
            },
            None => *self,
        }
    }

    /// The player after media was opened on an available device: the
    /// earlier source is closed first; a file that stands open becomes the
    /// new source, sized to the device's sample rate.
    pub open spec fn media_opened(&self, probe: MediaProbe) -> PlayerState {
        if self.needs_device() {
            *self
        } else if probe is Opened {
            PlayerState {
                source: Some(SourceState::fresh(self.sizing()).probed(probe)),
                ..self.source_closed()
            }
        } else {
            self.source_closed()
        }
    }

    /// The player after `close`: the source, if there is one, is closed,
    /// or, where it was not open, marked unavailable.
    pub open spec fn closed(&self) -> PlayerState {
        match self.source {
            Some(source) => if source.opened {
                self.source_closed()
            } else {
                PlayerState { source: Some(source.unavailable()), ..*self }
            },
            None => *self,
        }
    }

    /// The player after `play` on an available device: the device consumes
    /// and the source streams.
    pub open spec fn played(&self) -> PlayerState {
        if self.needs_device() {
            *self
        } else {
            PlayerState {
                device: match self.device {
                    Some(device) => Some(device.with_playing(true)),
                    None => None,
                },
                source: match self.source {
                    Some(source) => Some(source.with_playing(true)),
                    None => None,
                },
                ..*self
            }
        }
    }

    /// The player after `pause`: neither the device nor the source plays.
    pub open spec fn paused(&self) -> PlayerState {
        PlayerState {
            device: match self.device {
                Some(device) => Some(device.with_playing(false)),
                None => None,
            },
            source: match self.source {
                Some(source) => Some(source.with_playing(false)),
                None => None,
            },
            ..*self
        }
    }

    /// The player after the first two steps of `stop`: the source is
    /// paused and drops what it has in hand, and the queue is empty.
    pub open spec fn halted(&self) -> PlayerState {
        match self.source {
            Some(source) => PlayerState {
                device: match self.device {
                    Some(device) => Some(device.flushed()),
                    None => None,
                },
                source: Some(source.with_playing(false).dropping()),
                ..*self
            },
            None => *self,
        }
    }

    /// The player after a seek to `time`: the request waits at the source
    /// if it takes seeks; otherwise nothing changes.
    pub open spec fn sought(&self, time: i64) -> PlayerState {
        match self.source {
            Some(source) => if source.takes_seeks() {
                PlayerState { source: Some(source.seek_requested(time)), ..*self }
            } else {
                *self
            },
            None => *self,
        }
    }

    /// Whether a seek on this player fails: it has a source, and the
    /// source takes no seeks.
    pub open spec fn seek_fails(&self) -> bool {
        match self.source {
            Some(source) => !source.takes_seeks(),
            None => false,
        }
    }

    /// The player after `stop`: halted, then sent to time zero.
    pub open spec fn stopped(&self) -> PlayerState {
        self.halted().sought(0)
    }

    /// The player with another volume level and the gain that goes with
    /// it.
    pub open spec fn with_volume(&self, volume: u32, amplitude: u32) -> PlayerState {
        PlayerState {
            device: match self.device {
                Some(device) => Some(device.with_amplitude(amplitude)),
                None => None,
            },
            volume,
            ..*self
        }
    }

    /// The player with muting switched on or off.
    pub open spec fn with_mute(&self, mute: bool) -> PlayerState {
        PlayerState {
            device: match self.device {
                Some(device) => Some(device.with_mute(mute)),
                None => None,
            },
            ..*self
        }
    }

    /// The player after one run of the output callback over `slots` whole
    /// output slots: the device has taken that many frames from the queue,
    /// or all there were, if it is consuming, and none otherwise.
    pub open spec fn filled(&self, slots: nat) -> PlayerState {
        match self.device {
            Some(device) => PlayerState {
                device: Some(
                    DeviceState {
                        frames: device.frames.skip(
                            frames_consumed(device.context, device.frames.len(), slots) as int,
                        ),
                        ..device
                    },
                ),
                ..*self
            },
            None => *self,
        }
    }

    /// Number of frames queued; zero without a device.
    pub open spec fn occupancy(&self) -> nat {
        match self.device {
            Some(device) => device.frames.len(),
            None => 0,
        }
    }

    /// The player after one step of the decode worker, and what the worker
    /// has to do next. Without a source there is no worker: whoever
    /// reports is told to exit.
    pub open spec fn worker_stepped(&self, event: WorkerEvent) -> (PlayerState, WorkerAction) {
        match (self.device, self.source) {
            (Some(device), Some(source)) => {
                let next = worker_transition(source, device.frames, device.capacity, event);
                (
                    PlayerState {
                        device: Some(DeviceState { frames: next.1, ..device }),
                        source: Some(next.0),
                        ..*self
                    },
                    next.2,
                )
            },
            _ => (*self, WorkerAction::Exit),
        }
    }
}

/// One step of a playing engine: the worker takes in an event, or the
/// driver runs the output callback over a number of whole output slots.
pub enum EngineStep {
    /// A step of the decode worker.
    Worker(WorkerEvent),
    /// A run of the output callback.
    Callback(nat),
}

/// The player after a run of worker steps and output callbacks, in
/// whatever order they come.
pub open spec fn after_engine_steps(p: PlayerState, steps: Seq<EngineStep>) -> PlayerState
    decreases steps.len(),
{
    if steps.len() == 0 {
        p
    } else {
        let next = match steps[0] {
            EngineStep::Worker(event) => p.worker_stepped(event).0,
            EngineStep::Callback(slots) => p.filled(slots),
        };
        after_engine_steps(next, steps.drop_first())
    }
}

} // verus!
