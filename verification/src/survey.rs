//! One sampling pass: which command to ask next, and what its answer means.
//!
//! The program around the library runs the commands; the survey decides. It
//! names the next probe, takes the answer, and names the next one, until it
//! has a reading for the volume, the microphone, bluetooth and the network.
//! A probe is asked only where the answers so far leave its result open.

use crate::color::{Color, Tone};
use crate::matrix::Sample;
use crate::pattern::regex_group;
use crate::reading::Readings;
use crate::status::{
    bluetooth, bluetooth_color, is_muted, link, link_color, mic, mic_color, radio_on,
    volume_level, volume_reading, vpn_connected, wifi_color, SampleError, VOLUME_GROUP,
    VOLUME_PATTERN,
};
use crate::text::occurs;
use vstd::prelude::*;

verus! {

/// The milliseconds that the answer to one probe may take. A command that
/// takes longer counts as failed, so that a pass ends in bounded time.
pub const PROBE_TIMEOUT_MILLIS: u64 = 250;

/// The probes that one pass asks at most.
pub const PROBES: usize = 7;

/// The questions that a survey can put to the host.
#[derive(Clone, Copy, PartialEq, Eq, Structural, Debug)]
pub enum Probe {
    /// Is the default sink muted?
    SinkMute,
    /// How loud is the default sink?
    SinkVolume,
    /// Is the microphone muted?
    Mic,
    /// Is bluetooth on?
    Bluetooth,
    /// Is the wireless radio on?
    Radio,
    /// Is the tunnel connected?
    Vpn,
    /// Which network is joined?
    Ssid,
}

impl Probe {
    /// The program that answers the probe.
    pub open spec fn program_text(self) -> Seq<char> {
        match self {
            Probe::SinkMute => "pactl"@,
            Probe::SinkVolume => "pactl"@,
            Probe::Mic => "mute"@,
            Probe::Bluetooth => "bt"@,
            Probe::Radio => "/usr/bin/wifi"@,
            Probe::Vpn => "mullvad"@,
            Probe::Ssid => "iwgetid"@,
        }
    }

    /// The arguments that the program is run with.
    pub open spec fn argument_texts(self) -> Seq<Seq<char>> {
        match self {
            Probe::SinkMute => seq!["--"@, "get-sink-mute"@, "@DEFAULT_SINK@"@],
            Probe::SinkVolume => seq!["--"@, "get-sink-volume"@, "@DEFAULT_SINK@"@],
            Probe::Mic => seq!["status"@],
            Probe::Bluetooth => seq![],
            Probe::Radio => seq![],
            Probe::Vpn => seq!["status"@],
            Probe::Ssid => seq!["-r"@],
        }
    }

    /// The program that answers the probe.
    pub fn program(self) -> (program: &'static str)
        ensures
            program@ == self.program_text(),
    {
        match self {
            Probe::SinkMute => "pactl",
            Probe::SinkVolume => "pactl",
            Probe::Mic => "mute",
            Probe::Bluetooth => "bt",
            Probe::Radio => "/usr/bin/wifi",
            Probe::Vpn => "mullvad",
            Probe::Ssid => "iwgetid",
        }
    }

    /// The arguments that the program is run with.
    pub fn arguments(self) -> (arguments: Vec<&'static str>)
        ensures
            arguments@.len() == self.argument_texts().len(),
            forall|i: int|
                0 <= i < arguments@.len() ==> (#[trigger] arguments@[i])@
                    == self.argument_texts()[i],
    {
        let mut arguments: Vec<&'static str> = Vec::new();
        match self {
            Probe::SinkMute => {
                arguments.push("--");
                arguments.push("get-sink-mute");
                arguments.push("@DEFAULT_SINK@");
            },
            Probe::SinkVolume => {
                arguments.push("--");
                arguments.push("get-sink-volume");
                arguments.push("@DEFAULT_SINK@");
            },
            Probe::Mic => {
                arguments.push("status");
            },
            Probe::Bluetooth => {},
            Probe::Radio => {},
            Probe::Vpn => {
                arguments.push("status");
            },
            Probe::Ssid => {
                arguments.push("-r");
            },
        }
        arguments
    }
}

/// How far a survey has come.
#[derive(Clone, Copy, PartialEq, Eq, Structural, Debug)]
pub enum Stage {
    SinkMute,
    /// The sink answered whether it is muted; its volume is open.
    SinkVolume { muted: bool },
    Mic,
    Bluetooth,
    Radio,
    /// The radio is on; the tunnel is open.
    Vpn,
    /// The tunnel answered; the name of the network is open.
    Ssid { connected: bool },
    Done,
}

impl Stage {
    /// The probe that the stage waits for, if the survey is not done.
    pub open spec fn probe(self) -> Option<Probe> {
        match self {
            Stage::SinkMute => Some(Probe::SinkMute),
            Stage::SinkVolume { .. } => Some(Probe::SinkVolume),
            Stage::Mic => Some(Probe::Mic),
            Stage::Bluetooth => Some(Probe::Bluetooth),
            Stage::Radio => Some(Probe::Radio),
            Stage::Vpn => Some(Probe::Vpn),
            Stage::Ssid { .. } => Some(Probe::Ssid),
            Stage::Done => None,
        }
    }

    /// The number of probes that may still be asked from this stage on.
    pub open spec fn remaining(self) -> nat {
        match self {
            Stage::SinkMute => 7,
            Stage::SinkVolume { .. } => 6,
            Stage::Mic => 5,
            Stage::Bluetooth => 4,
            Stage::Radio => 3,
            Stage::Vpn => 2,
            Stage::Ssid { .. } => 1,
            Stage::Done => 0,
        }
    }
}

/// A sampling pass in progress: its stage, and the readings made so far.
#[derive(Clone, Copy, PartialEq, Eq, Debug)]
pub struct Survey {
    pub stage: Stage,
    pub volume: Result<Sample, SampleError>,
    pub mic: Result<Color, SampleError>,
    pub bluetooth: Result<Color, SampleError>,
    pub wifi: Result<Color, SampleError>,
}

/// The reading of the microphone: the colour that the output means, or a
/// failure where the command failed.
pub open spec fn mic_reading(reply: Option<Seq<char>>) -> Result<Color, SampleError> {
    match reply {
        Some(out) => Ok(mic_color(out)),
        None => Err(SampleError::CommandFailed),
    }
}

/// The reading of bluetooth: the colour that the output means, or a failure
/// where the command failed.
pub open spec fn bluetooth_reading(reply: Option<Seq<char>>) -> Result<Color, SampleError> {
    match reply {
        Some(out) => Ok(bluetooth_color(out)),
        None => Err(SampleError::CommandFailed),
    }
}

/// The reading of the volume in a world that holds the answer of each
/// command: a failure where one of the two commands fails, else what the
/// two outputs mean.
pub open spec fn volume_in(world: spec_fn(Probe) -> Option<Seq<char>>) -> Result<
    Sample,
    SampleError,
> {
    match (world(Probe::SinkMute), world(Probe::SinkVolume)) {
        (Some(mute_out), Some(level_out)) => volume_reading(
            occurs(mute_out, "yes"@),
            regex_group(VOLUME_PATTERN@, VOLUME_GROUP as nat, level_out),
        ),
        _ => Err(SampleError::CommandFailed),
    }
}

/// The reading of the network in a world that holds the answer of each
/// command. The tunnel counts only while the radio is on, and a failure to
/// name the network counts as no network.
pub open spec fn wifi_in(world: spec_fn(Probe) -> Option<Seq<char>>) -> Result<
    Color,
    SampleError,
> {
    match world(Probe::Radio) {
        Some(radio_out) => if !occurs(radio_out, "on"@) {
            Ok(Tone::Background.color())
        } else {
            match world(Probe::Vpn) {
                Some(vpn_out) => Ok(
                    wifi_color(
                        radio_out,
                        vpn_out,
                        match world(Probe::Ssid) {
                            Some(ssid) => ssid,
                            None => Seq::empty(),
                        },
                    ),
                ),
                None => Err(SampleError::CommandFailed),
            }
        },
        None => Err(SampleError::CommandFailed),
    }
}

impl Survey {
    /// A survey before its first probe.
    pub open spec fn start() -> Survey {
        Survey {
            stage: Stage::SinkMute,
            volume: Err(SampleError::Unavailable),
            mic: Err(SampleError::Unavailable),
            bluetooth: Err(SampleError::Unavailable),
            wifi: Err(SampleError::Unavailable),
        }
    }

    /// Every sample read so far is valid.
    pub open spec fn wf(self) -> bool {
        self.volume matches Ok(sample) ==> sample.wf()
    }

    /// The survey after the answer to its pending probe: the output of the
    /// command, or nothing where the command failed.
    pub open spec fn after(self, reply: Option<Seq<char>>) -> Survey {
        match self.stage {
            Stage::SinkMute => match reply {
                Some(out) => Survey { stage: Stage::SinkVolume { muted: occurs(out, "yes"@) }, ..self },
                None => Survey {
                    stage: Stage::Mic,
                    volume: Err(SampleError::CommandFailed),
                    ..self
                },
            },
            Stage::SinkVolume { muted } => Survey {
                stage: Stage::Mic,
                volume: match reply {
                    Some(out) => volume_reading(
                        muted,
                        regex_group(VOLUME_PATTERN@, VOLUME_GROUP as nat, out),
                    ),
                    None => Err(SampleError::CommandFailed),
                },
                ..self
            },
            Stage::Mic => Survey {
                stage: Stage::Bluetooth,
                mic: mic_reading(reply),
                ..self
            },
            Stage::Bluetooth => Survey {
                stage: Stage::Radio,
                bluetooth: bluetooth_reading(reply),
                ..self
            },
            Stage::Radio => match reply {
                Some(out) => if occurs(out, "on"@) {
                    Survey { stage: Stage::Vpn, ..self }
                } else {
                    Survey { stage: Stage::Done, wifi: Ok(Tone::Background.color()), ..self }
                },
                None => Survey {
                    stage: Stage::Done,
                    wifi: Err(SampleError::CommandFailed),
                    ..self
                },
            },
            Stage::Vpn => match reply {
                Some(out) => Survey {
                    stage: Stage::Ssid { connected: occurs(out, "Connected"@) },
                    ..self
                },
                None => Survey {
                    stage: Stage::Done,
                    wifi: Err(SampleError::CommandFailed),
                    ..self
                },
            },
            Stage::Ssid { connected } => Survey {
                stage: Stage::Done,
                wifi: Ok(
                    link_color(
                        connected,
                        match reply {
                            Some(ssid) => ssid,
                            None => Seq::empty(),
                        },
                    ),
                ),
                ..self
            },
            Stage::Done => self,
        }
    }

    /// The survey that asks every probe that is still pending of `world`,
    /// which holds the answer of each command, up to `fuel` probes.
    pub open spec fn driven(self, world: spec_fn(Probe) -> Option<Seq<char>>, fuel: nat) -> Survey
        decreases fuel,
    {
        match self.stage.probe() {
            Some(probe) => if fuel == 0 {
                self
            } else {
                self.after(world(probe)).driven(world, (fuel - 1) as nat)
            },
            None => self,
        }
    }

    /// A survey before its first probe.
    pub fn new() -> (survey: Survey)
        ensures
            survey == Survey::start(),
            survey.wf(),
    {
        Survey {
            stage: Stage::SinkMute,
            volume: Err(SampleError::Unavailable),
            mic: Err(SampleError::Unavailable),
            bluetooth: Err(SampleError::Unavailable),
            wifi: Err(SampleError::Unavailable),
        }
    }

    /// The probe to ask next, or nothing when the survey is done.
    pub fn pending(&self) -> (probe: Option<Probe>)
        ensures
            probe == self.stage.probe(),
    {
        match self.stage {
            Stage::SinkMute => Some(Probe::SinkMute),
            Stage::SinkVolume { .. } => Some(Probe::SinkVolume),
            Stage::Mic => Some(Probe::Mic),
            Stage::Bluetooth => Some(Probe::Bluetooth),
            Stage::Radio => Some(Probe::Radio),
            Stage::Vpn => Some(Probe::Vpn),
            Stage::Ssid { .. } => Some(Probe::Ssid),
            Stage::Done => None,
        }
    }

    /// Takes the answer to the pending probe: what the command printed, or
    /// nothing where it failed. A survey that is done stays as it is.
    pub fn record(&mut self, reply: Option<&str>)
        requires
            old(self).wf(),
        ensures
            *final(self) == old(self).after(
                match reply {
                    Some(out) => Some(out@),
                    None => None,
                },
            ),
            final(self).wf(),
    {
        match self.stage {
            Stage::SinkMute => match reply {
                Some(out) => {
                    self.stage = Stage::SinkVolume { muted: is_muted(out) };
                },
                None => {
                    self.stage = Stage::Mic;
                    self.volume = Err(SampleError::CommandFailed);
                },
            },
            Stage::SinkVolume { muted } => {
                self.stage = Stage::Mic;
                self.volume = match reply {
                    Some(out) => volume_level(muted, out),
                    None => Err(SampleError::CommandFailed),
                };
            },
            Stage::Mic => {
                self.stage = Stage::Bluetooth;
                self.mic = match reply {
                    Some(out) => Ok(mic(out)),
                    None => Err(SampleError::CommandFailed),
                };
            },
            Stage::Bluetooth => {
                self.stage = Stage::Radio;
                self.bluetooth = match reply {
                    Some(out) => Ok(bluetooth(out)),
                    None => Err(SampleError::CommandFailed),
                };
            },
            Stage::Radio => match reply {
                Some(out) => {
                    if radio_on(out) {
                        self.stage = Stage::Vpn;
                    } else {
                        self.stage = Stage::Done;
                        self.wifi = Ok(Tone::Background.to_color());
                    }
                },
                None => {
                    self.stage = Stage::Done;
                    self.wifi = Err(SampleError::CommandFailed);
                },
            },
            Stage::Vpn => match reply {
                Some(out) => {
                    self.stage = Stage::Ssid { connected: vpn_connected(out) };
                },
                None => {
                    self.stage = Stage::Done;
                    self.wifi = Err(SampleError::CommandFailed);
                },
            },
            Stage::Ssid { connected } => {
                proof {
                    reveal_strlit("");
                    assert(""@ =~= Seq::<char>::empty());
                }
                self.stage = Stage::Done;
                self.wifi = Ok(
                    link(
                        connected,
                        match reply {
                            Some(ssid) => ssid,
                            None => "",
                        },
                    ),
                );
            },
            Stage::Done => {},
        }
    }

    /// The readings of the pass, with that of the battery, which no command
    /// gives, added from outside.
    pub fn finish(&self, battery: Result<Sample, SampleError>) -> (readings: Readings)
        requires
            self.wf(),
            battery matches Ok(sample) ==> sample.wf(),
        ensures
            readings == (Readings {
                battery,
                volume: self.volume,
                wifi: self.wifi,
                bluetooth: self.bluetooth,
                mic: self.mic,
            }),
            readings.wf(),
    {
        Readings {
            battery,
            volume: self.volume,
            wifi: self.wifi,
            bluetooth: self.bluetooth,
            mic: self.mic,
        }
    }
}

/// Every answer brings a survey nearer to its end: the number of probes
/// that may still be asked goes down with each.
pub proof fn lemma_survey_advances(survey: Survey, reply: Option<Seq<char>>)
    requires
        survey.stage.probe() is Some,
    ensures
        survey.after(reply).stage.remaining() < survey.stage.remaining(),
{
}

/// A survey ends after seven probes at most, whatever the commands answer,
/// and its readings are then those that the answers mean.
pub proof fn lemma_survey_reads(world: spec_fn(Probe) -> Option<Seq<char>>)
    ensures
        Survey::start().stage.remaining() == PROBES,
        ({
            let end = Survey::start().driven(world, PROBES as nat);
            &&& end.stage == Stage::Done
            &&& end.volume == volume_in(world)
            &&& end.mic == mic_reading(world(Probe::Mic))
            &&& end.bluetooth == bluetooth_reading(world(Probe::Bluetooth))
            &&& end.wifi == wifi_in(world)
        }),
{
    reveal_with_fuel(Survey::driven, 8);
}

} // verus!
