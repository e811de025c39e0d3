//! What the readings of the host mean: each subsystem's raw state as a
//! sample or a colour.
//!
//! Nothing here asks the host anything. The functions take what a command
//! printed, or what the battery reported, and say how to show it.

use crate::color::{Color, Tone};
use crate::fraction::{clamp_ratio, Fraction};
use crate::matrix::Sample;
use crate::pattern::{find_group, regex_group};
use crate::text::{all_digits, contains, decimal, occurs, parse_decimal, same, trim, trimmed};
use vstd::prelude::*;
use vstd::string::StringExecFns;

verus! {

/// Why an indicator has no reading.
#[derive(Clone, Copy, PartialEq, Eq, Structural, Debug)]
pub enum SampleError {
    /// The command that was asked ended in failure.
    CommandFailed,
    /// The command's output does not hold what was looked for.
    Unparseable,
    /// The pattern that the output is searched with does not compile.
    BadPattern,
    /// The subsystem is not there, or was not asked.
    Unavailable,
}

/// What a battery is doing.
#[derive(Clone, Copy, PartialEq, Eq, Structural, Debug)]
pub enum BatteryState {
    Unknown,
    Charging,
    Discharging,
    Empty,
    Full,
}

/// The pattern that finds the volume in the mixer's output: one to three
/// digits before a percent sign.
pub const VOLUME_PATTERN: &'static str = "(\\d{1,3})%";

/// The capture group of [`VOLUME_PATTERN`] that holds the digits.
pub const VOLUME_GROUP: usize = 1;

/// The sample that shows a battery: full and in the good colour when it is
/// full; its charge in the good colour while it charges; its charge in the
/// warning colour while it discharges, and in the urgent colour once the
/// charge is a tenth or less; a full bar of background in any other state.
pub open spec fn battery_sample(state: BatteryState, charge: Fraction) -> Sample {
    match state {
        BatteryState::Full => Sample { fraction: Fraction { num: 1, den: 1 }, color: Tone::Okay.color() },
        BatteryState::Charging => Sample { fraction: charge, color: Tone::Okay.color() },
        BatteryState::Discharging => Sample {
            fraction: charge,
            color: if charge.num * 10 <= charge.den {
                Tone::Urgent.color()
            } else {
                Tone::Warning.color()
            },
        },
        _ => Sample { fraction: Fraction { num: 1, den: 1 }, color: Tone::Background.color() },
    }
}

/// The sample that shows the battery's state and charge.
pub fn battery(state: BatteryState, charge: Fraction) -> (sample: Sample)
    requires
        charge.wf(),
    ensures
        sample == battery_sample(state, charge),
        sample.wf(),
{
    match state {
        BatteryState::Full => Sample { fraction: Fraction::one(), color: Tone::Okay.to_color() },
        BatteryState::Charging => Sample { fraction: charge, color: Tone::Okay.to_color() },
        BatteryState::Discharging => {
            let color = if charge.at_most(1, 10) {
                Tone::Urgent.to_color()
            } else {
                Tone::Warning.to_color()
            };
            Sample { fraction: charge, color }
        },
        _ => Sample { fraction: Fraction::one(), color: Tone::Background.to_color() },
    }
}

/// The sample that shows the volume, given whether the sink is muted and the
/// digits found before the percent sign: the volume as hundredths, at most
/// one, in the muted or the ordinary colour. Without digits there is no
/// sample.
pub open spec fn volume_sample(muted: bool, capture: Option<Seq<char>>) -> Result<
    Sample,
    SampleError,
> {
    match capture {
        Some(digits) => if 1 <= digits.len() <= 9 && all_digits(digits) {
            Ok(
                Sample {
                    fraction: clamp_ratio(decimal(digits) as int, 100),
                    color: if muted {
                        Tone::Muted.color()
                    } else {
                        Tone::Normal.color()
                    },
                },
            )
        } else {
            Err(SampleError::Unparseable)
        },
        None => Err(SampleError::Unparseable),
    }
}

/// The reading of the volume, given what the search for the pattern came to.
pub open spec fn volume_reading(muted: bool, found: Result<Option<Seq<char>>, ()>) -> Result<
    Sample,
    SampleError,
> {
    match found {
        Ok(capture) => volume_sample(muted, capture),
        Err(_) => Err(SampleError::BadPattern),
    }
}

/// The sample that shows the volume, from the digits that were found.
pub fn volume_from_capture(muted: bool, capture: Option<&str>) -> (reading: Result<
    Sample,
    SampleError,
>)
    ensures
        reading == volume_sample(
            muted,
            match capture {
                Some(digits) => Some(digits@),
                None => None,
            },
        ),
        reading matches Ok(sample) ==> sample.wf(),
{
    let digits = match capture {
        Some(digits) => digits,
        None => {
            return Err(SampleError::Unparseable);
        },
    };
    let percent = match parse_decimal(digits) {
        Some(percent) => percent,
        None => {
            return Err(SampleError::Unparseable);
        },
    };
    let color = if muted {
        Tone::Muted.to_color()
    } else {
        Tone::Normal.to_color()
    };
    Ok(Sample { fraction: Fraction::clamped(percent as i64, 100), color })
}

/// Whether the mixer reports the sink as muted.
pub fn is_muted(mute_out: &str) -> (muted: bool)
    ensures
        muted == occurs(mute_out@, "yes"@),
{
    contains(mute_out, "yes")
}

/// The sample that shows the volume, given whether the sink is muted, from
/// what the mixer printed when asked for the volume.
pub fn volume_level(muted: bool, level_out: &str) -> (reading: Result<Sample, SampleError>)
    ensures
        reading == volume_reading(
            muted,
            regex_group(VOLUME_PATTERN@, VOLUME_GROUP as nat, level_out@),
        ),
        reading matches Ok(sample) ==> sample.wf(),
{
    match find_group(VOLUME_PATTERN, VOLUME_GROUP, level_out) {
        Ok(Some(digits)) => volume_from_capture(muted, Some(digits.as_str())),
        Ok(None) => volume_from_capture(muted, None),
        Err(error) => Err(error),
    }
}

/// The sample that shows the volume, from what the mixer printed when asked
/// whether the sink is muted and when asked for its volume.
pub fn volume(mute_out: &str, level_out: &str) -> (reading: Result<Sample, SampleError>)
    ensures
        reading == volume_reading(
            occurs(mute_out@, "yes"@),
            regex_group(VOLUME_PATTERN@, VOLUME_GROUP as nat, level_out@),
        ),
        reading matches Ok(sample) ==> sample.wf(),
{
    volume_level(is_muted(mute_out), level_out)
}

/// The colour that shows bluetooth: ordinary when it is on, else background.
pub open spec fn bluetooth_color(out: Seq<char>) -> Color {
    if out == "on"@ {
        Tone::Normal.color()
    } else {
        Tone::Background.color()
    }
}

/// The colour that shows the state of bluetooth.
pub fn bluetooth(out: &str) -> (color: Color)
    ensures
        color == bluetooth_color(out@),
{
    if same(out, "on") {
        Tone::Normal.to_color()
    } else {
        Tone::Background.to_color()
    }
}

/// The colour that shows the microphone: background while it is muted, else
/// urgent.
pub open spec fn mic_color(out: Seq<char>) -> Color {
    if out == "yes"@ {
        Tone::Background.color()
    } else {
        Tone::Urgent.color()
    }
}

/// The colour that shows the state of the microphone.
pub fn mic(out: &str) -> (color: Color)
    ensures
        color == mic_color(out@),
{
    if same(out, "yes") {
        Tone::Background.to_color()
    } else {
        Tone::Urgent.to_color()
    }
}

/// The colour that shows a network whose radio is on: good when the tunnel
/// is connected; else muted when no network is joined, and urgent when one
/// is joined without the tunnel.
pub open spec fn link_color(connected: bool, ssid: Seq<char>) -> Color {
    if connected {
        Tone::Okay.color()
    } else if ssid.len() == 0 {
        Tone::Muted.color()
    } else {
        Tone::Urgent.color()
    }
}

/// The colour that shows the network: background while the radio is off,
/// else the colour of the link.
pub open spec fn wifi_color(radio_out: Seq<char>, vpn_out: Seq<char>, ssid: Seq<char>) -> Color {
    if !occurs(radio_out, "on"@) {
        Tone::Background.color()
    } else {
        link_color(occurs(vpn_out, "Connected"@), ssid)
    }
}

/// Whether the radio reports that it is on.
pub fn radio_on(radio_out: &str) -> (on: bool)
    ensures
        on == occurs(radio_out@, "on"@),
{
    contains(radio_out, "on")
}

/// Whether the tunnel reports that it is connected.
pub fn vpn_connected(vpn_out: &str) -> (connected: bool)
    ensures
        connected == occurs(vpn_out@, "Connected"@),
{
    contains(vpn_out, "Connected")
}

/// The colour that shows a network whose radio is on.
pub fn link(connected: bool, ssid: &str) -> (color: Color)
    ensures
        color == link_color(connected, ssid@),
{
    if connected {
        Tone::Okay.to_color()
    } else if ssid.unicode_len() == 0 {
        Tone::Muted.to_color()
    } else {
        Tone::Urgent.to_color()
    }
}

/// The colour that shows the network, from what the radio and the tunnel
/// printed and the name of the network joined, empty if none.
pub fn wifi(radio_out: &str, vpn_out: &str, ssid: &str) -> (color: Color)
    ensures
        color == wifi_color(radio_out@, vpn_out@, ssid@),
{
    if !radio_on(radio_out) {
        Tone::Background.to_color()
    } else {
        link(vpn_connected(vpn_out), ssid)
    }
}

/// The message for a command that ended in failure.
pub open spec fn failure_message(program: Seq<char>, stderr: Seq<char>) -> Seq<char> {
    "Command "@ + program + " failed, error: "@ + stderr
}

/// What a finished command comes to: its output without the white space at
/// either end when it succeeded, else a message that names the program and
/// holds what it wrote to its error stream.
pub fn cmd(program: &str, success: bool, stdout: &str, stderr: &str) -> (reply: Result<
    String,
    String,
>)
    ensures
        match reply {
            Ok(out) => success && out@ == trimmed(stdout@),
            Err(message) => !success && message@ == failure_message(program@, stderr@),
        },
{
    if success {
        Ok(trim(stdout).to_owned())
    } else {
        let message = String::from_str("Command ").concat(program).concat(
            " failed, error: ",
        ).concat(stderr);
        Err(message)
    }
}

} // verus!
