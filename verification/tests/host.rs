use sema::color::{Color, Tone};
use sema::fraction::Fraction;
use sema::matrix::Sample;
use sema::pattern::find_group;
use sema::reading::Readings;
use sema::status::{
    battery, bluetooth, cmd, is_muted, link, mic, radio_on, volume, volume_from_capture,
    volume_level, vpn_connected, wifi, BatteryState, SampleError, VOLUME_GROUP, VOLUME_PATTERN,
};
use sema::survey::{Probe, Stage, Survey};
use sema::text::{chars_of, contains, parse_decimal, same, space, trim};

fn urgent() -> Color {
    Tone::Urgent.to_color()
}

fn warning() -> Color {
    Tone::Warning.to_color()
}

fn okay() -> Color {
    Tone::Okay.to_color()
}

fn background() -> Color {
    Tone::Background.to_color()
}

fn muted() -> Color {
    Tone::Muted.to_color()
}

fn normal() -> Color {
    Tone::Normal.to_color()
}

fn hundredths(n: u64, color: Color) -> Sample {
    Sample { fraction: Fraction { num: n, den: 100 }, color }
}

const SINK_VOLUME: &str = "Volume: front-left: 48000 /  73% / -8.17 dB,   front-right: 32000 /  49% / -18.00 dB\n        balance 0.00";

#[test]
fn full_battery_is_a_full_bar_in_the_good_colour() {
    let sample = battery(BatteryState::Full, Fraction::clamped(3, 10));
    assert_eq!(sample, Sample { fraction: Fraction { num: 1, den: 1 }, color: okay() });
}

#[test]
fn charging_battery_shows_its_charge_in_the_good_colour() {
    let charge = Fraction::clamped(42, 100);
    assert_eq!(battery(BatteryState::Charging, charge), Sample { fraction: charge, color: okay() });
    let low = Fraction::clamped(5, 100);
    assert_eq!(battery(BatteryState::Charging, low), Sample { fraction: low, color: okay() });
}

#[test]
fn discharging_battery_warns_and_turns_urgent_at_a_tenth() {
    let half = Fraction::clamped(1, 2);
    assert_eq!(
        battery(BatteryState::Discharging, half),
        Sample { fraction: half, color: warning() }
    );
    let tenth = Fraction::clamped(1, 10);
    assert_eq!(
        battery(BatteryState::Discharging, tenth),
        Sample { fraction: tenth, color: urgent() }
    );
    let above = Fraction::clamped(101, 1000);
    assert_eq!(
        battery(BatteryState::Discharging, above),
        Sample { fraction: above, color: warning() }
    );
    let empty = Fraction::zero();
    assert_eq!(
        battery(BatteryState::Discharging, empty),
        Sample { fraction: empty, color: urgent() }
    );
}

#[test]
fn battery_in_any_other_state_is_a_full_bar_of_background() {
    for state in [BatteryState::Unknown, BatteryState::Empty] {
        let sample = battery(state, Fraction::clamped(1, 2));
        assert_eq!(sample, Sample { fraction: Fraction { num: 1, den: 1 }, color: background() });
    }
}

#[test]
fn volume_pattern_is_one_to_three_digits_before_a_percent_sign() {
    assert_eq!(VOLUME_PATTERN, r"(\d{1,3})%");
    assert_eq!(VOLUME_GROUP, 1);
}

#[test]
fn volume_is_the_first_percentage_of_the_output() {
    assert_eq!(volume("Mute: no", SINK_VOLUME), Ok(hundredths(73, normal())));
    assert_eq!(volume("Mute: yes", SINK_VOLUME), Ok(hundredths(73, muted())));
    assert_eq!(volume("no", "5%"), Ok(hundredths(5, normal())));
    assert_eq!(volume("no", "0%"), Ok(hundredths(0, normal())));
    assert_eq!(volume("no", "x 7% y 9%"), Ok(hundredths(7, normal())));
    assert_eq!(volume_level(true, "vol 31%"), Ok(hundredths(31, muted())));
}

#[test]
fn volume_above_a_hundred_is_a_full_bar() {
    assert_eq!(volume("no", "100%"), Ok(hundredths(100, normal())));
    assert_eq!(volume("no", "150%"), Ok(hundredths(100, normal())));
    assert_eq!(volume("no", "999%"), Ok(hundredths(100, normal())));
    assert_eq!(volume("no", "1234%"), Ok(hundredths(100, normal())));
    assert_eq!(volume("no", "1099%"), Ok(hundredths(99, normal())));
}

#[test]
fn volume_without_a_percentage_is_unparseable() {
    assert_eq!(volume("no", ""), Err(SampleError::Unparseable));
    assert_eq!(volume("no", "%"), Err(SampleError::Unparseable));
    assert_eq!(volume("no", "73 %"), Err(SampleError::Unparseable));
    assert_eq!(volume("yes", "loud"), Err(SampleError::Unparseable));
}

#[test]
fn pattern_search_gives_the_group_of_the_first_match() {
    assert_eq!(find_group(VOLUME_PATTERN, VOLUME_GROUP, SINK_VOLUME), Ok(Some("73".to_string())));
    assert_eq!(find_group(VOLUME_PATTERN, 0, SINK_VOLUME), Ok(Some("73%".to_string())));
    assert_eq!(find_group(VOLUME_PATTERN, 2, SINK_VOLUME), Ok(None));
    assert_eq!(find_group(VOLUME_PATTERN, usize::MAX, SINK_VOLUME), Ok(None));
    assert_eq!(find_group(VOLUME_PATTERN, VOLUME_GROUP, "no percentage"), Ok(None));
    assert_eq!(find_group("(a)|(b)", 1, "b"), Ok(None));
    assert_eq!(find_group("(a)|(b)", 2, "b"), Ok(Some("b".to_string())));
    assert_eq!(find_group("", 0, "b"), Ok(Some(String::new())));
}

#[test]
fn pattern_that_does_not_compile_is_an_error() {
    assert_eq!(find_group("(", 1, "("), Err(SampleError::BadPattern));
    assert_eq!(find_group("a{2,1}", 0, "aa"), Err(SampleError::BadPattern));
}

#[test]
fn volume_from_digits() {
    assert_eq!(volume_from_capture(false, Some("73")), Ok(hundredths(73, normal())));
    assert_eq!(volume_from_capture(true, Some("073")), Ok(hundredths(73, muted())));
    assert_eq!(volume_from_capture(false, Some("123456789")), Ok(hundredths(100, normal())));
    assert_eq!(volume_from_capture(false, Some("1234567890")), Err(SampleError::Unparseable));
    assert_eq!(volume_from_capture(false, Some("")), Err(SampleError::Unparseable));
    assert_eq!(volume_from_capture(false, Some("7a")), Err(SampleError::Unparseable));
    assert_eq!(volume_from_capture(false, Some("-7")), Err(SampleError::Unparseable));
    assert_eq!(volume_from_capture(false, Some("٣")), Err(SampleError::Unparseable));
    assert_eq!(volume_from_capture(true, None), Err(SampleError::Unparseable));
}

#[test]
fn sink_is_muted_when_it_says_yes() {
    assert!(is_muted("Mute: yes"));
    assert!(is_muted("yes"));
    assert!(!is_muted("Mute: no"));
    assert!(!is_muted(""));
    assert!(!is_muted("YES"));
}

#[test]
fn bluetooth_is_ordinary_when_on() {
    assert_eq!(bluetooth("on"), normal());
    assert_eq!(bluetooth("off"), background());
    assert_eq!(bluetooth(""), background());
    assert_eq!(bluetooth("on "), background());
    assert_eq!(bluetooth("one"), background());
}

#[test]
fn microphone_is_urgent_unless_muted() {
    assert_eq!(mic("yes"), background());
    assert_eq!(mic("no"), urgent());
    assert_eq!(mic(""), urgent());
    assert_eq!(mic("yes!"), urgent());
}

#[test]
fn network_is_background_while_the_radio_is_off() {
    assert_eq!(wifi("off", "Connected", "home"), background());
    assert_eq!(wifi("", "", ""), background());
    assert!(!radio_on("off"));
    assert!(radio_on("on"));
    assert!(radio_on("wifi: on"));
}

#[test]
fn network_follows_the_tunnel_and_the_name() {
    assert_eq!(wifi("on", "Connected to se-got-wg-001", "home"), okay());
    assert_eq!(wifi("on", "Connected", ""), okay());
    assert_eq!(wifi("on", "Disconnected", ""), muted());
    assert_eq!(wifi("on", "Disconnected", "home"), urgent());
    assert_eq!(wifi("on", "connected", "home"), urgent());
    assert!(vpn_connected("Connected"));
    assert!(!vpn_connected("Disconnected"));
    assert_eq!(link(true, "home"), okay());
    assert_eq!(link(false, ""), muted());
    assert_eq!(link(false, "é"), urgent());
}

#[test]
fn command_output_is_trimmed() {
    assert_eq!(cmd("bt", true, "  on\n", ""), Ok("on".to_string()));
    assert_eq!(cmd("bt", true, "", "ignored"), Ok(String::new()));
    assert_eq!(cmd("bt", true, "\n\t \n", ""), Ok(String::new()));
    assert_eq!(cmd("pactl", true, "Mute: no\n", ""), Ok("Mute: no".to_string()));
}

#[test]
fn failed_command_gives_a_message() {
    assert_eq!(
        cmd("mullvad", false, "out", "boom\n"),
        Err("Command mullvad failed, error: boom\n".to_string())
    );
    assert_eq!(cmd("bt", false, "", ""), Err("Command bt failed, error: ".to_string()));
}

#[test]
fn text_is_searched_by_characters() {
    assert!(contains("Mute: yes", "yes"));
    assert!(contains("yes", "yes"));
    assert!(contains("yes", ""));
    assert!(contains("", ""));
    assert!(!contains("", "yes"));
    assert!(!contains("ye", "yes"));
    assert!(!contains("y e s", "yes"));
    assert!(contains("ayeyes", "yes"));
    assert!(contains("naïve café", "café"));
    assert!(!contains("naïve cafe", "café"));
}

#[test]
fn strings_are_the_same_when_their_characters_are() {
    assert!(same("on", "on"));
    assert!(same("", ""));
    assert!(!same("on", "off"));
    assert!(!same("on", "on "));
    assert!(!same("on", "o"));
    assert!(same("größe", "größe"));
    assert_eq!(chars_of("aé"), vec!['a', 'é']);
}

#[test]
fn trim_takes_white_space_off_both_ends() {
    assert_eq!(trim("  on \n"), "on");
    assert_eq!(trim("on"), "on");
    assert_eq!(trim(""), "");
    assert_eq!(trim(" \t\r\n"), "");
    assert_eq!(trim(" a b "), "a b");
    assert_eq!(trim("\u{a0}\u{3000}é\u{2003}\u{85}"), "é");
    for text in ["  on \n", "\u{b}\u{c}x\u{1680}", "\u{200b}x\u{200b}", "\u{2028}a\u{2029}\u{202f}\u{205f}"] {
        assert_eq!(trim(text), text.trim());
    }
}

#[test]
fn white_space_is_what_the_language_calls_so() {
    for code in 0..0x3100u32 {
        if let Some(c) = char::from_u32(code) {
            assert_eq!(space(c), c.is_whitespace());
        }
    }
    assert!(!space('\u{feff}'));
}

#[test]
fn decimal_digits_are_parsed() {
    assert_eq!(parse_decimal("0"), Some(0));
    assert_eq!(parse_decimal("73"), Some(73));
    assert_eq!(parse_decimal("007"), Some(7));
    assert_eq!(parse_decimal("999999999"), Some(999_999_999));
    assert_eq!(parse_decimal("1000000000"), None);
    assert_eq!(parse_decimal(""), None);
    assert_eq!(parse_decimal("1 "), None);
    assert_eq!(parse_decimal("+1"), None);
    assert_eq!(parse_decimal("1.5"), None);
}

#[test]
fn probes_name_their_commands() {
    assert_eq!(Probe::SinkMute.program(), "pactl");
    assert_eq!(Probe::SinkMute.arguments(), vec!["--", "get-sink-mute", "@DEFAULT_SINK@"]);
    assert_eq!(Probe::SinkVolume.program(), "pactl");
    assert_eq!(Probe::SinkVolume.arguments(), vec!["--", "get-sink-volume", "@DEFAULT_SINK@"]);
    assert_eq!(Probe::Mic.program(), "mute");
    assert_eq!(Probe::Mic.arguments(), vec!["status"]);
    assert_eq!(Probe::Bluetooth.program(), "bt");
    assert!(Probe::Bluetooth.arguments().is_empty());
    assert_eq!(Probe::Radio.program(), "/usr/bin/wifi");
    assert!(Probe::Radio.arguments().is_empty());
    assert_eq!(Probe::Vpn.program(), "mullvad");
    assert_eq!(Probe::Vpn.arguments(), vec!["status"]);
    assert_eq!(Probe::Ssid.program(), "iwgetid");
    assert_eq!(Probe::Ssid.arguments(), vec!["-r"]);
}

fn run(world: &dyn Fn(Probe) -> Option<&'static str>) -> (Survey, Vec<Probe>) {
    let mut survey = Survey::new();
    let mut asked = Vec::new();
    while let Some(probe) = survey.pending() {
        asked.push(probe);
        assert!(asked.len() <= 7);
        survey.record(world(probe));
    }
    (survey, asked)
}

#[test]
fn survey_asks_every_probe_when_all_is_on() {
    let (survey, asked) = run(&|probe| {
        Some(match probe {
            Probe::SinkMute => "Mute: no",
            Probe::SinkVolume => SINK_VOLUME,
            Probe::Mic => "yes",
            Probe::Bluetooth => "on",
            Probe::Radio => "on",
            Probe::Vpn => "Connected",
            Probe::Ssid => "home",
        })
    });
    assert_eq!(
        asked,
        vec![
            Probe::SinkMute,
            Probe::SinkVolume,
            Probe::Mic,
            Probe::Bluetooth,
            Probe::Radio,
            Probe::Vpn,
            Probe::Ssid
        ]
    );
    assert_eq!(survey.stage, Stage::Done);
    assert_eq!(survey.volume, Ok(hundredths(73, normal())));
    assert_eq!(survey.mic, Ok(background()));
    assert_eq!(survey.bluetooth, Ok(normal()));
    assert_eq!(survey.wifi, Ok(okay()));
    let charge = Sample { fraction: Fraction::clamped(1, 2), color: okay() };
    assert_eq!(
        survey.finish(Ok(charge)),
        Readings {
            battery: Ok(charge),
            volume: Ok(hundredths(73, normal())),
            wifi: Ok(okay()),
            bluetooth: Ok(normal()),
            mic: Ok(background()),
        }
    );
}

#[test]
fn survey_does_not_ask_the_tunnel_while_the_radio_is_off() {
    let (survey, asked) = run(&|probe| match probe {
        Probe::Radio => Some("off"),
        Probe::Vpn | Probe::Ssid => panic!("asked {:?}", probe),
        Probe::SinkMute => Some("Mute: yes"),
        Probe::SinkVolume => Some("20%"),
        _ => Some("no"),
    });
    assert_eq!(
        asked,
        vec![Probe::SinkMute, Probe::SinkVolume, Probe::Mic, Probe::Bluetooth, Probe::Radio]
    );
    assert_eq!(survey.wifi, Ok(background()));
    assert_eq!(survey.volume, Ok(hundredths(20, muted())));
    assert_eq!(survey.mic, Ok(urgent()));
    assert_eq!(survey.bluetooth, Ok(background()));
}

#[test]
fn survey_goes_on_after_a_failed_command() {
    let (survey, asked) = run(&|probe| match probe {
        Probe::SinkMute => None,
        Probe::SinkVolume => panic!("asked {:?}", probe),
        Probe::Mic => None,
        Probe::Bluetooth => None,
        Probe::Radio => Some("on"),
        Probe::Vpn => None,
        Probe::Ssid => panic!("asked {:?}", probe),
    });
    assert_eq!(asked, vec![Probe::SinkMute, Probe::Mic, Probe::Bluetooth, Probe::Radio, Probe::Vpn]);
    assert_eq!(survey.stage, Stage::Done);
    assert_eq!(survey.volume, Err(SampleError::CommandFailed));
    assert_eq!(survey.mic, Err(SampleError::CommandFailed));
    assert_eq!(survey.bluetooth, Err(SampleError::CommandFailed));
    assert_eq!(survey.wifi, Err(SampleError::CommandFailed));
    let readings = survey.finish(Err(SampleError::Unavailable));
    assert_eq!(readings.battery, Err(SampleError::Unavailable));
    assert_eq!(readings.volume, Err(SampleError::CommandFailed));
}

#[test]
fn survey_takes_a_failure_to_name_the_network_as_no_network() {
    let world = |vpn: &'static str, ssid: Option<&'static str>| {
        move |probe| match probe {
            Probe::Radio => Some("on"),
            Probe::Vpn => Some(vpn),
            Probe::Ssid => ssid,
            Probe::SinkVolume => None,
            _ => Some(""),
        }
    };
    assert_eq!(run(&world("Disconnected", None)).0.wifi, Ok(muted()));
    assert_eq!(run(&world("Disconnected", Some(""))).0.wifi, Ok(muted()));
    assert_eq!(run(&world("Disconnected", Some("home"))).0.wifi, Ok(urgent()));
    assert_eq!(run(&world("Connected", None)).0.wifi, Ok(okay()));
    let (survey, asked) = run(&world("Connected", None));
    assert_eq!(asked.len(), 7);
    assert_eq!(survey.volume, Err(SampleError::CommandFailed));
}

#[test]
fn survey_that_is_done_takes_no_more_answers() {
    let (mut survey, _) = run(&|_| None);
    let before = survey;
    assert_eq!(survey.pending(), None);
    survey.record(Some("on"));
    assert_eq!(survey, before);
}

#[test]
fn survey_starts_without_readings() {
    let survey = Survey::new();
    assert_eq!(survey.stage, Stage::SinkMute);
    assert_eq!(survey.pending(), Some(Probe::SinkMute));
    assert_eq!(survey.volume, Err(SampleError::Unavailable));
    assert_eq!(survey.wifi, Err(SampleError::Unavailable));
}
