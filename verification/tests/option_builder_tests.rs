use gpio_lines::line::option_builder::LineOptionBuilder;
use gpio_lines::line::options::{Active, AsLineOptions, Bias, Drive, EdgeDetect, EventClock,
    LineOptions};
use gpio_lines::uapi::v2::{LINE_FLAG_ACTIVE_LOW, LINE_FLAG_BIAS_DISABLED, LINE_FLAG_BIAS_PULL_UP,
    LINE_FLAG_EDGE_FALLING, LINE_FLAG_EDGE_RISING, LINE_FLAG_EVENT_CLOCK_REALTIME,
    LINE_FLAG_INPUT, LINE_FLAG_OPEN_SOURCE, LINE_FLAG_OUTPUT};

#[test]
pub fn build_input() {
    let flags: u64 = LineOptionBuilder::new()
        .input()
        .with_active(Active::Low)
        .with_bias(Bias::PullUp)
        .with_edge_detect(EdgeDetect::Both)
        .with_clock_source(EventClock::RealTime)
        .build_v2();

    let expected = LINE_FLAG_INPUT
        | LINE_FLAG_ACTIVE_LOW
        | LINE_FLAG_BIAS_PULL_UP
        | LINE_FLAG_EDGE_RISING
        | LINE_FLAG_EDGE_FALLING
        | LINE_FLAG_EVENT_CLOCK_REALTIME;

    assert_eq!(flags, expected);
}

#[test]
pub fn build_open_collector_output() {
    let flags: u64 = LineOptionBuilder::new()
        .output()
        .with_drive_open(Drive::OpenSource)
        .with_active(Active::Low)
        .with_bias(Bias::PullUp)
        .with_edge_detect(EdgeDetect::Both)
        .with_clock_source(EventClock::RealTime)
        .build_v2();

    let expected = LINE_FLAG_OUTPUT
        | LINE_FLAG_ACTIVE_LOW
        | LINE_FLAG_OPEN_SOURCE
        | LINE_FLAG_BIAS_PULL_UP
        | LINE_FLAG_EDGE_RISING
        | LINE_FLAG_EDGE_FALLING
        | LINE_FLAG_EVENT_CLOCK_REALTIME;

    assert_eq!(flags, expected);
}

#[test]
fn build_driven_output_is_direction_and_polarity_only() {
    let flags = LineOptionBuilder::new()
        .output()
        .with_active(Active::Low)
        .build_v2();
    assert_eq!(flags, LINE_FLAG_OUTPUT | LINE_FLAG_ACTIVE_LOW);

    let plain = LineOptionBuilder::new().output().build_v2();
    assert_eq!(plain, LINE_FLAG_OUTPUT);
}

#[test]
fn clock_source_is_ignored_without_edge_detect() {
    let flags = LineOptionBuilder::new()
        .input()
        .with_clock_source(EventClock::RealTime)
        .build_v2();
    assert_eq!(flags, LINE_FLAG_INPUT | LINE_FLAG_BIAS_DISABLED);
}

#[test]
fn unspecified_bias_lowers_to_disabled() {
    let flags = LineOptionBuilder::new().input().build_v2();
    assert_eq!(flags, LINE_FLAG_INPUT | LINE_FLAG_BIAS_DISABLED);
}

#[test]
fn line_options_enum_matches_builder() {
    let from_enum = LineOptions::Input {
        bias: Bias::PullUp,
        active: Active::Low,
        edge: Some(EdgeDetect::Rising),
        clock: EventClock::RealTime,
    }
    .build_v2();
    let from_builder = LineOptions::build()
        .input()
        .with_bias(Bias::PullUp)
        .with_active(Active::Low)
        .with_edge_detect(EdgeDetect::Rising)
        .with_clock_source(EventClock::RealTime)
        .build_v2();
    assert_eq!(from_enum, from_builder);

    let out_enum = LineOptions::DrivenOutput { active: Active::High }.build_v2();
    assert_eq!(out_enum, LINE_FLAG_OUTPUT);
}
