use audio_enumerate::descriptor::{Format, SampleFormat, SampleRate};
use audio_enumerate::drivers::{
    asio_sys_enumerate_example, driver_formats, driver_report, DriverFailure, DriverInfo,
    DriverProbe, DriverStage,
};
use audio_enumerate::report::{ErrorKind, ReportError};

fn loaded(name: &str, ins: i64, outs: i64, sample_rate: u32) -> DriverProbe {
    DriverProbe { name: String::from(name), state: Ok(DriverInfo { ins, outs, sample_rate }) }
}

fn broken(name: &str, stage: DriverStage, detail: &str) -> DriverProbe {
    DriverProbe {
        name: String::from(name),
        state: Err(DriverFailure { stage, detail: String::from(detail) }),
    }
}

#[test]
fn formats_carry_counts_rate_and_float_tag() {
    let (input, output) = driver_formats(&DriverInfo { ins: 2, outs: 8, sample_rate: 48000 });
    assert_eq!(
        input,
        Format { channels: 2, sample_rate: SampleRate(48000), data_type: SampleFormat::F32 }
    );
    assert_eq!(
        output,
        Format { channels: 8, sample_rate: SampleRate(48000), data_type: SampleFormat::F32 }
    );
}

#[test]
fn formats_of_a_driver_without_channels() {
    let (input, output) = driver_formats(&DriverInfo { ins: 0, outs: 0, sample_rate: 0 });
    assert_eq!(input.channels, 0);
    assert_eq!(output.channels, 0);
    assert_eq!(input.sample_rate, SampleRate(0));
    assert_eq!(output.data_type, SampleFormat::F32);
}

#[test]
fn formats_narrow_counts_that_do_not_fit() {
    let (input, output) = driver_formats(&DriverInfo { ins: 65536, outs: -1, sample_rate: 1 });
    assert_eq!(input.channels, 0);
    assert_eq!(output.channels, 65535);
}

#[test]
fn loaded_driver_is_three_lines() {
    let report = driver_report(&loaded("ASIO4ALL v2", 2, 4, 44100));
    assert_eq!(
        report.lines,
        vec![
            String::from("Driver: \"ASIO4ALL v2\""),
            String::from(
                "  Input Format { channels: 2, sample_rate: SampleRate(44100), data_type: F32 }"
            ),
            String::from(
                "  Output Format { channels: 4, sample_rate: SampleRate(44100), data_type: F32 }"
            ),
        ]
    );
    assert_eq!(report.error, None);
}

#[test]
fn driver_name_is_quoted_and_escaped() {
    let report = driver_report(&loaded("Say \"hi\"\\\n", 1, 1, 8000));
    assert_eq!(report.lines[0], "Driver: \"Say \\\"hi\\\"\\\\\\n\"");
    assert_eq!(report.lines[0], format!("Driver: {:?}", "Say \"hi\"\\\n"));
}

#[test]
fn empty_driver_name_is_two_quotes() {
    let report = driver_report(&loaded("", 1, 1, 8000));
    assert_eq!(report.lines[0], "Driver: \"\"");
}

#[test]
fn failed_load_writes_the_heading_and_ends() {
    let report = driver_report(&broken("Broken", DriverStage::Load, "LoadDriverFailed"));
    assert_eq!(report.lines, vec![String::from("Driver: \"Broken\"")]);
    assert_eq!(
        report.error,
        Some(ReportError { kind: ErrorKind::DriverLoad, detail: String::from("LoadDriverFailed") })
    );
}

#[test]
fn failed_channel_query_is_its_own_error() {
    let report = driver_report(&broken("Half", DriverStage::Channels, "NoDrivers"));
    assert_eq!(report.lines, vec![String::from("Driver: \"Half\"")]);
    assert_eq!(report.error.map(|e| e.kind), Some(ErrorKind::ChannelQuery));
}

#[test]
fn failed_rate_query_is_its_own_error() {
    let report = driver_report(&broken("Half", DriverStage::SampleRate, "NoRate"));
    assert_eq!(report.lines, vec![String::from("Driver: \"Half\"")]);
    assert_eq!(report.error.map(|e| e.kind), Some(ErrorKind::SampleRateQuery));
}

#[test]
fn stages_map_to_error_kinds() {
    assert_eq!(DriverStage::Load.error_kind(), ErrorKind::DriverLoad);
    assert_eq!(DriverStage::Channels.error_kind(), ErrorKind::ChannelQuery);
    assert_eq!(DriverStage::SampleRate.error_kind(), ErrorKind::SampleRateQuery);
}

#[test]
fn no_drivers_no_lines() {
    let report = asio_sys_enumerate_example(&Vec::new());
    assert!(report.lines.is_empty());
    assert_eq!(report.error, None);
}

#[test]
fn drivers_are_reported_in_order() {
    let drivers = vec![loaded("A", 1, 2, 44100), loaded("B", 3, 4, 48000)];
    let report = asio_sys_enumerate_example(&drivers);
    assert_eq!(
        report.lines,
        vec![
            String::from("Driver: \"A\""),
            String::from(
                "  Input Format { channels: 1, sample_rate: SampleRate(44100), data_type: F32 }"
            ),
            String::from(
                "  Output Format { channels: 2, sample_rate: SampleRate(44100), data_type: F32 }"
            ),
            String::from("Driver: \"B\""),
            String::from(
                "  Input Format { channels: 3, sample_rate: SampleRate(48000), data_type: F32 }"
            ),
            String::from(
                "  Output Format { channels: 4, sample_rate: SampleRate(48000), data_type: F32 }"
            ),
        ]
    );
    assert_eq!(report.error, None);
}

#[test]
fn run_is_the_reports_of_the_drivers_joined() {
    let drivers = vec![loaded("A", 1, 2, 44100), loaded("B", 3, 4, 48000), loaded("C", 0, 0, 1)];
    let mut expected: Vec<String> = Vec::new();
    for driver in &drivers {
        expected.extend(driver_report(driver).lines);
    }
    assert_eq!(asio_sys_enumerate_example(&drivers).lines, expected);
}

#[test]
fn failed_driver_ends_the_run() {
    let drivers = vec![
        loaded("A", 1, 2, 44100),
        broken("B", DriverStage::Load, "LoadDriverFailed"),
        loaded("C", 3, 4, 48000),
        broken("D", DriverStage::Channels, "later"),
    ];
    let report = asio_sys_enumerate_example(&drivers);
    assert_eq!(
        report.lines,
        vec![
            String::from("Driver: \"A\""),
            String::from(
                "  Input Format { channels: 1, sample_rate: SampleRate(44100), data_type: F32 }"
            ),
            String::from(
                "  Output Format { channels: 2, sample_rate: SampleRate(44100), data_type: F32 }"
            ),
            String::from("Driver: \"B\""),
        ]
    );
    assert_eq!(
        report.error,
        Some(ReportError { kind: ErrorKind::DriverLoad, detail: String::from("LoadDriverFailed") })
    );
    assert!(!report.lines.iter().any(|line| line.contains("\"C\"") || line.contains("\"D\"")));
}

#[test]
fn run_with_a_failure_equals_the_run_up_to_it() {
    let all = vec![
        loaded("A", 1, 2, 44100),
        broken("B", DriverStage::SampleRate, "NoRate"),
        loaded("C", 3, 4, 48000),
    ];
    let upto = vec![loaded("A", 1, 2, 44100), broken("B", DriverStage::SampleRate, "NoRate")];
    assert_eq!(asio_sys_enumerate_example(&all), asio_sys_enumerate_example(&upto));
}

#[test]
fn first_driver_failing_leaves_only_its_heading() {
    let drivers = vec![broken("A", DriverStage::Load, "x"), loaded("B", 1, 1, 1)];
    let report = asio_sys_enumerate_example(&drivers);
    assert_eq!(report.lines, vec![String::from("Driver: \"A\"")]);
    assert_eq!(report.error.map(|e| e.message()), Some(String::from("failed to load driver: x")));
}
