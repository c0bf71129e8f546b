use audio_enumerate::report::{ErrorKind, Report, ReportError};

fn lines(texts: &[&str]) -> Vec<String> {
    texts.iter().map(|t| String::from(*t)).collect()
}

#[test]
fn new_report_is_empty_and_complete() {
    let report = Report::new();
    assert!(report.lines.is_empty());
    assert_eq!(report.error, None);
    assert!(report.is_complete());
}

#[test]
fn failed_report_holds_the_error_and_no_line() {
    let report = Report::failed(ErrorKind::DeviceEnumeration, &String::from("no bus"));
    assert!(report.lines.is_empty());
    assert!(!report.is_complete());
    assert_eq!(
        report.error,
        Some(ReportError { kind: ErrorKind::DeviceEnumeration, detail: String::from("no bus") })
    );
}

#[test]
fn push_line_adds_at_the_end() {
    let mut report = Report::new();
    report.push_line(String::from("first"));
    report.push_line(String::from("second"));
    assert_eq!(report.lines, lines(&["first", "second"]));
    assert!(report.is_complete());
}

#[test]
fn push_lines_adds_all_in_order() {
    let mut report = Report::new();
    report.push_line(String::from("a"));
    report.push_lines(lines(&["b", "c"]));
    report.push_lines(Vec::new());
    assert_eq!(report.lines, lines(&["a", "b", "c"]));
}

#[test]
fn push_line_keeps_the_error() {
    let mut report = Report::failed(ErrorKind::DriverLoad, &String::from("x"));
    report.push_line(String::from("heading"));
    assert_eq!(report.lines, lines(&["heading"]));
    assert_eq!(report.error.map(|e| e.kind), Some(ErrorKind::DriverLoad));
}

#[test]
fn extend_joins_lines_and_takes_the_error() {
    let mut report = Report::new();
    report.push_line(String::from("a"));
    let mut next = Report::failed(ErrorKind::NameUnavailable, &String::from("gone"));
    next.push_line(String::from("b"));
    report.extend(next);
    assert_eq!(report.lines, lines(&["a", "b"]));
    assert_eq!(
        report.error,
        Some(ReportError { kind: ErrorKind::NameUnavailable, detail: String::from("gone") })
    );
}

#[test]
fn extend_after_an_error_changes_nothing() {
    let mut report = Report::failed(ErrorKind::HostResolution, &String::from("first"));
    report.push_line(String::from("a"));
    let before = report.clone();
    let mut next = Report::failed(ErrorKind::DriverLoad, &String::from("second"));
    next.push_line(String::from("b"));
    report.extend(next);
    assert_eq!(report, before);
}

#[test]
fn extend_with_an_empty_report_changes_nothing() {
    let mut report = Report::new();
    report.push_line(String::from("a"));
    let before = report.clone();
    report.extend(Report::new());
    assert_eq!(report, before);
}

#[test]
fn host_errors_speak_for_themselves() {
    for kind in
        [ErrorKind::HostResolution, ErrorKind::NameUnavailable, ErrorKind::DeviceEnumeration]
    {
        let error = ReportError { kind, detail: String::from("the requested host is unavailable") };
        assert_eq!(error.message(), "the requested host is unavailable");
    }
}

#[test]
fn driver_errors_are_introduced() {
    let load = ReportError { kind: ErrorKind::DriverLoad, detail: String::from("LoadDriverFailed") };
    assert_eq!(load.message(), "failed to load driver: LoadDriverFailed");
    let channels = ReportError { kind: ErrorKind::ChannelQuery, detail: String::from("NoDrivers") };
    assert_eq!(channels.message(), "failed to retrieve channel counts: NoDrivers");
    let rate = ReportError { kind: ErrorKind::SampleRateQuery, detail: String::from("NoRate") };
    assert_eq!(rate.message(), "failed to retrieve sample rate: NoRate");
}
