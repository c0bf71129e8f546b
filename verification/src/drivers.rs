//! The driver flow: each driver of the low-level registry by name, with the
//! input and output descriptors derived from its channel counts and sample
//! rate.

use crate::descriptor::{channel_count, low_sixteen, Format, SampleFormat, SampleRate};
use crate::report::{
    chain, lemma_chain_faulty, lemma_chain_settled, lemma_chain_stops, ErrorKind, Fault, Outcome,
    Report,
};
use crate::text::{debug_quoted, quoted};
use vstd::prelude::*;

verus! {

/// What a loaded driver says of itself.
#[derive(Clone, Copy, Debug, PartialEq, Eq, Structural)]
pub struct DriverInfo {
    /// The number of input channels, as the driver counts them.
    pub ins: i64,
    /// The number of output channels, as the driver counts them.
    pub outs: i64,
    /// The current sample rate, in whole samples per second.
    pub sample_rate: u32,
}

/// The step of probing a driver at which it failed.
#[derive(Clone, Copy, Debug, PartialEq, Eq, Structural)]
pub enum DriverStage {
    /// Loading the driver.
    Load,
    /// Asking the loaded driver for its channel counts.
    Channels,
    /// Asking the loaded driver for its sample rate.
    SampleRate,
}

/// A failed probe: the step that failed and what the registry said.
#[derive(Clone, Debug, PartialEq, Eq)]
pub struct DriverFailure {
    pub stage: DriverStage,
    pub detail: String,
}

/// The result of probing one driver of the registry.
#[derive(Debug, PartialEq, Eq)]
pub struct DriverProbe {
    /// The name under which the registry lists the driver.
    pub name: String,
    /// What the driver said once loaded, or how probing it failed.
    pub state: Result<DriverInfo, DriverFailure>,
}

impl DriverStage {
    /// The kind of fatal error that a failure at this step is.
    pub open spec fn kind(self) -> ErrorKind {
        match self {
            DriverStage::Load => ErrorKind::DriverLoad,
            DriverStage::Channels => ErrorKind::ChannelQuery,
            DriverStage::SampleRate => ErrorKind::SampleRateQuery,
        }
    }

    /// Gives the kind of fatal error that a failure at this step is.
    pub fn error_kind(&self) -> (kind: ErrorKind)
        ensures
            kind == self.kind(),
    {
        match self {
            DriverStage::Load => ErrorKind::DriverLoad,
            DriverStage::Channels => ErrorKind::ChannelQuery,
            DriverStage::SampleRate => ErrorKind::SampleRateQuery,
        }
    }
}

/// The descriptor with the given raw channel count and rate. The sample
/// format is always `F32`: the driver is not asked for its own.
pub open spec fn derived_format(raw_channels: i64, sample_rate: u32) -> Format {
    Format {
        channels: low_sixteen(raw_channels as int) as u16,
        sample_rate: SampleRate(sample_rate),
        data_type: SampleFormat::F32,
    }
}

/// The input descriptor of a loaded driver.
pub open spec fn input_format(info: DriverInfo) -> Format {
    derived_format(info.ins, info.sample_rate)
}

/// The output descriptor of a loaded driver.
pub open spec fn output_format(info: DriverInfo) -> Format {
    derived_format(info.outs, info.sample_rate)
}

/// The line that names a driver.
pub open spec fn driver_heading(name: Seq<char>) -> Seq<char> {
    "Driver: "@ + debug_quoted(name)
}

/// The two lines that describe a loaded driver.
pub open spec fn format_lines(info: DriverInfo) -> Seq<Seq<char>> {
    seq!["  Input "@ + input_format(info).text(), "  Output "@ + output_format(info).text()]
}

/// What the flow writes for one driver. The heading comes first in any
/// case; a failed probe then ends the run, a loaded driver gets its two
/// descriptor lines.
pub open spec fn driver_outcome(probe: DriverProbe) -> Outcome {
    match probe.state {
        Ok(info) => Outcome::clean(seq![driver_heading(probe.name@)] + format_lines(info)),
        Err(failure) => Outcome {
            lines: seq![driver_heading(probe.name@)],
            fault: Some(Fault { kind: failure.stage.kind(), detail: failure.detail@ }),
        },
    }
}

/// The outcomes of the drivers, one for one.
pub open spec fn driver_outcomes(probes: Seq<DriverProbe>) -> Seq<Outcome> {
    Seq::new(probes.len(), |i: int| driver_outcome(probes[i]))
}

/// What the flow writes for the drivers of a registry, in the order in
/// which the registry lists them, up to the first that fails.
pub open spec fn drivers_outcome(probes: Seq<DriverProbe>) -> Outcome {
    chain(driver_outcomes(probes))
}

/// Derives the input and the output descriptor of a loaded driver.
pub fn driver_formats(info: &DriverInfo) -> (formats: (Format, Format))
    ensures
        formats.0 == input_format(*info),
        formats.1 == output_format(*info),
        0 <= info.ins < 65536 ==> formats.0.channels == info.ins,
        0 <= info.outs < 65536 ==> formats.1.channels == info.outs,
{
    let input = Format {
        channels: channel_count(info.ins),
        sample_rate: SampleRate(info.sample_rate),
        data_type: SampleFormat::F32,
    };
    let output = Format {
        channels: channel_count(info.outs),
        sample_rate: SampleRate(info.sample_rate),
        data_type: SampleFormat::F32,
    };
    (input, output)
}

/// Writes the report of one driver.
pub fn driver_report(probe: &DriverProbe) -> (report: Report)
    ensures
        report@ == driver_outcome(*probe),
{
    let mut heading = String::from_str("Driver: ");
    heading.append(quoted(probe.name.as_str()).as_str());
    match &probe.state {
        Ok(info) => {
            let mut report = Report::new();
            report.push_line(heading);
            let (input, output) = driver_formats(info);
            let mut line = String::from_str("  Input ");
            line.append(input.to_text().as_str());
            report.push_line(line);
            let mut line = String::from_str("  Output ");
            line.append(output.to_text().as_str());
            report.push_line(line);
            assert(report@.lines =~= driver_outcome(*probe).lines);
            report
        },
        Err(failure) => {
            let mut report = Report::failed(failure.stage.error_kind(), &failure.detail);
            report.push_line(heading);
            assert(report@.lines =~= driver_outcome(*probe).lines);
            report
        },
    }
}

/// Writes the report of all drivers of a registry, in the order given. The
/// run ends with the first driver whose probe failed; the error of the
/// report then says how.
pub fn asio_sys_enumerate_example(drivers: &Vec<DriverProbe>) -> (report: Report)
    ensures
        report@ == drivers_outcome(drivers@),
{
    let ghost parts = driver_outcomes(drivers@);
    let mut report = Report::new();
    let mut i: usize = 0;
    assert(parts.take(0) =~= Seq::<Outcome>::empty());
    while i < drivers.len() && report.is_complete()
        invariant
            i <= drivers.len(),
            parts == driver_outcomes(drivers@),
            report@ == chain(parts.take(i as int)),
        decreases drivers.len() - i,
    {
        report.extend(driver_report(&drivers[i]));
        proof {
            assert(parts.take(i as int + 1).drop_last() =~= parts.take(i as int));
        }
        i += 1;
    }
    proof {
        if report@.fault is Some {
            lemma_chain_settled(parts, i as int);
        } else {
            assert(parts.take(i as int) =~= parts);
        }
    }
    report
}

/// A driver that loads with channel counts that fit a `ChannelCount` is
/// written in three lines: its name, an input descriptor with its input
/// count and an output descriptor with its output count, both with its
/// sample rate and the format `F32`. It raises no error.
pub proof fn lemma_loaded_driver(probe: DriverProbe, info: DriverInfo)
    requires
        probe.state == Ok::<DriverInfo, DriverFailure>(info),
        0 <= info.ins < 65536,
        0 <= info.outs < 65536,
    ensures
        driver_outcome(probe).fault is None,
        driver_outcome(probe).lines == seq![
            driver_heading(probe.name@),
            "  Input "@ + (Format {
                channels: info.ins as u16,
                sample_rate: SampleRate(info.sample_rate),
                data_type: SampleFormat::F32,
            }).text(),
            "  Output "@ + (Format {
                channels: info.outs as u16,
                sample_rate: SampleRate(info.sample_rate),
                data_type: SampleFormat::F32,
            }).text(),
        ],
{
    assert(driver_outcome(probe).lines =~= seq![driver_heading(probe.name@)] + format_lines(info));
}

/// When the probe of driver `i` failed, the run ends there: the report of
/// all drivers is the report of the drivers up to and including `i`, holds
/// an error, and no driver behind `i` adds a line to it. The failed driver
/// itself adds its heading and nothing else.
pub proof fn lemma_failed_driver_ends_run(probes: Seq<DriverProbe>, i: int)
    requires
        0 <= i < probes.len(),
        probes[i].state is Err,
    ensures
        drivers_outcome(probes) == drivers_outcome(probes.take(i + 1)),
        drivers_outcome(probes).fault is Some,
        driver_outcome(probes[i]).lines == seq![driver_heading(probes[i].name@)],
{
    let parts = driver_outcomes(probes);
    lemma_chain_stops(parts, i);
    lemma_chain_faulty(parts, i);
    assert(parts.take(i + 1) =~= driver_outcomes(probes.take(i + 1)));
}

} // verus!
