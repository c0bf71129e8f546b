//! The host flow: the hosts of the system, the default devices of each, and
//! each device with the stream configurations it supports.

use crate::report::{
    all_lines, chain, lemma_all_lines_part, lemma_chain_clean, lemma_chain_settled, lines_before,
    ErrorKind, Outcome, Report,
};
use crate::text::{
    bracketed, debug_quoted, decimal, lemma_decimal_chars, lemma_decimal_round_trip, list_text,
    push_decimal, quoted, texts,
};
use vstd::prelude::*;

verus! {

/// The two directions in which a device can stream.
#[derive(Clone, Copy, Debug, PartialEq, Eq, Structural)]
pub enum Direction {
    Input,
    Output,
}

/// What a device said of one direction. A configuration is held as the
/// text that describes it.
#[derive(Debug, PartialEq, Eq)]
pub struct DirectionProbe {
    /// The default configuration; `None` where the device has none for this
    /// direction, which is no error.
    pub default_config: Option<String>,
    /// All supported configurations in the order in which the device
    /// enumerates them, or what the failed enumeration said.
    pub supported: Result<Vec<String>, String>,
}

/// The result of probing one device.
#[derive(Debug, PartialEq, Eq)]
pub struct DeviceProbe {
    /// The device's name, or what the failed query said.
    pub name: Result<String, String>,
    pub input: DirectionProbe,
    pub output: DirectionProbe,
}

/// What a resolved host said of its devices.
#[derive(Debug, PartialEq, Eq)]
pub struct HostInventory {
    /// The name of the default input device, if the host has one, or what
    /// the failed name query said.
    pub default_input: Option<Result<String, String>>,
    /// The same for the default output device.
    pub default_output: Option<Result<String, String>>,
    /// The devices in the order in which the host enumerates them, or what
    /// the failed enumeration said.
    pub devices: Result<Vec<DeviceProbe>, String>,
}

/// The result of probing one host that the system lists as available.
#[derive(Debug, PartialEq, Eq)]
pub struct HostProbe {
    /// The host's identifier, as it stands in the list of hosts.
    pub id: String,
    /// The host's name.
    pub name: String,
    /// What the host said once resolved, or what the failed resolution said.
    pub state: Result<HostInventory, String>,
}

impl Direction {
    /// The line above a default configuration.
    pub open spec fn default_heading(self) -> Seq<char> {
        match self {
            Direction::Input => "    Default input stream config:"@,
            Direction::Output => "    Default output stream config:"@,
        }
    }

    /// The line above the list of supported configurations.
    pub open spec fn supported_heading(self) -> Seq<char> {
        match self {
            Direction::Input => "    All supported input stream configs:"@,
            Direction::Output => "    All supported output stream configs:"@,
        }
    }

    /// The start of the line that reports a failed enumeration.
    pub open spec fn error_prefix(self) -> Seq<char> {
        match self {
            Direction::Input => "    Error getting supported input configs: "@,
            Direction::Output => "    Error getting supported output configs: "@,
        }
    }

    fn default_heading_text(&self) -> (text: &'static str)
        ensures
            text@ == self.default_heading(),
    {
        match self {
            Direction::Input => "    Default input stream config:",
            Direction::Output => "    Default output stream config:",
        }
    }

    fn supported_heading_text(&self) -> (text: &'static str)
        ensures
            text@ == self.supported_heading(),
    {
        match self {
            Direction::Input => "    All supported input stream configs:",
            Direction::Output => "    All supported output stream configs:",
        }
    }

    fn error_prefix_text(&self) -> (text: &'static str)
        ensures
            text@ == self.error_prefix(),
    {
        match self {
            Direction::Input => "    Error getting supported input configs: ",
            Direction::Output => "    Error getting supported output configs: ",
        }
    }
}

/// The line of one supported configuration: the device's number, the
/// configuration's number, and the configuration.
pub open spec fn config_line(ordinal: nat, number: nat, config: Seq<char>) -> Seq<char> {
    "      "@ + decimal(ordinal) + "."@ + decimal(number) + ". "@ + config
}

/// The lines of the supported configurations of the device with number
/// `ordinal`: the configurations are numbered from one, in order.
pub open spec fn config_lines(ordinal: nat, configs: Seq<Seq<char>>) -> Seq<Seq<char>> {
    Seq::new(configs.len(), |j: int| config_line(ordinal, (j + 1) as nat, configs[j]))
}

/// The lines of a default configuration: none where there is no default.
pub open spec fn default_lines(direction: Direction, config: Option<String>) -> Seq<Seq<char>> {
    match config {
        Some(config) => seq![direction.default_heading(), "      "@ + config@],
        None => Seq::empty(),
    }
}

/// The lines of the supported configurations: a heading and one line each;
/// nothing at all for an empty list; one diagnostic line where the
/// enumeration failed.
pub open spec fn supported_lines(
    direction: Direction,
    ordinal: nat,
    supported: Result<Vec<String>, String>,
) -> Seq<Seq<char>> {
    match supported {
        Ok(configs) => if configs@.len() == 0 {
            Seq::empty()
        } else {
            seq![direction.supported_heading()] + config_lines(ordinal, texts(configs@))
        },
        Err(e) => seq![direction.error_prefix() + e@],
    }
}

/// The lines of one direction of a device.
pub open spec fn direction_lines(direction: Direction, ordinal: nat, probe: DirectionProbe) -> Seq<
    Seq<char>,
> {
    default_lines(direction, probe.default_config) + supported_lines(
        direction,
        ordinal,
        probe.supported,
    )
}

/// The line that names a device: its number, a dot, and the name in double
/// quotes, written as it is.
pub open spec fn device_heading(ordinal: nat, name: Seq<char>) -> Seq<char> {
    "  "@ + decimal(ordinal) + ". \""@ + name + "\""@
}

/// What the flow writes for the device with number `ordinal`. A device
/// without a name ends the run before anything is written for it.
pub open spec fn device_outcome(device: DeviceProbe, ordinal: nat) -> Outcome {
    match device.name {
        Ok(name) => Outcome::clean(
            seq![device_heading(ordinal, name@)] + direction_lines(
                Direction::Input,
                ordinal,
                device.input,
            ) + direction_lines(Direction::Output, ordinal, device.output),
        ),
        Err(e) => Outcome::failure(ErrorKind::NameUnavailable, e@),
    }
}

/// The outcomes of the devices, numbered from one in the order given.
pub open spec fn device_outcomes(devices: Seq<DeviceProbe>) -> Seq<Outcome> {
    Seq::new(devices.len(), |k: int| device_outcome(devices[k], (k + 1) as nat))
}

/// What `{:?}` writes for the optional name of a default device.
pub open spec fn default_device_text(name: Option<Result<String, String>>) -> Seq<char> {
    match name {
        Some(Ok(name)) => "Some("@ + debug_quoted(name@) + ")"@,
        _ => "None"@,
    }
}

/// The four lines on the default devices of a host. A default device
/// without a name ends the run before any of them is written; the input
/// device is asked first.
pub open spec fn defaults_outcome(inventory: HostInventory) -> Outcome {
    match inventory.default_input {
        Some(Err(e)) => Outcome::failure(ErrorKind::NameUnavailable, e@),
        _ => match inventory.default_output {
            Some(Err(e)) => Outcome::failure(ErrorKind::NameUnavailable, e@),
            _ => Outcome::clean(
                seq![
                    "  Default Input Device:"@,
                    "    "@ + default_device_text(inventory.default_input),
                    "  Default Output Device:"@,
                    "    "@ + default_device_text(inventory.default_output),
                ],
            ),
        },
    }
}

/// The heading of the device list and the devices behind it. A failed
/// enumeration ends the run before the heading.
pub open spec fn devices_outcome(devices: Result<Vec<DeviceProbe>, String>) -> Outcome {
    match devices {
        Ok(devices) => Outcome::clean(seq!["  Devices: "@]).followed_by(
            chain(device_outcomes(devices@)),
        ),
        Err(e) => Outcome::failure(ErrorKind::DeviceEnumeration, e@),
    }
}

/// What the flow writes for one host: its name, its default devices, its
/// devices.
pub open spec fn host_outcome(host: HostProbe) -> Outcome {
    let name = Outcome::clean(seq![host.name@]);
    match host.state {
        Ok(inventory) => name.followed_by(defaults_outcome(inventory)).followed_by(
            devices_outcome(inventory.devices),
        ),
        Err(e) => name.followed_by(Outcome::failure(ErrorKind::HostResolution, e@)),
    }
}

/// The outcomes of the hosts, one for one.
pub open spec fn host_outcomes(hosts: Seq<HostProbe>) -> Seq<Outcome> {
    Seq::new(hosts.len(), |i: int| host_outcome(hosts[i]))
}

/// The identifiers of the hosts, one for one.
pub open spec fn host_ids(hosts: Seq<HostProbe>) -> Seq<Seq<char>> {
    Seq::new(hosts.len(), |i: int| hosts[i].id@)
}

/// The four lines that list the hosts that could exist and those that do.
pub open spec fn listing_lines(supported: Seq<Seq<char>>, available: Seq<Seq<char>>) -> Seq<
    Seq<char>,
> {
    seq![
        "Supported hosts:"@,
        "  "@ + bracketed(supported),
        "Available hosts:"@,
        "  "@ + bracketed(available),
    ]
}

/// What the whole host flow writes: the two lists of hosts, then each
/// available host in order, up to the first fatal error.
pub open spec fn hosts_outcome(supported: Seq<Seq<char>>, hosts: Seq<HostProbe>) -> Outcome {
    Outcome::clean(listing_lines(supported, host_ids(hosts))).followed_by(
        chain(host_outcomes(hosts)),
    )
}

/// Writes the line of one supported configuration.
pub fn write_config_line(ordinal: usize, number: usize, config: &str) -> (line: String)
    ensures
        line@ == config_line(ordinal as nat, number as nat, config@),
{
    let mut line = String::from_str("      ");
    push_decimal(&mut line, ordinal as u64);
    line.append(".");
    push_decimal(&mut line, number as u64);
    line.append(". ");
    line.append(config);
    line
}

/// Writes the lines of one direction of the device with number `ordinal`.
pub fn direction_report(direction: Direction, ordinal: usize, probe: &DirectionProbe) -> (lines:
    Vec<String>)
    ensures
        texts(lines@) == direction_lines(direction, ordinal as nat, *probe),
{
    let mut lines: Vec<String> = Vec::new();
    if let Some(config) = &probe.default_config {
        lines.push(String::from_str(direction.default_heading_text()));
        let mut line = String::from_str("      ");
        line.append(config.as_str());
        lines.push(line);
    }
    assert(texts(lines@) =~= default_lines(direction, probe.default_config));
    match &probe.supported {
        Ok(configs) => {
            if configs.len() > 0 {
                let ghost head = texts(lines@).push(direction.supported_heading());
                let ghost all = config_lines(ordinal as nat, texts(configs@));
                lines.push(String::from_str(direction.supported_heading_text()));
                let mut j: usize = 0;
                assert(texts(lines@) =~= head + all.take(0));
                while j < configs.len()
                    invariant
                        j <= configs.len(),
                        all == config_lines(ordinal as nat, texts(configs@)),
                        texts(lines@) == head + all.take(j as int),
                    decreases configs.len() - j,
                {
                    let ghost before = texts(lines@);
                    let line = write_config_line(ordinal, j + 1, configs[j].as_str());
                    assert(line@ == all[j as int]);
                    lines.push(line);
                    assert(texts(lines@) =~= before.push(all[j as int]));
                    assert(all.take(j as int + 1) =~= all.take(j as int).push(all[j as int]));
                    assert(texts(lines@) =~= head + all.take(j as int + 1));
                    j += 1;
                }
                assert(all.take(j as int) =~= all);
                assert(head + all =~= default_lines(direction, probe.default_config) + (
                seq![direction.supported_heading()] + all));
            }
        },
        Err(e) => {
            let mut line = String::from_str(direction.error_prefix_text());
            line.append(e.as_str());
            lines.push(line);
        },
    }
    assert(texts(lines@) =~= direction_lines(direction, ordinal as nat, *probe));
    lines
}

/// Writes the report of the device with number `ordinal`.
pub fn device_report(device: &DeviceProbe, ordinal: usize) -> (report: Report)
    ensures
        report@ == device_outcome(*device, ordinal as nat),
{
    match &device.name {
        Ok(name) => {
            let mut heading = String::from_str("  ");
            push_decimal(&mut heading, ordinal as u64);
            heading.append(". \"");
            heading.append(name.as_str());
            heading.append("\"");
            let mut report = Report::new();
            report.push_line(heading);
            report.push_lines(direction_report(Direction::Input, ordinal, &device.input));
            report.push_lines(direction_report(Direction::Output, ordinal, &device.output));
            assert(report@.lines =~= device_outcome(*device, ordinal as nat).lines);
            report
        },
        Err(e) => Report::failed(ErrorKind::NameUnavailable, e),
    }
}

/// Writes the reports of the devices of a host, numbered from one, up to
/// the first device without a name.
pub fn devices_report(devices: &Vec<DeviceProbe>) -> (report: Report)
    ensures
        report@ == chain(device_outcomes(devices@)),
{
    let ghost parts = device_outcomes(devices@);
    let mut report = Report::new();
    let mut k: usize = 0;
    assert(parts.take(0) =~= Seq::<Outcome>::empty());
    while k < devices.len() && report.is_complete()
        invariant
            k <= devices.len(),
            parts == device_outcomes(devices@),
            report@ == chain(parts.take(k as int)),
        decreases devices.len() - k,
    {
        report.extend(device_report(&devices[k], k + 1));
        proof {
            assert(parts.take(k as int + 1).drop_last() =~= parts.take(k as int));
        }
        k += 1;
    }
    proof {
        if report@.fault is Some {
            lemma_chain_settled(parts, k as int);
        } else {
            assert(parts.take(k as int) =~= parts);
        }
    }
    report
}

/// Writes the optional name of a default device as `{:?}` does.
fn default_device_line(name: &Option<Result<String, String>>) -> (line: String)
    ensures
        line@ == "    "@ + default_device_text(*name),
{
    let mut line = String::from_str("    ");
    match name {
        Some(Ok(name)) => {
            line.append("Some(");
            line.append(quoted(name.as_str()).as_str());
            line.append(")");
            assert(line@ =~= "    "@ + default_device_text(Some(Ok(*name))));
        },
        _ => {
            line.append("None");
        },
    }
    line
}

/// Writes the lines on the default devices of a host.
pub fn defaults_report(inventory: &HostInventory) -> (report: Report)
    ensures
        report@ == defaults_outcome(*inventory),
{
    if let Some(Err(e)) = &inventory.default_input {
        return Report::failed(ErrorKind::NameUnavailable, e);
    }
    if let Some(Err(e)) = &inventory.default_output {
        return Report::failed(ErrorKind::NameUnavailable, e);
    }
    let mut report = Report::new();
    report.push_line(String::from_str("  Default Input Device:"));
    report.push_line(default_device_line(&inventory.default_input));
    report.push_line(String::from_str("  Default Output Device:"));
    report.push_line(default_device_line(&inventory.default_output));
    assert(report@.lines =~= defaults_outcome(*inventory).lines);
    report
}

/// Writes the report of one host.
pub fn host_report(host: &HostProbe) -> (report: Report)
    ensures
        report@ == host_outcome(*host),
{
    let mut report = Report::new();
    report.push_line(host.name.clone());
    assert(report@ == Outcome::clean(seq![host.name@])) by {
        assert(report@.lines =~= seq![host.name@]);
    }
    match &host.state {
        Ok(inventory) => {
            report.extend(defaults_report(inventory));
            match &inventory.devices {
                Ok(devices) => {
                    let mut listed = Report::new();
                    listed.push_line(String::from_str("  Devices: "));
                    assert(listed@ == Outcome::clean(seq!["  Devices: "@])) by {
                        assert(listed@.lines =~= seq!["  Devices: "@]);
                    }
                    listed.extend(devices_report(devices));
                    report.extend(listed);
                },
                Err(e) => {
                    report.extend(Report::failed(ErrorKind::DeviceEnumeration, e));
                },
            }
        },
        Err(e) => {
            report.extend(Report::failed(ErrorKind::HostResolution, e));
        },
    }
    report
}

/// Writes the reports of the hosts, in order, up to the first fatal error.
pub fn hosts_report(hosts: &Vec<HostProbe>) -> (report: Report)
    ensures
        report@ == chain(host_outcomes(hosts@)),
{
    let ghost parts = host_outcomes(hosts@);
    let mut report = Report::new();
    let mut i: usize = 0;
    assert(parts.take(0) =~= Seq::<Outcome>::empty());
    while i < hosts.len() && report.is_complete()
        invariant
            i <= hosts.len(),
            parts == host_outcomes(hosts@),
            report@ == chain(parts.take(i as int)),
        decreases hosts.len() - i,
    {
        report.extend(host_report(&hosts[i]));
        proof {
            assert(parts.take(i as int + 1).drop_last() =~= parts.take(i as int));
        }
        i += 1;
    }
    proof {
        if report@.fault is Some {
            lemma_chain_settled(parts, i as int);
        } else {
            assert(parts.take(i as int) =~= parts);
        }
    }
    report
}

/// Writes the four lines that list the hosts that could exist on this
/// platform and those that are available, each list by identifier.
pub fn host_listing(supported: &Vec<String>, available: &Vec<String>) -> (lines: Vec<String>)
    ensures
        texts(lines@) == listing_lines(texts(supported@), texts(available@)),
{
    let mut lines: Vec<String> = Vec::new();
    lines.push(String::from_str("Supported hosts:"));
    let mut line = String::from_str("  ");
    line.append(list_text(supported).as_str());
    lines.push(line);
    lines.push(String::from_str("Available hosts:"));
    let mut line = String::from_str("  ");
    line.append(list_text(available).as_str());
    lines.push(line);
    assert(texts(lines@) =~= listing_lines(texts(supported@), texts(available@)));
    lines
}

/// Writes the whole report of the host flow: the identifiers of the hosts
/// that could exist, those of the hosts probed, and the report of each
/// probed host in order. The run ends with the first fatal error; the error
/// of the report then says which.
pub fn cpal_enumerate_example(supported: &Vec<String>, hosts: &Vec<HostProbe>) -> (report: Report)
    ensures
        report@ == hosts_outcome(texts(supported@), hosts@),
{
    let mut available: Vec<String> = Vec::new();
    let mut i: usize = 0;
    while i < hosts.len()
        invariant
            i <= hosts.len(),
            texts(available@) == host_ids(hosts@).take(i as int),
        decreases hosts.len() - i,
    {
        let ghost before = texts(available@);
        let id = hosts[i].id.clone();
        assert(id@ == host_ids(hosts@)[i as int]);
        available.push(id);
        assert(texts(available@) =~= before.push(id@));
        assert(texts(available@) =~= host_ids(hosts@).take(i as int + 1));
        i += 1;
    }
    assert(host_ids(hosts@).take(i as int) =~= host_ids(hosts@));
    let mut report = Report::new();
    report.push_lines(host_listing(supported, &available));
    assert(report@ == Outcome::clean(listing_lines(texts(supported@), host_ids(hosts@)))) by {
        assert(report@.lines =~= listing_lines(texts(supported@), host_ids(hosts@)));
    }
    report.extend(hosts_report(hosts));
    report
}

/// Whether `line` begins with `prefix`.
pub open spec fn has_prefix(line: Seq<char>, prefix: Seq<char>) -> bool {
    prefix.len() <= line.len() && line.subrange(0, prefix.len() as int) == prefix
}

/// The probe of one direction of a device.
pub open spec fn direction_probe(device: DeviceProbe, direction: Direction) -> DirectionProbe {
    match direction {
        Direction::Input => device.input,
        Direction::Output => device.output,
    }
}

/// The characters by which the fixed lines of a device differ from one
/// another: the first character behind the indentation, and the first
/// letter of the direction.
proof fn lemma_fixed_lines(direction: Direction)
    ensures
        direction.default_heading().len() > 12,
        direction.default_heading()[2] == ' ',
        direction.default_heading()[4] == 'D',
        direction.default_heading()[12] == (if direction == Direction::Input {
            'i'
        } else {
            'o'
        }),
        direction.supported_heading().len() > 4,
        direction.supported_heading()[2] == ' ',
        direction.supported_heading()[4] == 'A',
        direction.supported_heading().len() > 18,
        direction.supported_heading()[18] == (if direction == Direction::Input {
            'i'
        } else {
            'o'
        }),
        direction.error_prefix().len() > 28,
        direction.error_prefix()[2] == ' ',
        direction.error_prefix()[4] == 'E',
        direction.error_prefix()[28] == (if direction == Direction::Input {
            'i'
        } else {
            'o'
        }),
        "      "@.len() == 6,
        "      "@[4] == ' ',
        "  "@.len() == 2,
{
    reveal_strlit("    Default input stream config:");
    reveal_strlit("    Default output stream config:");
    reveal_strlit("    All supported input stream configs:");
    reveal_strlit("    All supported output stream configs:");
    reveal_strlit("    Error getting supported input configs: ");
    reveal_strlit("    Error getting supported output configs: ");
    reveal_strlit("      ");
    reveal_strlit("  ");
}

/// What a line of one direction of a device can be: the heading of the
/// default configuration, a configuration behind six spaces, the heading
/// of the supported configurations, or the diagnostic of a failed
/// enumeration, which stands right behind the default configuration.
pub open spec fn direction_line_form(
    direction: Direction,
    probe: DirectionProbe,
    i: int,
    line: Seq<char>,
) -> bool {
    ||| probe.default_config is Some && line == direction.default_heading()
    ||| line.len() >= 6 && line[4] == ' '
    ||| probe.supported is Ok && line == direction.supported_heading()
    ||| probe.supported is Err && i == default_lines(direction, probe.default_config).len() && line
        == supported_lines(direction, 0, probe.supported)[0]
}

/// Every line of one direction of a device has one of the four forms.
pub proof fn lemma_direction_line_forms(
    direction: Direction,
    ordinal: nat,
    probe: DirectionProbe,
    i: int,
)
    requires
        0 <= i < direction_lines(direction, ordinal, probe).len(),
    ensures
        direction_line_form(direction, probe, i, direction_lines(direction, ordinal, probe)[i]),
{
    lemma_fixed_lines(direction);
    let first = default_lines(direction, probe.default_config);
    let second = supported_lines(direction, ordinal, probe.supported);
    let line = direction_lines(direction, ordinal, probe)[i];
    if i < first.len() {
        assert(line == first[i]);
        if i == 1 {
            assert(line[4] == "      "@[4]);
        }
    } else {
        let j = i - first.len();
        assert(line == second[j]);
        match probe.supported {
            Ok(configs) => {
                if j > 0 {
                    let config = texts(configs@)[j - 1];
                    assert(line == config_line(ordinal, j as nat, config));
                    assert(line[4] == "      "@[4]);
                }
            },
            Err(e) => {},
        }
    }
}

/// The line that names a device has a digit, and so no space, behind its
/// two spaces of indentation.
pub proof fn lemma_device_heading_digit(ordinal: nat, name: Seq<char>)
    ensures
        device_heading(ordinal, name).len() > 2,
        device_heading(ordinal, name)[2] != ' ',
{
    lemma_fixed_lines(Direction::Input);
    lemma_decimal_round_trip(ordinal);
    lemma_decimal_chars(ordinal, 0);
    assert(device_heading(ordinal, name)[2] == decimal(ordinal)[0]);
}

/// A device raises a fatal error exactly if it has no name: what its
/// configuration queries gave, or failed to give, never ends the run.
pub proof fn lemma_device_fault(device: DeviceProbe, ordinal: nat)
    ensures
        device_outcome(device, ordinal).fault is Some <==> device.name is Err,
{
}

/// Where a device has no default configuration for a direction, none of its
/// lines is the heading of that default configuration.
pub proof fn lemma_no_default_heading(device: DeviceProbe, ordinal: nat, direction: Direction)
    requires
        direction_probe(device, direction).default_config is None,
    ensures
        forall|i: int|
            0 <= i < device_outcome(device, ordinal).lines.len() ==> device_outcome(
                device,
                ordinal,
            ).lines[i] != direction.default_heading(),
{
    let lines = device_outcome(device, ordinal).lines;
    let target = direction.default_heading();
    lemma_fixed_lines(Direction::Input);
    lemma_fixed_lines(Direction::Output);
    assert forall|i: int| 0 <= i < lines.len() implies lines[i] != target by {
        let name = device.name->Ok_0;
        let input = direction_lines(Direction::Input, ordinal, device.input);
        let output = direction_lines(Direction::Output, ordinal, device.output);
        if i == 0 {
            lemma_device_heading_digit(ordinal, name@);
            assert(lines[i] == device_heading(ordinal, name@));
        } else if i < 1 + input.len() {
            lemma_direction_line_forms(Direction::Input, ordinal, device.input, i - 1);
            assert(lines[i] == input[i - 1]);
            if device.input.supported is Err {
                lemma_error_line(Direction::Input, device.input.supported);
            }
        } else {
            lemma_direction_line_forms(
                Direction::Output,
                ordinal,
                device.output,
                i - 1 - input.len(),
            );
            assert(lines[i] == output[i - 1 - input.len()]);
            if device.output.supported is Err {
                lemma_error_line(Direction::Output, device.output.supported);
            }
        }
    }
}

/// The diagnostic of a failed enumeration begins as the direction says.
proof fn lemma_error_line(direction: Direction, supported: Result<Vec<String>, String>)
    requires
        supported is Err,
    ensures
        supported_lines(direction, 0, supported).len() == 1,
        has_prefix(supported_lines(direction, 0, supported)[0], direction.error_prefix()),
        supported_lines(direction, 0, supported)[0].len() > 28,
        supported_lines(direction, 0, supported)[0][2] == ' ',
        supported_lines(direction, 0, supported)[0][4] == 'E',
        supported_lines(direction, 0, supported)[0][28] == direction.error_prefix()[28],
{
    lemma_fixed_lines(direction);
    let line = supported_lines(direction, 0, supported)[0];
    let prefix = direction.error_prefix();
    assert(line.subrange(0, prefix.len() as int) =~= prefix);
}

/// Where the enumeration of the supported configurations of a direction
/// failed, the device gets exactly one diagnostic line for it, right
/// behind the default configuration of that direction, and no block of
/// supported configurations: no other line begins as the diagnostic does,
/// and no line is the heading of the block.
pub proof fn lemma_failed_enumeration(
    device: DeviceProbe,
    ordinal: nat,
    direction: Direction,
    name: String,
    detail: String,
)
    requires
        device.name == Ok::<String, String>(name),
        direction_probe(device, direction).supported == Err::<Vec<String>, String>(detail),
    ensures
        supported_lines(direction, ordinal, direction_probe(device, direction).supported) == seq![
            direction.error_prefix() + detail@,
        ],
        0 <= diagnostic_position(device, ordinal, direction) < device_outcome(device, ordinal).lines.len(),
        device_outcome(device, ordinal).lines[diagnostic_position(device, ordinal, direction)]
            == direction.error_prefix() + detail@,
        forall|i: int|
            0 <= i < device_outcome(device, ordinal).lines.len() && i != diagnostic_position(
                device,
                ordinal,
                direction,
            ) ==> !has_prefix(
                #[trigger] device_outcome(device, ordinal).lines[i],
                direction.error_prefix(),
            ),
        forall|i: int|
            0 <= i < device_outcome(device, ordinal).lines.len() ==> device_outcome(
                device,
                ordinal,
            ).lines[i] != direction.supported_heading(),
{
    let lines = device_outcome(device, ordinal).lines;
    let prefix = direction.error_prefix();
    let at = diagnostic_position(device, ordinal, direction);
    let input = direction_lines(Direction::Input, ordinal, device.input);
    let output = direction_lines(Direction::Output, ordinal, device.output);
    lemma_fixed_lines(Direction::Input);
    lemma_fixed_lines(Direction::Output);
    assert(lines =~= seq![device_heading(ordinal, name@)] + input + output);
    assert(lines[at] == prefix + detail@) by {
        if direction == Direction::Input {
            assert(lines[at] == input[at - 1]);
        } else {
            assert(lines[at] == output[at - 1 - input.len()]);
        }
    }
    assert forall|i: int| 0 <= i < lines.len() implies (i != at ==> !has_prefix(lines[i], prefix))
        && lines[i] != direction.supported_heading() by {
        let line = lines[i];
        if has_prefix(line, prefix) {
            assert(line.subrange(0, prefix.len() as int)[2] == line[2]);
            assert(line.subrange(0, prefix.len() as int)[4] == line[4]);
            assert(line.subrange(0, prefix.len() as int)[28] == line[28]);
        }
        if i == 0 {
            lemma_device_heading_digit(ordinal, name@);
            assert(line == device_heading(ordinal, name@));
        } else if i < 1 + input.len() {
            lemma_direction_line_forms(Direction::Input, ordinal, device.input, i - 1);
            assert(line == input[i - 1]);
            if device.input.supported is Err {
                lemma_error_line(Direction::Input, device.input.supported);
            }
        } else {
            lemma_direction_line_forms(
                Direction::Output,
                ordinal,
                device.output,
                i - 1 - input.len(),
            );
            assert(line == output[i - 1 - input.len()]);
            if device.output.supported is Err {
                lemma_error_line(Direction::Output, device.output.supported);
            }
        }
    }
}

/// Where the diagnostic of a failed enumeration stands among the lines of
/// a device: behind the device's heading, the lines of the input direction
/// if the failure is of the output direction, and the default configuration
/// of its own direction.
pub open spec fn diagnostic_position(device: DeviceProbe, ordinal: nat, direction: Direction) -> int {
    match direction {
        Direction::Input => 1 + default_lines(direction, device.input.default_config).len() as int,
        Direction::Output => 1 + direction_lines(Direction::Input, ordinal, device.input).len() as int
            + default_lines(direction, device.output.default_config).len() as int,
    }
}

/// A host that enumerates no devices gets the bare heading of the device
/// list, and no error.
pub proof fn lemma_no_devices(devices: Vec<DeviceProbe>)
    requires
        devices@.len() == 0,
    ensures
        devices_outcome(Ok(devices)) == Outcome::clean(seq!["  Devices: "@]),
{
    assert(device_outcomes(devices@) =~= Seq::<Outcome>::empty());
    assert(seq!["  Devices: "@] + Seq::<Seq<char>>::empty() =~= seq!["  Devices: "@]);
}

/// The report of a resolved host with no devices, whose default devices, if
/// any, have names: the host's name, the four lines on the default devices,
/// and the heading of the device list as the last line. It holds no error.
pub proof fn lemma_host_without_devices(
    host: HostProbe,
    inventory: HostInventory,
    devices: Vec<DeviceProbe>,
)
    requires
        host.state == Ok::<HostInventory, String>(inventory),
        inventory.devices == Ok::<Vec<DeviceProbe>, String>(devices),
        devices@.len() == 0,
        !(inventory.default_input matches Some(Err(_))),
        !(inventory.default_output matches Some(Err(_))),
    ensures
        host_outcome(host).fault is None,
        host_outcome(host).lines == seq![
            host.name@,
            "  Default Input Device:"@,
            "    "@ + default_device_text(inventory.default_input),
            "  Default Output Device:"@,
            "    "@ + default_device_text(inventory.default_output),
            "  Devices: "@,
        ],
{
    lemma_no_devices(devices);
    assert(host_outcome(host).lines =~= seq![
        host.name@,
        "  Default Input Device:"@,
        "    "@ + default_device_text(inventory.default_input),
        "  Default Output Device:"@,
        "    "@ + default_device_text(inventory.default_output),
        "  Devices: "@,
    ]);
}

/// The supported configurations of a device are numbered from one in the
/// order of enumeration, without a gap: behind the heading, line `j` of the
/// block carries the device's number and the number `j + 1`.
pub proof fn lemma_config_numbering(
    direction: Direction,
    ordinal: nat,
    configs: Vec<String>,
    j: int,
)
    requires
        0 <= j < configs@.len(),
    ensures
        supported_lines(direction, ordinal, Ok(configs)).len() == configs@.len() + 1,
        supported_lines(direction, ordinal, Ok(configs))[0] == direction.supported_heading(),
        supported_lines(direction, ordinal, Ok(configs))[j + 1] == config_line(
            ordinal,
            (j + 1) as nat,
            configs@[j]@,
        ),
        crate::text::decimal_value(decimal((j + 1) as nat)) == j + 1,
{
    lemma_decimal_round_trip((j + 1) as nat);
}

/// The devices of a host are numbered from one in the order of enumeration,
/// without a gap: where all devices have names, the run over them holds no
/// error, the lines of device `k` stand together behind those of the
/// devices before it, and the first of them names the device with the
/// number `k + 1`.
pub proof fn lemma_device_numbering(devices: Seq<DeviceProbe>, k: int)
    requires
        0 <= k < devices.len(),
        forall|i: int| 0 <= i < devices.len() ==> (#[trigger] devices[i]).name is Ok,
    ensures
        chain(device_outcomes(devices)) == Outcome::clean(all_lines(device_outcomes(devices))),
        lines_before(device_outcomes(devices), k) < all_lines(device_outcomes(devices)).len(),
        all_lines(device_outcomes(devices))[lines_before(device_outcomes(devices), k)]
            == device_heading((k + 1) as nat, devices[k].name->Ok_0@),
        lines_before(device_outcomes(devices), k + 1) == lines_before(device_outcomes(devices), k)
            + device_outcome(devices[k], (k + 1) as nat).lines.len(),
        crate::text::decimal_value(decimal((k + 1) as nat)) == k + 1,
{
    let parts = device_outcomes(devices);
    assert forall|i: int| 0 <= i < parts.len() implies (#[trigger] parts[i]).fault is None by {
        assert(devices[i].name is Ok);
    }
    lemma_chain_clean(parts);
    assert(devices[k].name is Ok);
    lemma_all_lines_part(parts, k, 0);
    lemma_decimal_round_trip((k + 1) as nat);
}

} // verus!
