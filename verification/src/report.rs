//! The result of a reporting run: the lines written so far and the fatal
//! error that ended it, if one did.

use crate::text::texts;
use vstd::prelude::*;

verus! {

/// The ways in which a reporting run can end before its time.
#[derive(Clone, Copy, Debug, PartialEq, Eq, Structural)]
pub enum ErrorKind {
    /// A host that is listed as available could not be resolved to a handle.
    HostResolution,
    /// A device could not give its name.
    NameUnavailable,
    /// A host could not enumerate its devices.
    DeviceEnumeration,
    /// A driver could not be loaded.
    DriverLoad,
    /// A loaded driver could not give its channel counts.
    ChannelQuery,
    /// A loaded driver could not give its sample rate.
    SampleRateQuery,
}

/// The model of a `ReportError`.
pub struct Fault {
    pub kind: ErrorKind,
    pub detail: Seq<char>,
}

/// The model of a `Report`: its lines as character sequences, and the fault
/// that ended it.
pub struct Outcome {
    pub lines: Seq<Seq<char>>,
    pub fault: Option<Fault>,
}

impl Outcome {
    /// Nothing written, nothing failed.
    pub open spec fn empty() -> Outcome {
        Outcome { lines: Seq::empty(), fault: None }
    }

    /// Some lines written, nothing failed.
    pub open spec fn clean(lines: Seq<Seq<char>>) -> Outcome {
        Outcome { lines, fault: None }
    }

    /// Nothing written, and a fault of the given kind.
    pub open spec fn failure(kind: ErrorKind, detail: Seq<char>) -> Outcome {
        Outcome { lines: Seq::empty(), fault: Some(Fault { kind, detail }) }
    }

    /// This outcome followed by `next`: once a fault has occurred nothing
    /// more is written and the fault stays.
    pub open spec fn followed_by(self, next: Outcome) -> Outcome {
        if self.fault is Some {
            self
        } else {
            Outcome { lines: self.lines + next.lines, fault: next.fault }
        }
    }
}

/// The outcomes of consecutive parts of a run, joined in order up to and
/// including the first part that ended in a fault.
pub open spec fn chain(parts: Seq<Outcome>) -> Outcome
    decreases parts.len(),
{
    if parts.len() == 0 {
        Outcome::empty()
    } else {
        chain(parts.drop_last()).followed_by(parts.last())
    }
}

/// The lines of all parts, one part after another.
pub open spec fn all_lines(parts: Seq<Outcome>) -> Seq<Seq<char>>
    decreases parts.len(),
{
    if parts.len() == 0 {
        Seq::empty()
    } else {
        all_lines(parts.drop_last()) + parts.last().lines
    }
}

/// A run that reaches a part with a fault has a fault.
pub proof fn lemma_chain_faulty(parts: Seq<Outcome>, i: int)
    requires
        0 <= i < parts.len(),
        parts[i].fault is Some,
    ensures
        chain(parts).fault is Some,
    decreases parts.len(),
{
    if i < parts.len() - 1 {
        lemma_chain_faulty(parts.drop_last(), i);
    }
}

/// A run ends with the first part that has a fault: the parts behind it add
/// nothing, neither lines nor another fault.
pub proof fn lemma_chain_stops(parts: Seq<Outcome>, i: int)
    requires
        0 <= i < parts.len(),
        parts[i].fault is Some,
    ensures
        chain(parts) == chain(parts.take(i + 1)),
    decreases parts.len(),
{
    if i == parts.len() - 1 {
        assert(parts.take(i + 1) =~= parts);
    } else {
        lemma_chain_faulty(parts.drop_last(), i);
        lemma_chain_stops(parts.drop_last(), i);
        assert(parts.drop_last().take(i + 1) =~= parts.take(i + 1));
    }
}

/// A run whose parts are all free of faults has none, and holds the lines of
/// all of them in order.
pub proof fn lemma_chain_clean(parts: Seq<Outcome>)
    requires
        forall|i: int| 0 <= i < parts.len() ==> (#[trigger] parts[i]).fault is None,
    ensures
        chain(parts) == Outcome::clean(all_lines(parts)),
    decreases parts.len(),
{
    if parts.len() > 0 {
        lemma_chain_clean(parts.drop_last());
    }
}

/// A run has a fault exactly if one of its parts has one.
pub proof fn lemma_chain_fault(parts: Seq<Outcome>)
    ensures
        chain(parts).fault is Some <==> exists|i: int|
            0 <= i < parts.len() && (#[trigger] parts[i]).fault is Some,
{
    if exists|i: int| 0 <= i < parts.len() && (#[trigger] parts[i]).fault is Some {
        let i = choose|i: int| 0 <= i < parts.len() && (#[trigger] parts[i]).fault is Some;
        lemma_chain_faulty(parts, i);
    } else {
        lemma_chain_clean(parts);
    }
}

/// Once the first parts of a run have ended in a fault, the whole run is
/// what those parts gave.
pub proof fn lemma_chain_settled(parts: Seq<Outcome>, n: int)
    requires
        0 <= n <= parts.len(),
        chain(parts.take(n)).fault is Some,
    ensures
        chain(parts) == chain(parts.take(n)),
{
    let head = parts.take(n);
    lemma_chain_fault(head);
    let i = choose|i: int| 0 <= i < head.len() && (#[trigger] head[i]).fault is Some;
    lemma_chain_stops(head, i);
    lemma_chain_stops(parts, i);
    assert(head.take(i + 1) =~= parts.take(i + 1));
}

/// Where the lines of part `k` begin among the lines of all parts.
pub open spec fn lines_before(parts: Seq<Outcome>, k: int) -> int {
    all_lines(parts.take(k)).len() as int
}

/// Among the lines of all parts, those of part `k` stand together, behind
/// the lines of the parts before it.
pub proof fn lemma_all_lines_part(parts: Seq<Outcome>, k: int, j: int)
    requires
        0 <= k < parts.len(),
        0 <= j < parts[k].lines.len(),
    ensures
        lines_before(parts, k) + j < all_lines(parts).len(),
        all_lines(parts)[lines_before(parts, k) + j] == parts[k].lines[j],
        lines_before(parts, k + 1) == lines_before(parts, k) + parts[k].lines.len(),
    decreases parts.len(),
{
    assert(parts.take(k + 1).drop_last() =~= parts.take(k));
    if k == parts.len() - 1 {
        assert(parts.take(k + 1) =~= parts);
    } else {
        lemma_all_lines_part(parts.drop_last(), k, j);
        assert(parts.drop_last().take(k) =~= parts.take(k));
        assert(parts.drop_last().take(k + 1) =~= parts.take(k + 1));
    }
}

/// A fatal error: its kind, and what the failing query said.
#[derive(Clone, Debug, PartialEq, Eq)]
pub struct ReportError {
    pub kind: ErrorKind,
    pub detail: String,
}

impl View for ReportError {
    type V = Fault;

    open spec fn view(&self) -> Fault {
        Fault { kind: self.kind, detail: self.detail@ }
    }
}

/// The view of an optional error.
pub open spec fn fault_of(error: Option<ReportError>) -> Option<Fault> {
    match error {
        Some(e) => Some(e@),
        None => None,
    }
}

impl ErrorKind {
    /// The words that introduce an error of this kind. The errors of the
    /// host flow speak for themselves and get none.
    pub open spec fn context(self) -> Seq<char> {
        match self {
            ErrorKind::HostResolution => Seq::empty(),
            ErrorKind::NameUnavailable => Seq::empty(),
            ErrorKind::DeviceEnumeration => Seq::empty(),
            ErrorKind::DriverLoad => "failed to load driver"@,
            ErrorKind::ChannelQuery => "failed to retrieve channel counts"@,
            ErrorKind::SampleRateQuery => "failed to retrieve sample rate"@,
        }
    }

    /// Whether an error of this kind belongs to the driver flow.
    pub open spec fn of_driver(self) -> bool {
        self == ErrorKind::DriverLoad || self == ErrorKind::ChannelQuery || self
            == ErrorKind::SampleRateQuery
    }
}

impl Fault {
    /// The message of the fault: the detail alone for the host flow, the
    /// context, a colon, a space and the detail for the driver flow.
    pub open spec fn message(self) -> Seq<char> {
        if self.kind.of_driver() {
            self.kind.context() + ": "@ + self.detail
        } else {
            self.detail
        }
    }
}

impl ReportError {
    /// The message with which the run ends.
    pub fn message(&self) -> (text: String)
        ensures
            text@ == self@.message(),
    {
        let context = match self.kind {
            ErrorKind::DriverLoad => "failed to load driver",
            ErrorKind::ChannelQuery => "failed to retrieve channel counts",
            ErrorKind::SampleRateQuery => "failed to retrieve sample rate",
            _ => { return self.detail.clone(); },
        };
        let mut text = String::from_str(context);
        text.append(": ");
        text.append(self.detail.as_str());
        text
    }
}

/// What a reporting run wrote, and the fatal error that ended it.
#[derive(Clone, Debug, PartialEq, Eq)]
pub struct Report {
    /// The lines written, in order, each without its line break.
    pub lines: Vec<String>,
    /// The error that ended the run; `None` after a complete run.
    pub error: Option<ReportError>,
}

impl View for Report {
    type V = Outcome;

    open spec fn view(&self) -> Outcome {
        Outcome { lines: texts(self.lines@), fault: fault_of(self.error) }
    }
}

impl Report {
    /// A report with no lines and no error.
    pub fn new() -> (report: Report)
        ensures
            report@ == Outcome::empty(),
    {
        let report = Report { lines: Vec::new(), error: None };
        assert(report@.lines =~= Seq::<Seq<char>>::empty());
        report
    }

    /// A report that holds one error and no lines.
    pub fn failed(kind: ErrorKind, detail: &String) -> (report: Report)
        ensures
            report@ == Outcome::failure(kind, detail@),
    {
        let report = Report {
            lines: Vec::new(),
            error: Some(ReportError { kind, detail: detail.clone() }),
        };
        assert(report@.lines =~= Seq::<Seq<char>>::empty());
        report
    }

    /// Tells whether the run went through without a fatal error.
    pub fn is_complete(&self) -> (complete: bool)
        ensures
            complete == (self@.fault is None),
    {
        self.error.is_none()
    }

    /// Adds one line to the end of the report.
    pub fn push_line(&mut self, line: String)
        ensures
            final(self)@.lines == old(self)@.lines.push(line@),
            final(self)@.fault == old(self)@.fault,
    {
        self.lines.push(line);
        assert(self@.lines =~= old(self)@.lines.push(line@));
    }

    /// Adds the given lines, in order, to the end of the report.
    pub fn push_lines(&mut self, lines: Vec<String>)
        ensures
            final(self)@.lines == old(self)@.lines + texts(lines@),
            final(self)@.fault == old(self)@.fault,
    {
        let ghost added = texts(lines@);
        let mut lines = lines;
        self.lines.append(&mut lines);
        assert(self@.lines =~= old(self)@.lines + added);
    }

    /// Continues this report with `next`. A report that holds an error stays
    /// as it is; otherwise the lines of `next` follow, and its error is
    /// taken over.
    pub fn extend(&mut self, next: Report)
        ensures
            final(self)@ == old(self)@.followed_by(next@),
    {
        if self.error.is_none() {
            let Report { lines, error } = next;
            let mut lines = lines;
            self.lines.append(&mut lines);
            self.error = error;
            assert(self@.lines =~= old(self)@.lines + next@.lines);
        }
    }
}

} // verus!
