//! The scan: list every peripheral that the adapter discovers.

use crate::bdaddr::BDAddr;
use crate::bleuuid::Uuid;
use crate::session::Action;
use crate::session::RunError;
use crate::session::ScanFilter;
use vstd::prelude::*;
use vstd::string::StringExecFns;

verus! {

/// What is known of a peripheral at the moment it is discovered.
#[derive(Clone, Debug, PartialEq, Eq)]
pub struct PeripheralView {
    pub address: BDAddr,
    /// The name that the peripheral advertises, where it advertises one.
    pub local_name: Option<String>,
    /// Whether the adapter holds a connection to the peripheral.
    pub connected: bool,
}

/// What came of the request that a scan made last.
#[derive(Clone, Debug, PartialEq, Eq)]
pub enum ScanResponse {
    /// The request was carried out; answers `Acquire` and `StartScan`.
    Done,
    /// The request failed.
    Failed,
    /// The stream announced a new peripheral, seen as given; answers `NextEvent`.
    Discovered(PeripheralView),
    /// The stream brought an event of another kind, or announced a peripheral that the
    /// adapter no longer knows; answers `NextEvent`.
    Ignored,
    /// The stream has ended; answers `NextEvent`.
    StreamClosed,
}

/// Where a scan stands.
#[derive(Clone, Copy, Debug, PartialEq, Eq)]
pub enum ScanPhase {
    /// The adapter has been asked for.
    Acquiring,
    /// The adapter has been told to scan.
    Starting,
    /// The scan runs, and its events are listed as they come.
    Listening,
    /// The scan is over.
    Finished(Result<(), RunError>),
}

/// The scan workflow: a filter, settled once, and the phase reached.
#[derive(Clone, Copy, Debug, PartialEq, Eq)]
pub struct ScanController {
    pub filter: ScanFilter,
    pub phase: ScanPhase,
}

/// A string as `Debug` prints it: between double quotes, with what cannot stand there as it
/// is written as an escape.
pub uninterp spec fn debug_quoted(text: Seq<char>) -> Seq<char>;

/// Formats a string through std's `Debug` for `str`.
///
/// Trusted: the text that comes back depends on the characters of the string alone.
#[verifier::external_body]
fn quote(text: &str) -> (quoted: String)
    ensures
        quoted@ == debug_quoted(text@),
{
    format!("{:?}", text)
}

/// The line that lists a peripheral: a star where it is connected, then its address and its
/// name as quoted.
pub open spec fn peripheral_line(connected: bool, address: BDAddr, quoted_name: Seq<char>) -> Seq<
    char,
> {
    (if connected {
        "* "@
    } else {
        "  "@
    }) + address.text() + " : "@ + quoted_name
}

/// Lays out the line that lists a peripheral, from its name as already quoted.
pub fn format_peripheral_line(connected: bool, address: &BDAddr, quoted_name: &str) -> (line:
    String)
    ensures
        line@ == peripheral_line(connected, *address, quoted_name@),
{
    let mut line = if connected {
        String::from_str("* ")
    } else {
        String::from_str("  ")
    };
    let address_text = address.to_text();
    line.append(address_text.as_str());
    line.append(" : ");
    line.append(quoted_name);
    line
}

impl PeripheralView {
    /// The name to show: the advertised one, or a placeholder.
    pub open spec fn shown_name(self) -> Seq<char> {
        match self.local_name {
            Some(name) => name@,
            None => "(peripheral name unknown)"@,
        }
    }

    /// The line that lists the peripheral.
    pub open spec fn line(self) -> Seq<char> {
        peripheral_line(self.connected, self.address, debug_quoted(self.shown_name()))
    }

    /// The line that lists the peripheral, as in `* AA:BB:CC:DD:EE:FF : "SmartBike"`.
    pub fn to_line(&self) -> (line: String)
        ensures
            line@ == self.line(),
    {
        let quoted = match &self.local_name {
            Some(name) => quote(name.as_str()),
            None => quote("(peripheral name unknown)"),
        };
        format_peripheral_line(self.connected, &self.address, quoted.as_str())
    }
}

impl ScanController {
    /// The scan before its first request.
    pub open spec fn initial(no_filter: bool, filter: Option<Uuid>) -> ScanController {
        ScanController {
            filter: ScanFilter::effective(no_filter, filter),
            phase: ScanPhase::Acquiring,
        }
    }

    /// The request that the scan waits on.
    pub open spec fn pending(self) -> Action {
        match self.phase {
            ScanPhase::Acquiring => Action::Acquire,
            ScanPhase::Starting => Action::StartScan(self.filter),
            ScanPhase::Listening => Action::NextEvent,
            ScanPhase::Finished(outcome) => Action::Finish(outcome),
        }
    }

    /// The scan after `response` has answered the pending request. A response that does not
    /// answer that request counts as its failure, and a failure ends the scan.
    pub open spec fn next(self, response: ScanResponse) -> ScanController {
        let phase = match self.phase {
            ScanPhase::Acquiring => if response is Done {
                ScanPhase::Starting
            } else {
                ScanPhase::Finished(Err(RunError::NoAdapterFound))
            },
            ScanPhase::Starting => if response is Done {
                ScanPhase::Listening
            } else {
                ScanPhase::Finished(Err(RunError::ScanFailure))
            },
            ScanPhase::Listening => if response is Discovered || response is Ignored {
                ScanPhase::Listening
            } else if response is StreamClosed {
                ScanPhase::Finished(Ok(()))
            } else {
                ScanPhase::Finished(Err(RunError::ScanFailure))
            },
            ScanPhase::Finished(outcome) => ScanPhase::Finished(outcome),
        };
        ScanController { filter: self.filter, phase }
    }

    /// The lines to print when `response` answers the pending request: the filter once the
    /// adapter is there, a heading once the scan runs, and one line for each peripheral
    /// discovered.
    pub open spec fn emitted(self, response: ScanResponse) -> Seq<Seq<char>> {
        match self.phase {
            ScanPhase::Acquiring => if response is Done {
                self.filter.banner()
            } else {
                Seq::empty()
            },
            ScanPhase::Starting => if response is Done {
                seq!["BLE Fitness Machines:"@]
            } else {
                Seq::empty()
            },
            ScanPhase::Listening => match response {
                ScanResponse::Discovered(peripheral) => seq![peripheral.line()],
                _ => Seq::empty(),
            },
            ScanPhase::Finished(_) => Seq::empty(),
        }
    }

    /// A scan that has asked for nothing yet, with its filter settled from what the user
    /// asked for.
    pub fn new(no_filter: bool, filter: Option<Uuid>) -> (scan: ScanController)
        ensures
            scan == ScanController::initial(no_filter, filter),
    {
        ScanController { filter: ScanFilter::select(no_filter, filter), phase: ScanPhase::Acquiring }
    }

    /// The request to perform next.
    pub fn action(&self) -> (action: Action)
        ensures
            action == self.pending(),
    {
        match self.phase {
            ScanPhase::Acquiring => Action::Acquire,
            ScanPhase::Starting => Action::StartScan(self.filter),
            ScanPhase::Listening => Action::NextEvent,
            ScanPhase::Finished(outcome) => Action::Finish(outcome),
        }
    }

    /// Takes what came of the pending request, moves on, and returns the lines to print.
    pub fn advance(&mut self, response: ScanResponse) -> (lines: Vec<String>)
        ensures
            *final(self) == old(self).next(response),
            lines.deep_view() == old(self).emitted(response),
    {
        let mut lines: Vec<String> = Vec::new();
        match self.phase {
            ScanPhase::Acquiring => match response {
                ScanResponse::Done => {
                    lines = self.filter.announce();
                    self.phase = ScanPhase::Starting;
                },
                _ => {
                    self.phase = ScanPhase::Finished(Err(RunError::NoAdapterFound));
                },
            },
            ScanPhase::Starting => match response {
                ScanResponse::Done => {
                    lines.push(String::from_str("BLE Fitness Machines:"));
                    self.phase = ScanPhase::Listening;
                },
                _ => {
                    self.phase = ScanPhase::Finished(Err(RunError::ScanFailure));
                },
            },
            ScanPhase::Listening => match response {
                ScanResponse::Discovered(peripheral) => {
                    lines.push(peripheral.to_line());
                },
                ScanResponse::Ignored => {},
                ScanResponse::StreamClosed => {
                    self.phase = ScanPhase::Finished(Ok(()));
                },
                _ => {
                    self.phase = ScanPhase::Finished(Err(RunError::ScanFailure));
                },
            },
            ScanPhase::Finished(_) => {},
        }
        assert(lines.deep_view() =~= old(self).emitted(response));
        lines
    }
}

} // verus!
