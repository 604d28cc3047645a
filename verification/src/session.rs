//! What a workflow asks of the radio adapter, and the ways in which a run can fail.

use crate::bleuuid::Uuid;
use crate::services::FitnessService;
use vstd::prelude::*;
use vstd::string::StringExecFns;

verus! {

/// Which advertisements a scan lets through.
#[derive(Clone, Copy, Debug, PartialEq, Eq, Structural)]
pub enum ScanFilter {
    /// Every peripheral is reported.
    AcceptAll,
    /// Only peripherals that advertise the service with this UUID are reported.
    Service(Uuid),
}

/// Why a run ended without doing what it was started for.
#[derive(Clone, Copy, Debug, PartialEq, Eq, Structural)]
pub enum RunError {
    /// The host has no usable adapter, or will not open its event stream.
    NoAdapterFound,
    /// The scan could not be started, followed or stopped.
    ScanFailure,
    /// The device did not accept the connection.
    ConnectionFailure,
    /// The device's services could not be discovered.
    DiscoveryFailure,
    /// The connection could not be closed.
    DisconnectFailure,
}

/// One request to the adapter. Whoever drives a workflow performs the request and hands the
/// workflow what came of it.
#[derive(Clone, Copy, Debug, PartialEq, Eq)]
pub enum Action {
    /// Take the host's first adapter and open its event stream.
    Acquire,
    /// Start scanning with the filter.
    StartScan(ScanFilter),
    /// Wait for the next event of the stream.
    NextEvent,
    /// Connect to the device that was just discovered.
    Connect,
    /// Discover the services of the connected device.
    DiscoverServices,
    /// Close the connection.
    Disconnect,
    /// Stop scanning.
    StopScan,
    /// Nothing is left to do: the run has ended, well or with the error.
    Finish(Result<(), RunError>),
}

impl ScanFilter {
    /// The filter that a scan uses: none where that was asked for, else the given service,
    /// else the Fitness Machine service.
    pub open spec fn effective(no_filter: bool, filter: Option<Uuid>) -> ScanFilter {
        if no_filter {
            ScanFilter::AcceptAll
        } else {
            match filter {
                Some(uuid) => ScanFilter::Service(uuid),
                None => ScanFilter::Service(FitnessService::FitnessMachine.spec_uuid()),
            }
        }
    }

    /// The lines that tell the user of the filter: one that names the service, or none where
    /// nothing is filtered.
    pub open spec fn banner(self) -> Seq<Seq<char>> {
        match self {
            ScanFilter::AcceptAll => Seq::empty(),
            ScanFilter::Service(uuid) => seq!["filter: "@ + uuid.text()],
        }
    }

    /// Settles the filter of a scan from what the user asked for. A request for no filter
    /// wins over a given service.
    pub fn select(no_filter: bool, filter: Option<Uuid>) -> (selected: ScanFilter)
        ensures
            selected == ScanFilter::effective(no_filter, filter),
            no_filter ==> selected == ScanFilter::AcceptAll,
            !no_filter && filter is None ==> selected == ScanFilter::Service(
                FitnessService::FitnessMachine.spec_uuid(),
            ),
            forall|uuid: Uuid| !no_filter && filter == Some(uuid) ==> selected == ScanFilter::Service(uuid),
    {
        if no_filter {
            ScanFilter::AcceptAll
        } else {
            match filter {
                Some(uuid) => ScanFilter::Service(uuid),
                None => ScanFilter::Service(FitnessService::FitnessMachine.uuid()),
            }
        }
    }

    /// The lines to print before a scan with this filter starts.
    pub fn announce(&self) -> (lines: Vec<String>)
        ensures
            lines.deep_view() == self.banner(),
    {
        let mut lines: Vec<String> = Vec::new();
        match self {
            ScanFilter::AcceptAll => {},
            ScanFilter::Service(uuid) => {
                let mut line = String::from_str("filter: ");
                let text = uuid.hyphenated();
                line.append(text.as_str());
                lines.push(line);
            },
        }
        assert(lines.deep_view() =~= self.banner());
        lines
    }
}

} // verus!
