//! The inspection of one device: find it, connect, list its services, and let go of it.

use crate::bdaddr::BDAddr;
use crate::gatt::report_lines;
use crate::gatt::resolved_tree;
use crate::gatt::tree_model;
use crate::gatt::GattTreeSnapshot;
use crate::gatt::Service;
use crate::session::Action;
use crate::session::RunError;
use crate::session::ScanFilter;
use vstd::prelude::*;

verus! {

/// What came of the request that an inspection made last.
#[derive(Clone, Debug, PartialEq, Eq)]
pub enum InspectorResponse {
    /// The request was carried out; answers every request but `NextEvent` and
    /// `DiscoverServices`.
    Done,
    /// The request failed.
    Failed,
    /// The stream announced a new peripheral, which has this address; answers `NextEvent`.
    Discovered(BDAddr),
    /// The stream brought an event of another kind, or announced a peripheral that the
    /// adapter no longer knows; answers `NextEvent`.
    Ignored,
    /// The stream has ended; answers `NextEvent`.
    StreamClosed,
    /// The services of the device, in the adapter's order; answers `DiscoverServices`.
    Services(Vec<Service>),
}

/// Where an inspection stands. Each phase waits on one request.
#[derive(Clone, Copy, Debug, PartialEq, Eq)]
pub enum InspectorPhase {
    /// The adapter has been asked for.
    Acquiring,
    /// The adapter has been told to scan.
    Starting,
    /// The scan runs, and the device has not been seen yet.
    Scanning,
    /// The device has been seen and asked for a connection.
    Found,
    /// The connection stands, and the device has been asked for its services.
    Connected,
    /// The connection is being closed: after the report where the services were discovered,
    /// with the failure where they were not.
    Disconnecting(Result<(), RunError>),
    /// The scan is being stopped.
    Stopping(Result<(), RunError>),
    /// The run is over, and no connection is left behind.
    Disconnected(Result<(), RunError>),
}

/// The inspection workflow: the address looked for, and the phase reached.
#[derive(Clone, Copy, Debug, PartialEq, Eq)]
pub struct DeviceInspector {
    pub target: BDAddr,
    pub phase: InspectorPhase,
}

/// The outcome of a run after one more request has failed: the failure that came first.
pub open spec fn first_failure(outcome: Result<(), RunError>, failure: RunError) -> Result<
    (),
    RunError,
> {
    match outcome {
        Ok(_) => Err(failure),
        Err(earlier) => Err(earlier),
    }
}

/// How often `action` stands in `actions`.
pub open spec fn occurrences(actions: Seq<Action>, action: Action) -> nat
    decreases actions.len(),
{
    if actions.len() == 0 {
        0
    } else {
        occurrences(actions.drop_last(), action) + if actions.last() == action {
            1nat
        } else {
            0nat
        }
    }
}

impl DeviceInspector {
    /// The inspection before its first request.
    pub open spec fn initial(target: BDAddr) -> DeviceInspector {
        DeviceInspector { target, phase: InspectorPhase::Acquiring }
    }

    /// The request that the inspection waits on.
    pub open spec fn pending(self) -> Action {
        match self.phase {
            InspectorPhase::Acquiring => Action::Acquire,
            InspectorPhase::Starting => Action::StartScan(ScanFilter::AcceptAll),
            InspectorPhase::Scanning => Action::NextEvent,
            InspectorPhase::Found => Action::Connect,
            InspectorPhase::Connected => Action::DiscoverServices,
            InspectorPhase::Disconnecting(_) => Action::Disconnect,
            InspectorPhase::Stopping(_) => Action::StopScan,
            InspectorPhase::Disconnected(outcome) => Action::Finish(outcome),
        }
    }

    /// The phase after `response` has answered the pending request. A response that does not
    /// answer that request counts as its failure.
    ///
    /// A failure is not retried. Before anything was started it ends the run; once the scan
    /// runs, the scan is stopped first; once the connection stands, the connection is closed
    /// and then the scan is stopped, whatever else fails on the way.
    pub open spec fn next_phase(self, response: InspectorResponse) -> InspectorPhase {
        match self.phase {
            InspectorPhase::Acquiring => if response is Done {
                InspectorPhase::Starting
            } else {
                InspectorPhase::Disconnected(Err(RunError::NoAdapterFound))
            },
            InspectorPhase::Starting => if response is Done {
                InspectorPhase::Scanning
            } else {
                InspectorPhase::Disconnected(Err(RunError::ScanFailure))
            },
            InspectorPhase::Scanning => match response {
                InspectorResponse::Discovered(address) => if address == self.target {
                    InspectorPhase::Found
                } else {
                    InspectorPhase::Scanning
                },
                InspectorResponse::Ignored => InspectorPhase::Scanning,
                InspectorResponse::StreamClosed => InspectorPhase::Stopping(Ok(())),
                _ => InspectorPhase::Stopping(Err(RunError::ScanFailure)),
            },
            InspectorPhase::Found => if response is Done {
                InspectorPhase::Connected
            } else {
                InspectorPhase::Stopping(Err(RunError::ConnectionFailure))
            },
            InspectorPhase::Connected => if response is Services {
                InspectorPhase::Disconnecting(Ok(()))
            } else {
                InspectorPhase::Disconnecting(Err(RunError::DiscoveryFailure))
            },
            InspectorPhase::Disconnecting(outcome) => if response is Done {
                InspectorPhase::Stopping(outcome)
            } else {
                InspectorPhase::Stopping(first_failure(outcome, RunError::DisconnectFailure))
            },
            InspectorPhase::Stopping(outcome) => if response is Done {
                InspectorPhase::Disconnected(outcome)
            } else {
                InspectorPhase::Disconnected(first_failure(outcome, RunError::ScanFailure))
            },
            InspectorPhase::Disconnected(outcome) => InspectorPhase::Disconnected(outcome),
        }
    }

    /// The inspection after `response` has answered the pending request.
    pub open spec fn next(self, response: InspectorResponse) -> DeviceInspector {
        DeviceInspector { target: self.target, phase: self.next_phase(response) }
    }

    /// The lines to print when `response` answers the pending request: the report of the
    /// device's tree when its services arrive, and nothing otherwise.
    pub open spec fn emitted(self, response: InspectorResponse) -> Seq<Seq<char>> {
        match response {
            InspectorResponse::Services(services) => if self.phase is Connected {
                report_lines(resolved_tree(tree_model(services@)))
            } else {
                Seq::empty()
            },
            _ => Seq::empty(),
        }
    }

    /// The inspection after each of `responses` in turn has answered the request pending
    /// then.
    pub open spec fn run(self, responses: Seq<InspectorResponse>) -> DeviceInspector
        decreases responses.len(),
    {
        if responses.len() == 0 {
            self
        } else {
            self.run(responses.drop_last()).next(responses.last())
        }
    }

    /// The requests made in the course of a run: the one pending at its start, and the one
    /// pending after each response.
    pub open spec fn requests(self, responses: Seq<InspectorResponse>) -> Seq<Action>
        decreases responses.len(),
    {
        if responses.len() == 0 {
            seq![self.pending()]
        } else {
            self.requests(responses.drop_last()).push(self.run(responses).pending())
        }
    }

    /// Whether the connection stood at some point of a run.
    pub open spec fn connected_during(self, responses: Seq<InspectorResponse>) -> bool
        decreases responses.len(),
    {
        self.run(responses).phase is Connected || (responses.len() > 0 && self.connected_during(
            responses.drop_last(),
        ))
    }

    /// An inspection of the device at `target` that has asked for nothing yet.
    pub fn new(target: BDAddr) -> (inspector: DeviceInspector)
        ensures
            inspector == DeviceInspector::initial(target),
    {
        DeviceInspector { target, phase: InspectorPhase::Acquiring }
    }

    /// The request to perform next.
    pub fn action(&self) -> (action: Action)
        ensures
            action == self.pending(),
    {
        match self.phase {
            InspectorPhase::Acquiring => Action::Acquire,
            InspectorPhase::Starting => Action::StartScan(ScanFilter::AcceptAll),
            InspectorPhase::Scanning => Action::NextEvent,
            InspectorPhase::Found => Action::Connect,
            InspectorPhase::Connected => Action::DiscoverServices,
            InspectorPhase::Disconnecting(_) => Action::Disconnect,
            InspectorPhase::Stopping(_) => Action::StopScan,
            InspectorPhase::Disconnected(outcome) => Action::Finish(outcome),
        }
    }

    /// Takes what came of the pending request, moves on, and returns the lines to print.
    pub fn advance(&mut self, response: InspectorResponse) -> (lines: Vec<String>)
        ensures
            *final(self) == old(self).next(response),
            lines.deep_view() == old(self).emitted(response),
    {
        let mut lines: Vec<String> = Vec::new();
        assert(lines.deep_view() =~= Seq::<Seq<char>>::empty());
        match self.phase {
            InspectorPhase::Acquiring => match response {
                InspectorResponse::Done => {
                    self.phase = InspectorPhase::Starting;
                },
                _ => {
                    self.phase = InspectorPhase::Disconnected(Err(RunError::NoAdapterFound));
                },
            },
            InspectorPhase::Starting => match response {
                InspectorResponse::Done => {
                    self.phase = InspectorPhase::Scanning;
                },
                _ => {
                    self.phase = InspectorPhase::Disconnected(Err(RunError::ScanFailure));
                },
            },
            InspectorPhase::Scanning => match response {
                InspectorResponse::Discovered(address) => {
                    if address == self.target {
                        self.phase = InspectorPhase::Found;
                    }
                },
                InspectorResponse::Ignored => {},
                InspectorResponse::StreamClosed => {
                    self.phase = InspectorPhase::Stopping(Ok(()));
                },
                _ => {
                    self.phase = InspectorPhase::Stopping(Err(RunError::ScanFailure));
                },
            },
            InspectorPhase::Found => match response {
                InspectorResponse::Done => {
                    self.phase = InspectorPhase::Connected;
                },
                _ => {
                    self.phase = InspectorPhase::Stopping(Err(RunError::ConnectionFailure));
                },
            },
            InspectorPhase::Connected => match response {
                InspectorResponse::Services(services) => {
                    lines = GattTreeSnapshot::resolve(&services).render();
                    self.phase = InspectorPhase::Disconnecting(Ok(()));
                },
                _ => {
                    self.phase = InspectorPhase::Disconnecting(Err(RunError::DiscoveryFailure));
                },
            },
            InspectorPhase::Disconnecting(outcome) => match response {
                InspectorResponse::Done => {
                    self.phase = InspectorPhase::Stopping(outcome);
                },
                _ => {
                    self.phase = InspectorPhase::Stopping(
                        keep_first_failure(outcome, RunError::DisconnectFailure),
                    );
                },
            },
            InspectorPhase::Stopping(outcome) => match response {
                InspectorResponse::Done => {
                    self.phase = InspectorPhase::Disconnected(outcome);
                },
                _ => {
                    self.phase = InspectorPhase::Disconnected(
                        keep_first_failure(outcome, RunError::ScanFailure),
                    );
                },
            },
            InspectorPhase::Disconnected(_) => {},
        }
        lines
    }
}

/// The outcome of a run after one more request has failed.
pub fn keep_first_failure(outcome: Result<(), RunError>, failure: RunError) -> (kept: Result<
    (),
    RunError,
>)
    ensures
        kept == first_failure(outcome, failure),
{
    match outcome {
        Ok(_) => Err(failure),
        Err(earlier) => Err(earlier),
    }
}

/// Once the connection stands, the next three requests are to close it, to stop the scan and
/// to finish, whatever comes of the discovery and of each of these requests.
pub proof fn lemma_connection_is_closed(
    inspector: DeviceInspector,
    first: InspectorResponse,
    second: InspectorResponse,
    third: InspectorResponse,
)
    requires
        inspector.phase is Connected,
    ensures
        inspector.next(first).pending() == Action::Disconnect,
        inspector.next(first).next(second).pending() == Action::StopScan,
        inspector.next(first).next(second).next(third).pending() is Finish,
{
}

/// A failed discovery is what the run reports, and it does not keep the connection from
/// being closed.
pub proof fn lemma_failed_discovery_is_reported(
    inspector: DeviceInspector,
    first: InspectorResponse,
    second: InspectorResponse,
    third: InspectorResponse,
)
    requires
        inspector.phase is Connected,
        !(first is Services),
    ensures
        inspector.next(first).pending() == Action::Disconnect,
        inspector.next(first).next(second).next(third).pending() == Action::Finish(
            Err(RunError::DiscoveryFailure),
        ),
{
}

/// What holds between the phase that a run from the start has reached, whether the
/// connection stood on the way, and how often the run asked to close it.
proof fn lemma_disconnects_follow_connection(target: BDAddr, responses: Seq<InspectorResponse>)
    ensures
        ({
            let start = DeviceInspector::initial(target);
            let closed: nat = occurrences(start.requests(responses), Action::Disconnect);
            let connected = start.connected_during(responses);
            match start.run(responses).phase {
                InspectorPhase::Acquiring
                | InspectorPhase::Starting
                | InspectorPhase::Scanning
                | InspectorPhase::Found => !connected && closed == 0,
                InspectorPhase::Connected => connected && closed == 0,
                InspectorPhase::Disconnecting(_) => connected && closed == 1,
                _ => closed == if connected {
                    1nat
                } else {
                    0nat
                },
            }
        }),
    decreases responses.len(),
{
    let start = DeviceInspector::initial(target);
    let closed: nat = occurrences(start.requests(responses), Action::Disconnect);
    if responses.len() == 0 {
        assert(start.requests(responses).drop_last() =~= Seq::<Action>::empty());
        assert(occurrences(Seq::<Action>::empty(), Action::Disconnect) == 0);
        assert(closed == 0);
    } else {
        lemma_disconnects_follow_connection(target, responses.drop_last());
        let earlier = start.requests(responses.drop_last());
        let now = start.run(responses).pending();
        assert(start.requests(responses) == earlier.push(now));
        assert(earlier.push(now).drop_last() =~= earlier);
        assert(earlier.push(now).last() == now);
        assert(closed == occurrences(earlier, Action::Disconnect) + if now == Action::Disconnect {
            1nat
        } else {
            0nat
        });
    }
}

/// A run from the start that has ended asked to close the connection once if the connection
/// ever stood, and never if it did not.
pub proof fn lemma_disconnect_always(target: BDAddr, responses: Seq<InspectorResponse>)
    requires
        DeviceInspector::initial(target).run(responses).phase is Disconnected,
    ensures
        occurrences(DeviceInspector::initial(target).requests(responses), Action::Disconnect)
            == if DeviceInspector::initial(target).connected_during(responses) {
            1nat
        } else {
            0nat
        },
{
    lemma_disconnects_follow_connection(target, responses);
}

} // verus!
