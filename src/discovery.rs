//! The decisions of `discover_and_connect`, as a state machine: the caller
//! performs each action on the radio and hands the outcome back as an event.
use vstd::prelude::*;
use crate::error::DiscoveryError;
use crate::ids::{DEVICE_NAME, SCAN_SECONDS};

verus! {

/// Where a discovery attempt stands.
#[derive(Debug, PartialEq, Eq)]
pub enum Discovery {
    /// Waiting for the list of local adapters.
    AwaitAdapters,
    /// Waiting for the first adapter to start scanning.
    AwaitScanStart,
    /// Waiting for the scan window to close.
    AwaitScanWindow,
    /// Waiting for the peripherals the adapter saw.
    AwaitPeripherals,
    /// Waiting for the advertised properties of peripheral `index` of `count`.
    AwaitProperties { index: usize, count: usize },
    /// Waiting for the link to peripheral `index`.
    AwaitConnect { index: usize },
    /// Waiting for the attribute table of peripheral `index`.
    AwaitResolve { index: usize },
    /// Finished: the index of the stored peripheral, or why it failed.
    Finished(Result<usize, DiscoveryError>),
}

/// The outcome of the last action, as the caller observed it.
#[derive(Debug, PartialEq, Eq)]
pub enum Event {
    /// Number of local adapters, or the radio stack's error.
    Adapters(Result<usize, String>),
    /// Whether the scan started.
    ScanStarted(Result<(), String>),
    /// The scan window has closed.
    WindowElapsed,
    /// Number of peripherals seen, in report order, or the error.
    Peripherals(Result<usize, String>),
    /// The advertised name of the peripheral asked about (if it has one), or the error.
    Properties(Result<Option<String>, String>),
    /// Whether the link was established.
    Connected(Result<(), String>),
    /// Whether the attribute table was resolved.
    Resolved(Result<(), String>),
}

/// What the caller must do next.
#[derive(Debug, PartialEq, Eq)]
pub enum Action {
    /// Reach the radio stack and list its adapters.
    ListAdapters,
    /// Start an unfiltered scan on adapter `adapter`.
    StartScan { adapter: usize },
    /// Let the scan run for `seconds`.
    Sleep { seconds: u64 },
    /// List the peripherals the adapter has seen so far.
    ListPeripherals,
    /// Read the advertised properties of peripheral `index`.
    ReadProperties { index: usize },
    /// Stop the scan, ignoring any failure, then connect to peripheral `index`.
    StopScanAndConnect { index: usize },
    /// Resolve the attribute table of peripheral `index` on its link.
    ResolveAttributes { index: usize },
    /// Store peripheral `index` in the connection slot and report success.
    Install { index: usize },
    /// Report the failure; the connection slot stays as it is.
    Fail(DiscoveryError),
    /// The event does not belong to this stage: nothing to do.
    Ignore,
}

/// Whether an advertised name is exactly the target name.
pub open spec fn is_target_name(name: Option<Seq<char>>) -> bool {
    name == Some(DEVICE_NAME@)
}

/// The view of an advertised name.
pub open spec fn name_view(name: Option<String>) -> Option<Seq<char>> {
    match name {
        Some(s) => Some(s@),
        None => None,
    }
}

/// Finishing with a failure.
pub open spec fn failing(e: DiscoveryError) -> (Discovery, Action) {
    (Discovery::Finished(Err(e)), Action::Fail(e))
}

/// Stages and actions after feeding `events`, in order, starting from `s`.
pub open spec fn run(s: Discovery, events: Seq<Event>) -> (Discovery, Seq<Action>)
    decreases events.len(),
{
    if events.len() == 0 {
        (s, Seq::empty())
    } else {
        let (t, a) = s.next(events[0]);
        let (u, rest) = run(t, events.drop_first());
        (u, seq![a] + rest)
    }
}

/// The advertised name an event reports, if it reports one.
pub open spec fn reported_name(e: Event) -> Option<Seq<char>> {
    match e {
        Event::Properties(Ok(name)) => name_view(name),
        _ => None,
    }
}

/// Position of the first exact target name in `names`.
pub open spec fn first_match(names: Seq<Option<Seq<char>>>) -> Option<int>
    decreases names.len(),
{
    if names.len() == 0 {
        None
    } else if is_target_name(names[0]) {
        Some(0)
    } else {
        match first_match(names.drop_first()) {
            Some(i) => Some(i + 1),
            None => None,
        }
    }
}

impl Discovery {
    /// The decision table: the next stage and action after `event`.
    pub open spec fn next(self, event: Event) -> (Discovery, Action) {
        match (self, event) {
            (Discovery::AwaitAdapters, Event::Adapters(Ok(n))) => if n == 0 {
                failing(DiscoveryError::NoAdapter)
            } else {
                (Discovery::AwaitScanStart, Action::StartScan { adapter: 0 })
            },
            (Discovery::AwaitAdapters, Event::Adapters(Err(m))) => failing(
                DiscoveryError::Radio(m),
            ),
            (Discovery::AwaitScanStart, Event::ScanStarted(Ok(()))) => (
                Discovery::AwaitScanWindow,
                Action::Sleep { seconds: SCAN_SECONDS },
            ),
            (Discovery::AwaitScanStart, Event::ScanStarted(Err(m))) => failing(
                DiscoveryError::ScanFailed(m),
            ),
            (Discovery::AwaitScanWindow, Event::WindowElapsed) => (
                Discovery::AwaitPeripherals,
                Action::ListPeripherals,
            ),
            (Discovery::AwaitPeripherals, Event::Peripherals(Ok(n))) => if n == 0 {
                failing(DiscoveryError::DeviceNotFound)
            } else {
                (
                    Discovery::AwaitProperties { index: 0, count: n },
                    Action::ReadProperties { index: 0 },
                )
            },
            (Discovery::AwaitPeripherals, Event::Peripherals(Err(m))) => failing(
                DiscoveryError::ScanFailed(m),
            ),
            (Discovery::AwaitProperties { index, count }, Event::Properties(Ok(name))) => {
                if is_target_name(name_view(name)) {
                    (Discovery::AwaitConnect { index }, Action::StopScanAndConnect { index })
                } else if index + 1 < count {
                    (
                        Discovery::AwaitProperties { index: (index + 1) as usize, count },
                        Action::ReadProperties { index: (index + 1) as usize },
                    )
                } else {
                    failing(DiscoveryError::DeviceNotFound)
                }
            },
            (Discovery::AwaitProperties { .. }, Event::Properties(Err(m))) => failing(
                DiscoveryError::ScanFailed(m),
            ),
            (Discovery::AwaitConnect { index }, Event::Connected(Ok(()))) => (
                Discovery::AwaitResolve { index },
                Action::ResolveAttributes { index },
            ),
            (Discovery::AwaitConnect { .. }, Event::Connected(Err(m))) => failing(
                DiscoveryError::ConnectFailed(m),
            ),
            (Discovery::AwaitResolve { index }, Event::Resolved(Ok(()))) => (
                Discovery::Finished(Ok(index)),
                Action::Install { index },
            ),
            (Discovery::AwaitResolve { .. }, Event::Resolved(Err(m))) => failing(
                DiscoveryError::ResolveFailed(m),
            ),
            (s, _) => (s, Action::Ignore),
        }
    }

    /// Begins an attempt: the first action is to list the adapters.
    pub fn start() -> (r: (Discovery, Action))
        ensures
            r == (Discovery::AwaitAdapters, Action::ListAdapters),
    {
        (Discovery::AwaitAdapters, Action::ListAdapters)
    }

    /// Takes one decision: the next stage and action after `event`.
    pub fn step(self, event: Event) -> (r: (Discovery, Action))
        ensures
            r == self.next(event),
    {
        match (self, event) {
            (Discovery::AwaitAdapters, Event::Adapters(Ok(n))) => if n == 0 {
                (
                    Discovery::Finished(Err(DiscoveryError::NoAdapter)),
                    Action::Fail(DiscoveryError::NoAdapter),
                )
            } else {
                (Discovery::AwaitScanStart, Action::StartScan { adapter: 0 })
            },
            (Discovery::AwaitAdapters, Event::Adapters(Err(m))) => fail_with(
                DiscoveryError::Radio(m),
            ),
            (Discovery::AwaitScanStart, Event::ScanStarted(Ok(()))) => (
                Discovery::AwaitScanWindow,
                Action::Sleep { seconds: SCAN_SECONDS },
            ),
            (Discovery::AwaitScanStart, Event::ScanStarted(Err(m))) => fail_with(
                DiscoveryError::ScanFailed(m),
            ),
            (Discovery::AwaitScanWindow, Event::WindowElapsed) => (
                Discovery::AwaitPeripherals,
                Action::ListPeripherals,
            ),
            (Discovery::AwaitPeripherals, Event::Peripherals(Ok(n))) => if n == 0 {
                fail_with(DiscoveryError::DeviceNotFound)
            } else {
                (
                    Discovery::AwaitProperties { index: 0, count: n },
                    Action::ReadProperties { index: 0 },
                )
            },
            (Discovery::AwaitPeripherals, Event::Peripherals(Err(m))) => fail_with(
                DiscoveryError::ScanFailed(m),
            ),
            (Discovery::AwaitProperties { index, count }, Event::Properties(Ok(name))) => {
                if is_target(&name) {
                    (Discovery::AwaitConnect { index }, Action::StopScanAndConnect { index })
                } else if count > 0 && index < count - 1 {
                    (
                        Discovery::AwaitProperties { index: index + 1, count },
                        Action::ReadProperties { index: index + 1 },
                    )
                } else {
                    fail_with(DiscoveryError::DeviceNotFound)
                }
            },
            (Discovery::AwaitProperties { .. }, Event::Properties(Err(m))) => fail_with(
                DiscoveryError::ScanFailed(m),
            ),
            (Discovery::AwaitConnect { index }, Event::Connected(Ok(()))) => (
                Discovery::AwaitResolve { index },
                Action::ResolveAttributes { index },
            ),
            (Discovery::AwaitConnect { .. }, Event::Connected(Err(m))) => fail_with(
                DiscoveryError::ConnectFailed(m),
            ),
            (Discovery::AwaitResolve { index }, Event::Resolved(Ok(()))) => (
                Discovery::Finished(Ok(index)),
                Action::Install { index },
            ),
            (Discovery::AwaitResolve { .. }, Event::Resolved(Err(m))) => fail_with(
                DiscoveryError::ResolveFailed(m),
            ),
            (s, _) => (s, Action::Ignore),
        }
    }
}

/// Whether an advertised name is, byte for byte, the target name.
pub fn is_target(name: &Option<String>) -> (r: bool)
    ensures
        r == is_target_name(name_view(*name)),
{
    match name {
        Some(n) => {
            let target = DEVICE_NAME.to_owned();
            *n == target
        },
        None => false,
    }
}

fn fail_with(e: DiscoveryError) -> (r: (Discovery, Action))
    ensures
        r == failing(e),
{
    (Discovery::Finished(Err(e.duplicate())), Action::Fail(e))
}

} // verus!
