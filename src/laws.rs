//! Laws that relate the operations of the discovery machine, the connection
//! slot and the command path.
use vstd::prelude::*;
use crate::command::{first_index_of, request_for};
use crate::discovery::{first_match, is_target_name, reported_name, run, Action, Discovery, Event};
use crate::error::{CommandError, DiscoveryError};
use crate::ids::SCAN_SECONDS;
use crate::slot::{checkout, BluetoothState};

verus! {

/// A finished attempt stays finished, whatever events still arrive.
pub proof fn lemma_finished_is_final(outcome: Result<usize, DiscoveryError>, events: Seq<Event>)
    ensures
        run(Discovery::Finished(outcome), events).0 == Discovery::Finished(outcome),
    decreases events.len(),
{
    if events.len() > 0 {
        lemma_finished_is_final(outcome, events.drop_first());
    }
}

/// Once connecting to a peripheral, further advertised properties change nothing.
proof fn lemma_connect_ignores_properties(index: usize, events: Seq<Event>)
    requires
        forall|i: int| 0 <= i < events.len() ==> events[i] is Properties,
    ensures
        run(Discovery::AwaitConnect { index }, events).0 == (Discovery::AwaitConnect { index }),
    decreases events.len(),
{
    if events.len() > 0 {
        lemma_connect_ignores_properties(index, events.drop_first());
    }
}

/// An attempt that ends with `DeviceNotFound` has let the scan run for the
/// full fixed window first: the window is never skipped and never extended.
pub proof fn law_not_found_after_full_window(events: Seq<Event>)
    ensures
        run(Discovery::AwaitAdapters, events).0 == Discovery::Finished(
            Err(DiscoveryError::DeviceNotFound),
        ) ==> run(Discovery::AwaitAdapters, events).1.contains(
            Action::Sleep { seconds: SCAN_SECONDS },
        ),
        forall|i: int|
            0 <= i < run(Discovery::AwaitAdapters, events).1.len() && run(
                Discovery::AwaitAdapters,
                events,
            ).1[i] is Sleep ==> run(Discovery::AwaitAdapters, events).1[i] == (Action::Sleep {
                seconds: SCAN_SECONDS,
            }),
{
    lemma_window_before_not_found(Discovery::AwaitAdapters, events);
}

proof fn lemma_window_before_not_found(s: Discovery, events: Seq<Event>)
    requires
        s is AwaitAdapters || s is AwaitScanStart,
    ensures
        run(s, events).0 == Discovery::Finished(Err(DiscoveryError::DeviceNotFound))
            ==> run(s, events).1.contains(Action::Sleep { seconds: SCAN_SECONDS }),
        forall|i: int|
            0 <= i < run(s, events).1.len() && run(s, events).1[i] is Sleep ==> run(
                s,
                events,
            ).1[i] == (Action::Sleep { seconds: SCAN_SECONDS }),
    decreases events.len(),
{
    if events.len() > 0 {
        let (t, a) = s.next(events[0]);
        let rest = events.drop_first();
        let acts = run(s, events).1;
        assert(acts == seq![a] + run(t, rest).1);
        if t is Finished {
            lemma_finished_is_final(t->Finished_0, rest);
            lemma_sleep_only_window(t, rest);
        } else if t is AwaitScanWindow {
            assert(acts[0] == a);
            lemma_sleep_only_window(t, rest);
        } else {
            lemma_window_before_not_found(t, rest);
        }
        assert forall|i: int| 0 <= i < acts.len() && acts[i] is Sleep implies acts[i] == (
        Action::Sleep { seconds: SCAN_SECONDS }) by {
            if i > 0 {
                assert(acts[i] == run(t, rest).1[i - 1]);
            }
        }
        if run(t, rest).1.contains(Action::Sleep { seconds: SCAN_SECONDS }) {
            let j = choose|j: int|
                0 <= j < run(t, rest).1.len() && run(t, rest).1[j] == (Action::Sleep {
                    seconds: SCAN_SECONDS,
                });
            assert(acts[j + 1] == run(t, rest).1[j]);
        }
    }
}

/// The only wait the machine ever asks for is the fixed scan window.
proof fn lemma_sleep_only_window(s: Discovery, events: Seq<Event>)
    ensures
        forall|i: int|
            0 <= i < run(s, events).1.len() && run(s, events).1[i] is Sleep ==> run(
                s,
                events,
            ).1[i] == (Action::Sleep { seconds: SCAN_SECONDS }),
    decreases events.len(),
{
    if events.len() > 0 {
        let (t, a) = s.next(events[0]);
        let rest = events.drop_first();
        lemma_sleep_only_window(t, rest);
        let acts = run(s, events).1;
        assert forall|i: int| 0 <= i < acts.len() && acts[i] is Sleep implies acts[i] == (
        Action::Sleep { seconds: SCAN_SECONDS }) by {
            if i > 0 {
                assert(acts[i] == run(t, rest).1[i - 1]);
            }
        }
    }
}

/// Walking the scan results in report order connects to the first peripheral
/// whose advertised name is exactly the target name; a near miss is passed
/// over, and without an exact match the attempt ends with `DeviceNotFound`.
pub proof fn law_first_exact_name_selected(index: usize, count: usize, events: Seq<Event>)
    requires
        index < count,
        events.len() == count - index,
        forall|i: int| 0 <= i < events.len() ==> events[i] is Properties && events[i]->Properties_0 is Ok,
    ensures
        run(Discovery::AwaitProperties { index, count }, events).0 == match first_match(
            events.map_values(|e: Event| reported_name(e)),
        ) {
            Some(i) => Discovery::AwaitConnect { index: (index + i) as usize },
            None => Discovery::Finished(Err(DiscoveryError::DeviceNotFound)),
        },
    decreases events.len(),
{
    let names = events.map_values(|e: Event| reported_name(e));
    let rest = events.drop_first();
    assert(rest.map_values(|e: Event| reported_name(e)) =~= names.drop_first());
    assert(names[0] == reported_name(events[0]));
    if is_target_name(names[0]) {
        lemma_connect_ignores_properties(index, rest);
    } else if index + 1 < count {
        law_first_exact_name_selected((index + 1) as usize, count, rest);
    } else {
        lemma_finished_is_final(Err(DiscoveryError::DeviceNotFound), rest);
        assert(names.drop_first().len() == 0);
    }
}

/// One scan result: a peripheral is connected to exactly when its advertised
/// name equals the target name, byte for byte.
pub proof fn law_connect_only_on_exact_name(index: usize, count: usize, event: Event)
    requires
        index < count,
        event is Properties && event->Properties_0 is Ok,
    ensures
        ((Discovery::AwaitProperties { index, count }).next(event).1 is StopScanAndConnect)
            <==> is_target_name(reported_name(event)),
        ((Discovery::AwaitProperties { index, count }).next(event).1 is StopScanAndConnect)
            ==> (Discovery::AwaitProperties { index, count }).next(event).1 == (
        Action::StopScanAndConnect { index }),
{
}

/// Connecting again replaces the stored handle: after two successful
/// discoveries only the second handle is in the slot, whatever was there.
pub proof fn law_reconnect_replaces<H>(s: BluetoothState<H>, first: H, second: H)
    ensures
        s.installed(first).installed(second) == s.installed(second),
        s.installed(first).installed(second).device() == Some(second),
{
    BluetoothState::<H>::lemma_installed(s, first);
    BluetoothState::<H>::lemma_installed(s.installed(first), second);
    BluetoothState::<H>::lemma_installed(s, second);
    BluetoothState::<H>::lemma_same_device(s.installed(first).installed(second), s.installed(second));
}

/// A slot that no successful discovery has filled yields no handle to a
/// command: checking it out fails with `NotConnected`.
pub proof fn law_command_needs_connection<H>(s: BluetoothState<H>)
    requires
        s.device() is None,
    ensures
        checkout(s.device()) == Err::<H, CommandError>(CommandError::NotConnected),
{
}

/// A command against an attribute table without the target characteristic
/// fails with `CharacteristicNotFound` and yields no write.
pub proof fn law_missing_characteristic(ids: Seq<u128>, target: Option<u128>, payload: Seq<u8>)
    requires
        forall|i: int| 0 <= i < ids.len() ==> Some(ids[i]) != target,
    ensures
        request_for(ids, target, payload) == Err::<(int, Seq<u8>), CommandError>(
            CommandError::CharacteristicNotFound,
        ),
{
    if let Some(t) = target {
        assert(!(exists|i: int| 0 <= i < ids.len() && ids[i] == t));
        assert(first_index_of(ids, t) is None);
    }
}

/// The bytes a command writes are exactly the payload it was given.
pub proof fn law_payload_unchanged(ids: Seq<u128>, target: Option<u128>, payload: Seq<u8>)
    ensures
        request_for(ids, target, payload) matches Ok((i, p)) ==> p == payload,
{
}

} // verus!
