//! The cancellation protocol between the controller and its capture workers,
//! as a model of whole sessions, and what holds of every run of it.
//!
//! A session is the controller together with the tasks of all the workers it
//! has spawned so far. It moves by events: a message handled by the controller,
//! a packet offered by a worker, a shutdown, a notification taken. The laws
//! below are stated over the same functions as the contracts of the controller.

use vstd::prelude::*;
use crate::capture::CaptureTaskView;
use crate::controller::accepts;
use crate::controller::action_of;
use crate::controller::after_record;
use crate::controller::after_reset;
use crate::controller::after_select_device;
use crate::controller::after_shutdown;
use crate::controller::after_start;
use crate::controller::after_take_notification;
use crate::controller::initial_state;
use crate::controller::step;
use crate::controller::task_of_start;
use crate::controller::ActionView;
use crate::controller::MessageView;
use crate::controller::SnifferView;
use crate::device::has_named;
use crate::device::is_first_named;
use crate::device::lemma_find_named_absent;
use crate::device::lemma_find_named_at;
use crate::device::lemma_find_named_present;
use crate::device::DeviceView;
use crate::filters::FiltersView;
use crate::status::spec_polling_period;
use crate::status::Status;
use crate::status::PERIOD_INIT;
use crate::status::PERIOD_RUNNING;
use crate::styles::Mode;
use crate::traffic::empty_traffic;

verus! {

/// Something that happens to a session.
pub enum Event {
    /// The controller handles a message; the devices are those listed at that time.
    Command(MessageView, Seq<DeviceView>),
    /// The worker spawned as number `worker` offers a packet of `bytes` bytes.
    Packet { worker: int, bytes: nat },
    /// The session is shut down from outside.
    Shutdown,
    /// The published change of status is taken.
    Notified,
}

/// The controller and the tasks of the workers spawned so far, oldest first.
pub struct Session {
    pub controller: SnifferView,
    pub workers: Seq<CaptureTaskView>,
}

/// A session that has just been created: no worker was spawned yet.
pub open spec fn fresh_session(
    device: DeviceView,
    filters: FiltersView,
    chart_packets: bool,
    style: Mode,
) -> Session {
    Session { controller: initial_state(device, filters, chart_packets, style), workers: Seq::empty() }
}

/// The session after one event.
pub open spec fn session_step(session: Session, event: Event) -> Session {
    match event {
        Event::Command(message, devices) => Session {
            controller: step(session.controller, message, devices),
            workers: match action_of(session.controller, message) {
                ActionView::StartCapture(task) => session.workers.push(task),
                _ => session.workers,
            },
        },
        Event::Packet { worker, bytes } => if 0 <= worker < session.workers.len() {
            Session {
                controller: after_record(
                    session.controller,
                    session.workers[worker].generation,
                    bytes,
                ),
                ..session
            }
        } else {
            session
        },
        Event::Shutdown => Session { controller: after_shutdown(session.controller), ..session },
        Event::Notified => Session {
            controller: after_take_notification(session.controller),
            ..session
        },
    }
}

/// The session after a sequence of events, handled in order.
pub open spec fn run(session: Session, events: Seq<Event>) -> Session
    decreases events.len(),
{
    if events.len() == 0 {
        session
    } else {
        session_step(run(session, events.drop_last()), events.last())
    }
}

/// Whether the worker spawned as number `worker` may still write.
pub open spec fn is_live(session: Session, worker: int) -> bool {
    0 <= worker < session.workers.len() && accepts(
        session.controller,
        session.workers[worker].generation,
    )
}

/// Whether the worker spawned as number `worker` has been cancelled.
pub open spec fn is_stale(session: Session, worker: int) -> bool {
    0 <= worker < session.workers.len() && session.workers[worker].generation
        < session.controller.generation
}

/// Whether an event is a reset command.
pub open spec fn is_reset(event: Event) -> bool {
    event matches Event::Command(message, _) && message is Reset
}

/// Whether an event is a start command.
pub open spec fn is_start(event: Event) -> bool {
    event matches Event::Command(message, _) && message is Start
}

/// Whether a message only changes the configuration: the device selection or
/// one of the filters.
pub open spec fn is_configuration(message: MessageView) -> bool {
    message is AdapterSelection || message is IpVersionSelection
        || message is TransportProtocolSelection || message is AppProtocolSelection
}

/// What holds of every session that began fresh: no worker is ahead of the
/// controller, no two workers share a generation, and while the session is
/// idle every worker is stale.
pub open spec fn orderly(session: Session) -> bool {
    &&& forall|worker: int|
        0 <= worker < session.workers.len() ==> (#[trigger] session.workers[worker]).generation
            <= session.controller.generation
    &&& forall|first: int, second: int|
        0 <= first < second < session.workers.len() ==> (#[trigger] session.workers[first]).generation
            != (#[trigger] session.workers[second]).generation
    &&& session.controller.status == Status::Idle ==> forall|worker: int|
        0 <= worker < session.workers.len() ==> (#[trigger] session.workers[worker]).generation
            < session.controller.generation
}

/// A fresh session is orderly.
pub proof fn lemma_fresh_is_orderly(
    device: DeviceView,
    filters: FiltersView,
    chart_packets: bool,
    style: Mode,
)
    ensures
        orderly(fresh_session(device, filters, chart_packets, style)),
{
}

/// No event ever lowers the generation or forgets a worker, and no event
/// changes the task of a worker that was spawned before it.
pub proof fn lemma_step_keeps_history(session: Session, event: Event)
    ensures
        session_step(session, event).controller.generation >= session.controller.generation,
        session_step(session, event).workers.len() >= session.workers.len(),
        forall|worker: int|
            0 <= worker < session.workers.len() ==> #[trigger] session_step(
                session,
                event,
            ).workers[worker] == session.workers[worker],
{
}

/// One event takes an orderly session to an orderly session.
pub proof fn lemma_step_keeps_order(session: Session, event: Event)
    requires
        orderly(session),
    ensures
        orderly(session_step(session, event)),
{
    let next = session_step(session, event);
    lemma_step_keeps_history(session, event);
    assert forall|first: int, second: int| 0 <= first < second < next.workers.len() implies (
    #[trigger] next.workers[first]).generation != (#[trigger] next.workers[second]).generation by {
        if second < session.workers.len() {
            assert(next.workers[first] == session.workers[first]);
            assert(next.workers[second] == session.workers[second]);
        } else {
            assert(next.workers[first] == session.workers[first]);
            assert(session.workers[first].generation < session.controller.generation);
        }
    }
    assert forall|worker: int| 0 <= worker < next.workers.len() implies (
    #[trigger] next.workers[worker]).generation <= next.controller.generation by {
        if worker < session.workers.len() {
            assert(next.workers[worker] == session.workers[worker]);
        }
    }
    if next.controller.status == Status::Idle {
        assert forall|worker: int| 0 <= worker < next.workers.len() implies (
        #[trigger] next.workers[worker]).generation < next.controller.generation by {
            assert(next.workers[worker] == session.workers[worker]);
        }
    }
}

/// No run ever lowers the generation or forgets a worker, and no run changes
/// the task of a worker that was spawned before it.
pub proof fn lemma_run_keeps_history(session: Session, events: Seq<Event>)
    ensures
        run(session, events).controller.generation >= session.controller.generation,
        run(session, events).workers.len() >= session.workers.len(),
        forall|worker: int|
            0 <= worker < session.workers.len() ==> #[trigger] run(session, events).workers[worker]
                == session.workers[worker],
    decreases events.len(),
{
    if events.len() > 0 {
        let before = run(session, events.drop_last());
        lemma_run_keeps_history(session, events.drop_last());
        lemma_step_keeps_history(before, events.last());
        assert forall|worker: int| 0 <= worker < session.workers.len() implies #[trigger] run(
            session,
            events,
        ).workers[worker] == session.workers[worker] by {
            assert(before.workers[worker] == session.workers[worker]);
        }
    }
}

/// Every run takes an orderly session to an orderly session.
pub proof fn lemma_run_keeps_order(session: Session, events: Seq<Event>)
    requires
        orderly(session),
    ensures
        orderly(run(session, events)),
    decreases events.len(),
{
    if events.len() > 0 {
        lemma_run_keeps_order(session, events.drop_last());
        lemma_step_keeps_order(run(session, events.drop_last()), events.last());
    }
}

/// At most one worker is live at any time: whatever happened to a session that
/// began fresh, two workers that may both still write are one and the same.
pub proof fn lemma_one_live_worker(
    device: DeviceView,
    filters: FiltersView,
    chart_packets: bool,
    style: Mode,
    events: Seq<Event>,
    first: int,
    second: int,
)
    requires
        is_live(run(fresh_session(device, filters, chart_packets, style), events), first),
        is_live(run(fresh_session(device, filters, chart_packets, style), events), second),
    ensures
        first == second,
{
    let fresh = fresh_session(device, filters, chart_packets, style);
    lemma_fresh_is_orderly(device, filters, chart_packets, style);
    lemma_run_keeps_order(fresh, events);
    let after = run(fresh, events);
    if first < second {
        assert(after.workers[first].generation != after.workers[second].generation);
    }
    if second < first {
        assert(after.workers[second].generation != after.workers[first].generation);
    }
}

/// However often a capture is started, without a reset in between at most one
/// worker is spawned, and none at all if the session was not idle to begin
/// with. The generation stays, and so does a status other than `Idle`.
pub proof fn lemma_one_worker_without_reset(session: Session, events: Seq<Event>)
    requires
        forall|position: int| 0 <= position < events.len() ==> !is_reset(#[trigger] events[position]),
    ensures
        run(session, events).controller.generation == session.controller.generation,
        run(session, events).workers.len() <= session.workers.len() + 1,
        session.controller.status != Status::Idle ==> run(session, events).workers
            == session.workers,
        session.controller.status != Status::Idle ==> run(session, events).controller.status
            != Status::Idle,
        run(session, events).workers.len() > session.workers.len() ==> run(
            session,
            events,
        ).controller.status != Status::Idle,
    decreases events.len(),
{
    if events.len() > 0 {
        let earlier = events.drop_last();
        assert forall|position: int| 0 <= position < earlier.len() implies !is_reset(
            #[trigger] earlier[position],
        ) by {
            assert(earlier[position] == events[position]);
        }
        lemma_one_worker_without_reset(session, earlier);
        assert(!is_reset(events[events.len() - 1]));
    }
}

/// A second start without a reset in between changes nothing and spawns no
/// worker.
pub proof fn lemma_second_start_is_idle(state: SnifferView)
    ensures
        after_start(after_start(state)) == after_start(state),
        task_of_start(after_start(state)) is None,
{
}

/// A reset leaves the generation strictly greater than it was and, unless the
/// session was shut down, leaves the session idle.
pub proof fn lemma_reset_advances(state: SnifferView)
    ensures
        after_reset(state).generation > state.generation,
        state.status != Status::Stopped ==> after_reset(state).status == Status::Idle,
        state.status == Status::Stopped ==> after_reset(state).status == Status::Stopped,
{
}

/// A reset cancels every worker spawned so far.
pub proof fn lemma_reset_cancels(session: Session, devices: Seq<DeviceView>, worker: int)
    requires
        orderly(session),
        0 <= worker < session.workers.len(),
    ensures
        is_stale(session_step(session, Event::Command(MessageView::Reset, devices)), worker),
{
    assert(session.workers[worker].generation <= session.controller.generation);
}

/// A worker that was cancelled stays cancelled whatever happens next, and
/// whatever it offers then is dropped: the session is as if the packet had
/// never come.
pub proof fn lemma_stale_worker_never_writes(
    session: Session,
    events: Seq<Event>,
    worker: int,
    bytes: nat,
)
    requires
        is_stale(session, worker),
    ensures
        is_stale(run(session, events), worker),
        !is_live(run(session, events), worker),
        session_step(run(session, events), Event::Packet { worker, bytes }) == run(session, events),
{
    lemma_run_keeps_history(session, events);
    assert(run(session, events).workers[worker] == session.workers[worker]);
}

/// Neither a packet nor a message other than a start ever empties or replaces
/// the accumulator behind the back of the live worker: only a start installs a
/// fresh one, and only the live worker adds to it.
pub proof fn lemma_traffic_changes(session: Session, event: Event)
    ensures
        session_step(session, event).controller.traffic != session.controller.traffic ==> {
            ||| (is_start(event) && session.controller.status == Status::Idle && session_step(
                session,
                event,
            ).controller.traffic == empty_traffic())
            ||| (event matches Event::Packet { worker, .. } && is_live(session, worker))
        },
{
}

/// Changing the device or a filter while a capture runs reaches neither the
/// worker nor the session: every task handed out stays as it was at its start,
/// no worker is spawned or cancelled, and status and accumulator stay.
pub proof fn lemma_configuration_spares_workers(
    session: Session,
    message: MessageView,
    devices: Seq<DeviceView>,
)
    requires
        is_configuration(message),
    ensures
        session_step(session, Event::Command(message, devices)).workers == session.workers,
        session_step(session, Event::Command(message, devices)).controller.generation
            == session.controller.generation,
        session_step(session, Event::Command(message, devices)).controller.status
            == session.controller.status,
        session_step(session, Event::Command(message, devices)).controller.traffic
            == session.controller.traffic,
        forall|worker: int|
            is_live(session, worker) <==> is_live(
                session_step(session, Event::Command(message, devices)),
                worker,
            ),
{
}

/// The task of a start holds the device and the filters of that moment, so a
/// worker started after a change of configuration sees the change.
pub proof fn lemma_start_takes_snapshot(state: SnifferView)
    requires
        state.status == Status::Idle,
    ensures
        task_of_start(state) is Some,
        task_of_start(state)->0.generation == state.generation,
        task_of_start(state)->0.device == state.device,
        task_of_start(state)->0.filters == state.filters,
        after_start(state).status == Status::Running,
        after_start(state).traffic == empty_traffic(),
        after_start(state).generation == state.generation,
        after_start(state).pending,
{
}

/// Selecting a device that is listed makes it the selection: the selection is
/// then the first listed device of that name.
pub proof fn lemma_select_listed(
    state: SnifferView,
    name: Seq<char>,
    devices: Seq<DeviceView>,
    index: int,
)
    requires
        is_first_named(devices, name, index),
    ensures
        after_select_device(state, name, devices).device == devices[index],
        after_select_device(state, name, devices) == (SnifferView {
            device: devices[index],
            ..state
        }),
{
    lemma_find_named_at(devices, name, index);
}

/// Selecting a name that some listed device carries makes a listed device of
/// that name the selection.
pub proof fn lemma_select_present(state: SnifferView, name: Seq<char>, devices: Seq<DeviceView>)
    requires
        has_named(devices, name),
    ensures
        after_select_device(state, name, devices).device.name == name,
        devices.contains(after_select_device(state, name, devices).device),
{
    lemma_find_named_present(devices, name);
}

/// Selecting a name that no listed device carries changes nothing.
pub proof fn lemma_select_absent(state: SnifferView, name: Seq<char>, devices: Seq<DeviceView>)
    requires
        !has_named(devices, name),
    ensures
        after_select_device(state, name, devices) == state,
{
    lemma_find_named_absent(devices, name);
}

/// The polling interval is the fast one exactly while the session is running,
/// and the slow one otherwise. It depends on the status alone.
pub proof fn lemma_cadence(status: Status)
    ensures
        status == Status::Running ==> spec_polling_period(status) == PERIOD_RUNNING,
        status != Status::Running ==> spec_polling_period(status) == PERIOD_INIT,
        PERIOD_RUNNING < PERIOD_INIT,
{
}

/// The status moves only from `Idle` to `Running`, by a start, and from
/// `Running` to `Idle`, by a reset; a shutdown stops it, and once stopped it
/// stays stopped.
pub proof fn lemma_status_moves(session: Session, event: Event)
    ensures
        ({
            let before = session.controller.status;
            let after = session_step(session, event).controller.status;
            ||| after == before
            ||| (before == Status::Idle && after == Status::Running && is_start(event))
            ||| (before == Status::Running && after == Status::Idle && is_reset(event))
            ||| (after == Status::Stopped && event is Shutdown)
        }),
        session.controller.status == Status::Stopped ==> session_step(
            session,
            event,
        ).controller.status == Status::Stopped,
{
}

/// Only a reset advances the generation, and it advances it by one.
pub proof fn lemma_generation_moves(session: Session, event: Event)
    ensures
        session_step(session, event).controller.generation == if is_reset(event) {
            session.controller.generation + 1
        } else {
            session.controller.generation
        },
{
}

} // verus!
