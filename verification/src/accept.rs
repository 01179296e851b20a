//! The task that accepts connections on a listening socket.

use vstd::prelude::*;

use crate::endpoint::LocatorView;
use crate::error::{error_with, ErrorKind, TlsError};
use crate::link::{link_between, LinkUnicastTls, LinkView};

verus! {

/// What an accepting task does next.
pub enum Phase {
    /// It looks whether the listener is still active.
    CheckActive,
    /// It waits for a connection, or for the signal to stop.
    Wait,
    /// It holds off for a time in microseconds.
    Throttle { micros: u64 },
    /// It performs the TLS handshake with a peer.
    Handshake { dst_addr: String },
    /// It hands a new link over.
    Send(LinkUnicastTls),
    /// It is done.
    Done,
}

/// The contents of a [`Phase`].
pub enum PhaseView {
    CheckActive,
    Wait,
    Throttle { micros: u64 },
    Handshake { dst_addr: Seq<char> },
    Send(LinkView),
    Done,
}

impl View for Phase {
    type V = PhaseView;

    open spec fn view(&self) -> PhaseView {
        match self {
            Phase::CheckActive => PhaseView::CheckActive,
            Phase::Wait => PhaseView::Wait,
            Phase::Throttle { micros } => PhaseView::Throttle { micros: *micros },
            Phase::Handshake { dst_addr } => PhaseView::Handshake { dst_addr: dst_addr@ },
            Phase::Send(link) => PhaseView::Send(link@),
            Phase::Done => PhaseView::Done,
        }
    }
}

/// What came of a phase.
#[derive(Debug)]
pub enum Event {
    /// Whether the listener is still active.
    Active(bool),
    /// A peer connected from an address.
    Accepted { dst_addr: String },
    /// No connection could be accepted.
    AcceptFailed,
    /// The signal to stop came.
    Stopped,
    /// The throttle time is over.
    Throttled,
    /// The handshake went well.
    HandshakeDone,
    /// The handshake failed.
    HandshakeFailed,
    /// The link was handed over.
    Sent,
    /// Nobody took the link.
    SendFailed,
}

/// The contents of an [`Event`].
pub enum EventView {
    Active(bool),
    Accepted { dst_addr: Seq<char> },
    AcceptFailed,
    Stopped,
    Throttled,
    HandshakeDone,
    HandshakeFailed,
    Sent,
    SendFailed,
}

impl View for Event {
    type V = EventView;

    open spec fn view(&self) -> EventView {
        match self {
            Event::Active(b) => EventView::Active(*b),
            Event::Accepted { dst_addr } => EventView::Accepted { dst_addr: dst_addr@ },
            Event::AcceptFailed => EventView::AcceptFailed,
            Event::Stopped => EventView::Stopped,
            Event::Throttled => EventView::Throttled,
            Event::HandshakeDone => EventView::HandshakeDone,
            Event::HandshakeFailed => EventView::HandshakeFailed,
            Event::Sent => EventView::Sent,
            Event::SendFailed => EventView::SendFailed,
        }
    }
}

/// An accepting task.
pub struct AcceptTask {
    /// The address of the listening socket.
    pub src_addr: String,
    /// The largest message of the links, in bytes.
    pub mtu: u16,
    /// How long it holds off when it cannot accept, in microseconds.
    pub throttle_time: u64,
    /// What it does next.
    pub phase: Phase,
}

/// The contents of an [`AcceptTask`].
pub struct TaskView {
    pub src_addr: Seq<char>,
    pub mtu: u16,
    pub throttle_time: u64,
    pub phase: PhaseView,
}

impl View for AcceptTask {
    type V = TaskView;

    open spec fn view(&self) -> TaskView {
        TaskView {
            src_addr: self.src_addr@,
            mtu: self.mtu,
            throttle_time: self.throttle_time,
            phase: self.phase@,
        }
    }
}

/// The phase that follows when an event comes of a phase, and nothing where the event
/// cannot come of it.
pub open spec fn next_phase(task: TaskView, event: EventView) -> Option<PhaseView> {
    match (task.phase, event) {
        (PhaseView::CheckActive, EventView::Active(active)) => if active {
            Some(PhaseView::Wait)
        } else {
            Some(PhaseView::Done)
        },
        (PhaseView::Wait, EventView::Accepted { dst_addr }) => Some(
            PhaseView::Handshake { dst_addr },
        ),
        (PhaseView::Wait, EventView::Stopped) => Some(PhaseView::Done),
        (PhaseView::Wait, EventView::AcceptFailed) => Some(
            PhaseView::Throttle { micros: task.throttle_time },
        ),
        (PhaseView::Throttle { micros }, EventView::Throttled) => Some(PhaseView::CheckActive),
        (PhaseView::Handshake { dst_addr }, EventView::HandshakeDone) => Some(
            PhaseView::Send(link_between(task.src_addr, dst_addr, task.mtu)),
        ),
        (PhaseView::Handshake { dst_addr }, EventView::HandshakeFailed) => Some(
            PhaseView::CheckActive,
        ),
        (PhaseView::Send(link), EventView::Sent) => Some(PhaseView::CheckActive),
        (PhaseView::Send(link), EventView::SendFailed) => Some(PhaseView::CheckActive),
        _ => None,
    }
}

impl AcceptTask {
    /// Starts to accept on a socket, given its address or why the address could not be
    /// had.
    pub fn start(local_addr: Result<String, String>, mtu: u16, throttle_time: u64) -> (r: Result<
        AcceptTask,
        TlsError,
    >)
        ensures
            match local_addr {
                Ok(addr) => r matches Ok(task) && task@ == (TaskView {
                    src_addr: addr@,
                    mtu,
                    throttle_time,
                    phase: PhaseView::CheckActive,
                }),
                Err(e) => r matches Err(error) && error@ == error_with(ErrorKind::Accept, e@),
            },
    {
        match local_addr {
            Ok(src_addr) => Ok(
                AcceptTask { src_addr, mtu, throttle_time, phase: Phase::CheckActive },
            ),
            Err(e) => Err(TlsError::with(ErrorKind::Accept, e)),
        }
    }

    /// Goes on with what came of the phase.
    pub fn next(self, event: Event) -> (r: AcceptTask)
        requires
            next_phase(self@, event@) is Some,
        ensures
            r@ == (TaskView { phase: next_phase(self@, event@)->Some_0, ..self@ }),
    {
        let AcceptTask { src_addr, mtu, throttle_time, phase } = self;
        let phase: Phase = match (phase, event) {
            (Phase::CheckActive, Event::Active(true)) => Phase::Wait,
            (Phase::Wait, Event::Accepted { dst_addr }) => Phase::Handshake { dst_addr },
            (Phase::Wait, Event::AcceptFailed) => Phase::Throttle { micros: throttle_time },
            (Phase::Handshake { dst_addr }, Event::HandshakeDone) => Phase::Send(
                LinkUnicastTls::new(src_addr.clone(), dst_addr, mtu),
            ),
            (Phase::CheckActive, _) => Phase::Done,
            (Phase::Wait, _) => Phase::Done,
            _ => Phase::CheckActive,
        };
        AcceptTask { src_addr, mtu, throttle_time, phase }
    }
}

/// The task after a run of events, and nothing where one of them cannot come.
pub open spec fn run(task: TaskView, events: Seq<EventView>) -> Option<TaskView>
    decreases events.len(),
{
    if events.len() == 0 {
        Some(task)
    } else {
        match run(task, events.drop_last()) {
            None => None,
            Some(before) => match next_phase(before, events.last()) {
                None => None,
                Some(phase) => Some(TaskView { phase, ..before }),
            },
        }
    }
}

/// The links that a task has come to hand over in a run of events.
pub open spec fn links(task: TaskView, events: Seq<EventView>) -> Seq<LinkView>
    decreases events.len(),
{
    if events.len() == 0 {
        Seq::empty()
    } else {
        match run(task, events) {
            Some(after) => match after.phase {
                PhaseView::Send(link) => links(task, events.drop_last()).push(link),
                _ => links(task, events.drop_last()),
            },
            None => links(task, events.drop_last()),
        }
    }
}

/// How many handshakes went well in a run of events.
pub open spec fn handshakes(events: Seq<EventView>) -> nat
    decreases events.len(),
{
    if events.len() == 0 {
        0
    } else if events.last() is HandshakeDone {
        handshakes(events.drop_last()) + 1
    } else {
        handshakes(events.drop_last())
    }
}

/// The peers whose handshake went well in a run of events, in order. A handshake is with the
/// peer that connected right before it.
pub open spec fn secured_peers(events: Seq<EventView>) -> Seq<Seq<char>>
    decreases events.len(),
{
    if events.len() == 0 {
        Seq::empty()
    } else {
        let front = events.drop_last();
        match events.last() {
            EventView::HandshakeDone if front.len() > 0 => match front.last() {
                EventView::Accepted { dst_addr } => secured_peers(front).push(dst_addr),
                _ => secured_peers(front),
            },
            _ => secured_peers(front),
        }
    }
}

/// A task ends exactly when it finds the listener inactive or is told to stop while it
/// waits. No failure ends it.
pub proof fn task_ends_only_when_asked(task: TaskView, event: EventView)
    requires
        next_phase(task, event) is Some,
    ensures
        next_phase(task, event) == Some(PhaseView::Done) <==> (event == EventView::Active(false)
            || event == EventView::Stopped),
{
}

/// After a failure to accept, the task throttles; after that, and after a failed handshake
/// or a link that nobody took, it looks again whether the listener is active.
pub proof fn failures_lead_back_to_the_loop(task: TaskView, event: EventView)
    requires
        next_phase(task, event) is Some,
    ensures
        event == EventView::AcceptFailed ==> next_phase(task, event) == Some(
            PhaseView::Throttle { micros: task.throttle_time },
        ),
        event == EventView::Throttled || event == EventView::HandshakeFailed || event
            == EventView::SendFailed ==> next_phase(task, event) == Some(PhaseView::CheckActive),
{
}

/// Nothing comes of a task that is done.
pub proof fn done_is_final(task: TaskView, event: EventView)
    requires
        task.phase is Done,
    ensures
        next_phase(task, event) is None,
{
}

/// Before it waits for a connection, a task has found the listener active.
pub proof fn waiting_needs_an_active_listener(task: TaskView, event: EventView)
    ensures
        next_phase(task, event) == Some(PhaseView::Wait) ==> event == EventView::Active(true),
{
}

/// A run keeps the address of the socket, the message size and the throttle time.
pub proof fn run_keeps_the_socket(task: TaskView, events: Seq<EventView>)
    ensures
        run(task, events) matches Some(after) ==> after.src_addr == task.src_addr && after.mtu
            == task.mtu && after.throttle_time == task.throttle_time,
    decreases events.len(),
{
    if events.len() > 0 {
        run_keeps_the_socket(task, events.drop_last());
    }
}

/// A task shakes hands with the peer that connected last.
proof fn lemma_handshake_peer(task: TaskView, events: Seq<EventView>)
    requires
        task.phase is CheckActive,
    ensures
        run(task, events) matches Some(after) ==> (after.phase matches PhaseView::Handshake {
            dst_addr,
        } ==> events.len() > 0 && events.last() == (EventView::Accepted { dst_addr })),
{
}

/// In a run from the start of a task, the links are those between the address of the
/// listening socket and the peers whose handshake went well, one for each, in the order of
/// the handshakes.
pub proof fn one_link_per_handshake(task: TaskView, events: Seq<EventView>)
    requires
        task.phase is CheckActive,
        run(task, events) is Some,
    ensures
        links(task, events) == secured_peers(events).map_values(
            |dst_addr: Seq<char>| link_between(task.src_addr, dst_addr, task.mtu),
        ),
        links(task, events).len() == handshakes(events),
    decreases events.len(),
{
    let link = |dst_addr: Seq<char>| link_between(task.src_addr, dst_addr, task.mtu);
    if events.len() > 0 {
        let front = events.drop_last();
        one_link_per_handshake(task, front);
        run_keeps_the_socket(task, front);
        lemma_handshake_peer(task, front);
        let peers = secured_peers(front);
        if let EventView::HandshakeDone = events.last() {
            let peer = front.last()->dst_addr;
            assert(secured_peers(events) == peers.push(peer));
            assert(peers.push(peer).map_values(link) =~= peers.map_values(link).push(link(peer)));
        }
    } else {
        assert(secured_peers(events).map_values(link) =~= Seq::empty());
    }
}

/// How many events can still come of a phase at most, once the listener is not active.
pub open spec fn events_left(phase: PhaseView) -> nat {
    match phase {
        PhaseView::Done => 0,
        PhaseView::CheckActive => 1,
        PhaseView::Throttle { .. } => 2,
        PhaseView::Send(_) => 2,
        PhaseView::Handshake { .. } => 3,
        PhaseView::Wait => 4,
    }
}

/// A task whose listener is not active ends: whatever it was about to do, at most four more
/// events come of it, and when none can come any more it is done.
pub proof fn inactive_task_ends(task: TaskView, events: Seq<EventView>)
    requires
        run(task, events) is Some,
        forall|i: int| 0 <= i < events.len() ==> #[trigger] events[i] != EventView::Active(true),
    ensures
        events.len() + events_left(run(task, events)->Some_0.phase) <= events_left(task.phase),
        events.len() <= 4,
        events_left(run(task, events)->Some_0.phase) == 0 <==> run(
            task,
            events,
        )->Some_0.phase is Done,
    decreases events.len(),
{
    if events.len() > 0 {
        let front = events.drop_last();
        assert forall|i: int| 0 <= i < front.len() implies #[trigger] front[i]
            != EventView::Active(true) by {
            assert(front[i] == events[i]);
        }
        inactive_task_ends(task, front);
        assert(events[events.len() - 1] == events.last());
    }
}

/// A task that is not done can go on: it finds the listener inactive, is told to stop, or
/// what it is at fails.
pub proof fn unfinished_task_can_go_on(task: TaskView)
    requires
        !(task.phase is Done),
    ensures
        exists|event: EventView|
            event != EventView::Active(true) && #[trigger] next_phase(task, event) is Some,
{
    let event = match task.phase {
        PhaseView::CheckActive => EventView::Active(false),
        PhaseView::Wait => EventView::Stopped,
        PhaseView::Throttle { .. } => EventView::Throttled,
        PhaseView::Handshake { .. } => EventView::HandshakeFailed,
        _ => EventView::SendFailed,
    };
    assert(next_phase(task, event) is Some);
}

/// Every peer that is accepted is shaken hands with, whatever its address is. Where that
/// goes well, a link between the listening socket and that peer is handed over, and where it
/// fails, the task goes on.
pub proof fn accepted_peer_is_shaken_hands_with(
    waiting: TaskView,
    shaking: TaskView,
    dst_addr: Seq<char>,
)
    requires
        waiting.phase == PhaseView::Wait,
        shaking.phase == (PhaseView::Handshake { dst_addr }),
    ensures
        next_phase(waiting, EventView::Accepted { dst_addr }) == Some(
            PhaseView::Handshake { dst_addr },
        ),
        next_phase(shaking, EventView::HandshakeDone) == Some(
            PhaseView::Send(
                LinkView {
                    src_addr: shaking.src_addr,
                    src_locator: LocatorView {
                        protocol: "tls"@,
                        address: shaking.src_addr,
                        metadata: ""@,
                    },
                    dst_addr,
                    dst_locator: LocatorView {
                        protocol: "tls"@,
                        address: dst_addr,
                        metadata: ""@,
                    },
                    mtu: shaking.mtu,
                },
            ),
        ),
        next_phase(shaking, EventView::HandshakeFailed) == Some(PhaseView::CheckActive),
{
}

/// In each phase, the events that can come are these and no others: whether the listener is
/// active where that is looked at, a peer, a failure or the signal to stop while the task
/// waits, the end of the throttle time, the two outcomes of a handshake, and the two of
/// handing a link over.
pub proof fn each_phase_has_its_events(task: TaskView, event: EventView)
    ensures
        next_phase(task, event) is Some <==> match task.phase {
            PhaseView::CheckActive => event is Active,
            PhaseView::Wait => event is Accepted || event is AcceptFailed || event is Stopped,
            PhaseView::Throttle { .. } => event is Throttled,
            PhaseView::Handshake { .. } => event is HandshakeDone || event is HandshakeFailed,
            PhaseView::Send(_) => event is Sent || event is SendFailed,
            PhaseView::Done => false,
        },
{
}

/// A task waits as long as it finds the listener active, is done when it does not or is told
/// to stop, throttles for its throttle time when it cannot accept, and else looks again
/// whether the listener is active.
pub proof fn each_event_leads_on(task: TaskView, event: EventView)
    requires
        next_phase(task, event) is Some,
    ensures
        event == EventView::Active(true) ==> next_phase(task, event) == Some(PhaseView::Wait),
        event == EventView::Active(false) || event is Stopped ==> next_phase(task, event) == Some(
            PhaseView::Done,
        ),
        event is AcceptFailed ==> next_phase(task, event) == Some(
            PhaseView::Throttle { micros: task.throttle_time },
        ),
        event is Throttled || event is HandshakeFailed || event is Sent || event is SendFailed
            ==> next_phase(task, event) == Some(PhaseView::CheckActive),
{
}

/// A run goes on event by event, and only its phase changes. A link is handed over with each
/// event that leads to one.
pub proof fn runs_go_event_by_event(task: TaskView, events: Seq<EventView>, event: EventView)
    ensures
        run(task, Seq::empty()) == Some(task),
        run(task, events.push(event)) == (match run(task, events) {
            Some(before) => match next_phase(before, event) {
                Some(phase) => Some(
                    TaskView {
                        src_addr: before.src_addr,
                        mtu: before.mtu,
                        throttle_time: before.throttle_time,
                        phase,
                    },
                ),
                None => None,
            },
            None => None,
        }),
        run(task, events.push(event)) matches Some(after) ==> (after.phase matches PhaseView::Send(
            link,
        ) ==> links(task, events.push(event)) == links(task, events).push(link)),
{
    assert(events.push(event).drop_last() =~= events);
}

/// Wherever a run has come to wait, the next peer is accepted and, where its handshake goes
/// well, gets the next link, whatever its address is.
pub proof fn waiting_run_gives_the_next_peer_a_link(
    task: TaskView,
    events: Seq<EventView>,
    dst_addr: Seq<char>,
)
    requires
        run(task, events) matches Some(before) && before.phase == PhaseView::Wait,
    ensures
        run(
            task,
            events.push(EventView::Accepted { dst_addr }).push(EventView::HandshakeDone),
        ) is Some,
        links(
            task,
            events.push(EventView::Accepted { dst_addr }).push(EventView::HandshakeDone),
        ) == links(task, events).push(link_between(task.src_addr, dst_addr, task.mtu)),
{
    let accepted = EventView::Accepted { dst_addr };
    run_keeps_the_socket(task, events);
    runs_go_event_by_event(task, events, accepted);
    runs_go_event_by_event(task, events.push(accepted), EventView::HandshakeDone);
    assert(events.push(accepted).drop_last() =~= events);
}

/// A task shows its socket, its sizes and its phase, and a phase and an event what they hold.
pub proof fn task_shows_itself(task: AcceptTask, link: LinkUnicastTls, addr: String, n: u64, b: bool)
    ensures
        task@.src_addr == task.src_addr@,
        task@.mtu == task.mtu,
        task@.throttle_time == task.throttle_time,
        task@.phase == task.phase@,
        Phase::CheckActive@ == PhaseView::CheckActive,
        Phase::Wait@ == PhaseView::Wait,
        (Phase::Throttle { micros: n })@ == (PhaseView::Throttle { micros: n }),
        (Phase::Handshake { dst_addr: addr })@ == (PhaseView::Handshake { dst_addr: addr@ }),
        Phase::Send(link)@ == PhaseView::Send(link@),
        Phase::Done@ == PhaseView::Done,
        Event::Active(b)@ == EventView::Active(b),
        (Event::Accepted { dst_addr: addr })@ == (EventView::Accepted { dst_addr: addr@ }),
        Event::AcceptFailed@ == EventView::AcceptFailed,
        Event::Stopped@ == EventView::Stopped,
        Event::Throttled@ == EventView::Throttled,
        Event::HandshakeDone@ == EventView::HandshakeDone,
        Event::HandshakeFailed@ == EventView::HandshakeFailed,
        Event::Sent@ == EventView::Sent,
        Event::SendFailed@ == EventView::SendFailed,
{
}

} // verus!
