//! The life of one connection: a socket is allocated, tuned where the
//! platform allows, handed out as a connector, and connected once.
//!
//! The caller does the system's work and reports each result as an event;
//! `step` answers with the next stage and what to do.

use crate::tuning::{Capability, TuneOutcome};
use vstd::prelude::*;

verus! {

/// Where a connection stands.
#[derive(Debug, PartialEq, Eq, Clone, Copy, Structural)]
pub enum Stage {
    /// A socket has been asked of the system.
    Allocating,
    /// The socket exists and the system has been asked to cap its segment
    /// size at `mss`.
    Tuning { mss: u32 },
    /// The connector is in its owner's hands and not yet connected.
    Unconnected,
    /// The handshake succeeded: the socket now belongs to the stream.
    Connected,
    /// Allocation or the handshake failed. Nothing follows.
    Failed,
}

/// What the system answered to the last request.
#[derive(Debug, PartialEq, Eq, Clone, Copy, Structural)]
pub enum Event {
    SocketCreated,
    SocketRefused,
    OptionReturned { status: i32 },
    HandshakeDone,
    HandshakeFailed,
}

/// What the caller does next.
#[derive(Debug, PartialEq, Eq, Clone, Copy, Structural)]
pub enum Action {
    /// Ask the system to cap the socket's segment size at `mss`.
    SetMaxSegment { mss: u32 },
    /// Hand the connector to its owner, and report `tuning`.
    YieldConnector { tuning: TuneOutcome },
    /// Hand the connected stream to the caller.
    YieldStream,
    /// Hand the system's error to the caller.
    SurfaceError,
}

impl Stage {
    /// Whether nothing can follow this stage.
    pub open spec fn is_terminal(self) -> bool {
        self is Connected || self is Failed
    }
}

/// The transition that `event` causes in `stage`, or `None` where the stage
/// does not admit the event.
///
/// A refusal to tune leads where a success leads: only a refused socket or a
/// failed handshake ends in `Failed`.
pub open spec fn next(capability: Capability, stage: Stage, event: Event) -> Option<
    (Stage, Action),
> {
    match (stage, event) {
        (Stage::Allocating, Event::SocketCreated) => match capability.plan() {
            Some(mss) => Some((Stage::Tuning { mss }, Action::SetMaxSegment { mss })),
            None => Some(
                (Stage::Unconnected, Action::YieldConnector { tuning: TuneOutcome::Skipped }),
            ),
        },
        (Stage::Allocating, Event::SocketRefused) => Some((Stage::Failed, Action::SurfaceError)),
        (Stage::Tuning { mss }, Event::OptionReturned { status }) => Some(
            (
                Stage::Unconnected,
                Action::YieldConnector { tuning: TuneOutcome::of_status(mss, status) },
            ),
        ),
        (Stage::Unconnected, Event::HandshakeDone) => Some((Stage::Connected, Action::YieldStream)),
        (Stage::Unconnected, Event::HandshakeFailed) => Some((Stage::Failed, Action::SurfaceError)),
        _ => None,
    }
}

/// Takes one step: the stage that follows `stage` on `event`, and what the
/// caller does next.
pub fn step(capability: Capability, stage: Stage, event: Event) -> (moved: Option<(Stage, Action)>)
    ensures
        moved == next(capability, stage, event),
{
    match stage {
        Stage::Allocating => match event {
            Event::SocketCreated => match capability.planned_mss() {
                Some(mss) => Some((Stage::Tuning { mss }, Action::SetMaxSegment { mss })),
                None => Some(
                    (Stage::Unconnected, Action::YieldConnector { tuning: TuneOutcome::Skipped }),
                ),
            },
            Event::SocketRefused => Some((Stage::Failed, Action::SurfaceError)),
            _ => None,
        },
        Stage::Tuning { mss } => match event {
            Event::OptionReturned { status } => Some(
                (
                    Stage::Unconnected,
                    Action::YieldConnector { tuning: TuneOutcome::assess(mss, status) },
                ),
            ),
            _ => None,
        },
        Stage::Unconnected => match event {
            Event::HandshakeDone => Some((Stage::Connected, Action::YieldStream)),
            Event::HandshakeFailed => Some((Stage::Failed, Action::SurfaceError)),
            _ => None,
        },
        Stage::Connected => None,
        Stage::Failed => None,
    }
}

/// The stage reached from `stage` by `events` in turn, or `None` where one of
/// them is not admitted.
pub open spec fn reached(capability: Capability, stage: Stage, events: Seq<Event>) -> Option<Stage>
    decreases events.len(),
{
    if events.len() == 0 {
        Some(stage)
    } else {
        match reached(capability, stage, events.drop_last()) {
            Some(before) => match next(capability, before, events.last()) {
                Some((after, _)) => Some(after),
                None => None,
            },
            None => None,
        }
    }
}

/// The events of creating a connector: the socket's allocation and, where
/// the platform tunes, the answer to the tuning request.
pub open spec fn creation_events(capability: Capability, allocated: bool, status: i32) -> Seq<
    Event,
> {
    if !allocated {
        seq![Event::SocketRefused]
    } else if capability.plan().is_some() {
        seq![Event::SocketCreated, Event::OptionReturned { status }]
    } else {
        seq![Event::SocketCreated]
    }
}

/// The events of a whole life: creation, and the handshake if there is a
/// connector to connect.
pub open spec fn life_events(
    capability: Capability,
    allocated: bool,
    status: i32,
    handshake: bool,
) -> Seq<Event> {
    if !allocated {
        creation_events(capability, allocated, status)
    } else if handshake {
        creation_events(capability, allocated, status).push(Event::HandshakeDone)
    } else {
        creation_events(capability, allocated, status).push(Event::HandshakeFailed)
    }
}

/// Replays `events` from the start of a life and returns the stage reached,
/// or `None` where one of them is not admitted.
pub fn replay(capability: Capability, events: &Vec<Event>) -> (end: Option<Stage>)
    ensures
        end == reached(capability, Stage::Allocating, events@),
{
    let mut stage = Stage::Allocating;
    let mut i: usize = 0;
    while i < events.len()
        invariant
            i <= events.len(),
            reached(capability, Stage::Allocating, events@.take(i as int)) == Some(stage),
        decreases events.len() - i,
    {
        proof {
            assert(events@.take(i + 1).drop_last() =~= events@.take(i as int));
        }
        match step(capability, stage, events[i]) {
            Some((after, _)) => {
                stage = after;
            },
            None => {
                proof {
                    not_admitted_stays(capability, Stage::Allocating, events@, i + 1);
                }
                return None;
            },
        }
        i += 1;
    }
    proof {
        assert(events@.take(i as int) =~= events@);
    }
    Some(stage)
}

/// Once a prefix of `events` is not admitted, neither is the whole.
proof fn not_admitted_stays(capability: Capability, stage: Stage, events: Seq<Event>, n: int)
    requires
        0 <= n <= events.len(),
        reached(capability, stage, events.take(n)).is_none(),
    ensures
        reached(capability, stage, events).is_none(),
    decreases events.len() - n,
{
    if n == events.len() {
        assert(events.take(n) =~= events);
    } else {
        assert(events.take(n + 1).drop_last() =~= events.take(n));
        not_admitted_stays(capability, stage, events, n + 1);
    }
}

/// A connector comes of every allocated socket, whatever the tuning request
/// returned; creation fails only where the socket was refused.
pub proof fn tuning_never_fails_creation(capability: Capability, allocated: bool, status: i32)
    ensures
        reached(capability, Stage::Allocating, creation_events(capability, allocated, status))
            == Some(if allocated {
            Stage::Unconnected
        } else {
            Stage::Failed
        }),
{
    let events = creation_events(capability, allocated, status);
    reveal_with_fuel(reached, 3);
    if events.len() == 1 {
        assert(events.drop_last() =~= Seq::<Event>::empty());
    } else {
        assert(events.drop_last() =~= seq![Event::SocketCreated]);
        assert(events.drop_last().drop_last() =~= Seq::<Event>::empty());
    }
}

/// A whole life ends in a connected stream where the socket was allocated
/// and the handshake succeeded, and in failure otherwise: neither the
/// platform's capability nor the answer to the tuning request shows in it.
pub proof fn life_depends_on_reachability_alone(
    capability: Capability,
    allocated: bool,
    status: i32,
    handshake: bool,
)
    ensures
        reached(
            capability,
            Stage::Allocating,
            life_events(capability, allocated, status, handshake),
        ) == Some(if allocated && handshake {
            Stage::Connected
        } else {
            Stage::Failed
        }),
{
    tuning_never_fails_creation(capability, allocated, status);
    if allocated {
        let created = creation_events(capability, allocated, status);
        let events = life_events(capability, allocated, status, handshake);
        assert(events.drop_last() =~= created);
    }
}

/// With and without the tuning capability a life ends in the same stage,
/// whatever the tuning request returned on the platform that made it.
pub proof fn capability_is_unobservable(
    allocated: bool,
    handshake: bool,
    status: i32,
    other_status: i32,
)
    ensures
        reached(
            Capability::SegmentSizeOption,
            Stage::Allocating,
            life_events(Capability::SegmentSizeOption, allocated, status, handshake),
        ) == reached(
            Capability::Absent,
            Stage::Allocating,
            life_events(Capability::Absent, allocated, other_status, handshake),
        ),
{
    life_depends_on_reachability_alone(
        Capability::SegmentSizeOption,
        allocated,
        status,
        handshake,
    );
    life_depends_on_reachability_alone(Capability::Absent, allocated, other_status, handshake);
}

/// A connected or failed connection admits no further event: a connector
/// that was used to connect cannot be used again.
pub proof fn terminal_admits_nothing(
    capability: Capability,
    stage: Stage,
    events: Seq<Event>,
    event: Event,
)
    requires
        match reached(capability, stage, events) {
            Some(end) => end.is_terminal(),
            None => false,
        },
    ensures
        reached(capability, stage, events.push(event)).is_none(),
{
    assert(events.push(event).drop_last() =~= events);
}

} // verus!
