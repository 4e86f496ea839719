use tunnel_config_socket::lifecycle::{replay, step, Action, Event, Stage};
use tunnel_config_socket::tuning::{Capability, TuneOutcome};

fn all_events() -> Vec<Event> {
    vec![
        Event::SocketCreated,
        Event::SocketRefused,
        Event::OptionReturned { status: 0 },
        Event::OptionReturned { status: -1 },
        Event::HandshakeDone,
        Event::HandshakeFailed,
    ]
}

#[test]
fn created_socket_is_tuned_where_possible() {
    assert_eq!(
        step(Capability::SegmentSizeOption, Stage::Allocating, Event::SocketCreated),
        Some((Stage::Tuning { mss: 496 }, Action::SetMaxSegment { mss: 496 }))
    );
}

#[test]
fn created_socket_is_handed_out_untuned_elsewhere() {
    assert_eq!(
        step(Capability::Absent, Stage::Allocating, Event::SocketCreated),
        Some((
            Stage::Unconnected,
            Action::YieldConnector { tuning: TuneOutcome::Skipped }
        ))
    );
}

#[test]
fn refused_socket_fails_creation() {
    assert_eq!(
        step(Capability::SegmentSizeOption, Stage::Allocating, Event::SocketRefused),
        Some((Stage::Failed, Action::SurfaceError))
    );
    assert_eq!(
        step(Capability::Absent, Stage::Allocating, Event::SocketRefused),
        Some((Stage::Failed, Action::SurfaceError))
    );
}

#[test]
fn tuning_success_yields_connector() {
    assert_eq!(
        step(
            Capability::SegmentSizeOption,
            Stage::Tuning { mss: 496 },
            Event::OptionReturned { status: 0 }
        ),
        Some((
            Stage::Unconnected,
            Action::YieldConnector { tuning: TuneOutcome::Applied { mss: 496 } }
        ))
    );
}

#[test]
fn tuning_failure_still_yields_connector() {
    assert_eq!(
        step(
            Capability::SegmentSizeOption,
            Stage::Tuning { mss: 496 },
            Event::OptionReturned { status: -1 }
        ),
        Some((
            Stage::Unconnected,
            Action::YieldConnector { tuning: TuneOutcome::Failed { mss: 496, status: -1 } }
        ))
    );
    let events: Vec<Event> = vec![Event::SocketCreated, Event::OptionReturned { status: -1 }];
    assert_eq!(
        replay(Capability::SegmentSizeOption, &events),
        Some(Stage::Unconnected)
    );
}

#[test]
fn handshake_decides_the_end() {
    assert_eq!(
        step(Capability::Absent, Stage::Unconnected, Event::HandshakeDone),
        Some((Stage::Connected, Action::YieldStream))
    );
    assert_eq!(
        step(Capability::Absent, Stage::Unconnected, Event::HandshakeFailed),
        Some((Stage::Failed, Action::SurfaceError))
    );
}

#[test]
fn terminal_stages_admit_nothing() {
    for event in all_events() {
        assert_eq!(step(Capability::SegmentSizeOption, Stage::Connected, event), None);
        assert_eq!(step(Capability::SegmentSizeOption, Stage::Failed, event), None);
        assert_eq!(step(Capability::Absent, Stage::Connected, event), None);
        assert_eq!(step(Capability::Absent, Stage::Failed, event), None);
    }
}

#[test]
fn connector_connects_once() {
    let twice: Vec<Event> = vec![
        Event::SocketCreated,
        Event::HandshakeDone,
        Event::HandshakeDone,
    ];
    assert_eq!(replay(Capability::Absent, &twice), None);
    let after_refusal: Vec<Event> = vec![
        Event::SocketCreated,
        Event::OptionReturned { status: 0 },
        Event::HandshakeFailed,
        Event::HandshakeDone,
    ];
    assert_eq!(replay(Capability::SegmentSizeOption, &after_refusal), None);
}

#[test]
fn events_out_of_turn_are_not_admitted() {
    assert_eq!(
        step(Capability::SegmentSizeOption, Stage::Allocating, Event::HandshakeDone),
        None
    );
    assert_eq!(
        step(
            Capability::SegmentSizeOption,
            Stage::Allocating,
            Event::OptionReturned { status: 0 }
        ),
        None
    );
    assert_eq!(
        step(Capability::SegmentSizeOption, Stage::Tuning { mss: 496 }, Event::HandshakeDone),
        None
    );
    assert_eq!(
        step(Capability::SegmentSizeOption, Stage::Unconnected, Event::SocketCreated),
        None
    );
    let skipped_tuning: Vec<Event> = vec![Event::SocketCreated, Event::HandshakeDone];
    assert_eq!(replay(Capability::SegmentSizeOption, &skipped_tuning), None);
}

#[test]
fn replay_of_nothing_is_the_start() {
    let none: Vec<Event> = Vec::new();
    assert_eq!(replay(Capability::Absent, &none), Some(Stage::Allocating));
}

#[test]
fn both_platforms_end_alike() {
    let statuses: Vec<i32> = vec![0, -1, 9, i32::MAX];
    for status in statuses {
        for handshake in [Event::HandshakeDone, Event::HandshakeFailed] {
            let tuned: Vec<Event> =
                vec![Event::SocketCreated, Event::OptionReturned { status }, handshake];
            let plain: Vec<Event> = vec![Event::SocketCreated, handshake];
            let end = replay(Capability::SegmentSizeOption, &tuned);
            assert_eq!(end, replay(Capability::Absent, &plain));
            let expected = if handshake == Event::HandshakeDone {
                Stage::Connected
            } else {
                Stage::Failed
            };
            assert_eq!(end, Some(expected));
        }
    }
    let refused: Vec<Event> = vec![Event::SocketRefused];
    assert_eq!(
        replay(Capability::SegmentSizeOption, &refused),
        replay(Capability::Absent, &refused)
    );
    assert_eq!(replay(Capability::Absent, &refused), Some(Stage::Failed));
}
