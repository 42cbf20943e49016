use fh6_tel::float_order::MINUS_ONE;
use fh6_tel::parser::{parse, TelemetryPacket};
use fh6_tel::recorder::{event_window, plan_transition, record_tick, StoreCommand, TickRecord, CLOSE_GRACE, START_PENDING};
use fh6_tel::session::SessionManager;

fn packet(car_ordinal: i32, race_time: f32, best_lap: f32) -> TelemetryPacket {
    let mut buf = vec![0u8; 311];
    buf[0..4].copy_from_slice(&1i32.to_le_bytes());
    buf[212..216].copy_from_slice(&car_ordinal.to_le_bytes());
    buf[216..220].copy_from_slice(&4i32.to_le_bytes());
    buf[220..224].copy_from_slice(&850i32.to_le_bytes());
    buf[284..288].copy_from_slice(&best_lap.to_le_bytes());
    buf[296..300].copy_from_slice(&race_time.to_le_bytes());
    buf[302] = 1;
    parse(&buf).unwrap()
}

#[test]
fn in_event_packet_resets_the_grace_count() {
    assert_eq!(event_window(77, true, 3), (0, true));
    assert_eq!(event_window(u32::MAX, true, 1), (0, true));
}

#[test]
fn race_on_without_position_is_not_in_event() {
    assert_eq!(event_window(0, true, 0), (1, true));
    assert_eq!(event_window(0, false, 5), (1, true));
}

#[test]
fn pause_shorter_than_grace_keeps_the_event() {
    assert_eq!(CLOSE_GRACE, 150);
    let mut pending = 0u32;
    for k in 1..=200u32 {
        let (p, in_event) = event_window(pending, false, 0);
        assert_eq!(p, k);
        assert_eq!(in_event, k < 150, "quiet packet {k}");
        pending = p;
    }
    assert_eq!(event_window(u32::MAX, false, 0), (u32::MAX, false));
}

#[test]
fn start_of_event_opens_a_session() {
    let mut sm = SessionManager::new(true);
    let pkt = packet(123, 0.5, 0.0);
    let cmd = plan_transition(&mut sm, false, true, &pkt, 1_000);
    assert_eq!(
        cmd,
        StoreCommand::Open { started_at_ms: 1_000, car_ordinal: 123, car_class: 4, car_pi: 850 }
    );
    assert_eq!(sm.active_session_id(), None);
    sm.set_active_id(Some(17));
    assert_eq!(plan_transition(&mut sm, true, true, &pkt, 1_010), StoreCommand::Nothing);
}

#[test]
fn end_of_event_closes_and_clears() {
    let mut sm = SessionManager::new(true);
    sm.set_active_id(Some(17));
    let first = packet(123, 30.0, 71.25);
    assert_eq!(record_tick(&mut sm, &first), Some(TickRecord { session_id: 17, fill_car: true }));
    let last = packet(0, 95.0, 0.0);
    assert_eq!(record_tick(&mut sm, &last), Some(TickRecord { session_id: 17, fill_car: false }));
    let cmd = plan_transition(&mut sm, true, false, &last, 9_000);
    assert_eq!(cmd, StoreCommand::Close { id: 17, ended_at_ms: 9_000, best_lap: 71.25f32.to_bits() });
    assert_eq!(sm.active_session_id(), None);
    assert_eq!(record_tick(&mut sm, &last), None);
    // Restarting behind the peak race time soon after is a rewind.
    let resumed = packet(123, 40.0, 0.0);
    assert_eq!(plan_transition(&mut sm, false, true, &resumed, 12_000), StoreCommand::Reopen { id: 17 });
    // ... and only once.
    assert!(matches!(plan_transition(&mut sm, false, true, &resumed, 12_100), StoreCommand::Open { .. }));
}

#[test]
fn close_without_laps_sends_minus_one() {
    let mut sm = SessionManager::new(true);
    sm.set_active_id(Some(2));
    let pkt = packet(5, 3.0, 0.0);
    record_tick(&mut sm, &pkt);
    assert_eq!(
        plan_transition(&mut sm, true, false, &pkt, 500),
        StoreCommand::Close { id: 2, ended_at_ms: 500, best_lap: MINUS_ONE }
    );
}

#[test]
fn idle_packets_before_the_first_event_open_nothing() {
    let mut sm = SessionManager::new(true);
    let idle = packet(7, 0.0, 0.0);
    let mut pending = START_PENDING;
    let mut prev_in_event = false;
    for _ in 0..300 {
        let (p, in_event) = event_window(pending, false, 0);
        assert!(!in_event);
        assert_eq!(plan_transition(&mut sm, prev_in_event, in_event, &idle, 10), StoreCommand::Nothing);
        pending = p;
        prev_in_event = in_event;
    }
    // The first in-event packet raises the flag and opens a session.
    let (p, in_event) = event_window(pending, true, 2);
    assert_eq!((p, in_event), (0, true));
    assert!(matches!(plan_transition(&mut sm, prev_in_event, in_event, &idle, 20), StoreCommand::Open { .. }));
}
