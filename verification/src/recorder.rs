//! The decisions the live UDP loop takes for each packet: whether the car is
//! in an event (with a grace period so the pause menu does not split a run),
//! what to tell the session store on a change, and what to record.
//!
//! The loop itself (socket, clock, store, event emission) performs what these
//! functions return and feeds the outcome back to the [`SessionManager`].
use crate::parser::TelemetryPacket;
use crate::float_order::MINUS_ONE;
use crate::session::{SessionAction, SessionManager, SessionModel};
use vstd::prelude::*;

verus! {

/// Grace period, in packets, before an event is considered over. At about 30
/// packets a second, 150 is about five seconds of tolerance.
pub const CLOSE_GRACE: u32 = 150;

/// One step of the in-event debounce: the new count of consecutive packets
/// outside an event, and whether the car counts as in an event.
pub open spec fn window_step(close_pending: u32, raw_in_event: bool) -> (u32, bool) {
    let pending: u32 = if raw_in_event {
        0
    } else if close_pending == u32::MAX {
        u32::MAX
    } else {
        (close_pending + 1) as u32
    };
    (pending, raw_in_event || pending < CLOSE_GRACE)
}

/// Folds one packet into the debounce: a packet is raw in-event when the race
/// is on and the car has a race position; otherwise the pending count grows
/// (saturating), and the event lasts while it stays under [`CLOSE_GRACE`].
pub fn event_window(close_pending: u32, is_race_on: bool, race_position: u8) -> (r: (u32, bool))
    ensures
        r == window_step(close_pending, is_race_on && race_position > 0),
{
    let raw_in_event = is_race_on && race_position > 0;
    let pending = if raw_in_event {
        0
    } else {
        close_pending.saturating_add(1)
    };
    let in_event = raw_in_event || pending < CLOSE_GRACE;
    (pending, in_event)
}

/// The pending count to start the loop with: as if the grace period had
/// already run out, so the car is not in an event before its first in-event
/// packet and no session opens on idle packets.
pub const START_PENDING: u32 = CLOSE_GRACE;

/// Whether a packet is raw in-event: the race is on and the car has a race
/// position.
pub open spec fn raw_in_event(pkt: TelemetryPacket) -> bool {
    pkt.is_race_on && pkt.race_position > 0
}

/// The pending count after the packets whose raw in-event flags are `raws`,
/// counted from [`START_PENDING`].
pub open spec fn pending_after(raws: Seq<bool>) -> u32
    decreases raws.len(),
{
    if raws.len() == 0 {
        START_PENDING
    } else {
        window_step(pending_after(raws.drop_last()), raws.last()).0
    }
}

/// Whether the car counts as in an event after the packets `raws`; before any
/// packet it does not.
pub open spec fn in_event_after(raws: Seq<bool>) -> bool {
    if raws.len() == 0 {
        false
    } else {
        window_step(pending_after(raws.drop_last()), raws.last()).1
    }
}

/// The number of packets at the end of `raws` that are not raw in-event.
pub open spec fn quiet_tail(raws: Seq<bool>) -> nat
    decreases raws.len(),
{
    if raws.len() == 0 || raws.last() {
        0
    } else {
        quiet_tail(raws.drop_last()) + 1
    }
}

/// Whether some packet of `raws` was raw in-event.
pub open spec fn any_event(raws: Seq<bool>) -> bool {
    exists|i: int| 0 <= i < raws.len() && #[trigger] raws[i]
}

proof fn lemma_pending_after(raws: Seq<bool>)
    ensures
        pending_after(raws) == (if any_event(raws) {
            if quiet_tail(raws) <= u32::MAX { quiet_tail(raws) } else { u32::MAX as nat }
        } else {
            if CLOSE_GRACE + quiet_tail(raws) <= u32::MAX {
                (CLOSE_GRACE + quiet_tail(raws)) as nat
            } else {
                u32::MAX as nat
            }
        }),
    decreases raws.len(),
{
    if raws.len() > 0 {
        let prev = raws.drop_last();
        lemma_pending_after(prev);
        assert forall|i: int| 0 <= i < prev.len() implies prev[i] == raws[i] by {}
        if raws.last() {
            assert(raws[raws.len() - 1]);
        } else {
            if any_event(raws) {
                let i = choose|i: int| 0 <= i < raws.len() && #[trigger] raws[i];
                assert(prev[i]);
            }
            if any_event(prev) {
                let i = choose|i: int| 0 <= i < prev.len() && #[trigger] prev[i];
                assert(raws[i]);
            }
        }
    }
}

/// The in-event flag over a run of packets, from the start of the loop: it is
/// raised by a raw in-event packet, and then held while fewer than
/// [`CLOSE_GRACE`] packets in a row are outside an event. The pending count
/// is exactly that run of quiet packets (capped), plus [`CLOSE_GRACE`] before
/// the first in-event packet. So the flag only ever rises at a raw in-event
/// packet, and it stays down until the first one.
pub proof fn lemma_event_flag_over_run(raws: Seq<bool>)
    requires
        raws.len() >= 1,
    ensures
        in_event_after(raws) <==> raws.last() || (in_event_after(raws.drop_last()) && quiet_tail(
            raws,
        ) < CLOSE_GRACE),
        in_event_after(raws) && !in_event_after(raws.drop_last()) ==> raws.last(),
        !any_event(raws) ==> !in_event_after(raws),
        pending_after(raws) == (if any_event(raws) {
            if quiet_tail(raws) <= u32::MAX { quiet_tail(raws) } else { u32::MAX as nat }
        } else {
            if CLOSE_GRACE + quiet_tail(raws) <= u32::MAX {
                (CLOSE_GRACE + quiet_tail(raws)) as nat
            } else {
                u32::MAX as nat
            }
        }),
{
    let prev = raws.drop_last();
    lemma_pending_after(raws);
    lemma_pending_after(prev);
    assert forall|i: int| 0 <= i < prev.len() implies prev[i] == raws[i] by {}
    if !raws.last() {
        if any_event(raws) {
            let i = choose|i: int| 0 <= i < raws.len() && #[trigger] raws[i];
            assert(prev[i]);
        }
        if any_event(prev) {
            let i = choose|i: int| 0 <= i < prev.len() && #[trigger] prev[i];
            assert(raws[i]);
        }
    } else {
        assert(raws[raws.len() - 1]);
    }
}

/// The pending count after `k` consecutive packets outside an event, counted
/// from an in-event packet.
pub open spec fn pending_after_quiet(k: nat) -> u32
    decreases k,
{
    if k == 0 {
        0
    } else {
        window_step(pending_after_quiet((k - 1) as nat), false).0
    }
}

/// A pause shorter than the grace period never ends an event: after an
/// in-event packet, the `k`-th consecutive packet outside an event still
/// counts as in the event exactly when `k` is below [`CLOSE_GRACE`].
pub proof fn lemma_grace_period(k: nat)
    requires
        k >= 1,
    ensures
        window_step(pending_after_quiet((k - 1) as nat), false).1 <==> k < CLOSE_GRACE,
{
    lemma_quiet_count((k - 1) as nat);
}

/// The pending count after `k` quiet packets is `k`, capped at `u32::MAX`.
pub proof fn lemma_quiet_count(k: nat)
    ensures
        pending_after_quiet(k) == (if k <= u32::MAX { k } else { u32::MAX as nat }),
    decreases k,
{
    if k > 0 {
        lemma_quiet_count((k - 1) as nat);
    }
}

/// What the session store must do for this packet.
#[derive(Debug, Clone, Copy, PartialEq, Eq)]
pub enum StoreCommand {
    /// Clear the end time of session `id`; when that succeeds, it becomes the
    /// active session again.
    Reopen { id: i64 },
    /// Insert a session started at `started_at_ms`; when that succeeds, its
    /// row id becomes the active session.
    Open { started_at_ms: u64, car_ordinal: i32, car_class: i32, car_pi: i32 },
    /// Store the end time and the best lap (bits; `-1.0` for none) of session `id`.
    Close { id: i64, ended_at_ms: u64, best_lap: u32 },
    /// Nothing to change.
    Nothing,
}

/// The store command for a change of the in-event flag, and the manager's
/// state once it is issued.
pub open spec fn transition_plan(
    m: SessionModel,
    prev_in_event: bool,
    in_event: bool,
    pkt: TelemetryPacket,
    now_ms: u64,
) -> (SessionModel, StoreCommand) {
    match m.race_on_action(prev_in_event, in_event, pkt.car_ordinal, pkt.car_class, pkt.car_pi) {
        SessionAction::Open { car_ordinal, car_class, car_pi } => (
            m.after_reopen_check(pkt.current_race_time, now_ms),
            match m.reopen_target(pkt.current_race_time, now_ms) {
                Some(id) => StoreCommand::Reopen { id },
                None => StoreCommand::Open { started_at_ms: now_ms, car_ordinal, car_class, car_pi },
            },
        ),
        SessionAction::Close => (
            m.after_close(now_ms).with_active_id(None),
            StoreCommand::Close {
                id: m.active_id->0,
                ended_at_ms: now_ms,
                best_lap: m.best_for_close(),
            },
        ),
        SessionAction::NoChange => (m, StoreCommand::Nothing),
    }
}

/// Applies the event transition from `prev_in_event` to `in_event` for a
/// packet arriving at wall time `now_ms`. A new event that looks like a rewind
/// of the session closed just before reopens that session; any other new
/// event opens a session; the end of an event closes the active one, which is
/// cleared at once.
pub fn plan_transition(
    sm: &mut SessionManager,
    prev_in_event: bool,
    in_event: bool,
    pkt: &TelemetryPacket,
    now_ms: u64,
) -> (r: StoreCommand)
    ensures
        (final(sm)@, r) == transition_plan(old(sm)@, prev_in_event, in_event, *pkt, now_ms),
        old(sm)@.wf() ==> final(sm)@.wf(),
{
    let action = sm.on_race_on_change(
        prev_in_event,
        in_event,
        pkt.car_ordinal,
        pkt.car_class,
        pkt.car_pi,
    );
    match action {
        SessionAction::Open { car_ordinal, car_class, car_pi } => {
            match sm.check_reopen(pkt.current_race_time, now_ms) {
                Some(id) => StoreCommand::Reopen { id },
                None => StoreCommand::Open { started_at_ms: now_ms, car_ordinal, car_class, car_pi },
            }
        },
        SessionAction::Close => {
            let mut cmd = StoreCommand::Nothing;
            if let Some(id) = sm.active_session_id() {
                let best_lap = sm.best_for_close();
                sm.note_close(now_ms);
                cmd = StoreCommand::Close { id, ended_at_ms: now_ms, best_lap };
            }
            sm.set_active_id(None);
            cmd
        },
        SessionAction::NoChange => StoreCommand::Nothing,
    }
}

/// What a transition asks of the store. An unchanged flag asks nothing and
/// changes nothing. The start of an event with auto-record on asks to reopen
/// the session closed just before when the stream is a rewind of it, and
/// otherwise to open a session at `now_ms` for the packet's car. The end of an
/// event with a session active asks to close that session at `now_ms` with its
/// best lap to persist, and leaves no session active, the closed one stashed
/// for a rewind and no best lap.
pub proof fn lemma_transition_requests(
    m: SessionModel,
    prev_in_event: bool,
    in_event: bool,
    pkt: TelemetryPacket,
    now_ms: u64,
)
    ensures
        prev_in_event == in_event ==> transition_plan(m, prev_in_event, in_event, pkt, now_ms) == (
        m, StoreCommand::Nothing),
        !prev_in_event && in_event && m.auto_record && m.reopen_target(pkt.current_race_time, now_ms)
            is None ==> transition_plan(m, prev_in_event, in_event, pkt, now_ms) == (m, (
        StoreCommand::Open {
            started_at_ms: now_ms,
            car_ordinal: pkt.car_ordinal,
            car_class: pkt.car_class,
            car_pi: pkt.car_pi,
        })),
        !prev_in_event && in_event && m.auto_record && m.reopen_target(pkt.current_race_time, now_ms)
            is Some ==> transition_plan(m, prev_in_event, in_event, pkt, now_ms).1 == (
        StoreCommand::Reopen { id: m.closed_id->0 }) && transition_plan(
            m,
            prev_in_event,
            in_event,
            pkt,
            now_ms,
        ).0.closed_id is None,
        !prev_in_event && in_event && !m.auto_record ==> transition_plan(
            m,
            prev_in_event,
            in_event,
            pkt,
            now_ms,
        ) == (m, StoreCommand::Nothing),
        prev_in_event && !in_event && m.active_id is Some ==> {
            let (after, cmd) = transition_plan(m, prev_in_event, in_event, pkt, now_ms);
            &&& cmd == (StoreCommand::Close {
                id: m.active_id->0,
                ended_at_ms: now_ms,
                best_lap: m.best_for_close(),
            })
            &&& after.active_id is None
            &&& after.closed_id == m.active_id
            &&& after.closed_wall_ms == now_ms
            &&& after.last_race_time_at_close == m.peak_race_time
            &&& after.best_for_close() == MINUS_ONE
        },
        prev_in_event && !in_event && m.active_id is None ==> transition_plan(
            m,
            prev_in_event,
            in_event,
            pkt,
            now_ms,
        ) == (m, StoreCommand::Nothing),
{
}

/// What to write for a packet that arrives while a session is active.
#[derive(Debug, Clone, Copy, PartialEq, Eq)]
pub struct TickRecord {
    /// The session the raw packet belongs to.
    pub session_id: i64,
    /// Whether to fill in the session's car, still unknown, from this packet.
    pub fill_car: bool,
}

/// Folds a packet into the active session: its best lap and race time are
/// noted, and the record names the session to store the raw packet under.
/// Without an active session nothing changes.
pub fn record_tick(sm: &mut SessionManager, pkt: &TelemetryPacket) -> (r: Option<TickRecord>)
    ensures
        old(sm)@.active_id is None ==> r is None && final(sm)@ == old(sm)@,
        old(sm)@.active_id is Some ==> {
            &&& r == Some(
                TickRecord { session_id: old(sm)@.active_id->0, fill_car: pkt.car_ordinal != 0 },
            )
            &&& final(sm)@ == old(sm)@.with_lap_offered(pkt.best_lap).with_race_time(
                pkt.current_race_time,
            )
        },
        old(sm)@.wf() ==> final(sm)@.wf(),
{
    match sm.active_session_id() {
        Some(session_id) => {
            sm.update_best_lap(pkt.best_lap);
            sm.update_race_time(pkt.current_race_time);
            Some(TickRecord { session_id, fill_car: pkt.car_ordinal != 0 })
        },
        None => None,
    }
}

} // verus!
