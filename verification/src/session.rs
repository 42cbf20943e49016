//! The session-recording state machine: when to open and close a recorded
//! session, which laps completed, and whether a new stream is a rewind of the
//! session that just closed.
//!
//! Every time value (lap times, race time) is the bit pattern of an `f32`
//! number of seconds; see [`crate::float_order`].
use crate::float_order::{equals, f32_eq, f32_lt, is_nan, less_than, MAX, MINUS_ONE, ONE, FIVE, ZERO};
use vstd::prelude::*;

verus! {

/// Grace window: a new stream starting within this many ms of the last close,
/// with race time that went backwards, is treated as a rewind of the same session.
pub const REWIND_WINDOW_MS: u64 = 30_000;

/// Rewinds to the very start are indistinguishable from a new race; only race
/// times above this many seconds (bits of `5.0`) count as rewind candidates.
pub const REWIND_MIN_RACE_TIME: u32 = FIVE;

/// What the recorder should do after the in-event flag changed.
#[derive(Debug, Clone, Copy, PartialEq, Eq)]
pub enum SessionAction {
    Open { car_ordinal: i32, car_class: i32, car_pi: i32 },
    Close,
    /// Nothing to open or close.
    NoChange,
}

/// A lap that just finished and should be persisted.
#[derive(Debug, Clone, Copy, PartialEq, Eq)]
pub struct CompletedLap {
    pub lap_number: i64,
    /// Bits of the lap time in seconds.
    pub lap_time: u32,
}

/// The state of a [`SessionManager`], field by field.
pub struct SessionModel {
    pub auto_record: bool,
    pub active_id: Option<i64>,
    pub best_lap: u32,
    pub last_race_time: u32,
    pub peak_race_time: u32,
    pub seen_lap: Option<u16>,
    pub last_current_lap: u32,
    pub closed_id: Option<i64>,
    pub closed_wall_ms: u64,
    pub last_race_time_at_close: u32,
}

/// The best lap after `lap` is offered: it replaces `best` when it is positive
/// and faster.
pub open spec fn improved_best(best: u32, lap: u32) -> u32 {
    if f32_lt(ZERO, lap) && f32_lt(lap, best) {
        lap
    } else {
        best
    }
}

impl SessionModel {
    /// What every reachable state keeps: the best lap is a positive number no
    /// larger than `f32::MAX` (which it is until a lap is seen), and the peak
    /// race time and its copy taken at close are numbers that never went below
    /// zero.
    pub open spec fn wf(self) -> bool {
        &&& f32_lt(ZERO, self.best_lap) && !f32_lt(MAX, self.best_lap)
        &&& !is_nan(self.peak_race_time) && !f32_lt(self.peak_race_time, ZERO)
        &&& !is_nan(self.last_race_time_at_close) && !f32_lt(self.last_race_time_at_close, ZERO)
    }

    /// A fresh manager.
    pub open spec fn initial(auto_record: bool) -> SessionModel {
        SessionModel {
            auto_record,
            active_id: None,
            best_lap: MAX,
            last_race_time: ZERO,
            peak_race_time: ZERO,
            seen_lap: None,
            last_current_lap: ZERO,
            closed_id: None,
            closed_wall_ms: 0,
            last_race_time_at_close: ZERO,
        }
    }

    /// The state after the active session id is set to `id`; clearing it also
    /// forgets the session's laps and its peak race time.
    pub open spec fn with_active_id(self, id: Option<i64>) -> SessionModel {
        if id is None {
            SessionModel {
                active_id: id,
                best_lap: MAX,
                seen_lap: None,
                last_current_lap: ZERO,
                peak_race_time: ZERO,
                ..self
            }
        } else {
            SessionModel { active_id: id, ..self }
        }
    }

    /// The state after `lap` is offered as a best lap.
    pub open spec fn with_lap_offered(self, lap: u32) -> SessionModel {
        SessionModel { best_lap: improved_best(self.best_lap, lap), ..self }
    }

    /// The best lap to persist on close: `-1.0` when no lap was recorded.
    pub open spec fn best_for_close(self) -> u32 {
        if f32_eq(self.best_lap, MAX) {
            MINUS_ONE
        } else {
            self.best_lap
        }
    }

    /// The lap completed by a tick: the previously seen lap, when the lap
    /// counter went up and the game reports a positive last-lap time.
    pub open spec fn tick_completion(self, lap_number: u16, last_lap: u32) -> Option<CompletedLap> {
        if self.seen_lap is Some && lap_number > self.seen_lap->0 && f32_lt(ZERO, last_lap) {
            Some(CompletedLap { lap_number: self.seen_lap->0 as i64, lap_time: last_lap })
        } else {
            None
        }
    }

    /// The state after a tick: a positive current-lap time is remembered, a
    /// completed lap is offered as the best, and the lap counter is resynced.
    pub open spec fn after_tick(self, lap_number: u16, current_lap: u32, last_lap: u32) -> SessionModel {
        SessionModel {
            last_current_lap: if f32_lt(ZERO, current_lap) {
                current_lap
            } else {
                self.last_current_lap
            },
            best_lap: if self.tick_completion(lap_number, last_lap) is Some {
                improved_best(self.best_lap, last_lap)
            } else {
                self.best_lap
            },
            seen_lap: Some(lap_number),
            ..self
        }
    }

    /// The in-progress lap at close, when more than a second of it was driven.
    pub open spec fn final_lap(self) -> Option<CompletedLap> {
        if f32_lt(ONE, self.last_current_lap) {
            Some(
                CompletedLap {
                    lap_number: if self.seen_lap is Some {
                        self.seen_lap->0 as i64
                    } else {
                        0
                    },
                    lap_time: self.last_current_lap,
                },
            )
        } else {
            None
        }
    }

    /// The state after the final lap is taken: it is consumed and folded into
    /// the best lap.
    pub open spec fn after_final_lap(self) -> SessionModel {
        SessionModel {
            last_current_lap: ZERO,
            best_lap: if self.final_lap() is Some {
                improved_best(self.best_lap, self.last_current_lap)
            } else {
                self.best_lap
            },
            ..self
        }
    }

    /// The state after the race time `t` is seen: it is the latest, and the
    /// peak if it is above the previous peak.
    pub open spec fn with_race_time(self, t: u32) -> SessionModel {
        SessionModel {
            last_race_time: t,
            peak_race_time: if f32_lt(self.peak_race_time, t) {
                t
            } else {
                self.peak_race_time
            },
            ..self
        }
    }

    /// The state after a close at wall time `wall_ms`: the active id, the close
    /// time and the peak race time are stashed for rewind detection.
    pub open spec fn after_close(self, wall_ms: u64) -> SessionModel {
        SessionModel {
            closed_id: self.active_id,
            closed_wall_ms: wall_ms,
            last_race_time_at_close: self.peak_race_time,
            ..self
        }
    }

    /// Whether a stream at race time `t`, starting at wall time `now_ms`, is a
    /// rewind: within the window after the close, past the first five seconds,
    /// and behind the race time reached before the close.
    pub open spec fn is_rewind(self, t: u32, now_ms: u64) -> bool {
        &&& (if now_ms >= self.closed_wall_ms {
            now_ms - self.closed_wall_ms
        } else {
            0
        }) < REWIND_WINDOW_MS
        &&& f32_lt(REWIND_MIN_RACE_TIME, t)
        &&& f32_lt(t, self.last_race_time_at_close)
    }

    /// The session to reopen for a stream at race time `t` at wall time `now_ms`.
    pub open spec fn reopen_target(self, t: u32, now_ms: u64) -> Option<i64> {
        if self.closed_id is Some && self.is_rewind(t, now_ms) {
            self.closed_id
        } else {
            None
        }
    }

    /// The state after a reopen check: a reopened session is consumed.
    pub open spec fn after_reopen_check(self, t: u32, now_ms: u64) -> SessionModel {
        if self.reopen_target(t, now_ms) is Some {
            SessionModel { closed_id: None, ..self }
        } else {
            self
        }
    }

    /// The action for a change of the in-event flag from `was_racing` to `is_racing`.
    pub open spec fn race_on_action(
        self,
        was_racing: bool,
        is_racing: bool,
        car_ordinal: i32,
        car_class: i32,
        car_pi: i32,
    ) -> SessionAction {
        if !was_racing && is_racing && self.auto_record {
            SessionAction::Open { car_ordinal, car_class, car_pi }
        } else if was_racing && !is_racing && self.active_id is Some {
            SessionAction::Close
        } else {
            SessionAction::NoChange
        }
    }
}

/// The best lap never gets worse: offering a lap keeps the best or lowers it.
pub proof fn lemma_best_lap_never_worsens(m: SessionModel, lap: u32)
    ensures
        m.with_lap_offered(lap).best_lap == m.best_lap
            || f32_lt(m.with_lap_offered(lap).best_lap, m.best_lap),
{
}

/// A completed lap is never faster than the best lap noted after the tick.
pub proof fn lemma_completed_lap_bounds_best(
    m: SessionModel,
    lap_number: u16,
    current_lap: u32,
    last_lap: u32,
)
    ensures
        m.tick_completion(lap_number, last_lap) matches Some(done) ==> !f32_lt(
            done.lap_time,
            m.after_tick(lap_number, current_lap, last_lap).best_lap,
        ),
{
}

/// The in-progress lap is handed out once: after it is taken there is none.
pub proof fn lemma_final_lap_taken_once(m: SessionModel)
    ensures
        m.after_final_lap().final_lap() is None,
{
}

/// A reopen fires once: after a check that reopened a session, no later check
/// reopens anything until the next close.
pub proof fn lemma_reopen_fires_once(m: SessionModel, t1: u32, now1: u64, t2: u32, now2: u64)
    ensures
        m.reopen_target(t1, now1) is Some ==> m.after_reopen_check(t1, now1).reopen_target(
            t2,
            now2,
        ) is None,
{
}

/// A rewind resumes the session it left: when an active session closes at
/// `close_ms` and is cleared, a stream that starts less than
/// [`REWIND_WINDOW_MS`] later, past five seconds of race time and behind the
/// peak race time the session reached, reopens that same session.
pub proof fn lemma_rewind_reopens_closed_session(
    m: SessionModel,
    close_ms: u64,
    t: u32,
    now_ms: u64,
)
    requires
        m.active_id is Some,
        now_ms < close_ms + REWIND_WINDOW_MS,
        f32_lt(REWIND_MIN_RACE_TIME, t),
        f32_lt(t, m.peak_race_time),
    ensures
        m.after_close(close_ms).with_active_id(None).reopen_target(t, now_ms) == m.active_id,
{
}

/// A stream whose race time did not go backwards, or that starts within the
/// first five seconds, or too long after the close, reopens nothing.
pub proof fn lemma_no_reopen_without_rewind(m: SessionModel, t: u32, now_ms: u64)
    requires
        !f32_lt(t, m.last_race_time_at_close) || !f32_lt(REWIND_MIN_RACE_TIME, t) || (
        now_ms >= m.closed_wall_ms && now_ms - m.closed_wall_ms >= REWIND_WINDOW_MS),
    ensures
        m.reopen_target(t, now_ms) is None,
        m.after_reopen_check(t, now_ms) == m,
{
}

/// The peak race time never drops: a later, lower race time (a rewind
/// scrubbing back) leaves it where it was.
pub proof fn lemma_peak_never_drops(m: SessionModel, t: u32)
    ensures
        m.with_race_time(t).peak_race_time == m.peak_race_time || f32_lt(
            m.peak_race_time,
            m.with_race_time(t).peak_race_time,
        ),
        !f32_lt(m.peak_race_time, t) ==> m.with_race_time(t).peak_race_time == m.peak_race_time,
{
}

/// Clearing the active session forgets its laps: the best lap to persist is
/// then `-1.0`, "no lap recorded".
pub proof fn lemma_cleared_session_has_no_best(m: SessionModel)
    ensures
        m.with_active_id(None).best_for_close() == MINUS_ONE,
{
}

/// In every reachable state the best lap to persist is `-1.0` or a positive time.
pub proof fn lemma_best_for_close_is_marker_or_positive(m: SessionModel)
    requires
        m.wf(),
    ensures
        m.best_for_close() == MINUS_ONE || f32_lt(ZERO, m.best_for_close()),
{
}

/// Sessions open only on a start with auto-record on, and close only when one
/// is active; an unchanged flag never acts.
pub proof fn lemma_race_on_actions(
    m: SessionModel,
    was_racing: bool,
    is_racing: bool,
    car_ordinal: i32,
    car_class: i32,
    car_pi: i32,
)
    ensures
        m.race_on_action(was_racing, is_racing, car_ordinal, car_class, car_pi) is Open
            ==> !was_racing && is_racing && m.auto_record,
        m.race_on_action(was_racing, is_racing, car_ordinal, car_class, car_pi) is Close
            ==> was_racing && !is_racing && m.active_id is Some,
        was_racing == is_racing ==> m.race_on_action(
            was_racing,
            is_racing,
            car_ordinal,
            car_class,
            car_pi,
        ) is NoChange,
{
}

/// A lap completes exactly when the lap counter goes up past a lap already
/// seen and the game reports a positive last-lap time; the completed lap is
/// the one seen before, timed by that last-lap time. The first tick after a
/// clear, a repeated lap number or a lower one (a rewind) completes nothing.
/// Whatever the tick, the lap number it carries is the one seen next.
pub proof fn lemma_lap_completes_only_on_advance(
    m: SessionModel,
    lap_number: u16,
    current_lap: u32,
    last_lap: u32,
)
    ensures
        m.seen_lap is None ==> m.tick_completion(lap_number, last_lap) is None,
        m.seen_lap matches Some(n) && lap_number <= n ==> m.tick_completion(lap_number, last_lap) is None,
        !f32_lt(ZERO, last_lap) ==> m.tick_completion(lap_number, last_lap) is None,
        m.seen_lap is Some && lap_number > m.seen_lap->0 && f32_lt(ZERO, last_lap) ==> m.tick_completion(
            lap_number,
            last_lap,
        ) == Some(CompletedLap { lap_number: m.seen_lap->0 as i64, lap_time: last_lap }),
        m.after_tick(lap_number, current_lap, last_lap).seen_lap == Some(lap_number),
        m.with_active_id(None).tick_completion(lap_number, last_lap) is None,
        m.after_tick(lap_number, current_lap, last_lap).after_tick(lap_number, current_lap, last_lap)
            == m.after_tick(lap_number, current_lap, last_lap),
        m.after_tick(lap_number, current_lap, last_lap).tick_completion(lap_number, last_lap) is None,
{
}

/// The lap in progress is the one of the latest tick with a positive
/// current-lap time: such a tick replaces it, whatever it was before, and
/// taking the final lap right after hands out that time under the tick's lap
/// number (when it is more than a second). A tick without a positive time
/// leaves it as it was.
pub proof fn lemma_current_lap_is_latest(
    m: SessionModel,
    lap_number: u16,
    current_lap: u32,
    last_lap: u32,
)
    ensures
        f32_lt(ZERO, current_lap) ==> m.after_tick(lap_number, current_lap, last_lap).last_current_lap
            == current_lap,
        !f32_lt(ZERO, current_lap) ==> m.after_tick(lap_number, current_lap, last_lap).last_current_lap
            == m.last_current_lap,
        f32_lt(ONE, current_lap) ==> m.after_tick(lap_number, current_lap, last_lap).final_lap() == Some(
            CompletedLap { lap_number: lap_number as i64, lap_time: current_lap },
        ),
        f32_lt(ZERO, current_lap) && !f32_lt(ONE, current_lap) ==> m.after_tick(
            lap_number,
            current_lap,
            last_lap,
        ).final_lap() is None,
{
}

/// The final lap is handed out only when more than a second of it was driven
/// (sub-second residue is dropped), and then it is folded into the best lap.
pub proof fn lemma_final_lap_residue_and_best(m: SessionModel)
    ensures
        !f32_lt(ONE, m.last_current_lap) ==> m.final_lap() is None && m.after_final_lap().best_lap
            == m.best_lap,
        m.final_lap() matches Some(done) ==> done.lap_time == m.last_current_lap && !f32_lt(
            done.lap_time,
            m.after_final_lap().best_lap,
        ),
        m.after_final_lap().last_current_lap == ZERO,
        m.final_lap() is Some && m.seen_lap is Some ==> m.final_lap()->0.lap_number == m.seen_lap->0 as i64,
        m.final_lap() is Some && m.seen_lap is None ==> m.final_lap()->0.lap_number == 0,
        f32_lt(ONE, m.last_current_lap) ==> m.final_lap() is Some,
{
}

/// Offering a lap: a positive lap faster than the best becomes the best; any
/// other lap leaves the best as it was.
pub proof fn lemma_offered_lap_replaces_only_when_faster(m: SessionModel, lap: u32)
    ensures
        f32_lt(ZERO, lap) && f32_lt(lap, m.best_lap) ==> m.with_lap_offered(lap).best_lap == lap,
        !(f32_lt(ZERO, lap) && f32_lt(lap, m.best_lap)) ==> m.with_lap_offered(lap).best_lap
            == m.best_lap,
{
}

/// The best lap to persist: `-1.0` while the best is still `f32::MAX`, and
/// the best lap itself once it is a lap time.
pub proof fn lemma_best_for_close_values(m: SessionModel)
    ensures
        m.best_lap == MAX ==> m.best_for_close() == MINUS_ONE,
        is_lap_time(m.best_lap) ==> m.best_for_close() == m.best_lap,
{
}

/// A new stream that starts [`REWIND_WINDOW_MS`] or more after the close
/// reopens nothing, whatever its race time; and a close stashes exactly the
/// session that was active, the close time and the peak race time.
pub proof fn lemma_no_reopen_after_window(m: SessionModel, close_ms: u64, t: u32, now_ms: u64)
    ensures
        now_ms >= close_ms + REWIND_WINDOW_MS ==> m.after_close(close_ms).with_active_id(
            None,
        ).reopen_target(t, now_ms) is None,
        now_ms >= close_ms + REWIND_WINDOW_MS ==> m.after_close(close_ms).reopen_target(t, now_ms) is None,
        m.active_id is None ==> m.after_close(close_ms).reopen_target(t, now_ms) is None,
        m.after_close(close_ms).closed_wall_ms == close_ms,
        m.after_close(close_ms).closed_id == m.active_id,
        m.after_close(close_ms).last_race_time_at_close == m.peak_race_time,
        m.after_close(close_ms).active_id == m.active_id,
{
}

/// A reopen hands back the session stashed at close, and only for a race
/// time behind the one reached before the close and past five seconds.
pub proof fn lemma_reopen_target_is_closed_session(m: SessionModel, t: u32, now_ms: u64)
    ensures
        m.reopen_target(t, now_ms) is Some ==> {
            &&& m.reopen_target(t, now_ms) == m.closed_id
            &&& f32_lt(t, m.last_race_time_at_close)
            &&& f32_lt(REWIND_MIN_RACE_TIME, t)
        },
        m.reopen_target(t, now_ms) is None ==> m.after_reopen_check(t, now_ms) == m,
        m.reopen_target(t, now_ms) is Some ==> m.after_reopen_check(t, now_ms).closed_id is None,
{
}

/// The peak race time is the larger of the old peak and the new race time,
/// and the latest race time is the new one.
pub proof fn lemma_race_time_peak(m: SessionModel, t: u32)
    ensures
        f32_lt(m.peak_race_time, t) ==> m.with_race_time(t).peak_race_time == t,
        m.with_race_time(t).last_race_time == t,
        m.with_race_time(t).best_lap == m.best_lap,
{
}

/// Setting the active session: an id makes it active and keeps the laps;
/// clearing forgets the session's laps, its lap in progress and its peak.
pub proof fn lemma_set_active_id(m: SessionModel, id: i64)
    ensures
        m.with_active_id(Some(id)).active_id == Some(id),
        m.with_active_id(Some(id)).best_lap == m.best_lap,
        m.with_active_id(Some(id)).seen_lap == m.seen_lap,
        m.with_active_id(Some(id)).last_current_lap == m.last_current_lap,
        m.with_active_id(Some(id)).peak_race_time == m.peak_race_time,
        m.with_active_id(None).active_id is None,
        m.with_active_id(None).final_lap() is None,
        m.with_active_id(None).peak_race_time == ZERO,
        m.with_active_id(None).seen_lap is None,
        m.with_active_id(None).closed_id == m.closed_id,
{
}

/// With auto-record on, a change from not racing to racing always opens a
/// session for the car it carries, even one not known yet (ordinal 0); with
/// it off, nothing opens. A change from racing to not racing closes the
/// active session, if any.
pub proof fn lemma_event_start_opens(
    m: SessionModel,
    car_ordinal: i32,
    car_class: i32,
    car_pi: i32,
)
    ensures
        m.auto_record ==> m.race_on_action(false, true, car_ordinal, car_class, car_pi)
            == (SessionAction::Open { car_ordinal, car_class, car_pi }),
        !m.auto_record ==> m.race_on_action(false, true, car_ordinal, car_class, car_pi)
            == SessionAction::NoChange,
        m.active_id is Some ==> m.race_on_action(true, false, car_ordinal, car_class, car_pi)
            == SessionAction::Close,
        m.active_id is None ==> m.race_on_action(true, false, car_ordinal, car_class, car_pi)
            == SessionAction::NoChange,
{
}

/// A fresh manager has no session, no lap, nothing to reopen, and records
/// only when asked to.
pub proof fn lemma_fresh_manager(auto_record: bool, lap_number: u16, last_lap: u32, t: u32, now_ms: u64)
    ensures
        SessionModel::initial(auto_record).auto_record == auto_record,
        SessionModel::initial(auto_record).active_id is None,
        SessionModel::initial(auto_record).best_for_close() == MINUS_ONE,
        SessionModel::initial(auto_record).final_lap() is None,
        SessionModel::initial(auto_record).tick_completion(lap_number, last_lap) is None,
        SessionModel::initial(auto_record).reopen_target(t, now_ms) is None,
        SessionModel::initial(auto_record).wf(),
{
}

/// A time that can become the best lap: positive and below `f32::MAX`.
pub open spec fn is_lap_time(lap: u32) -> bool {
    f32_lt(ZERO, lap) && f32_lt(lap, MAX)
}

/// The state after each of `laps` is offered as a best lap, in order.
pub open spec fn offer_laps(m: SessionModel, laps: Seq<u32>) -> SessionModel
    decreases laps.len(),
{
    if laps.len() == 0 {
        m
    } else {
        offer_laps(m, laps.drop_last()).with_lap_offered(laps.last())
    }
}

/// Laps reach the best lap only by being offered: a tick offers the lap it
/// completes, taking the final lap offers that lap, and nothing else moves
/// the best lap but clearing the session, which resets it to `f32::MAX`.
pub proof fn lemma_laps_fold_into_best(m: SessionModel, lap_number: u16, current_lap: u32, last_lap: u32)
    ensures
        m.after_tick(lap_number, current_lap, last_lap).best_lap == (match m.tick_completion(
            lap_number,
            last_lap,
        ) {
            Some(done) => m.with_lap_offered(done.lap_time).best_lap,
            None => m.best_lap,
        }),
        m.after_final_lap().best_lap == (match m.final_lap() {
            Some(done) => m.with_lap_offered(done.lap_time).best_lap,
            None => m.best_lap,
        }),
        m.with_active_id(None).best_lap == MAX,
        SessionModel::initial(m.auto_record).best_lap == MAX,
        m.with_race_time(last_lap).best_lap == m.best_lap,
        m.after_close(0).best_lap == m.best_lap,
        m.after_reopen_check(last_lap, 0).best_lap == m.best_lap,
{
}

proof fn lemma_offer_laps_best(m: SessionModel, laps: Seq<u32>)
    requires
        m.best_lap == MAX,
    ensures
        ({
            let b = offer_laps(m, laps).best_lap;
            &&& b == MAX || is_lap_time(b)
            &&& b == MAX <==> (forall|i: int| 0 <= i < laps.len() ==> !is_lap_time(#[trigger] laps[i]))
            &&& b != MAX ==> (exists|j: int| 0 <= j < laps.len() && #[trigger] laps[j] == b)
            &&& forall|i: int|
                0 <= i < laps.len() && is_lap_time(#[trigger] laps[i]) ==> !f32_lt(laps[i], b)
        }),
    decreases laps.len(),
{
    if laps.len() > 0 {
        let prev = laps.drop_last();
        lemma_offer_laps_best(m, prev);
        let bp = offer_laps(m, prev).best_lap;
        let l = laps.last();
        let b = offer_laps(m, laps).best_lap;
        assert(b == improved_best(bp, l));
        assert forall|i: int| 0 <= i < prev.len() implies prev[i] == laps[i] by {}
        if b != MAX {
            if b == l {
                assert(laps[laps.len() - 1] == b);
            } else {
                let j = choose|j: int| 0 <= j < prev.len() && #[trigger] prev[j] == bp;
                assert(laps[j] == b);
            }
        }
        if b == MAX {
            assert forall|i: int| 0 <= i < laps.len() implies !is_lap_time(#[trigger] laps[i]) by {
                if i < prev.len() {
                    assert(prev[i] == laps[i]);
                }
            }
        }
        assert forall|i: int| 0 <= i < laps.len() && is_lap_time(#[trigger] laps[i]) implies !f32_lt(
            laps[i],
            b,
        ) by {
            if i < prev.len() {
                assert(prev[i] == laps[i]);
            }
        }
    }
}

/// The best lap to persist is the fastest lap offered since the session was
/// cleared (or the manager made): `-1.0` when no positive lap below
/// `f32::MAX` was offered, and otherwise one of the offered laps that no
/// offered lap beats.
pub proof fn lemma_best_for_close_is_fastest_lap(m: SessionModel, laps: Seq<u32>)
    requires
        m.best_lap == MAX,
    ensures
        (forall|i: int| 0 <= i < laps.len() ==> !is_lap_time(#[trigger] laps[i])) ==> offer_laps(
            m,
            laps,
        ).best_for_close() == MINUS_ONE,
        (exists|i: int| 0 <= i < laps.len() && is_lap_time(#[trigger] laps[i])) ==> {
            let b = offer_laps(m, laps).best_for_close();
            &&& is_lap_time(b)
            &&& exists|j: int| 0 <= j < laps.len() && #[trigger] laps[j] == b
            &&& forall|i: int|
                0 <= i < laps.len() && is_lap_time(#[trigger] laps[i]) ==> !f32_lt(laps[i], b)
        },
{
    lemma_offer_laps_best(m, laps);
}

/// Decides, tick by tick, when a recorded session opens, closes, completes a
/// lap, or is resumed after a rewind.
pub struct SessionManager {
    auto_record: bool,
    active_id: Option<i64>,
    best_lap: u32,
    last_race_time: u32,
    // Highest progress time seen this session; the rewind baseline. Tracking
    // the peak (not the latest) means a rewind that scrubs time backward
    // during the close grace window still reads as "went backward".
    peak_race_time: u32,
    // Lap tracking for the active session
    seen_lap: Option<u16>,
    last_current_lap: u32,
    // Rewind detection state: set on close, consumed on reopen
    closed_id: Option<i64>,
    closed_wall_ms: u64,
    last_race_time_at_close: u32,
}

impl View for SessionManager {
    type V = SessionModel;

    closed spec fn view(&self) -> SessionModel {
        SessionModel {
            auto_record: self.auto_record,
            active_id: self.active_id,
            best_lap: self.best_lap,
            last_race_time: self.last_race_time,
            peak_race_time: self.peak_race_time,
            seen_lap: self.seen_lap,
            last_current_lap: self.last_current_lap,
            closed_id: self.closed_id,
            closed_wall_ms: self.closed_wall_ms,
            last_race_time_at_close: self.last_race_time_at_close,
        }
    }
}

impl SessionManager {
    pub fn new(auto_record: bool) -> (r: Self)
        ensures
            r@ == SessionModel::initial(auto_record),
            r@.wf(),
    {
        SessionManager {
            auto_record,
            active_id: None,
            best_lap: MAX,
            last_race_time: ZERO,
            peak_race_time: ZERO,
            seen_lap: None,
            last_current_lap: ZERO,
            closed_id: None,
            closed_wall_ms: 0,
            last_race_time_at_close: ZERO,
        }
    }

    pub fn active_session_id(&self) -> (r: Option<i64>)
        ensures
            r == self@.active_id,
    {
        self.active_id
    }

    pub fn set_auto_record(&mut self, v: bool)
        ensures
            final(self)@ == (SessionModel { auto_record: v, ..old(self)@ }),
            old(self)@.wf() ==> final(self)@.wf(),
    {
        self.auto_record = v;
    }

    pub fn set_active_id(&mut self, id: Option<i64>)
        ensures
            final(self)@ == old(self)@.with_active_id(id),
            old(self)@.wf() ==> final(self)@.wf(),
    {
        self.active_id = id;
        if id.is_none() {
            self.best_lap = MAX;
            self.seen_lap = None;
            self.last_current_lap = ZERO;
            self.peak_race_time = ZERO;
        }
    }

    pub fn update_best_lap(&mut self, lap: u32)
        ensures
            final(self)@ == old(self)@.with_lap_offered(lap),
            old(self)@.wf() ==> final(self)@.wf(),
    {
        if less_than(ZERO, lap) && less_than(lap, self.best_lap) {
            self.best_lap = lap;
        }
    }

    /// The best lap to persist on close: -1.0 means "no lap recorded", which
    /// the store treats as "keep the existing best" (rewind-safe).
    pub fn best_for_close(&self) -> (r: u32)
        ensures
            r == self@.best_for_close(),
    {
        if equals(self.best_lap, MAX) {
            MINUS_ONE
        } else {
            self.best_lap
        }
    }

    /// Feed every in-event tick. Returns a lap whenever the lap counter
    /// advanced (its time is the game-reported `last_lap`). Also tracks the
    /// in-progress lap time so a session that ends mid-lap can still record it.
    pub fn note_tick(&mut self, lap_number: u16, current_lap: u32, last_lap: u32) -> (r: Option<
        CompletedLap,
    >)
        ensures
            r == old(self)@.tick_completion(lap_number, last_lap),
            final(self)@ == old(self)@.after_tick(lap_number, current_lap, last_lap),
            old(self)@.wf() ==> final(self)@.wf(),
    {
        if less_than(ZERO, current_lap) {
            self.last_current_lap = current_lap;
        }
        let completed = match self.seen_lap {
            Some(prev) => {
                if lap_number > prev && less_than(ZERO, last_lap) {
                    self.update_best_lap(last_lap);
                    Some(CompletedLap { lap_number: prev as i64, lap_time: last_lap })
                } else {
                    None
                }
            },
            None => None,
        };
        // A decreasing lap number means a rewind: just resync.
        self.seen_lap = Some(lap_number);
        completed
    }

    /// Call on session close. If a lap was in progress (never crossed the line),
    /// returns it so it can be saved; also folds it into the best lap.
    pub fn take_final_lap(&mut self) -> (r: Option<CompletedLap>)
        ensures
            r == old(self)@.final_lap(),
            final(self)@ == old(self)@.after_final_lap(),
            old(self)@.wf() ==> final(self)@.wf(),
    {
        let t = self.last_current_lap;
        let ln: i64 = match self.seen_lap {
            Some(n) => n as i64,
            None => 0,
        };
        self.last_current_lap = ZERO;
        // Ignore sub-second residue (e.g. line crossed exactly at the end).
        if less_than(ONE, t) {
            self.update_best_lap(t);
            Some(CompletedLap { lap_number: ln, lap_time: t })
        } else {
            None
        }
    }

    pub fn update_race_time(&mut self, t: u32)
        ensures
            final(self)@ == old(self)@.with_race_time(t),
            old(self)@.wf() ==> final(self)@.wf(),
    {
        self.last_race_time = t;
        if less_than(self.peak_race_time, t) {
            self.peak_race_time = t;
        }
    }

    /// Call when a session is about to close. Stashes state needed to detect a
    /// subsequent rewind within `REWIND_WINDOW_MS`.
    pub fn note_close(&mut self, wall_ms: u64)
        ensures
            final(self)@ == old(self)@.after_close(wall_ms),
            old(self)@.wf() ==> final(self)@.wf(),
    {
        self.closed_id = self.active_id;
        self.closed_wall_ms = wall_ms;
        self.last_race_time_at_close = self.peak_race_time;
    }

    /// Returns the session id to reopen when `new_race_time` went backward
    /// within the rewind window. Consumes the stashed state so it cannot fire twice.
    pub fn check_reopen(&mut self, new_race_time: u32, now_wall_ms: u64) -> (r: Option<i64>)
        ensures
            r == old(self)@.reopen_target(new_race_time, now_wall_ms),
            final(self)@ == old(self)@.after_reopen_check(new_race_time, now_wall_ms),
            old(self)@.wf() ==> final(self)@.wf(),
    {
        let id = match self.closed_id {
            Some(id) => id,
            None => return None,
        };
        let gap_ms = now_wall_ms.saturating_sub(self.closed_wall_ms);
        if gap_ms < REWIND_WINDOW_MS && less_than(REWIND_MIN_RACE_TIME, new_race_time)
            && less_than(new_race_time, self.last_race_time_at_close) {
            self.closed_id = None;
            Some(id)
        } else {
            None
        }
    }

    pub fn on_race_on_change(
        &mut self,
        was_racing: bool,
        is_racing: bool,
        car_ordinal: i32,
        car_class: i32,
        car_pi: i32,
    ) -> (r: SessionAction)
        ensures
            r == old(self)@.race_on_action(was_racing, is_racing, car_ordinal, car_class, car_pi),
            final(self)@ == old(self)@,
    {
        if !was_racing && is_racing && self.auto_record {
            SessionAction::Open { car_ordinal, car_class, car_pi }
        } else if was_racing && !is_racing && self.active_id.is_some() {
            SessionAction::Close
        } else {
            SessionAction::NoChange
        }
    }
}

} // verus!
