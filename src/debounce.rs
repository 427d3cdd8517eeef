use vstd::prelude::*;

verus! {

/// The first quiet period after a message that starts a burst, in milliseconds.
pub const INITIAL_DELAY_MS: u64 = 2500;

/// The quiet period after each further message of a burst, in milliseconds.
pub const REFRESH_DELAY_MS: u64 = 1500;

/// Where one target's countdown stands.
#[derive(Debug, Clone, Copy, PartialEq, Eq, Structural)]
pub enum DebouncePhase {
    /// No countdown runs.
    Idle,
    /// A countdown runs and ends at `deadline`.
    Waiting { deadline: u64 },
    /// The countdown ended and a generation is in progress.
    Firing,
}

/// One target's countdown. `pending` records that a message arrived while a
/// generation was in progress: too late for that generation, it starts the
/// next countdown once the generation returns.
#[derive(Debug, Clone, Copy, PartialEq, Eq, Structural)]
pub struct DebounceState {
    pub phase: DebouncePhase,
    pub pending: bool,
}

/// What the caller is to do after an event.
#[derive(Debug, Clone, Copy, PartialEq, Eq, Structural)]
pub enum DebounceAction {
    /// A new countdown starts and ends at this instant: start a timer for it.
    Start(u64),
    /// The running countdown now ends at this instant: let its timer know.
    Wait(u64),
    /// Generate a reply now, and report when it has returned.
    Fire,
    /// Nothing is to be done.
    Nothing,
}

/// Something that happens to a target's countdown, at an instant in milliseconds.
#[derive(Debug, Clone, Copy, PartialEq, Eq, Structural)]
pub enum DebounceEvent {
    /// A qualifying message arrived.
    Message(u64),
    /// The timer went off.
    Timer(u64),
    /// The generation returned, whether or not it produced a reply.
    Done(u64),
}

/// `now + delay`, held at the largest instant.
pub open spec fn later(now: u64, delay: u64) -> u64 {
    if now > u64::MAX - delay {
        u64::MAX
    } else {
        (now + delay) as u64
    }
}

fn later_exec(now: u64, delay: u64) -> (r: u64)
    ensures
        r == later(now, delay),
{
    if now > u64::MAX - delay {
        u64::MAX
    } else {
        now + delay
    }
}

pub open spec fn idle() -> DebounceState {
    DebounceState { phase: DebouncePhase::Idle, pending: false }
}

/// A qualifying message: it starts a countdown when none runs, restarts a
/// running one with the shorter delay, and is kept for later during a
/// generation.
pub open spec fn on_message_spec(s: DebounceState, now: u64) -> (DebounceState, DebounceAction) {
    match s.phase {
        DebouncePhase::Idle => {
            let d = later(now, INITIAL_DELAY_MS);
            (DebounceState { phase: DebouncePhase::Waiting { deadline: d }, pending: false },
            DebounceAction::Start(d))
        },
        DebouncePhase::Waiting { .. } => {
            let d = later(now, REFRESH_DELAY_MS);
            (DebounceState { phase: DebouncePhase::Waiting { deadline: d }, pending: s.pending },
            DebounceAction::Wait(d))
        },
        DebouncePhase::Firing => (
            DebounceState { phase: DebouncePhase::Firing, pending: true },
            DebounceAction::Nothing,
        ),
    }
}

/// The timer: a countdown whose deadline has come fires; one whose deadline
/// is still ahead keeps running.
pub open spec fn on_timer_spec(s: DebounceState, now: u64) -> (DebounceState, DebounceAction) {
    match s.phase {
        DebouncePhase::Waiting { deadline } => if now >= deadline {
            (DebounceState { phase: DebouncePhase::Firing, pending: false }, DebounceAction::Fire)
        } else {
            (s, DebounceAction::Wait(deadline))
        },
        _ => (s, DebounceAction::Nothing),
    }
}

/// The generation returned: back to idle, or to a fresh countdown when a
/// message came in meanwhile.
pub open spec fn on_done_spec(s: DebounceState, now: u64) -> (DebounceState, DebounceAction) {
    match s.phase {
        DebouncePhase::Firing => if s.pending {
            let d = later(now, INITIAL_DELAY_MS);
            (DebounceState { phase: DebouncePhase::Waiting { deadline: d }, pending: false },
            DebounceAction::Wait(d))
        } else {
            (idle(), DebounceAction::Nothing)
        },
        _ => (s, DebounceAction::Nothing),
    }
}

pub open spec fn step(s: DebounceState, e: DebounceEvent) -> (DebounceState, DebounceAction) {
    match e {
        DebounceEvent::Message(t) => on_message_spec(s, t),
        DebounceEvent::Timer(t) => on_timer_spec(s, t),
        DebounceEvent::Done(t) => on_done_spec(s, t),
    }
}

/// The state after `events`, and how many generations they fired.
pub open spec fn run(s: DebounceState, events: Seq<DebounceEvent>) -> (DebounceState, nat)
    decreases events.len(),
{
    if events.len() == 0 {
        (s, 0)
    } else {
        let (s1, n) = run(s, events.drop_last());
        let (s2, a) = step(s1, events.last());
        (s2, if a == DebounceAction::Fire {
            n + 1
        } else {
            n
        })
    }
}

/// How many new countdowns, each with a timer of its own, `events` start.
pub open spec fn started(s: DebounceState, events: Seq<DebounceEvent>) -> nat
    decreases events.len(),
{
    if events.len() == 0 {
        0
    } else {
        let before = started(s, events.drop_last());
        if step(run(s, events.drop_last()).0, events.last()).1 is Start {
            before + 1
        } else {
            before
        }
    }
}

/// A burst of messages at the instants `ts`, with the timer checked just as
/// each message arrives.
pub open spec fn burst(ts: Seq<u64>) -> Seq<DebounceEvent>
    decreases ts.len(),
{
    if ts.len() == 0 {
        Seq::empty()
    } else {
        burst(ts.drop_last()).push(DebounceEvent::Timer(ts.last())).push(
            DebounceEvent::Message(ts.last()),
        )
    }
}

/// Each message of `ts` comes no earlier than the one before it and less than
/// the refresh delay after it, and no instant is so late that a deadline
/// would be held at the largest one.
pub open spec fn is_close_burst(ts: Seq<u64>) -> bool {
    &&& forall|i: int| 0 <= i < ts.len() ==> ts[i] <= u64::MAX - INITIAL_DELAY_MS
    &&& forall|i: int|
        1 <= i < ts.len() ==> ts[i - 1] <= #[trigger] ts[i] && ts[i] - ts[i - 1] < REFRESH_DELAY_MS
}

/// When the countdown of a burst of `n` messages ending at `last` ends.
pub open spec fn burst_deadline(last: u64, n: nat) -> u64 {
    if n == 1 {
        (last + INITIAL_DELAY_MS) as u64
    } else {
        (last + REFRESH_DELAY_MS) as u64
    }
}

proof fn lemma_burst_waits(ts: Seq<u64>)
    requires
        ts.len() >= 1,
        is_close_burst(ts),
    ensures
        run(idle(), burst(ts)) == (
            DebounceState {
                phase: DebouncePhase::Waiting { deadline: burst_deadline(ts.last(), ts.len()) },
                pending: false,
            },
            0nat,
        ),
    decreases ts.len(),
{
    let p = ts.drop_last();
    let evs = burst(ts);
    let with_timer = burst(p).push(DebounceEvent::Timer(ts.last()));
    assert(evs.drop_last() == with_timer);
    assert(with_timer.drop_last() == burst(p));
    let last = ts.last();
    assert(last == ts[ts.len() - 1]);
    if ts.len() == 1 {
        assert(p.len() == 0);
        assert(burst(p) == Seq::<DebounceEvent>::empty());
        assert(run(idle(), burst(p)) == (idle(), 0nat));
        assert(run(idle(), with_timer) == (idle(), 0nat));
    } else {
        assert(is_close_burst(p)) by {
            assert forall|i: int| 1 <= i < p.len() implies p[i - 1] <= #[trigger] p[i] && p[i] - p[i - 1]
                < REFRESH_DELAY_MS by {
                assert(p[i] == ts[i] && p[i - 1] == ts[i - 1]);
            }
        }
        lemma_burst_waits(p);
        let prev = p.last();
        assert(prev == ts[ts.len() - 2]);
        assert(ts[ts.len() - 2] <= ts[ts.len() - 1]);
        let s0 = run(idle(), burst(p)).0;
        assert(s0.phase == DebouncePhase::Waiting { deadline: burst_deadline(prev, p.len()) });
        assert(last < burst_deadline(prev, p.len()));
        assert(step(s0, DebounceEvent::Timer(last)) == (s0, DebounceAction::Wait(
            burst_deadline(prev, p.len()),
        )));
        assert(run(idle(), with_timer) == (s0, 0nat));
    }
    assert(last <= u64::MAX - INITIAL_DELAY_MS);
}

/// Law: a burst of messages, each arriving less than the refresh delay after
/// the one before, fires no generation while it lasts; afterwards the timer
/// fires exactly when the quiet period after the last message has passed:
/// the initial delay for a single message, the refresh delay otherwise.
pub proof fn lemma_burst_fires_once(ts: Seq<u64>, now: u64)
    requires
        ts.len() >= 1,
        is_close_burst(ts),
        ts.last() <= now,
    ensures
        ({
            let (s, fired) = run(idle(), burst(ts).push(DebounceEvent::Timer(now)));
            &&& fired == (if now >= burst_deadline(ts.last(), ts.len()) {
                1nat
            } else {
                0nat
            })
            &&& fired == 1 ==> s.phase == DebouncePhase::Firing
        }),
{
    lemma_burst_waits(ts);
    assert(burst(ts).push(DebounceEvent::Timer(now)).drop_last() == burst(ts));
}

/// Law: while a generation is in progress, no message and no timer fires
/// another one; only its return can lead to the next.
pub proof fn lemma_firing_fires_nothing(s: DebounceState, events: Seq<DebounceEvent>)
    requires
        s.phase == DebouncePhase::Firing,
        forall|i: int| 0 <= i < events.len() ==> !(events[i] is Done),
    ensures
        run(s, events).0.phase == DebouncePhase::Firing,
        run(s, events).1 == 0,
    decreases events.len(),
{
    if events.len() > 0 {
        lemma_firing_fires_nothing(s, events.drop_last());
    }
}

/// Law: a burst of messages that begins while the target is idle starts
/// exactly one countdown, with the first message; every later message of the
/// burst only moves that countdown's deadline.
pub proof fn lemma_burst_starts_once(ts: Seq<u64>)
    requires
        ts.len() >= 1,
        is_close_burst(ts),
    ensures
        started(idle(), burst(ts)) == 1,
    decreases ts.len(),
{
    let p = ts.drop_last();
    let with_timer = burst(p).push(DebounceEvent::Timer(ts.last()));
    assert(burst(ts).drop_last() == with_timer);
    assert(with_timer.drop_last() == burst(p));
    if ts.len() == 1 {
        assert(burst(p) == Seq::<DebounceEvent>::empty());
        assert(run(idle(), burst(p)) == (idle(), 0nat));
        assert(started(idle(), burst(p)) == 0);
        assert(run(idle(), with_timer) == (idle(), 0nat));
    } else {
        assert(is_close_burst(p)) by {
            assert forall|i: int| 1 <= i < p.len() implies p[i - 1] <= #[trigger] p[i] && p[i]
                - p[i - 1] < REFRESH_DELAY_MS by {
                assert(p[i] == ts[i] && p[i - 1] == ts[i - 1]);
            }
        }
        lemma_burst_starts_once(p);
        lemma_burst_waits(p);
        lemma_burst_waits(ts);
        let s0 = run(idle(), burst(p)).0;
        assert(s0.phase is Waiting);
        assert(!(step(s0, DebounceEvent::Timer(ts.last())).1 is Start));
        assert(run(idle(), with_timer).0.phase is Waiting);
    }
    let last = ts.last();
    let t_step = step(run(idle(), burst(p)).0, DebounceEvent::Timer(last));
    assert(!(t_step.1 is Start));
    assert(started(idle(), with_timer) == started(idle(), burst(p)));
    let m_step = step(run(idle(), with_timer).0, DebounceEvent::Message(last));
    assert(started(idle(), burst(ts)) == started(idle(), with_timer) + (if m_step.1 is Start {
        1nat
    } else {
        0nat
    }));
}

impl DebounceState {
    pub fn new() -> (r: Self)
        ensures
            r == idle(),
    {
        DebounceState { phase: DebouncePhase::Idle, pending: false }
    }

    pub fn on_message(&mut self, now: u64) -> (r: DebounceAction)
        ensures
            (*final(self), r) == on_message_spec(*old(self), now),
    {
        match self.phase {
            DebouncePhase::Idle => {
                let d = later_exec(now, INITIAL_DELAY_MS);
                *self = DebounceState { phase: DebouncePhase::Waiting { deadline: d }, pending: false };
                DebounceAction::Start(d)
            },
            DebouncePhase::Waiting { .. } => {
                let d = later_exec(now, REFRESH_DELAY_MS);
                self.phase = DebouncePhase::Waiting { deadline: d };
                DebounceAction::Wait(d)
            },
            DebouncePhase::Firing => {
                self.pending = true;
                DebounceAction::Nothing
            },
        }
    }

    pub fn on_timer(&mut self, now: u64) -> (r: DebounceAction)
        ensures
            (*final(self), r) == on_timer_spec(*old(self), now),
    {
        match self.phase {
            DebouncePhase::Waiting { deadline } => {
                if now >= deadline {
                    *self = DebounceState { phase: DebouncePhase::Firing, pending: false };
                    DebounceAction::Fire
                } else {
                    DebounceAction::Wait(deadline)
                }
            },
            _ => DebounceAction::Nothing,
        }
    }

    pub fn on_generation_done(&mut self, now: u64) -> (r: DebounceAction)
        ensures
            (*final(self), r) == on_done_spec(*old(self), now),
    {
        match self.phase {
            DebouncePhase::Firing => {
                if self.pending {
                    let d = later_exec(now, INITIAL_DELAY_MS);
                    *self = DebounceState { phase: DebouncePhase::Waiting { deadline: d }, pending: false };
                    DebounceAction::Wait(d)
                } else {
                    *self = DebounceState { phase: DebouncePhase::Idle, pending: false };
                    DebounceAction::Nothing
                }
            },
            _ => DebounceAction::Nothing,
        }
    }

    pub fn is_idle(&self) -> (r: bool)
        ensures
            r == (self.phase == DebouncePhase::Idle),
    {
        match self.phase {
            DebouncePhase::Idle => true,
            _ => false,
        }
    }
}

} // verus!
