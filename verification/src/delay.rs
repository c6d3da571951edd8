use vstd::prelude::*;

verus! {

/// How long the pause after each count of the countdown lasts.
pub const TICK_MILLIS: u64 = 1000;

/// How long the pause after the countdown lasts, so that the last cue is
/// not itself recorded.
pub const SETTLE_MILLIS: u64 = 500;

/// One thing to do while the countdown runs.
#[derive(Debug, Clone, Copy, PartialEq, Eq, Structural)]
pub enum DelayStep {
    /// Show `count`, sound the cue if `alert` is set, and pause for
    /// `TICK_MILLIS`.
    Tick { count: u32, alert: bool },
    /// Pause for `SETTLE_MILLIS`.
    Settle,
    /// The countdown is over: nothing is left to wait for.
    Done,
}

impl DelayStep {
    /// How long the step pauses, in milliseconds.
    pub open spec fn spec_pause_millis(self) -> nat {
        match self {
            DelayStep::Tick { .. } => TICK_MILLIS as nat,
            DelayStep::Settle => SETTLE_MILLIS as nat,
            DelayStep::Done => 0,
        }
    }

    pub fn pause_millis(&self) -> (millis: u64)
        ensures
            millis == self.spec_pause_millis(),
    {
        match self {
            DelayStep::Tick { .. } => TICK_MILLIS,
            DelayStep::Settle => SETTLE_MILLIS,
            DelayStep::Done => 0,
        }
    }
}

/// A countdown, seen from outside: the seconds still to count, whether the last
/// pause is still to come, and whether the cue is silenced.
pub struct CountdownState {
    pub remaining: nat,
    pub settle: bool,
    pub quiet: bool,
}

impl CountdownState {
    /// The countdown for a delay of `seconds`. No delay, or one of no
    /// seconds, gives a countdown that is over from the start.
    pub open spec fn start(seconds: Option<u32>, quiet: bool) -> CountdownState {
        match seconds {
            Some(n) if n > 0 => CountdownState { remaining: n as nat, settle: true, quiet },
            _ => CountdownState { remaining: 0, settle: false, quiet },
        }
    }

    /// Whether nothing is left to wait for.
    pub open spec fn is_over(self) -> bool {
        self.remaining == 0 && !self.settle
    }

    /// What is due next, and the countdown after it.
    pub open spec fn next(self) -> (DelayStep, CountdownState) {
        if self.remaining > 0 {
            (
                DelayStep::Tick { count: self.remaining as u32, alert: !self.quiet },
                CountdownState { remaining: (self.remaining - 1) as nat, ..self },
            )
        } else if self.settle {
            (DelayStep::Settle, CountdownState { settle: false, ..self })
        } else {
            (DelayStep::Done, self)
        }
    }

    /// How long the countdown still takes, in milliseconds.
    pub open spec fn pending_millis(self) -> nat {
        self.remaining * (TICK_MILLIS as nat) + if self.settle {
            SETTLE_MILLIS as nat
        } else {
            0
        }
    }

    /// Everything that is due from now until the countdown is over, in
    /// order.
    pub open spec fn plan(self) -> Seq<DelayStep>
        decreases self.remaining, if self.settle { 1nat } else { 0nat },
    {
        if self.is_over() {
            Seq::empty()
        } else {
            seq![self.next().0] + self.next().1.plan()
        }
    }
}

/// Holds the start of a stream back for a number of whole seconds, counting
/// down once a second, and for a short pause after that.
pub struct Countdown {
    remaining: u32,
    settle: bool,
    quiet: bool,
}

impl View for Countdown {
    type V = CountdownState;

    closed spec fn view(&self) -> CountdownState {
        CountdownState { remaining: self.remaining as nat, settle: self.settle, quiet: self.quiet }
    }
}

impl Countdown {
    pub fn new(seconds: Option<u32>, quiet: bool) -> (countdown: Countdown)
        ensures
            countdown@ == CountdownState::start(seconds, quiet),
    {
        match seconds {
            Some(n) => if n > 0 {
                Countdown { remaining: n, settle: true, quiet }
            } else {
                Countdown { remaining: 0, settle: false, quiet }
            },
            None => Countdown { remaining: 0, settle: false, quiet },
        }
    }

    pub fn is_over(&self) -> (over: bool)
        ensures
            over == self@.is_over(),
    {
        self.remaining == 0 && !self.settle
    }

    /// Gives what is due next and moves past it. A countdown that is over
    /// gives `Done` and stays as it is.
    pub fn next_step(&mut self) -> (step: DelayStep)
        ensures
            step == old(self)@.next().0,
            final(self)@ == old(self)@.next().1,
    {
        if self.remaining > 0 {
            let count: u32 = self.remaining;
            self.remaining = count - 1;
            DelayStep::Tick { count, alert: !self.quiet }
        } else if self.settle {
            self.settle = false;
            DelayStep::Settle
        } else {
            DelayStep::Done
        }
    }
}

/// Without a delay, and with a delay of no seconds, the countdown is over
/// from the start: nothing is due and no time is waited.
pub proof fn lemma_no_delay_no_wait(seconds: Option<u32>, quiet: bool)
    requires
        seconds is None || seconds == Some(0u32),
    ensures
        CountdownState::start(seconds, quiet).is_over(),
        CountdownState::start(seconds, quiet).next().0 == DelayStep::Done,
        CountdownState::start(seconds, quiet).plan() == Seq::<DelayStep>::empty(),
        CountdownState::start(seconds, quiet).pending_millis() == 0,
{
}

/// Each step takes its own pause off the time that the countdown still
/// takes, and the countdown is over exactly when no time is left.
pub proof fn lemma_step_takes_its_pause(countdown: CountdownState)
    ensures
        countdown.pending_millis() == countdown.next().0.spec_pause_millis() + countdown.next().1.pending_millis(),
        countdown.is_over() <==> countdown.pending_millis() == 0,
        countdown.is_over() <==> countdown.next().0 == DelayStep::Done,
{
    assert(countdown.remaining * 1000 == (countdown.remaining - 1) * 1000 + 1000) by (nonlinear_arith);
}

/// A delay of `n` seconds, `n` not zero, counts `n`, `n - 1`, down to 1,
/// once a second, then pauses once more: `n + 1` steps that take
/// `1000 n + 500` milliseconds between them.
pub proof fn lemma_countdown(n: u32, quiet: bool)
    requires
        n > 0,
    ensures
        CountdownState::start(Some(n), quiet).plan().len() == n + 1,
        forall|i: int|
            0 <= i < n ==> #[trigger] CountdownState::start(Some(n), quiet).plan()[i]
                == (DelayStep::Tick { count: (n - i) as u32, alert: !quiet }),
        CountdownState::start(Some(n), quiet).plan()[n as int] == DelayStep::Settle,
        CountdownState::start(Some(n), quiet).pending_millis() == 1000 * n + 500,
{
    lemma_plan_of(CountdownState::start(Some(n), quiet));
}

/// The plan of a countdown that still has its last pause to come.
proof fn lemma_plan_of(countdown: CountdownState)
    requires
        countdown.settle,
        countdown.remaining <= u32::MAX,
    ensures
        countdown.plan().len() == countdown.remaining + 1,
        forall|i: int|
            0 <= i < countdown.remaining ==> #[trigger] countdown.plan()[i] == (DelayStep::Tick {
                count: (countdown.remaining - i) as u32,
                alert: !countdown.quiet,
            }),
        countdown.plan()[countdown.remaining as int] == DelayStep::Settle,
    decreases countdown.remaining,
{
    if countdown.remaining == 0 {
        assert(countdown.next().1.is_over());
        assert(countdown.next().1.plan() =~= Seq::<DelayStep>::empty());
        assert(countdown.plan() =~= seq![DelayStep::Settle]);
    } else {
        let rest = countdown.next().1;
        lemma_plan_of(rest);
        assert forall|i: int| 0 <= i < countdown.remaining implies #[trigger] countdown.plan()[i]
            == (DelayStep::Tick { count: (countdown.remaining - i) as u32, alert: !countdown.quiet }) by {
            if i > 0 {
                assert(countdown.plan()[i] == rest.plan()[i - 1]);
            }
        }
        assert(countdown.plan()[countdown.remaining as int] == rest.plan()[countdown.remaining - 1]);
    }
}

} // verus!
