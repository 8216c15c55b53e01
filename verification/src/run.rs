//! The run of the application: the effects that are yet to be carried out, and what
//! comes of each.
//!
//! [`Application::run`] hands out one effect at a time and is told what came of it.
//! The first one that fails ends the run with its error: nothing that was yet to be
//! carried out is handed out any more, and nothing that was to follow from it is
//! kept in mind.
use vstd::prelude::*;

use crate::application::{input_accepts, input_answers, Application, ApplicationView};
use crate::application::{Effect, Polled, RunInput};
use crate::laws::law_the_run_goes_on;

verus! {

/// The effects that are yet to be carried out.
#[derive(Debug)]
pub struct Plan<Message> {
    pub effects: Vec<Effect<Message>>,
    /// Whether the run has ended.
    pub ended: bool,
}

/// What came of an effect. The run begins as if [`RunInput::Started`] had come of
/// one.
#[derive(Debug)]
pub enum Outcome<Message, P, E> {
    /// It was carried out, and the next one is due.
    Done,
    /// It was the last one, and this has happened.
    Happened(RunInput<Message, P>),
    /// It failed.
    Failed(E),
}

/// What is due.
#[derive(Debug)]
pub enum Step<Message, E> {
    /// Carry out this effect, and tell what came of it.
    Perform(Effect<Message>),
    /// The run is over, with this result.
    End(Result<(), E>),
}

/// Whether an effect is the last of an answer: what comes of it says how the run goes
/// on.
pub open spec fn goes_on<Message>(effect: Effect<Message>) -> bool {
    effect is Dispatch || effect is PollWayland || effect is PollActions || effect is Exit
}

/// What is yet to be carried out ends with the one effect that says how the run goes
/// on, and only windows for every output are to be kept in mind.
pub open spec fn plan_wf<Message>(effects: Seq<Effect<Message>>) -> bool {
    &&& forall|i: int| 0 <= i < effects.len() - 1 ==> !goes_on(#[trigger] effects[i])
    &&& effects.len() > 0 ==> goes_on(effects.last())
    &&& forall|i: int|
        0 <= i < effects.len() && (#[trigger] effects[i]) is KeepInMind
            ==> effects[i]->KeepInMind_settings.open_on_every_output
}

impl<Message> Plan<Message> {
    pub open spec fn wf(self) -> bool {
        plan_wf(self.effects@) && (self.ended ==> self.effects@.len() == 0)
    }

    /// The plan of a run that has not begun.
    pub fn new() -> (r: Self)
        ensures
            r.wf(),
            !r.ended,
            r.effects@ == Seq::<Effect<Message>>::empty(),
    {
        Plan { effects: Vec::new(), ended: false }
    }
}

/// The next thing that is due, with the application and the plan after it. What is to
/// be kept in mind is kept in mind on the way.
pub open spec fn next_due<Message, P, T, E>(
    app: ApplicationView<P, T>,
    plan: Seq<Effect<Message>>,
) -> (ApplicationView<P, T>, Seq<Effect<Message>>, Step<Message, E>)
    recommends
        plan.len() > 0,
    decreases plan.len(),
{
    if plan.len() == 0 {
        (app, plan, Step::End(Ok(())))
    } else {
        match plan[0] {
            Effect::KeepInMind { settings, outputs } => next_due(
                app.keeping_in_mind(settings, outputs@),
                plan.skip(1),
            ),
            Effect::Exit => (app, seq![], Step::End(Ok(()))),
            effect => (app, plan.skip(1), Step::Perform(effect)),
        }
    }
}

/// Whether this can have come of the effect that was handed out last: another one is
/// due exactly when it was not the last, and what has happened can be taken.
pub open spec fn outcome_fits<Message, P, T, E>(
    app: ApplicationView<P, T>,
    plan: Seq<Effect<Message>>,
    outcome: Outcome<Message, P, E>,
) -> bool {
    match outcome {
        Outcome::Done => plan.len() > 0,
        Outcome::Happened(input) => plan.len() == 0 && input_accepts(app, input),
        Outcome::Failed(_) => true,
    }
}

/// How the run goes on. A failure ends it with its error and drops the plan, and the
/// application stays as it is. Else the next effect of the plan is due, or the first
/// one of the application's answer to what has happened.
pub open spec fn run_answers<Message, P, T, E>(
    before: ApplicationView<P, T>,
    plan: Seq<Effect<Message>>,
    outcome: Outcome<Message, P, E>,
    now: T,
    after: ApplicationView<P, T>,
    rest: Seq<Effect<Message>>,
    step: Step<Message, E>,
) -> bool {
    match outcome {
        Outcome::Failed(e) => {
            &&& after == before
            &&& rest == Seq::<Effect<Message>>::empty()
            &&& step == Step::<Message, E>::End(Err(e))
        },
        Outcome::Done => (after, rest, step) == next_due::<Message, P, T, E>(before, plan),
        Outcome::Happened(input) => exists|
            answered: ApplicationView<P, T>,
            effects: Seq<Effect<Message>>,
        |
            #[trigger] input_answers(before, input, now, answered, effects) && (after, rest, step)
                == next_due::<Message, P, T, E>(answered, effects),
    }
}

impl<P, T> Application<P, T> {
    /// Whether this can have come of the effect that was handed out last.
    pub fn takes<Message, E>(
        &self,
        plan: &Plan<Message>,
        outcome: &Outcome<Message, P, E>,
    ) -> (r: bool)
        ensures
            r == outcome_fits(self@, plan.effects@, *outcome),
    {
        match outcome {
            Outcome::Done => plan.effects.len() > 0,
            Outcome::Happened(input) => plan.effects.len() == 0 && match input {
                RunInput::Wayland(Polled::Received(event)) => self.accepts(event),
                _ => true,
            },
            Outcome::Failed(_) => true,
        }
    }

    /// Finds the next thing that is due.
    fn next_step<Message, E>(&mut self, plan: &mut Plan<Message>) -> (r: Step<Message, E>)
        requires
            old(self)@.wf(),
            old(plan).wf(),
            !old(plan).ended,
            old(plan).effects@.len() > 0,
        ensures
            final(self)@.wf(),
            final(plan).wf(),
            final(plan).ended == (r is End),
            (final(self)@, final(plan).effects@, r) == next_due::<Message, P, T, E>(
                old(self)@,
                old(plan).effects@,
            ),
        decreases old(plan).effects@.len(),
    {
        let ghost effects = plan.effects@;
        let effect = plan.effects.remove(0);
        assert(plan.effects@ =~= effects.skip(1));
        assert(plan.wf());
        match effect {
            Effect::KeepInMind { settings, outputs } => {
                assert(effects[0] is KeepInMind);
                assert(plan.effects@.len() > 0) by {
                    if effects.len() == 1 {
                        assert(goes_on(effects.last()));
                    }
                }
                self.windows_opened(settings, outputs);
                self.next_step(plan)
            },
            Effect::Exit => {
                plan.effects = Vec::new();
                plan.ended = true;
                Step::End(Ok(()))
            },
            effect => Step::Perform(effect),
        }
    }
}

impl<P: Copy, T> Application<P, T> {
    /// Goes on with the run, at the time `now`, after `outcome` came of the effect
    /// that was handed out last.
    pub fn run<Message, E>(
        &mut self,
        plan: &mut Plan<Message>,
        outcome: Outcome<Message, P, E>,
        now: T,
    ) -> (r: Step<Message, E>)
        requires
            old(self)@.wf(),
            old(plan).wf(),
            !old(plan).ended,
            outcome_fits(old(self)@, old(plan).effects@, outcome),
        ensures
            final(self)@.wf(),
            final(plan).wf(),
            final(plan).ended == (r is End),
            run_answers(
                old(self)@,
                old(plan).effects@,
                outcome,
                now,
                final(self)@,
                final(plan).effects@,
                r,
            ),
    {
        match outcome {
            Outcome::Failed(e) => {
                plan.effects = Vec::new();
                plan.ended = true;
                Step::End(Err(e))
            },
            Outcome::Done => self.next_step(plan),
            Outcome::Happened(input) => {
                let ghost before = self@;
                plan.effects = self.on_input(input, now);
                let ghost answered = self@;
                let ghost effects = plan.effects@;
                proof {
                    law_the_run_goes_on(before, input, now, answered, effects);
                }
                let r = self.next_step(plan);
                assert(input_answers(before, input, now, answered, effects));
                r
            },
        }
    }
}

} // verus!
