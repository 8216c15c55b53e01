//! What holds of the run, and of the requests of the program.
use vstd::prelude::*;

use crate::action::{Action, WindowSettings};
use crate::application::{destroys, destroys_all, input_answers, opens_on_each};
use crate::application::{Application, ApplicationView, Effect, Polled, RunInput};
use crate::event::{OutputId, SurfaceId, WaylandEvent};
use crate::laws::law_every_output_gets_one_window;
use crate::run::{next_due, Outcome, Plan, Step};

verus! {

/// The run begins with what the program wants done, and then with what it wants to hear.
/// After that it waits for the compositor, for ten milliseconds at most. When the wait is
/// over, it looks at what the compositor has reported. Nothing changes in that.
pub proof fn law_the_run_begins<P: Copy, T, Message>(
    app: &mut Application<P, T>,
    input: RunInput<Message, P>,
    now: T,
    r: Vec<Effect<Message>>,
)
    requires
        call_ensures(
            Application::<P, T>::on_input::<Message>,
            (app, input, now),
            r,
        ),
        input is Started || input is Dispatched,
    ensures
        final(app)@ == old(app)@,
        input is Started ==> {
            &&& r@.len() == 3
            &&& r@[0] is RunBootTask
            &&& r@[1] is TrackSubscriptions
            &&& r@[2] is Dispatch
            &&& r@[2]->timeout_millis == 10
        },
        input is Dispatched ==> r@.len() == 1 && r@[0] is PollWayland,
{
}

/// What comes of a report in the run is what comes of it by itself, and a look at what the
/// program requests.
pub proof fn law_the_run_takes_reports<P: Copy, T, Message>(
    app: &mut Application<P, T>,
    twin: &mut Application<P, T>,
    event: WaylandEvent<P>,
    now: T,
    r: Vec<Effect<Message>>,
    alone: Vec<Effect<Message>>,
)
    requires
        *app == *twin,
        call_ensures(
            Application::<P, T>::on_input::<Message>,
            (app, RunInput::Wayland(Polled::Received(event)), now),
            r,
        ),
        call_ensures(
            Application::<P, T>::on_wayland_event::<Message>,
            (twin, event, now),
            alone,
        ),
    ensures
        final(app)@ == final(twin)@,
        r@.len() == alone@.len() + 1,
        alone@.is_prefix_of(r@),
        r@.last() is PollActions,
{
}

/// Where nothing was reported or requested, the run goes on, and nothing changes. It says
/// so where nothing can be reported or requested any more, and only there.
pub proof fn law_the_run_goes_on_without_news<P: Copy, T, Message>(
    app: &mut Application<P, T>,
    input: RunInput<Message, P>,
    now: T,
    r: Vec<Effect<Message>>,
)
    requires
        call_ensures(
            Application::<P, T>::on_input::<Message>,
            (app, input, now),
            r,
        ),
        match input {
            RunInput::Wayland(polled) => !(polled is Received),
            RunInput::Action { polled, outputs: _ } => !(polled is Received),
            _ => false,
        },
    ensures
        final(app)@ == old(app)@,
        ({
            let closed = match input {
                RunInput::Wayland(polled) => polled is Closed,
                RunInput::Action { polled, outputs: _ } => polled is Closed,
                _ => false,
            };
            &&& closed ==> r@.len() == 2 && r@[0] is WarnClosed
            &&& !closed ==> r@.len() == 1
        }),
        input is Wayland ==> r@.last() is PollActions,
        input is Action ==> r@.last() is Dispatch && r@.last()->timeout_millis == 10,
{
}

/// A message is handed to the program once, as it is, and then the run waits. Nothing
/// changes in that.
pub proof fn law_messages_reach_the_program<P: Copy, T, Message>(
    app: &mut Application<P, T>,
    message: Message,
    outputs: Vec<OutputId>,
    now: T,
    r: Vec<Effect<Message>>,
)
    requires
        call_ensures(
            Application::<P, T>::on_input::<Message>,
            (app, RunInput::Action { polled: Polled::Received(Action::Output(message)), outputs }, now),
            r,
        ),
    ensures
        final(app)@ == old(app)@,
        r@.len() == 2,
        r@[0] == Effect::Update(message),
        r@[1] is Dispatch,
        r@[1]->timeout_millis == 10,
{
}

/// A window that is not wanted on every output is opened once, wherever the compositor
/// likes, with the settings that it is wanted with, all of them. Then the run waits, and
/// nothing is kept in mind.
pub proof fn law_a_window_is_opened_as_wanted<P: Copy, T, Message>(
    app: &mut Application<P, T>,
    settings: WindowSettings,
    outputs: Vec<OutputId>,
    now: T,
    r: Vec<Effect<Message>>,
)
    requires
        !settings.open_on_every_output,
        call_ensures(
            Application::<P, T>::on_input::<Message>,
            (app, RunInput::Action { polled: Polled::Received(Action::OpenWindow(settings)), outputs }, now),
            r,
        ),
    ensures
        final(app)@ == old(app)@,
        r@.len() == 2,
        r@[0] is Open,
        r@[0]->Open_output is None,
        ({
            let opened = r@[0]->Open_settings;
            &&& opened.namespace == settings.namespace
            &&& opened.anchor == settings.anchor
            &&& opened.exclusive_zone == settings.exclusive_zone
            &&& opened.open_on_every_output == settings.open_on_every_output
        }),
        r@[1] is Dispatch,
        r@[1]->timeout_millis == 10,
{
}

/// A window that is wanted on every output is opened once on each output that there is and
/// nowhere else, with the settings that it is wanted with. After the last one it is to be
/// kept in mind with these settings and outputs, then the run waits. Until then nothing
/// changes.
pub proof fn law_a_window_is_opened_on_every_output<P: Copy, T, Message>(
    app: &mut Application<P, T>,
    settings: WindowSettings,
    outputs: Vec<OutputId>,
    now: T,
    r: Vec<Effect<Message>>,
    output: OutputId,
    i: int,
    j: int,
)
    requires
        settings.open_on_every_output,
        call_ensures(
            Application::<P, T>::on_input::<Message>,
            (app, RunInput::Action { polled: Polled::Received(Action::OpenWindow(settings)), outputs }, now),
            r,
        ),
    ensures
        final(app)@ == old(app)@,
        r@.len() >= 2,
        ({
            let n = r@.len() - 2;
            &&& outputs@.contains(output) <==> exists|k: int|
                0 <= k < n && (#[trigger] r@[k]) is Open && r@[k]->Open_output == Some(output)
            &&& 0 <= i < n ==> {
                &&& r@[i] is Open
                &&& r@[i]->Open_output is Some
                &&& r@[i]->Open_settings == settings
            }
            &&& 0 <= i < j < n ==> r@[i]->Open_output != r@[j]->Open_output
            &&& r@[n] is KeepInMind
            &&& r@[n]->KeepInMind_settings == settings
            &&& r@[n]->KeepInMind_outputs@ == outputs@
            &&& r@[n + 1] is Dispatch
            &&& r@[n + 1]->timeout_millis == 10
        }),
{
    let opens = opens_on_each::<Message>(settings, outputs@);
    let n = r@.len() - 2;
    law_every_output_gets_one_window::<Message>(settings, outputs@, output);
    assert(n == opens.len());
    assert forall|k: int| 0 <= k < n implies #[trigger] r@[k] == opens[k] by {}
    let wanted = Effect::<Message>::Open { output: Some(output), settings };
    if outputs@.contains(output) {
        let k = opens.index_of(wanted);
        assert(opens[k] == wanted);
        assert(r@[k] is Open);
    }
    if exists|k: int|
        0 <= k < n && (#[trigger] r@[k]) is Open && r@[k]->Open_output == Some(output) {
        let k = choose|k: int|
            0 <= k < n && (#[trigger] r@[k]) is Open && r@[k]->Open_output == Some(output);
        assert(opens[k] is Open);
        assert(opens[k] == wanted);
        assert(opens.contains(wanted));
    }
    if 0 <= i < n {
        assert(opens[i] is Open);
    }
    if 0 <= i < j < n {
        assert(opens[j] is Open);
        assert(opens[i] != opens[j]);
    }
}

/// To close all windows is to destroy the surface of every open window, once each, and of
/// nothing else. Then the run waits. The windows stay until they are reported as closed.
pub proof fn law_every_window_is_destroyed<P: Copy, T, Message>(
    app: &mut Application<P, T>,
    outputs: Vec<OutputId>,
    now: T,
    r: Vec<Effect<Message>>,
    id: SurfaceId,
    i: int,
    j: int,
)
    requires
        call_ensures(
            Application::<P, T>::on_input::<Message>,
            (app, RunInput::Action { polled: Polled::Received(Action::<Message>::CloseAllWindow), outputs }, now),
            r,
        ),
    ensures
        final(app)@ == old(app)@,
        r@.len() >= 1,
        ({
            let n = r@.len() - 1;
            &&& old(app)@.surfaces.contains_key(id) <==> exists|k: int|
                0 <= k < n && #[trigger] r@[k] == Effect::<Message>::Destroy(id)
            &&& 0 <= i < n ==> r@[i] is Destroy
            &&& 0 <= i < j < n ==> r@[i]->Destroy_0 != r@[j]->Destroy_0
            &&& r@[n] is Dispatch
            &&& r@[n]->timeout_millis == 10
        }),
{
    let n = r@.len() - 1;
    let windows = old(app)@.surfaces.dom();
    assert(destroys_all(r@.drop_last(), windows));
    let order = choose|order: Seq<SurfaceId>|
        order.no_duplicates() && order.to_set() == windows && r@.drop_last()
            == #[trigger] destroys::<Message>(order);
    assert(n == order.len()) by {
        assert(r@.drop_last().len() == destroys::<Message>(order).len());
    }
    assert forall|k: int| 0 <= k < n implies #[trigger] r@[k] == Effect::<Message>::Destroy(
        order[k],
    ) by {
        assert(r@.drop_last()[k] == destroys::<Message>(order)[k]);
    }
    if old(app)@.surfaces.contains_key(id) {
        assert(order.to_set().contains(id));
        let k = order.index_of(id);
        assert(order[k] == id);
        assert(r@[k] == Effect::<Message>::Destroy(id));
    }
    if exists|k: int| 0 <= k < n && #[trigger] r@[k] == Effect::<Message>::Destroy(id) {
        let k = choose|k: int| 0 <= k < n && #[trigger] r@[k] == Effect::<Message>::Destroy(id);
        assert(order[k] == id);
        assert(order.to_set().contains(id));
    }
}

/// A request to end the run ends it, and has nothing else done.
pub proof fn law_the_program_can_end_the_run<P: Copy, T, Message>(
    app: &mut Application<P, T>,
    outputs: Vec<OutputId>,
    now: T,
    r: Vec<Effect<Message>>,
)
    requires
        call_ensures(
            Application::<P, T>::on_input::<Message>,
            (app, RunInput::Action { polled: Polled::Received(Action::<Message>::Exit), outputs }, now),
            r,
        ),
    ensures
        final(app)@ == old(app)@,
        r@.len() == 1,
        r@[0] is Exit,
{
}

/// The plan of a run that has not begun holds nothing.
pub proof fn law_a_new_plan_is_empty<Message>(r: Plan<Message>)
    requires
        call_ensures(Plan::<Message>::new, (), r),
    ensures
        r.effects@.len() == 0,
        !r.ended,
{
}

/// A failure ends the run with its error, whatever was planned: nothing of that is left,
/// and the application stays as it is.
pub proof fn law_a_failure_is_the_end<P: Copy, T, Message, E>(
    app: &mut Application<P, T>,
    plan: &mut Plan<Message>,
    e: E,
    now: T,
    r: Step<Message, E>,
)
    requires
        call_ensures(
            Application::<P, T>::run::<Message, E>,
            (app, plan, Outcome::Failed(e), now),
            r,
        ),
    ensures
        r is End,
        r->End_0 is Err,
        r->End_0->Err_0 == e,
        final(plan).ended,
        final(plan).effects@.len() == 0,
        final(app)@ == old(app)@,
{
}

/// What is planned is handed out one by one, from the first on. What is to be kept in mind
/// is not handed out: it is kept in mind when its turn comes, and the next thing is handed
/// out. The end of the run is not handed out either: when its turn comes, the run is over,
/// and went well.
pub proof fn law_what_is_planned_is_handed_out_in_order<P: Copy, T, Message, E>(
    app: &mut Application<P, T>,
    plan: &mut Plan<Message>,
    now: T,
    r: Step<Message, E>,
    output: OutputId,
)
    requires
        plan.effects@.len() > 0,
        call_ensures(
            Application::<P, T>::run::<Message, E>,
            (app, plan, Outcome::<Message, P, E>::Done, now),
            r,
        ),
    ensures
        final(app)@.surfaces == old(app)@.surfaces,
        final(plan).ended <==> r is End,
        ({
            let effects = old(plan).effects@;
            &&& !(effects[0] is KeepInMind) ==> final(app)@ == old(app)@
            &&& !(effects[0] is KeepInMind) && !(effects[0] is Exit) ==> {
                &&& r == Step::<Message, E>::Perform(effects[0])
                &&& final(plan).effects@ == effects.subrange(1, effects.len() as int)
            }
            &&& effects[0] is Exit ==> {
                &&& r is End
                &&& r->End_0 is Ok
                &&& final(plan).effects@.len() == 0
            }
            &&& effects[0] is KeepInMind && effects.len() > 1 && !(effects[1] is KeepInMind) ==> {
                let settings = effects[0]->KeepInMind_settings;
                let outputs = effects[0]->KeepInMind_outputs;
                &&& final(app)@.windows.len() == old(app)@.windows.len() + 1
                &&& old(app)@.windows.is_prefix_of(final(app)@.windows)
                &&& final(app)@.windows.last().0 == settings
                &&& final(app)@.windows.last().1.contains(output) <==> outputs@.contains(output)
                &&& !(effects[1] is Exit) ==> {
                    &&& r == Step::<Message, E>::Perform(effects[1])
                    &&& final(plan).effects@ == effects.subrange(2, effects.len() as int)
                }
                &&& effects[1] is Exit ==> r is End && r->End_0 is Ok
            }
        }),
{
    reveal_with_fuel(next_due, 3);
    let effects = old(plan).effects@;
    lemma_what_is_due_keeps_the_windows::<Message, P, T, E>(old(app)@, effects);
    assert(effects.skip(1) =~= effects.subrange(1, effects.len() as int));
    if effects.len() > 1 {
        assert(effects.skip(1)[0] == effects[1]);
        assert(effects.skip(1).skip(1) =~= effects.subrange(2, effects.len() as int));
    }
}

proof fn lemma_what_is_due_keeps_the_windows<Message, P, T, E>(
    app: ApplicationView<P, T>,
    plan: Seq<Effect<Message>>,
)
    ensures
        next_due::<Message, P, T, E>(app, plan).0.surfaces == app.surfaces,
        next_due::<Message, P, T, E>(app, plan).2 matches Step::Perform(effect) ==> !(
        effect is KeepInMind) && !(effect is Exit) && plan.contains(effect),
    decreases plan.len(),
{
    if plan.len() > 0 {
        if let Effect::KeepInMind { settings, outputs } = plan[0] {
            let next = plan.skip(1);
            lemma_what_is_due_keeps_the_windows::<Message, P, T, E>(
                app.keeping_in_mind(settings, outputs@),
                next,
            );
            if let Step::Perform(effect) = next_due::<Message, P, T, E>(app, plan).2 {
                let i = next.index_of(effect);
                assert(plan[i + 1] == effect);
            }
        }
    }
}

/// Only what somebody else is to carry out is handed out: never the end of the run, and
/// never what is to be kept in mind.
pub proof fn law_what_is_handed_out_is_to_be_done<P: Copy, T, Message, E>(
    app: &mut Application<P, T>,
    plan: &mut Plan<Message>,
    outcome: Outcome<Message, P, E>,
    now: T,
    r: Step<Message, E>,
)
    requires
        call_ensures(
            Application::<P, T>::run::<Message, E>,
            (app, plan, outcome, now),
            r,
        ),
    ensures
        r matches Step::Perform(effect) ==> !(effect is KeepInMind) && !(effect is Exit),
        final(plan).ended <==> r is End,
{
    match outcome {
        Outcome::Failed(_) => {},
        Outcome::Done => lemma_what_is_due_keeps_the_windows::<Message, P, T, E>(
            old(app)@,
            old(plan).effects@,
        ),
        Outcome::Happened(input) => {
            let (answered, effects) = choose|
                answered: ApplicationView<P, T>,
                effects: Seq<Effect<Message>>,
            |
                #[trigger] input_answers(old(app)@, input, now, answered, effects) && (
                final(app)@,
                final(plan).effects@,
                r,
                ) == next_due::<Message, P, T, E>(answered, effects);
            lemma_what_is_due_keeps_the_windows::<Message, P, T, E>(answered, effects);
        },
    }
}

/// What has happened is answered in the run as it is by itself, and the first thing of the
/// answer is handed out and the rest planned; a request to end the run ends it. Whether all
/// windows are to be closed is left out here, for these are closed in any order.
pub proof fn law_the_run_plans_the_answer<P: Copy, T, Message, E>(
    app: &mut Application<P, T>,
    twin: &mut Application<P, T>,
    plan: &mut Plan<Message>,
    input: RunInput<Message, P>,
    now: T,
    r: Step<Message, E>,
    alone: Vec<Effect<Message>>,
)
    requires
        *app == *twin,
        call_ensures(
            Application::<P, T>::run::<Message, E>,
            (app, plan, Outcome::<Message, P, E>::Happened(input), now),
            r,
        ),
        call_ensures(Application::<P, T>::on_input::<Message>, (twin, input, now), alone),
        !(input is Action && input->polled == Polled::Received(Action::<Message>::CloseAllWindow)),
    ensures
        alone@.len() > 0,
        alone@[0] is Exit ==> r is End && r->End_0 is Ok,
        !(alone@[0] is Exit) && !(alone@[0] is KeepInMind) ==> {
            &&& r == Step::<Message, E>::Perform(alone@[0])
            &&& final(plan).effects@ == alone@.subrange(1, alone@.len() as int)
            &&& final(app)@ == final(twin)@
        },
        alone@[0] is KeepInMind ==> {
            &&& alone@.len() == 2
            &&& r == Step::<Message, E>::Perform(alone@[1])
            &&& final(plan).effects@.len() == 0
            &&& final(app)@.surfaces == final(twin)@.surfaces
            &&& final(app)@.windows.len() == final(twin)@.windows.len() + 1
            &&& final(twin)@.windows.is_prefix_of(final(app)@.windows)
            &&& final(app)@.windows.last().0 == alone@[0]->KeepInMind_settings
            &&& final(app)@.windows.last().1 == alone@[0]->KeepInMind_outputs@.to_set()
        },
{
    reveal_with_fuel(next_due, 3);
    let (answered, effects) = choose|answered: ApplicationView<P, T>, effects: Seq<Effect<Message>>|
        #[trigger] input_answers(old(app)@, input, now, answered, effects) && (
        final(app)@,
        final(plan).effects@,
        r,
        ) == next_due::<Message, P, T, E>(answered, effects);
    assert(effects =~= alone@);
    assert(answered == final(twin)@);
    assert(alone@.skip(1) =~= alone@.subrange(1, alone@.len() as int));
    if let RunInput::Action { polled, outputs } = input {
        if let Polled::Received(Action::OpenWindow(settings)) = polled {
            law_every_output_gets_one_window::<Message>(settings, outputs@, 0);
            let opens = opens_on_each::<Message>(settings, outputs@);
            if opens.len() > 0 {
                assert(opens[0] is Open);
            }
        }
    }
    if let RunInput::Wayland(Polled::Received(WaylandEvent::NewOutput(output))) = input {
        crate::laws::law_the_run_goes_on(old(app)@, input, now, answered, effects);
        crate::laws::lemma_opens_are_opens::<Message>(old(app)@.windows, output);
    }
}

/// Where all windows are to be closed, the run hands out or plans the destruction of the
/// surface of every open window, once each, and then waits.
pub proof fn law_the_run_destroys_every_window<P: Copy, T, Message, E>(
    app: &mut Application<P, T>,
    plan: &mut Plan<Message>,
    outputs: Vec<OutputId>,
    now: T,
    r: Step<Message, E>,
    id: SurfaceId,
)
    requires
        call_ensures(
            Application::<P, T>::run::<Message, E>,
            (app, plan, Outcome::<Message, P, E>::Happened(
                RunInput::Action {
                    polled: Polled::Received(Action::CloseAllWindow),
                    outputs,
                },
            ), now),
            r,
        ),
    ensures
        final(app)@ == old(app)@,
        r is Perform,
        ({
            let all = seq![r->Perform_0] + final(plan).effects@;
            &&& all.last() is Dispatch
            &&& forall|i: int| 0 <= i < all.len() - 1 ==> (#[trigger] all[i]) is Destroy
            &&& forall|i: int, j: int|
                0 <= i < j < all.len() - 1 ==> (#[trigger] all[i])->Destroy_0 != (
                #[trigger] all[j])->Destroy_0
            &&& old(app)@.surfaces.contains_key(id) <==> all.contains(
                Effect::<Message>::Destroy(id),
            )
        }),
{
    let input = RunInput::<Message, P>::Action {
        polled: Polled::Received(Action::CloseAllWindow),
        outputs,
    };
    let (answered, effects) = choose|answered: ApplicationView<P, T>, effects: Seq<Effect<Message>>|
        #[trigger] input_answers(old(app)@, input, now, answered, effects) && (
        final(app)@,
        final(plan).effects@,
        r,
        ) == next_due::<Message, P, T, E>(answered, effects);
    let windows = old(app)@.surfaces.dom();
    assert(destroys_all(effects.drop_last(), windows));
    let order = choose|order: Seq<SurfaceId>|
        order.no_duplicates() && order.to_set() == windows && effects.drop_last()
            == #[trigger] destroys::<Message>(order);
    let n = effects.len() - 1;
    assert(n == order.len()) by {
        assert(effects.drop_last().len() == destroys::<Message>(order).len());
    }
    assert forall|k: int| 0 <= k < n implies #[trigger] effects[k] == Effect::<Message>::Destroy(
        order[k],
    ) by {
        assert(effects.drop_last()[k] == destroys::<Message>(order)[k]);
    }
    assert(!(effects[0] is KeepInMind) && !(effects[0] is Exit));
    let all = seq![r->Perform_0] + final(plan).effects@;
    assert(all =~= effects);
    if windows.contains(id) {
        assert(order.to_set().contains(id));
        let k = order.index_of(id);
        assert(all[k] == Effect::<Message>::Destroy(id));
    }
    if all.contains(Effect::<Message>::Destroy(id)) {
        let k = all.index_of(Effect::<Message>::Destroy(id));
        assert(order[k] == id);
        assert(order.to_set().contains(id));
    }
}

/// A failure can always be taken. That an effect was carried out can be taken exactly if
/// another one is planned; that something has happened, exactly if none is, and if it is no
/// report that cannot be taken.
pub proof fn law_what_fits_the_plan_can_be_taken<P, T, Message, E>(
    app: &Application<P, T>,
    plan: &Plan<Message>,
    outcome: &Outcome<Message, P, E>,
    acceptable: bool,
    r: bool,
)
    requires
        call_ensures(Application::<P, T>::takes::<Message, E>, (app, plan, outcome), r),
        outcome matches Outcome::Happened(RunInput::Wayland(Polled::Received(event)))
            ==> call_ensures(Application::<P, T>::accepts, (app, event), acceptable),
    ensures
        outcome is Failed ==> r,
        outcome is Done ==> (r <==> plan.effects@.len() > 0),
        outcome matches Outcome::Happened(input) ==> {
            let report = input is Wayland && input->Wayland_0 is Received;
            r <==> plan.effects@.len() == 0 && (report ==> acceptable)
        },
{
}

} // verus!
