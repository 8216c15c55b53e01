//! What holds of the application as a whole.
use vstd::prelude::*;

pub mod frames;
pub mod opening;
pub mod reports;
pub mod requests;
pub mod windows;

use crate::action::{Action, WindowSettings};
use crate::application::{destroys, destroys_all, opens_on, opens_on_each};
use crate::application::{end_of_frame, input_answers, pointed, postponed_frame};
use crate::application::{output_added, output_removed, ApplicationView, DISPATCH_MILLIS};
use crate::application::{DrawStep, Effect, Polled, RunInput};
use crate::client::{configured, side};
use crate::event::{mouse_event_of, Cursor, Event, OutputId, PointerEvent};
use crate::event::{PointerEventKind, SurfaceId, WaylandEvent};
use crate::run::{next_due, plan_wf, run_answers, Outcome, Step};
use crate::scale::SurfaceScale;
use crate::surface_state::{size_nonzero, SurfaceView};

verus! {

/// What the pointer does opens and closes no window, and of a window it changes
/// nothing but where its cursor is and what its user interface is yet to be told,
/// to which it only adds.
pub proof fn law_pointer_events_only_tell<P, T>(
    surfaces: Map<SurfaceId, SurfaceView<P, T>>,
    events: Seq<PointerEvent<P>>,
)
    ensures
        pointed(surfaces, events).dom() == surfaces.dom(),
        forall|id: SurfaceId| #[trigger]
            pointed(surfaces, events).contains_key(id) ==> {
                let before = surfaces[id];
                let after = pointed(surfaces, events)[id];
                &&& after == SurfaceView {
                    cursor: after.cursor,
                    pending_event: after.pending_event,
                    ..before
                }
                &&& before.pending_event.is_prefix_of(after.pending_event)
            },
    decreases events.len(),
{
    if events.len() > 0 {
        law_pointer_events_only_tell(surfaces, events.drop_last());
        assert(pointed(surfaces, events).dom() =~= surfaces.dom());
    }
}

/// The pointer can be followed piece by piece: what it did first and what it did then
/// is what it did in all.
pub proof fn law_pointer_events_compose<P, T>(
    surfaces: Map<SurfaceId, SurfaceView<P, T>>,
    first: Seq<PointerEvent<P>>,
    next: Seq<PointerEvent<P>>,
)
    ensures
        pointed(surfaces, first + next) == pointed(pointed(surfaces, first), next),
    decreases next.len(),
{
    if next.len() == 0 {
        assert(first + next =~= first);
    } else {
        assert((first + next).drop_last() =~= first + next.drop_last());
        law_pointer_events_compose(surfaces, first, next.drop_last());
    }
}

/// What the pointer did to one surface.
pub open spec fn own_events<P>(events: Seq<PointerEvent<P>>, id: SurfaceId) -> Seq<
    PointerEvent<P>,
> {
    events.filter(|event: PointerEvent<P>| event.surface == id)
}

/// Whether the cursor is put where the pointer is.
pub open spec fn shows_cursor(kind: PointerEventKind) -> bool {
    kind is Enter || kind is Motion
}

/// A window is told everything that the pointer did to it, in order, and nothing
/// else, and its cursor is where the last enter or motion put it.
pub proof fn law_pointer_events_are_told_in_order<P, T>(
    surfaces: Map<SurfaceId, SurfaceView<P, T>>,
    events: Seq<PointerEvent<P>>,
    id: SurfaceId,
)
    requires
        surfaces.contains_key(id),
    ensures
        pointed(surfaces, events).contains_key(id),
        ({
            let own = own_events(events, id);
            let after = pointed(surfaces, events)[id];
            &&& after.pending_event == surfaces[id].pending_event + own.map_values(
                |event: PointerEvent<P>|
                    Event::<P, T>::Mouse(mouse_event_of(event.kind, event.position)),
            )
            &&& forall|i: int|
                0 <= i < own.len() && shows_cursor((#[trigger] own[i]).kind) && (forall|j: int|
                    i < j < own.len() ==> !shows_cursor((#[trigger] own[j]).kind))
                    ==> after.cursor == Cursor::Available(own[i].position)
            &&& (forall|i: int| 0 <= i < own.len() ==> !shows_cursor((#[trigger] own[i]).kind))
                ==> after.cursor == surfaces[id].cursor
        }),
    decreases events.len(),
{
    reveal(Seq::filter);
    let tell = |event: PointerEvent<P>|
        Event::<P, T>::Mouse(mouse_event_of(event.kind, event.position));
    let own = own_events(events, id);
    let after = pointed(surfaces, events)[id];
    if events.len() == 0 {
        assert(after.pending_event =~= surfaces[id].pending_event + own.map_values(tell));
    } else {
        let last = events.last();
        let own_before = own_events(events.drop_last(), id);
        let before = pointed(surfaces, events.drop_last())[id];
        law_pointer_events_are_told_in_order(surfaces, events.drop_last(), id);
        law_pointer_events_only_tell(surfaces, events.drop_last());
        if last.surface == id {
            assert(own =~= own_before.push(last));
            assert(after.pending_event =~= surfaces[id].pending_event + own.map_values(tell));
            assert forall|i: int|
                0 <= i < own.len() && shows_cursor((#[trigger] own[i]).kind) && (forall|j: int|
                    i < j < own.len() ==> !shows_cursor(
                        (#[trigger] own[j]).kind,
                    )) implies after.cursor == Cursor::Available(own[i].position) by {
                if i < own_before.len() {
                    assert(own[i] == own_before[i]);
                    assert(own[own.len() - 1] == last);
                    assert forall|j: int| i < j < own_before.len() implies !shows_cursor(
                        (#[trigger] own_before[j]).kind,
                    ) by {
                        assert(own[j] == own_before[j]);
                    }
                }
            }
            if forall|i: int| 0 <= i < own.len() ==> !shows_cursor((#[trigger] own[i]).kind) {
                assert(own[own.len() - 1] == last);
                assert forall|i: int| 0 <= i < own_before.len() implies !shows_cursor(
                    (#[trigger] own_before[i]).kind,
                ) by {
                    assert(own[i] == own_before[i]);
                }
            }
        } else {
            assert(own =~= own_before);
            assert(after == before);
        }
    }
}

/// Every report that is taken keeps the application well formed.
pub proof fn law_events_keep_the_application_well_formed<P, T>(
    app: ApplicationView<P, T>,
    event: WaylandEvent<P>,
    now: T,
)
    requires
        app.wf(),
        app.accepts(event),
    ensures
        app.after_event(event, now).wf(),
{
    if let WaylandEvent::PointerEvents(events) = event {
        law_pointer_events_only_tell(app.surfaces, events@);
        assert forall|id: SurfaceId| #[trigger]
            app.after_event(event, now).surfaces.contains_key(id) implies app.after_event(
            event,
            now,
        ).surfaces[id].wf() by {
            assert(pointed(app.surfaces, events@).contains_key(id));
            assert(app.surfaces.contains_key(id));
        }
    }
}

/// No report makes a user interface miss what it is yet to be told: as long as a
/// window stays, reports only add to that, at its end.
pub proof fn law_nothing_told_is_lost<P, T>(
    app: ApplicationView<P, T>,
    event: WaylandEvent<P>,
    now: T,
    id: SurfaceId,
)
    requires
        app.surfaces.contains_key(id),
        app.after_event(event, now).surfaces.contains_key(id),
    ensures
        app.surfaces[id].pending_event.is_prefix_of(
            app.after_event(event, now).surfaces[id].pending_event,
        ),
{
    if let WaylandEvent::PointerEvents(events) = event {
        law_pointer_events_only_tell(app.surfaces, events@);
        assert(pointed(app.surfaces, events@).contains_key(id));
    }
}

/// Reports never open a window, and only a report that one is to be closed closes
/// it.
pub proof fn law_only_closing_closes<P, T>(
    app: ApplicationView<P, T>,
    event: WaylandEvent<P>,
    now: T,
)
    ensures
        app.after_event(event, now).surfaces.dom() == (match event {
            WaylandEvent::SurfaceClose(wl_surface) => app.surfaces.dom().remove(wl_surface),
            _ => app.surfaces.dom(),
        }),
{
    if let WaylandEvent::PointerEvents(events) = event {
        law_pointer_events_only_tell(app.surfaces, events@);
    }
    assert(app.after_event(event, now).surfaces.dom() =~= match event {
        WaylandEvent::SurfaceClose(wl_surface) => app.surfaces.dom().remove(wl_surface),
        _ => app.surfaces.dom(),
    });
}

/// The surface that a report is about, where it is about one.
pub open spec fn subject<P>(event: WaylandEvent<P>) -> Option<SurfaceId> {
    match event {
        WaylandEvent::SurfaceConfigure { wl_surface, width, height } => Some(wl_surface),
        WaylandEvent::SurfaceFrame(wl_surface) => Some(wl_surface),
        WaylandEvent::SurfaceClose(wl_surface) => Some(wl_surface),
        WaylandEvent::SurfaceScale { wl_surface, scale } => Some(wl_surface),
        _ => None,
    }
}

/// A report about one surface leaves every other window as it was, and what is
/// kept in mind for every output. About a surface without a window it changes
/// nothing at all.
pub proof fn law_a_report_touches_one_window<P, T>(
    app: ApplicationView<P, T>,
    event: WaylandEvent<P>,
    now: T,
    id: SurfaceId,
)
    requires
        subject(event) is Some,
    ensures
        app.after_event(event, now).windows == app.windows,
        id != subject(event)->0 ==> {
            &&& app.after_event(event, now).surfaces.contains_key(id)
                == app.surfaces.contains_key(id)
            &&& app.after_event(event, now).surfaces[id] == app.surfaces[id]
        },
        !app.surfaces.contains_key(subject(event)->0) ==> app.after_event(event, now) == app,
{
    if !app.surfaces.contains_key(subject(event)->0) {
        assert(app.after_event(event, now).surfaces =~= app.surfaces);
    }
}

/// A window that is given a size and a scale ends up the same, whichever comes
/// first, but for what its user interface is told on the way.
pub proof fn law_size_and_scale_commute<P, T>(
    it: SurfaceView<P, T>,
    size: (u32, u32),
    scale: SurfaceScale,
)
    requires
        it.wf(),
    ensures
        ({
            let one = it.with_size(size).resized().with_scale(scale).resized();
            let rescaled = if it.size is Some {
                it.with_scale(scale).resized()
            } else {
                it.with_scale(scale)
            };
            let other = rescaled.with_size(size).resized();
            &&& one == SurfaceView { pending_event: one.pending_event, ..other }
            &&& one.resize_requests() == other.resize_requests()
        }),
{
}

/// A new output gets its windows once: when it is reported again, nothing is
/// opened and nothing changes.
pub proof fn law_new_output_opens_once<Message>(
    windows: Seq<(WindowSettings, Set<OutputId>)>,
    output: OutputId,
)
    ensures
        opens_on::<Message>(output_added(windows, output), output) == Seq::<
            Effect<Message>,
        >::empty(),
        output_added(output_added(windows, output), output) == output_added(windows, output),
    decreases windows.len(),
{
    let added = output_added(windows, output);
    assert(output_added(added, output) =~= added) by {
        assert forall|i: int| 0 <= i < added.len() implies #[trigger] output_added(
            added,
            output,
        )[i] == added[i] by {
            assert(added[i].1.insert(output) =~= added[i].1 || !added[i].0.open_on_every_output);
        }
    }
    if windows.len() > 0 {
        assert(added.drop_last() =~= output_added(windows.drop_last(), output));
        law_new_output_opens_once::<Message>(windows.drop_last(), output);
    }
}

/// What comes or goes on one output changes nothing for another: it still gets the
/// windows that it would have got.
pub proof fn law_outputs_are_independent<Message>(
    windows: Seq<(WindowSettings, Set<OutputId>)>,
    output: OutputId,
    other: OutputId,
)
    requires
        output != other,
    ensures
        opens_on::<Message>(output_added(windows, output), other) == opens_on::<Message>(
            windows,
            other,
        ),
        opens_on::<Message>(output_removed(windows, output), other) == opens_on::<Message>(
            windows,
            other,
        ),
    decreases windows.len(),
{
    if windows.len() > 0 {
        assert(output_added(windows, output).drop_last() =~= output_added(
            windows.drop_last(),
            output,
        ));
        assert(output_removed(windows, output).drop_last() =~= output_removed(
            windows.drop_last(),
            output,
        ));
        law_outputs_are_independent::<Message>(windows.drop_last(), output, other);
    }
}

/// An output that goes and comes back gets all of its windows again.
pub proof fn law_returning_output_gets_its_windows<Message>(
    windows: Seq<(WindowSettings, Set<OutputId>)>,
    output: OutputId,
)
    requires
        forall|i: int| 0 <= i < windows.len() ==> (#[trigger] windows[i]).0.open_on_every_output,
    ensures
        opens_on::<Message>(output_removed(windows, output), output) == windows.map_values(
            |entry: (WindowSettings, Set<OutputId>)|
                Effect::<Message>::Open { output: Some(output), settings: entry.0 },
        ),
    decreases windows.len(),
{
    let removed = output_removed(windows, output);
    let opens = windows.map_values(
        |entry: (WindowSettings, Set<OutputId>)|
            Effect::<Message>::Open { output: Some(output), settings: entry.0 },
    );
    if windows.len() > 0 {
        assert(windows.last().0.open_on_every_output);
        assert(removed.drop_last() =~= output_removed(windows.drop_last(), output));
        law_returning_output_gets_its_windows::<Message>(windows.drop_last(), output);
    }
    assert(opens_on::<Message>(removed, output) =~= opens);
}

/// A window that is wanted on every output is opened exactly once on each output
/// that there is.
pub proof fn law_every_output_gets_one_window<Message>(
    settings: WindowSettings,
    outputs: Seq<OutputId>,
    output: OutputId,
)
    ensures
        ({
            let opens = opens_on_each::<Message>(settings, outputs);
            let wanted = Effect::<Message>::Open { output: Some(output), settings };
            &&& opens.no_duplicates()
            &&& opens.contains(wanted) <==> outputs.contains(output)
            &&& forall|i: int|
                0 <= i < opens.len() ==> {
                    &&& #[trigger] opens[i] is Open
                    &&& opens[i]->Open_settings == settings
                    &&& opens[i]->Open_output is Some
                }
        }),
    decreases outputs.len(),
{
    if outputs.len() > 0 {
        let before = outputs.drop_last();
        let last = outputs.last();
        law_every_output_gets_one_window::<Message>(settings, before, output);
        law_every_output_gets_one_window::<Message>(settings, before, last);
        let opened = opens_on_each::<Message>(settings, before);
        let wanted = Effect::<Message>::Open { output: Some(output), settings };
        assert(outputs =~= before.push(last));
        assert(outputs.contains(output) <==> before.contains(output) || output == last) by {
            if before.contains(output) {
                let i = before.index_of(output);
                assert(outputs[i] == output);
            }
            if output == last {
                assert(outputs[outputs.len() - 1] == output);
            }
        }
        if !before.contains(last) {
            let opens = opened.push(Effect::<Message>::Open { output: Some(last), settings });
            if opened.contains(wanted) {
                let i = opened.index_of(wanted);
                assert(opens[i] == wanted);
            }
            if output == last {
                assert(opens[opens.len() - 1] == wanted);
            }
        }
    }
}

/// After a window was wanted on every output, only an output that there was not
/// yet still gets it.
pub proof fn law_later_output_gets_what_it_lacks<Message>(
    windows: Seq<(WindowSettings, Set<OutputId>)>,
    settings: WindowSettings,
    outputs: Seq<OutputId>,
    output: OutputId,
)
    requires
        settings.open_on_every_output,
    ensures
        opens_on::<Message>(windows.push((settings, outputs.to_set())), output) == (
        if outputs.contains(output) {
            opens_on::<Message>(windows, output)
        } else {
            opens_on::<Message>(windows, output).push(
                Effect::Open { output: Some(output), settings },
            )
        }),
{
    let all = windows.push((settings, outputs.to_set()));
    assert(all.drop_last() =~= windows);
    assert(outputs.to_set().contains(output) <==> outputs.contains(output));
}

/// A layer surface is configured exactly when the compositor gave it two sides that
/// are not zero, and then with these; so no surface is ever configured with a zero
/// side.
pub proof fn law_configured_sizes_have_no_zero_side<P>(id: SurfaceId, width: u32, height: u32)
    ensures
        configured::<P>(id, (side(width), side(height))) == if width != 0 && height != 0 {
            Some(WaylandEvent::<P>::SurfaceConfigure { wl_surface: id, width, height })
        } else {
            None
        },
{
}

/// A window that was opened but not configured yet takes every scale and every size:
/// it is shown at a scale of one, and has no size that another scale could make too
/// large.
pub proof fn law_an_opened_window_takes_any_size<P, T>(
    app: ApplicationView<P, T>,
    id: SurfaceId,
    exclusive_zone: bool,
    size: (u32, u32),
    scale: SurfaceScale,
)
    requires
        size_nonzero(size),
    ensures
        ({
            let opened = app.with_surface(id, SurfaceView::opened(exclusive_zone));
            &&& opened.accepts(
                WaylandEvent::SurfaceConfigure { wl_surface: id, width: size.0, height: size.1 },
            )
            &&& opened.accepts(WaylandEvent::SurfaceScale { wl_surface: id, scale })
        }),
{
    crate::scale::law_whole_fractional_scale_is_a_buffer_scale(size.0, 1);
    crate::scale::law_whole_fractional_scale_is_a_buffer_scale(size.1, 1);
}

/// Contents that fit are left alone: once a window was fitted to its contents, the
/// same contents ask for no other height, unless they have a zero side.
pub proof fn law_fitting_settles<P, T>(it: SurfaceView<P, T>, bounds: (u32, u32))
    requires
        size_nonzero(bounds),
    ensures
        !it.fitted(Some(bounds)).misfits(bounds),
        it.fitted(Some(bounds)).fitted(Some(bounds)) == it.fitted(Some(bounds)),
{
}

pub(crate) proof fn lemma_opens_are_opens<Message>(
    windows: Seq<(WindowSettings, Set<OutputId>)>,
    output: OutputId,
)
    ensures
        forall|i: int|
            0 <= i < opens_on::<Message>(windows, output).len() ==> (#[trigger] opens_on::<Message>(
                windows,
                output,
            )[i]) is Open,
    decreases windows.len(),
{
    if windows.len() > 0 {
        let before = opens_on::<Message>(windows.drop_last(), output);
        lemma_opens_are_opens::<Message>(windows.drop_last(), output);
        assert forall|i: int| 0 <= i < opens_on::<Message>(windows, output).len() implies (
        #[trigger] opens_on::<Message>(windows, output)[i]) is Open by {
            if i < before.len() {
                assert(opens_on::<Message>(windows, output)[i] == before[i]);
            }
        }
    }
}

/// Every answer of the run says how it goes on exactly once, at its end: after the
/// start and after a request comes the wait for the compositor, after the wait a
/// look at the reports, after a report a look at the requests. Only a request to
/// end the run ends it. Only windows for every output are to be kept in mind.
pub proof fn law_the_run_goes_on<Message, P, T>(
    before: ApplicationView<P, T>,
    input: RunInput<Message, P>,
    now: T,
    after: ApplicationView<P, T>,
    effects: Seq<Effect<Message>>,
)
    requires
        input_answers(before, input, now, after, effects),
    ensures
        effects.len() > 0,
        plan_wf(effects),
        match input {
            RunInput::Started => effects.last() is Dispatch,
            RunInput::Dispatched => effects.last() is PollWayland,
            RunInput::Wayland(_) => effects.last() is PollActions,
            RunInput::Action { polled, outputs } => if polled
                == Polled::Received(Action::<Message>::Exit) {
                effects.last() is Exit
            } else {
                effects.last() is Dispatch
            },
        },
{
    if let RunInput::Wayland(Polled::Received(event)) = input {
        if let WaylandEvent::NewOutput(output) = event {
            lemma_opens_are_opens::<Message>(before.windows, output);
        }
    }
    if let RunInput::Action { polled, outputs } = input {
        if let Polled::Received(Action::OpenWindow(settings)) =
            polled {
            law_every_output_gets_one_window::<Message>(settings, outputs@, 0);
        }
        if polled == Polled::Received(
            Action::<Message>::CloseAllWindow,
        ) {
            assert(destroys_all(effects.drop_last(), before.surfaces.dom()));
            let order = choose|order: Seq<SurfaceId>|
                effects.drop_last() == #[trigger] destroys::<Message>(order);
            assert forall|i: int| 0 <= i < effects.len() - 1 implies (
            #[trigger] effects[i]) is Destroy by {
                assert(effects.drop_last().len() == destroys::<Message>(order).len());
                assert(effects.drop_last()[i] == destroys::<Message>(order)[i]);
                assert(destroys::<Message>(order)[i] == Effect::<Message>::Destroy(order[i]));
            }
        }
    }
}

/// Whether a frame asks to be told when to draw again, exactly once, and lets the
/// compositor see that at once, and both only after what was drawn is shown.
pub open spec fn arms_the_next_frame(steps: Seq<DrawStep>) -> bool {
    exists|i: int|
        #![trigger steps[i]]
        {
            &&& 0 <= i < steps.len() - 1
            &&& forall|j: int|
                0 <= j < steps.len() ==> ((#[trigger] steps[j]) is RequestFrame <==> j == i)
            &&& forall|j: int|
                0 <= j < steps.len() ==> ((#[trigger] steps[j]) is Commit <==> j == i + 1)
            &&& forall|j: int| 0 <= j < steps.len() && (#[trigger] steps[j]) is Present ==> j < i
        }
}

/// Every drawing of a window arms the next one, whether there was something to draw on
/// or not.
pub proof fn law_the_next_frame_is_armed<P, T>(
    it: SurfaceView<P, T>,
    size: (u32, u32),
    bounds: Option<(u32, u32)>,
)
    ensures
        arms_the_next_frame(postponed_frame()),
        arms_the_next_frame(end_of_frame(it, size, bounds)),
{
    assert(postponed_frame()[0] is RequestFrame);
    let steps = end_of_frame(it, size, bounds);
    assert(steps[steps.len() - 4] is RequestFrame);
}

/// One call of [`crate::application::Application::run`]: what it found, what it was told
/// and what it answered.
pub struct Call<Message, P, T, E> {
    pub before: ApplicationView<P, T>,
    pub plan: Seq<Effect<Message>>,
    pub outcome: Outcome<Message, P, E>,
    pub now: T,
    pub after: ApplicationView<P, T>,
    pub rest: Seq<Effect<Message>>,
    pub step: Step<Message, E>,
}

/// Whether the call number `i` answers what it was told, and goes on with what the one
/// before it left, which has not ended the run. In between the application may have
/// changed: the effects that are carried out open and draw windows.
pub open spec fn follows<Message, P, T, E>(calls: Seq<Call<Message, P, T, E>>, i: int) -> bool {
    let call = calls[i];
    &&& run_answers(
        call.before,
        call.plan,
        call.outcome,
        call.now,
        call.after,
        call.rest,
        call.step,
    )
    &&& i > 0 ==> call.plan == calls[i - 1].rest && calls[i - 1].step is Perform
}

/// Whether these calls are a run, or a part of one.
pub open spec fn is_run<Message, P, T, E>(calls: Seq<Call<Message, P, T, E>>) -> bool {
    forall|i: int| 0 <= i < calls.len() ==> #[trigger] follows(calls, i)
}

proof fn lemma_what_is_due_is_no_error<Message, P, T, E>(
    app: ApplicationView<P, T>,
    plan: Seq<Effect<Message>>,
)
    ensures
        next_due::<Message, P, T, E>(app, plan).2 matches Step::End(result) ==> result is Ok,
    decreases plan.len(),
{
    if plan.len() > 0 {
        if let Effect::KeepInMind { settings, outputs } = plan[0] {
            lemma_what_is_due_is_no_error::<Message, P, T, E>(
                app.keeping_in_mind(settings, outputs@),
                plan.skip(1),
            );
        }
    }
}

/// A run ends with an error exactly when an effect failed, and with that error. The
/// first failure is the end: no effect is handed out after it, no report and no request
/// is handled, and the application stays as it was.
pub proof fn law_the_first_failure_ends_the_run<Message, P, T, E>(
    calls: Seq<Call<Message, P, T, E>>,
    i: int,
    e: E,
)
    requires
        is_run(calls),
        0 <= i < calls.len(),
    ensures
        calls[i].step == Step::<Message, E>::End(Err(e)) <==> calls[i].outcome == Outcome::<
            Message,
            P,
            E,
        >::Failed(e),
        calls[i].outcome is Failed ==> {
            &&& i == calls.len() - 1
            &&& calls[i].after == calls[i].before
            &&& calls[i].rest == Seq::<Effect<Message>>::empty()
        },
{
    let call = calls[i];
    assert(follows(calls, i));
    if i < calls.len() - 1 {
        assert(follows(calls, i + 1));
    }
    match call.outcome {
        Outcome::Failed(_) => {},
        Outcome::Done => lemma_what_is_due_is_no_error::<Message, P, T, E>(call.before, call.plan),
        Outcome::Happened(input) => {
            let (answered, effects) = choose|
                answered: ApplicationView<P, T>,
                effects: Seq<Effect<Message>>,
            |
                #[trigger] input_answers(call.before, input, call.now, answered, effects) && (
                call.after,
                call.rest,
                call.step,
                ) == next_due::<Message, P, T, E>(answered, effects);
            lemma_what_is_due_is_no_error::<Message, P, T, E>(answered, effects);
        },
    }
}

/// Windows that are to be opened are handed out one by one, in order, as long as none
/// fails.
proof fn lemma_opens_are_handed_out<Message, P, T, E>(
    calls: Seq<Call<Message, P, T, E>>,
    opens: Seq<Effect<Message>>,
    tail: Seq<Effect<Message>>,
    answered: ApplicationView<P, T>,
    i: int,
)
    requires
        is_run(calls),
        0 <= i < calls.len(),
        i < opens.len(),
        forall|j: int| 0 <= j < opens.len() ==> (#[trigger] opens[j]) is Open,
        (calls[0].after, calls[0].rest, calls[0].step) == next_due::<Message, P, T, E>(
            answered,
            opens + tail,
        ),
        forall|j: int| 0 < j <= i ==> (#[trigger] calls[j]).outcome is Done,
    ensures
        calls[i].step == Step::<Message, E>::Perform(opens[i]),
        calls[i].rest == (opens + tail).skip(i + 1),
        calls[i].after == if i == 0 {
            answered
        } else {
            calls[i].before
        },
    decreases i,
{
    assert((opens + tail)[i] == opens[i]);
    if i > 0 {
        lemma_opens_are_handed_out(calls, opens, tail, answered, i - 1);
        assert(follows(calls, i));
        assert((opens + tail).skip(i)[0] == opens[i]);
        assert((opens + tail).skip(i).skip(1) =~= (opens + tail).skip(i + 1));
    }
}

/// Where a new output gets windows and one of them fails to open, the run ends with that
/// error: the windows before it were opened in order, none after it is, and the output
/// is kept in mind all the same.
pub proof fn law_a_failed_open_on_a_new_output<Message, P, T, E>(
    calls: Seq<Call<Message, P, T, E>>,
    output: OutputId,
    failed: int,
    e: E,
)
    requires
        is_run(calls),
        0 < failed < calls.len(),
        calls[0].outcome == Outcome::<Message, P, E>::Happened(
            RunInput::Wayland(Polled::Received(WaylandEvent::NewOutput(output))),
        ),
        failed <= opens_on::<Message>(calls[0].before.windows, output).len(),
        forall|i: int| 0 < i < failed ==> (#[trigger] calls[i]).outcome is Done,
        calls[failed].outcome == Outcome::<Message, P, E>::Failed(e),
    ensures
        calls[0].after.windows == output_added(calls[0].before.windows, output),
        forall|i: int|
            0 <= i < failed ==> (#[trigger] calls[i]).step == Step::<Message, E>::Perform(
                opens_on::<Message>(calls[0].before.windows, output)[i],
            ),
        forall|i: int| 0 < i <= failed ==> (#[trigger] calls[i]).after == calls[i].before,
        calls[failed].step == Step::<Message, E>::End(Err(e)),
        failed == calls.len() - 1,
{
    let opens = opens_on::<Message>(calls[0].before.windows, output);
    let tail = seq![Effect::<Message>::PollActions];
    assert(follows(calls, 0));
    let answered = calls[0].before.after_event(WaylandEvent::NewOutput(output), calls[0].now);
    assert(opens.push(Effect::PollActions) =~= opens + tail);
    lemma_opens_are_opens::<Message>(calls[0].before.windows, output);
    assert forall|i: int| 0 <= i < failed implies {
        &&& (#[trigger] calls[i]).step == Step::<Message, E>::Perform(opens[i])
        &&& calls[i].after == if i == 0 {
            answered
        } else {
            calls[i].before
        }
    } by {
        lemma_opens_are_handed_out(calls, opens, tail, answered, i);
    }
    law_the_first_failure_ends_the_run(calls, failed, e);
}

/// Where a window is wanted on every output and one of them fails to open, the run ends
/// with that error: the windows before it were opened in order, none after it is, and
/// nothing is kept in mind.
pub proof fn law_a_failed_open_keeps_nothing_in_mind<Message, P, T, E>(
    calls: Seq<Call<Message, P, T, E>>,
    settings: WindowSettings,
    outputs: Vec<OutputId>,
    failed: int,
    e: E,
)
    requires
        is_run(calls),
        settings.open_on_every_output,
        0 < failed < calls.len(),
        calls[0].outcome == Outcome::<Message, P, E>::Happened(
            RunInput::Action { polled: Polled::Received(Action::OpenWindow(settings)), outputs },
        ),
        failed <= opens_on_each::<Message>(settings, outputs@).len(),
        forall|i: int| 0 < i < failed ==> (#[trigger] calls[i]).outcome is Done,
        calls[failed].outcome == Outcome::<Message, P, E>::Failed(e),
    ensures
        forall|i: int| 0 <= i <= failed ==> (#[trigger] calls[i]).after == calls[i].before,
        forall|i: int|
            0 <= i < failed ==> (#[trigger] calls[i]).step == Step::<Message, E>::Perform(
                opens_on_each::<Message>(settings, outputs@)[i],
            ),
        calls[failed].step == Step::<Message, E>::End(Err(e)),
        failed == calls.len() - 1,
{
    lemma_first_call_opens(calls, settings, outputs);
    let opens = opens_on_each::<Message>(settings, outputs@);
    let tail = opened_everywhere::<Message>(settings, outputs);
    assert forall|i: int| 0 <= i < failed implies {
        &&& (#[trigger] calls[i]).step == Step::<Message, E>::Perform(opens[i])
        &&& calls[i].after == calls[i].before
    } by {
        lemma_opens_are_handed_out(calls, opens, tail, calls[0].before, i);
    }
    law_the_first_failure_ends_the_run(calls, failed, e);
}

/// Where a window is wanted on every output and each of them opens, that is kept in
/// mind, once the last one is open, and the run goes on.
pub proof fn law_successful_opens_are_kept_in_mind<Message, P, T, E>(
    calls: Seq<Call<Message, P, T, E>>,
    settings: WindowSettings,
    outputs: Vec<OutputId>,
)
    requires
        is_run(calls),
        settings.open_on_every_output,
        calls.len() == opens_on_each::<Message>(settings, outputs@).len() + 1,
        calls[0].outcome == Outcome::<Message, P, E>::Happened(
            RunInput::Action { polled: Polled::Received(Action::OpenWindow(settings)), outputs },
        ),
        forall|i: int| 0 < i < calls.len() ==> (#[trigger] calls[i]).outcome is Done,
    ensures
        forall|i: int|
            0 <= i < calls.len() - 1 ==> {
                &&& (#[trigger] calls[i]).after == calls[i].before
                &&& calls[i].step == Step::<Message, E>::Perform(
                    opens_on_each::<Message>(settings, outputs@)[i],
                )
            },
        calls.last().after == calls.last().before.keeping_in_mind(settings, outputs@),
        calls.last().step == Step::<Message, E>::Perform(
            Effect::Dispatch { timeout_millis: DISPATCH_MILLIS },
        ),
{
    reveal_with_fuel(next_due, 3);
    lemma_first_call_opens(calls, settings, outputs);
    let opens = opens_on_each::<Message>(settings, outputs@);
    let tail = opened_everywhere::<Message>(settings, outputs);
    let n = opens.len() as int;
    assert forall|i: int| 0 <= i < n implies {
        &&& (#[trigger] calls[i]).after == calls[i].before
        &&& calls[i].step == Step::<Message, E>::Perform(opens[i])
    } by {
        lemma_opens_are_handed_out(calls, opens, tail, calls[0].before, i);
    }
    assert((opens + tail).skip(n) =~= tail);
    if n > 0 {
        lemma_opens_are_handed_out(calls, opens, tail, calls[0].before, n - 1);
        assert(follows(calls, n));
    } else {
        assert(opens + tail =~= tail);
    }
}

/// What follows when a window was opened on every output.
spec fn opened_everywhere<Message>(settings: WindowSettings, outputs: Vec<OutputId>) -> Seq<
    Effect<Message>,
> {
    seq![
        Effect::KeepInMind { settings, outputs },
        Effect::Dispatch { timeout_millis: DISPATCH_MILLIS },
    ]
}

proof fn lemma_first_call_opens<Message, P, T, E>(
    calls: Seq<Call<Message, P, T, E>>,
    settings: WindowSettings,
    outputs: Vec<OutputId>,
)
    requires
        is_run(calls),
        settings.open_on_every_output,
        calls.len() > 0,
        calls[0].outcome == Outcome::<Message, P, E>::Happened(
            RunInput::Action { polled: Polled::Received(Action::OpenWindow(settings)), outputs },
        ),
    ensures
        (calls[0].after, calls[0].rest, calls[0].step) == next_due::<Message, P, T, E>(
            calls[0].before,
            opens_on_each::<Message>(settings, outputs@) + opened_everywhere::<Message>(
                settings,
                outputs,
            ),
        ),
        forall|i: int|
            0 <= i < opens_on_each::<Message>(settings, outputs@).len() ==> (
            #[trigger] opens_on_each::<Message>(settings, outputs@)[i]) is Open,
{
    let opens = opens_on_each::<Message>(settings, outputs@);
    let tail = opened_everywhere::<Message>(settings, outputs);
    assert(follows(calls, 0));
    assert(opens.push(Effect::KeepInMind { settings, outputs }).push(
        Effect::Dispatch { timeout_millis: DISPATCH_MILLIS },
    ) =~= opens + tail);
    law_every_output_gets_one_window::<Message>(settings, outputs@, 0);
}

} // verus!
