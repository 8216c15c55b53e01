//! What holds of the reports of the compositor.
use vstd::prelude::*;

use crate::action::WindowSettings;
use crate::application::{opens_on, pointed, Application, Effect};
use crate::event::{mouse_event, mouse_event_of, Cursor, Event, MouseEvent, OutputId};
use crate::event::{PointerEvent, SurfaceId, WaylandEvent};
use crate::laws::{law_pointer_events_are_told_in_order, law_pointer_events_only_tell, own_events};
use crate::scale::SurfaceScale;
use crate::surface_state::{as_signed, SurfaceRequest, ViewPort};

verus! {

/// A surface is drawn when it is time to draw it and when it is given a size, whether it
/// has a window or not: exactly once, after all else that is to be done. No other report
/// has anything drawn.
pub proof fn law_what_is_due_is_drawn_once<P: Copy, T, Message>(
    app: &mut Application<P, T>,
    event: WaylandEvent<P>,
    now: T,
    r: Vec<Effect<Message>>,
)
    requires
        call_ensures(
            Application::<P, T>::on_wayland_event::<Message>,
            (app, event, now),
            r,
        ),
    ensures
        match event {
            WaylandEvent::SurfaceFrame(id) => {
                &&& r@.len() > 0
                &&& r@.last() == Effect::<Message>::Draw(id)
                &&& forall|i: int| 0 <= i < r@.len() - 1 ==> !((#[trigger] r@[i]) is Draw)
            },
            WaylandEvent::SurfaceConfigure { wl_surface: id, width: _, height: _ } => {
                &&& r@.len() > 0
                &&& r@.last() == Effect::<Message>::Draw(id)
                &&& forall|i: int| 0 <= i < r@.len() - 1 ==> !((#[trigger] r@[i]) is Draw)
            },
            _ => forall|i: int| 0 <= i < r@.len() ==> !((#[trigger] r@[i]) is Draw),
        },
{
    if let WaylandEvent::NewOutput(output) = event {
        lemma_opens_are_those_that_lack(old(app)@.windows, output, r@);
    }
}

/// A report has done to a surface only what belongs to it: windows are opened only where an
/// output has come, and on that output; a surface is changed only where it is given a size
/// or a scale, and let go of only where it is closed, and only that surface. No report ends
/// the run, waits, looks at a queue, destroys a surface or hands the program a message.
pub proof fn law_a_report_has_done_only_what_belongs_to_it<P: Copy, T, Message>(
    app: &mut Application<P, T>,
    event: WaylandEvent<P>,
    now: T,
    r: Vec<Effect<Message>>,
    i: int,
)
    requires
        call_ensures(
            Application::<P, T>::on_wayland_event::<Message>,
            (app, event, now),
            r,
        ),
        0 <= i < r@.len(),
    ensures
        match r@[i] {
            Effect::Open { output, settings: _ } => {
                &&& event is NewOutput
                &&& output == Some(event->NewOutput_0)
            },
            Effect::Request(id, _) => {
                ||| event is SurfaceConfigure && event->SurfaceConfigure_wl_surface == id
                ||| event is SurfaceScale && event->SurfaceScale_wl_surface == id
            },
            Effect::Draw(id) => {
                ||| event is SurfaceConfigure && event->SurfaceConfigure_wl_surface == id
                ||| event is SurfaceFrame && event->SurfaceFrame_0 == id
            },
            Effect::Release(id) => event is SurfaceClose && event->SurfaceClose_0 == id,
            _ => false,
        },
{
    if let WaylandEvent::NewOutput(output) = event {
        lemma_opens_are_those_that_lack(old(app)@.windows, output, r@);
    }
}

/// When it is time to draw a window, its user interface is told so, with the time, after
/// all that it was to be told already. Nothing else changes, and nothing but the drawing is
/// done.
pub proof fn law_a_frame_report_tells_the_time<P: Copy, T, Message>(
    app: &mut Application<P, T>,
    wl_surface: SurfaceId,
    now: T,
    r: Vec<Effect<Message>>,
    other: SurfaceId,
)
    requires
        call_ensures(
            Application::<P, T>::on_wayland_event::<Message>,
            (app, WaylandEvent::SurfaceFrame(wl_surface), now),
            r,
        ),
    ensures
        r@.len() == 1,
        r@[0] == Effect::<Message>::Draw(wl_surface),
        final(app)@.surfaces.contains_key(wl_surface) == old(app)@.surfaces.contains_key(
            wl_surface,
        ),
        old(app)@.surfaces.contains_key(wl_surface) ==> {
            let before = old(app)@.surfaces[wl_surface];
            let after = final(app)@.surfaces[wl_surface];
            &&& after.pending_event == before.pending_event.push(Event::RedrawRequested(now))
            &&& after.size == before.size
            &&& after.scale == before.scale
            &&& after.buffer_size == before.buffer_size
            &&& after.view_port == before.view_port
            &&& after.cursor == before.cursor
            &&& after.exclusive_zone == before.exclusive_zone
        },
        other != wl_surface ==> {
            &&& final(app)@.surfaces.contains_key(other) == old(app)@.surfaces.contains_key(other)
            &&& final(app)@.surfaces[other] == old(app)@.surfaces[other]
        },
        final(app)@.windows == old(app)@.windows,
{
}

/// A window that the compositor gives a size has that size, and a buffer and a view port of
/// as many pixels as its sides take at its scale. Its user interface is told the size in
/// units and then in pixels. The compositor is told how the buffer is to be shown, the
/// buffer is made as large, and then the window is drawn. A surface without a window is
/// only to be drawn. Nothing else changes.
pub proof fn law_a_window_is_configured<P: Copy, T, Message>(
    app: &mut Application<P, T>,
    wl_surface: SurfaceId,
    size: (u32, u32),
    now: T,
    r: Vec<Effect<Message>>,
    width: u32,
    height: u32,
    right: i32,
    bottom: i32,
    other: SurfaceId,
)
    requires
        call_ensures(
            Application::<P, T>::on_wayland_event::<Message>,
            (app, WaylandEvent::SurfaceConfigure { wl_surface, width: size.0, height: size.1 }, now),
            r,
        ),
        app@.surfaces.contains_key(wl_surface) ==> {
            let scale = app@.surfaces[wl_surface].scale;
            &&& call_ensures(<u32 as core::ops::Mul<SurfaceScale>>::mul, (size.0, scale), width)
            &&& call_ensures(<u32 as core::ops::Mul<SurfaceScale>>::mul, (size.1, scale), height)
            &&& call_ensures(as_signed, (size.0,), right)
            &&& call_ensures(as_signed, (size.1,), bottom)
        },
    ensures
        final(app)@.surfaces.contains_key(wl_surface) == old(app)@.surfaces.contains_key(
            wl_surface,
        ),
        old(app)@.surfaces.contains_key(wl_surface) ==> {
            let before = old(app)@.surfaces[wl_surface];
            let after = final(app)@.surfaces[wl_surface];
            &&& after.size == Some(size)
            &&& after.buffer_size == Some((width, height))
            &&& after.view_port == Some(ViewPort { width, height, scale: before.scale })
            &&& after.pending_event == before.pending_event.push(
                Event::Resized { width: size.0, height: size.1 },
            ).push(Event::Resized { width, height })
            &&& after.scale == before.scale
            &&& after.cursor == before.cursor
            &&& after.exclusive_zone == before.exclusive_zone
            &&& r@.len() == 4
            &&& match before.scale {
                SurfaceScale::BufferScale(factor) => {
                    &&& r@[0] == Effect::<Message>::Request(
                        wl_surface,
                        SurfaceRequest::SetBufferScale(factor),
                    )
                    &&& r@[1] == Effect::<Message>::Request(
                        wl_surface,
                        SurfaceRequest::SetDestination((-1) as i32, (-1) as i32),
                    )
                },
                SurfaceScale::FractionalScale(_) => {
                    &&& r@[0] == Effect::<Message>::Request(
                        wl_surface,
                        SurfaceRequest::SetBufferScale(1),
                    )
                    &&& r@[1] == Effect::<Message>::Request(
                        wl_surface,
                        SurfaceRequest::SetDestination(right, bottom),
                    )
                },
            }
            &&& r@[2] == Effect::<Message>::Request(
                wl_surface,
                SurfaceRequest::ConfigureGpuSurface { width, height },
            )
            &&& r@[3] == Effect::<Message>::Draw(wl_surface)
        },
        !old(app)@.surfaces.contains_key(wl_surface) ==> r@ == seq![
            Effect::<Message>::Draw(wl_surface),
        ],
        other != wl_surface ==> {
            &&& final(app)@.surfaces.contains_key(other) == old(app)@.surfaces.contains_key(other)
            &&& final(app)@.surfaces[other] == old(app)@.surfaces[other]
        },
        final(app)@.windows == old(app)@.windows,
{
}

/// A window that the compositor gives a scale is shown at that scale. Where it has a size,
/// it keeps it, gets a buffer and a view port of as many pixels as its sides take at that
/// scale, its user interface is told their number, and the compositor how the buffer is to
/// be shown; where it has none, nothing is done. It is not drawn. Nothing else changes.
pub proof fn law_a_window_is_scaled<P: Copy, T, Message>(
    app: &mut Application<P, T>,
    wl_surface: SurfaceId,
    scale: SurfaceScale,
    now: T,
    r: Vec<Effect<Message>>,
    width: u32,
    height: u32,
    right: i32,
    bottom: i32,
    other: SurfaceId,
)
    requires
        call_ensures(
            Application::<P, T>::on_wayland_event::<Message>,
            (app, WaylandEvent::SurfaceScale { wl_surface, scale }, now),
            r,
        ),
        app@.surfaces.contains_key(wl_surface) && app@.surfaces[wl_surface].size is Some ==> {
            let size = app@.surfaces[wl_surface].size->0;
            &&& call_ensures(<u32 as core::ops::Mul<SurfaceScale>>::mul, (size.0, scale), width)
            &&& call_ensures(<u32 as core::ops::Mul<SurfaceScale>>::mul, (size.1, scale), height)
            &&& call_ensures(as_signed, (size.0,), right)
            &&& call_ensures(as_signed, (size.1,), bottom)
        },
    ensures
        final(app)@.surfaces.contains_key(wl_surface) == old(app)@.surfaces.contains_key(
            wl_surface,
        ),
        old(app)@.surfaces.contains_key(wl_surface) ==> {
            let before = old(app)@.surfaces[wl_surface];
            let after = final(app)@.surfaces[wl_surface];
            &&& after.scale == scale
            &&& after.size == before.size
            &&& after.cursor == before.cursor
            &&& after.exclusive_zone == before.exclusive_zone
            &&& before.size is Some ==> {
                &&& after.buffer_size == Some((width, height))
                &&& after.view_port == Some(ViewPort { width, height, scale })
                &&& after.pending_event == before.pending_event.push(
                    Event::Resized { width, height },
                )
                &&& r@.len() == 3
                &&& match scale {
                    SurfaceScale::BufferScale(factor) => {
                        &&& r@[0] == Effect::<Message>::Request(
                            wl_surface,
                            SurfaceRequest::SetBufferScale(factor),
                        )
                        &&& r@[1] == Effect::<Message>::Request(
                            wl_surface,
                            SurfaceRequest::SetDestination((-1) as i32, (-1) as i32),
                        )
                    },
                    SurfaceScale::FractionalScale(_) => {
                        &&& r@[0] == Effect::<Message>::Request(
                            wl_surface,
                            SurfaceRequest::SetBufferScale(1),
                        )
                        &&& r@[1] == Effect::<Message>::Request(
                            wl_surface,
                            SurfaceRequest::SetDestination(right, bottom),
                        )
                    },
                }
                &&& r@[2] == Effect::<Message>::Request(
                    wl_surface,
                    SurfaceRequest::ConfigureGpuSurface { width, height },
                )
            }
            &&& before.size is None ==> {
                &&& after.buffer_size == before.buffer_size
                &&& after.view_port == before.view_port
                &&& after.pending_event == before.pending_event
                &&& r@.len() == 0
            }
        },
        !old(app)@.surfaces.contains_key(wl_surface) ==> r@.len() == 0,
        other != wl_surface ==> {
            &&& final(app)@.surfaces.contains_key(other) == old(app)@.surfaces.contains_key(other)
            &&& final(app)@.surfaces[other] == old(app)@.surfaces[other]
        },
        final(app)@.windows == old(app)@.windows,
{
}

/// A window that is to be closed is a window no more, and what it was drawn with is let go
/// of, once. Where there was no window, nothing is done. Nothing else changes.
pub proof fn law_a_window_is_closed<P: Copy, T, Message>(
    app: &mut Application<P, T>,
    wl_surface: SurfaceId,
    now: T,
    r: Vec<Effect<Message>>,
    other: SurfaceId,
)
    requires
        call_ensures(
            Application::<P, T>::on_wayland_event::<Message>,
            (app, WaylandEvent::SurfaceClose(wl_surface), now),
            r,
        ),
    ensures
        !final(app)@.surfaces.contains_key(wl_surface),
        old(app)@.surfaces.contains_key(wl_surface) ==> {
            &&& r@.len() == 1
            &&& r@[0] == Effect::<Message>::Release(wl_surface)
        },
        !old(app)@.surfaces.contains_key(wl_surface) ==> r@.len() == 0,
        other != wl_surface ==> {
            &&& final(app)@.surfaces.contains_key(other) == old(app)@.surfaces.contains_key(other)
            &&& final(app)@.surfaces[other] == old(app)@.surfaces[other]
        },
        final(app)@.windows == old(app)@.windows,
{
}

/// What the application keeps in mind for every output and `output` does not have.
pub open spec fn lacking(
    windows: Seq<(WindowSettings, Set<OutputId>)>,
    output: OutputId,
) -> Seq<(WindowSettings, Set<OutputId>)> {
    windows.filter(
        |entry: (WindowSettings, Set<OutputId>)|
            entry.0.open_on_every_output && !entry.1.contains(output),
    )
}

proof fn lemma_opens_are_those_that_lack<Message>(
    windows: Seq<(WindowSettings, Set<OutputId>)>,
    output: OutputId,
    opens: Seq<Effect<Message>>,
)
    requires
        opens == opens_on::<Message>(windows, output),
    ensures
        opens.len() == lacking(windows, output).len(),
        forall|i: int|
            0 <= i < opens.len() ==> #[trigger] opens[i] == (Effect::<Message>::Open {
                output: Some(output),
                settings: lacking(windows, output)[i].0,
            }),
    decreases windows.len(),
{
    reveal(Seq::filter);
    if windows.len() > 0 {
        lemma_opens_are_those_that_lack(
            windows.drop_last(),
            output,
            opens_on::<Message>(windows.drop_last(), output),
        );
    }
}

/// An output that has come gets exactly the windows that are kept in mind for every output
/// and that it does not have, once each and in order, with the settings that they are kept
/// under. From then on it has all of them. Nothing else changes: neither what is kept in
/// mind of another output, nor a window that is open.
pub proof fn law_a_new_output_gets_what_it_lacks<P: Copy, T, Message>(
    app: &mut Application<P, T>,
    output: OutputId,
    now: T,
    r: Vec<Effect<Message>>,
    i: int,
    other: OutputId,
)
    requires
        call_ensures(
            Application::<P, T>::on_wayland_event::<Message>,
            (app, WaylandEvent::NewOutput(output), now),
            r,
        ),
    ensures
        r@.len() == lacking(old(app)@.windows, output).len(),
        0 <= i < r@.len() ==> r@[i] == (Effect::<Message>::Open {
            output: Some(output),
            settings: lacking(old(app)@.windows, output)[i].0,
        }),
        final(app)@.surfaces == old(app)@.surfaces,
        final(app)@.windows.len() == old(app)@.windows.len(),
        0 <= i < old(app)@.windows.len() ==> {
            let before = old(app)@.windows[i];
            let after = final(app)@.windows[i];
            &&& after.0 == before.0
            &&& before.0.open_on_every_output ==> after.1.contains(output)
            &&& !before.0.open_on_every_output ==> after.1 == before.1
            &&& other != output ==> after.1.contains(other) == before.1.contains(other)
        },
{
    lemma_opens_are_those_that_lack(old(app)@.windows, output, r@);
}

/// An output that has gone has no windows: it is to get all of them should it come back.
/// Nothing is done, and nothing else changes.
pub proof fn law_an_output_that_has_gone_has_nothing<P: Copy, T, Message>(
    app: &mut Application<P, T>,
    output: OutputId,
    now: T,
    r: Vec<Effect<Message>>,
    i: int,
    other: OutputId,
)
    requires
        call_ensures(
            Application::<P, T>::on_wayland_event::<Message>,
            (app, WaylandEvent::OutputDestroyed(output), now),
            r,
        ),
    ensures
        r@.len() == 0,
        final(app)@.surfaces == old(app)@.surfaces,
        final(app)@.windows.len() == old(app)@.windows.len(),
        0 <= i < old(app)@.windows.len() ==> {
            let before = old(app)@.windows[i];
            let after = final(app)@.windows[i];
            &&& after.0 == before.0
            &&& !after.1.contains(output)
            &&& other != output ==> after.1.contains(other) == before.1.contains(other)
        },
{
}

/// What the pointer did is told to the window that it did it to, all of it and in order,
/// after all that was to be told already; the cursor of the window is where the last enter
/// or motion put it. Nothing else changes, and nothing is done: a window that the pointer
/// did nothing to stays as it was.
pub proof fn law_every_window_follows_the_pointer<P: Copy, T, Message>(
    app: &mut Application<P, T>,
    events: Vec<PointerEvent<P>>,
    now: T,
    r: Vec<Effect<Message>>,
    id: SurfaceId,
    i: int,
    told: MouseEvent<P>,
)
    requires
        call_ensures(
            Application::<P, T>::on_wayland_event::<Message>,
            (app, WaylandEvent::PointerEvents(events), now),
            r,
        ),
        0 <= i < own_events(events@, id).len() ==> call_ensures(
            mouse_event::<P>,
            (own_events(events@, id)[i].kind, own_events(events@, id)[i].position),
            told,
        ),
    ensures
        r@.len() == 0,
        final(app)@.windows == old(app)@.windows,
        final(app)@.surfaces.contains_key(id) == old(app)@.surfaces.contains_key(id),
        old(app)@.surfaces.contains_key(id) ==> {
            let own = own_events(events@, id);
            let before = old(app)@.surfaces[id];
            let after = final(app)@.surfaces[id];
            &&& before.pending_event.is_prefix_of(after.pending_event)
            &&& after.pending_event.len() == before.pending_event.len() + own.len()
            &&& 0 <= i < own.len() ==> after.pending_event[before.pending_event.len() + i]
                == Event::<P, T>::Mouse(told)
            &&& 0 <= i < own.len() && (own[i].kind is Enter || own[i].kind is Motion) && (forall|
                j: int,
            |
                i < j < own.len() ==> !((#[trigger] own[j]).kind is Enter) && !(
                own[j].kind is Motion)) ==> after.cursor == Cursor::Available(own[i].position)
            &&& (forall|j: int|
                0 <= j < own.len() ==> !((#[trigger] own[j]).kind is Enter) && !(
                own[j].kind is Motion)) ==> after.cursor == before.cursor
            &&& after.size == before.size
            &&& after.scale == before.scale
            &&& after.buffer_size == before.buffer_size
            &&& after.view_port == before.view_port
            &&& after.exclusive_zone == before.exclusive_zone
        },
{
    law_pointer_events_only_tell(old(app)@.surfaces, events@);
    if old(app)@.surfaces.contains_key(id) {
        law_pointer_events_are_told_in_order(old(app)@.surfaces, events@, id);
        assert(pointed(old(app)@.surfaces, events@).contains_key(id));
    } else {
        assert(!pointed(old(app)@.surfaces, events@).dom().contains(id));
    }
}

/// A report can be taken exactly if the size in pixels that follows from it can be counted,
/// and is not zero where it is given in units. Only a report that gives an open window a
/// size or a scale can fail in that.
pub proof fn law_a_report_that_can_be_counted_can_be_taken<P, T>(
    app: &Application<P, T>,
    event: &WaylandEvent<P>,
    width_fits: bool,
    height_fits: bool,
    r: bool,
)
    requires
        call_ensures(Application::<P, T>::accepts, (app, event), r),
        event matches WaylandEvent::SurfaceConfigure { wl_surface, width, height } ==> (
        app@.surfaces.contains_key(*wl_surface) ==> {
            let scale = app@.surfaces[*wl_surface].scale;
            &&& call_ensures(SurfaceScale::fits, (scale, *width), width_fits)
            &&& call_ensures(SurfaceScale::fits, (scale, *height), height_fits)
        }),
        event matches WaylandEvent::SurfaceScale { wl_surface, scale } ==> (
        app@.surfaces.contains_key(*wl_surface) && app@.surfaces[*wl_surface].size is Some ==> {
            let size = app@.surfaces[*wl_surface].size->0;
            &&& call_ensures(SurfaceScale::fits, (*scale, size.0), width_fits)
            &&& call_ensures(SurfaceScale::fits, (*scale, size.1), height_fits)
        }),
    ensures
        match *event {
            WaylandEvent::SurfaceConfigure { wl_surface, width, height } => {
                r <==> width != 0 && height != 0 && (app@.surfaces.contains_key(wl_surface)
                    ==> width_fits && height_fits)
            },
            WaylandEvent::SurfaceScale { wl_surface, scale: _ } => {
                r <==> (app@.surfaces.contains_key(wl_surface)
                    && app@.surfaces[wl_surface].size is Some ==> width_fits && height_fits)
            },
            _ => r,
        },
{
}

} // verus!
