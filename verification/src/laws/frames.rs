//! What holds of the drawing of windows.
use vstd::prelude::*;

use crate::application::{Application, DrawStep, Effect, Frame};
use crate::client::{Surface, WaylandClient};
use crate::event::{SurfaceId, WaylandEvent};
use crate::scale::SurfaceScale;
use crate::surface_state::{as_signed, ViewPort};

verus! {

/// A window is drawn exactly when it is open and the compositor gave its surface both
/// sides, and then at that size.
pub proof fn law_a_window_is_drawn_at_its_size<P, T>(
    app: &Application<P, T>,
    client: &WaylandClient,
    wl_surface: SurfaceId,
    given: (Option<u32>, Option<u32>),
    r: Option<(u32, u32)>,
)
    requires
        call_ensures(Application::<P, T>::draw, (app, client, wl_surface), r),
        client.surfaces@.contains_key(wl_surface) ==> call_ensures(
            Surface::size,
            (&client.surfaces@[wl_surface],),
            given,
        ),
    ensures
        r is Some <==> app@.surfaces.contains_key(wl_surface) && client.surfaces@.contains_key(
            wl_surface,
        ) && given.0 is Some && given.1 is Some,
        r matches Some(size) ==> given == (Some(size.0), Some(size.1)),
{
}

/// Once the compositor gave a layer surface a size that was passed on, its window is drawn
/// at that size.
pub proof fn law_a_size_that_is_passed_on_is_drawn_at<P, T>(
    app: &Application<P, T>,
    client: &mut WaylandClient,
    wl_surface: SurfaceId,
    new_size: (u32, u32),
    passed_on: Option<WaylandEvent<P>>,
    r: Option<(u32, u32)>,
)
    requires
        app@.surfaces.contains_key(wl_surface),
        call_ensures(
            WaylandClient::configure_layer::<P>,
            (client, wl_surface, new_size),
            passed_on,
        ),
        passed_on is Some,
        call_ensures(Application::<P, T>::draw, (app, &*final(client), wl_surface), r),
    ensures
        r == Some(new_size),
{
}

/// A frame is drawn from all that the user interface of the window is yet to be told, in
/// order, and from where the pointer is. After that there is nothing left to tell, and
/// nothing else has changed, in this window or in another.
pub proof fn law_a_frame_tells_everything<P: Copy, T>(
    app: &mut Application<P, T>,
    wl_surface: SurfaceId,
    r: Option<Frame<P, T>>,
    other: SurfaceId,
)
    requires
        call_ensures(Application::<P, T>::begin_frame, (app, wl_surface), r),
    ensures
        r is Some <==> old(app)@.surfaces.contains_key(wl_surface),
        r matches Some(frame) ==> {
            let before = old(app)@.surfaces[wl_surface];
            let after = final(app)@.surfaces[wl_surface];
            &&& frame.events@ == before.pending_event
            &&& frame.cursor == before.cursor
            &&& final(app)@.surfaces.contains_key(wl_surface)
            &&& after.pending_event.len() == 0
            &&& after.size == before.size
            &&& after.scale == before.scale
            &&& after.buffer_size == before.buffer_size
            &&& after.view_port == before.view_port
            &&& after.cursor == before.cursor
            &&& after.exclusive_zone == before.exclusive_zone
        },
        r is None || other != wl_surface ==> {
            &&& final(app)@.surfaces.contains_key(other) == old(app)@.surfaces.contains_key(other)
            &&& final(app)@.surfaces[other] == old(app)@.surfaces[other]
        },
        final(app)@.windows == old(app)@.windows,
{
}

/// Nothing is told twice: a frame that is begun right after another one tells nothing.
pub proof fn law_nothing_is_told_twice<P: Copy, T>(
    first: &mut Application<P, T>,
    later: &mut Application<P, T>,
    wl_surface: SurfaceId,
    r: Option<Frame<P, T>>,
    again: Option<Frame<P, T>>,
)
    requires
        call_ensures(Application::<P, T>::begin_frame, (first, wl_surface), r),
        *later == *final(first),
        call_ensures(Application::<P, T>::begin_frame, (later, wl_surface), again),
    ensures
        again is Some <==> r is Some,
        again matches Some(frame) ==> frame.events@.len() == 0,
        again matches Some(frame) ==> frame.cursor == r->0.cursor,
{
}

/// A frame ends in these steps, each of them once and in this order: where the contents
/// have another height than the window, it is asked for theirs, and others are kept off by
/// as much if they are kept off at all; then the user interface is drawn, and shown on as
/// many pixels as the two sides of the frame take at the scale of the window; then the next
/// frame is asked for and the compositor let see all that; and at last the program hears of
/// what came out of it and is listened to anew.
pub proof fn law_a_frame_ends_in_order<P: Copy, T>(
    app: &mut Application<P, T>,
    wl_surface: SurfaceId,
    size: (u32, u32),
    bounds: Option<(u32, u32)>,
    r: Vec<DrawStep>,
    width: u32,
    height: u32,
    zone: i32,
)
    requires
        app@.surfaces.contains_key(wl_surface),
        call_ensures(Application::<P, T>::end_frame, (app, wl_surface, size, bounds), r),
        call_ensures(
            <u32 as core::ops::Mul<SurfaceScale>>::mul,
            (size.0, app@.surfaces[wl_surface].scale),
            width,
        ),
        call_ensures(
            <u32 as core::ops::Mul<SurfaceScale>>::mul,
            (size.1, app@.surfaces[wl_surface].scale),
            height,
        ),
        bounds matches Some(bounds) ==> call_ensures(as_signed, (bounds.1,), zone),
    ensures
        ({
            let it = old(app)@.surfaces[wl_surface];
            let asked = bounds is Some && (it.size is None || (it.size->0).1 != (bounds->0).1);
            let shown: int = if asked && it.exclusive_zone {
                3
            } else if asked {
                2
            } else {
                1
            };
            &&& r@.len() == shown + 5
            &&& asked ==> r@[0] == (DrawStep::SetSize { width: 0, height: (bounds->0).1 })
            &&& asked && it.exclusive_zone ==> r@[1] == DrawStep::SetExclusiveZone(zone)
            &&& r@[shown - 1] is DrawInterface
            &&& r@[shown] == DrawStep::Present(ViewPort { width, height, scale: it.scale })
            &&& r@[shown + 1] is RequestFrame
            &&& r@[shown + 2] is Commit
            &&& r@[shown + 3] is HandleMessages
            &&& r@[shown + 4] is TrackSubscriptions
        }),
{
}

/// A frame is shown exactly once, at the scale of the window and on as many pixels as its
/// two sides take at that scale. How many these are is said by
/// [`crate::scale::law_a_length_is_multiplied`].
pub proof fn law_a_frame_fills_the_buffer<P: Copy, T>(
    app: &mut Application<P, T>,
    wl_surface: SurfaceId,
    size: (u32, u32),
    bounds: Option<(u32, u32)>,
    r: Vec<DrawStep>,
    width: u32,
    height: u32,
    at: int,
)
    requires
        app@.surfaces.contains_key(wl_surface),
        call_ensures(Application::<P, T>::end_frame, (app, wl_surface, size, bounds), r),
        call_ensures(
            <u32 as core::ops::Mul<SurfaceScale>>::mul,
            (size.0, app@.surfaces[wl_surface].scale),
            width,
        ),
        call_ensures(
            <u32 as core::ops::Mul<SurfaceScale>>::mul,
            (size.1, app@.surfaces[wl_surface].scale),
            height,
        ),
    ensures
        r@.len() >= 6,
        0 <= at < r@.len() ==> (r@[at] is Present <==> at == r@.len() - 5),
        r@[r@.len() - 5] == DrawStep::Present(
            ViewPort { width, height, scale: old(app)@.surfaces[wl_surface].scale },
        ),
{
}

/// What is shown after a window got a size is what it got that size for: the frame that
/// ends at the size that the compositor reported last is shown on the view port that the
/// report left, which is the whole of the buffer that was asked for.
pub proof fn law_a_frame_is_shown_as_configured<P: Copy, T, Message>(
    app: &mut Application<P, T>,
    drawn: &mut Application<P, T>,
    wl_surface: SurfaceId,
    size: (u32, u32),
    now: T,
    effects: Vec<Effect<Message>>,
    bounds: Option<(u32, u32)>,
    r: Vec<DrawStep>,
    at: int,
)
    requires
        app@.surfaces.contains_key(wl_surface),
        call_ensures(
            Application::<P, T>::on_wayland_event::<Message>,
            (
                app,
                WaylandEvent::SurfaceConfigure { wl_surface, width: size.0, height: size.1 },
                now,
            ),
            effects,
        ),
        *drawn == *final(app),
        call_ensures(Application::<P, T>::end_frame, (drawn, wl_surface, size, bounds), r),
    ensures
        ({
            let it = final(app)@.surfaces[wl_surface];
            &&& it.view_port is Some
            &&& it.buffer_size == Some((it.view_port->0.width, it.view_port->0.height))
            &&& r@.contains(DrawStep::Present(it.view_port->0))
            &&& 0 <= at < r@.len() && r@[at] is Present ==> r@[at]->Present_0 == it.view_port->0
        }),
{
    assert(r@[r@.len() - 5] is Present);
}

/// And so it is after a window got another scale.
pub proof fn law_a_frame_is_shown_as_scaled<P: Copy, T, Message>(
    app: &mut Application<P, T>,
    drawn: &mut Application<P, T>,
    wl_surface: SurfaceId,
    size: (u32, u32),
    scale: SurfaceScale,
    now: T,
    effects: Vec<Effect<Message>>,
    bounds: Option<(u32, u32)>,
    r: Vec<DrawStep>,
    at: int,
)
    requires
        app@.surfaces.contains_key(wl_surface),
        app@.surfaces[wl_surface].size == Some(size),
        call_ensures(
            Application::<P, T>::on_wayland_event::<Message>,
            (app, WaylandEvent::SurfaceScale { wl_surface, scale }, now),
            effects,
        ),
        *drawn == *final(app),
        call_ensures(Application::<P, T>::end_frame, (drawn, wl_surface, size, bounds), r),
    ensures
        ({
            let it = final(app)@.surfaces[wl_surface];
            &&& it.view_port is Some
            &&& it.view_port->0.scale == scale
            &&& it.buffer_size == Some((it.view_port->0.width, it.view_port->0.height))
            &&& r@.contains(DrawStep::Present(it.view_port->0))
            &&& 0 <= at < r@.len() && r@[at] is Present ==> r@[at]->Present_0 == it.view_port->0
        }),
{
    assert(r@[r@.len() - 5] is Present);
}

/// A frame leaves a window as it was but for its size, which becomes that of the contents
/// where they have another height and no zero side. It leaves every other window as it was,
/// and what is kept in mind. Of a window that is not open there is nothing to end.
pub proof fn law_a_frame_fits_the_window_to_its_contents<P: Copy, T>(
    app: &mut Application<P, T>,
    wl_surface: SurfaceId,
    size: (u32, u32),
    bounds: Option<(u32, u32)>,
    r: Vec<DrawStep>,
    other: SurfaceId,
)
    requires
        call_ensures(Application::<P, T>::end_frame, (app, wl_surface, size, bounds), r),
    ensures
        old(app)@.surfaces.contains_key(wl_surface) ==> {
            let before = old(app)@.surfaces[wl_surface];
            let after = final(app)@.surfaces[wl_surface];
            let asked = bounds is Some && (before.size is None || (before.size->0).1 != (
            bounds->0).1);
            let nonzero = (bounds->0).0 != 0 && (bounds->0).1 != 0;
            &&& final(app)@.surfaces.contains_key(wl_surface)
            &&& after.size == if asked && nonzero {
                bounds
            } else {
                before.size
            }
            &&& after.scale == before.scale
            &&& after.buffer_size == before.buffer_size
            &&& after.view_port == before.view_port
            &&& after.cursor == before.cursor
            &&& after.pending_event == before.pending_event
            &&& after.exclusive_zone == before.exclusive_zone
        },
        !old(app)@.surfaces.contains_key(wl_surface) ==> r@.len() == 0,
        !old(app)@.surfaces.contains_key(wl_surface) || other != wl_surface ==> {
            &&& final(app)@.surfaces.contains_key(other) == old(app)@.surfaces.contains_key(other)
            &&& final(app)@.surfaces[other] == old(app)@.surfaces[other]
        },
        final(app)@.windows == old(app)@.windows,
{
}

/// Where there is nothing to draw on, the next frame is asked for and the compositor let
/// see that, and nothing else is done.
pub proof fn law_a_frame_is_put_off<P: Copy, T>(r: Vec<DrawStep>)
    requires
        call_ensures(Application::<P, T>::texture_unavailable, (), r),
    ensures
        r@.len() == 2,
        r@[0] is RequestFrame,
        r@[1] is Commit,
{
}

/// A frame can be shown exactly when both its sides can be multiplied by the scale of the
/// window, if that is open.
pub proof fn law_a_frame_that_can_be_counted_can_be_shown<P: Copy, T>(
    app: &Application<P, T>,
    wl_surface: SurfaceId,
    size: (u32, u32),
    width_fits: bool,
    height_fits: bool,
    r: bool,
)
    requires
        call_ensures(Application::<P, T>::presentable, (app, wl_surface, size), r),
        app@.surfaces.contains_key(wl_surface) ==> {
            let scale = app@.surfaces[wl_surface].scale;
            &&& call_ensures(SurfaceScale::fits, (scale, size.0), width_fits)
            &&& call_ensures(SurfaceScale::fits, (scale, size.1), height_fits)
        },
    ensures
        r <==> (app@.surfaces.contains_key(wl_surface) ==> width_fits && height_fits),
{
}

} // verus!
