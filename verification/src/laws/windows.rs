//! What holds of one window.
use vstd::prelude::*;

use crate::event::{mouse_event, Cursor, Event, MouseEvent, PointerEventKind};
use crate::scale::SurfaceScale;
use crate::surface_state::{as_signed, SurfaceRequest, SurfaceState, ViewPort};

verus! {

/// The value of a window shows all that is known of it.
pub proof fn law_the_value_of_a_window_shows_all<P, T>(it: SurfaceState<P, T>)
    ensures
        it@.size == it.size,
        it@.scale == it.scale,
        it@.buffer_size == it.buffer_size,
        it@.view_port == it.view_port,
        it@.cursor == it.cursor,
        it@.pending_event == it.pending_event@,
        it@.exclusive_zone == it.exclusive_zone,
{
}

/// A window that was just opened has no size, is shown at a scale of one, sees no pointer,
/// is to be told nothing, and keeps others off exactly if that was asked for.
pub proof fn law_a_new_window_is_blank<P, T>(exclusive_zone: bool, r: SurfaceState<P, T>)
    requires
        call_ensures(SurfaceState::<P, T>::new, (exclusive_zone,), r),
    ensures
        r.size is None,
        r.scale == SurfaceScale::BufferScale(1),
        r.buffer_size is None,
        r.view_port is None,
        r.cursor is Unavailable,
        r.pending_event@.len() == 0,
        r.exclusive_zone == exclusive_zone,
{
}

/// A length that can be counted with a sign stays what it is; another one loses as much as
/// its bits hold.
pub proof fn law_lengths_keep_their_bits(length: u32, r: i32)
    requires
        call_ensures(as_signed, (length,), r),
    ensures
        length < 0x8000_0000 ==> r == length,
        length >= 0x8000_0000 ==> r == length - 0x1_0000_0000,
{
}

/// A window that is given a size has that size, and a buffer and a view port of as many
/// pixels as its two sides take at the scale of the window. Its user interface is told
/// both sizes, the one in units first, after all that it was to be told already. The
/// buffer is shown at the scale of the window: a fractional one is left to the compositor,
/// which is told the size in units, and a whole one is told as it is. Nothing else changes.
pub proof fn law_a_window_takes_a_size<P, T>(
    it: &mut SurfaceState<P, T>,
    size: (u32, u32),
    r: Vec<SurfaceRequest>,
    width: u32,
    height: u32,
    right: i32,
    bottom: i32,
)
    requires
        call_ensures(SurfaceState::<P, T>::set_size, (it, size), r),
        call_ensures(<u32 as core::ops::Mul<SurfaceScale>>::mul, (size.0, it.scale), width),
        call_ensures(<u32 as core::ops::Mul<SurfaceScale>>::mul, (size.1, it.scale), height),
        call_ensures(as_signed, (size.0,), right),
        call_ensures(as_signed, (size.1,), bottom),
    ensures
        final(it).size == Some(size),
        final(it).buffer_size == Some((width, height)),
        final(it).view_port == Some(ViewPort { width, height, scale: old(it).scale }),
        final(it).pending_event@ == old(it).pending_event@.push(
            Event::Resized { width: size.0, height: size.1 },
        ).push(Event::Resized { width, height }),
        final(it).scale == old(it).scale,
        final(it).cursor == old(it).cursor,
        final(it).exclusive_zone == old(it).exclusive_zone,
        r@.len() == 3,
        r@[2] == (SurfaceRequest::ConfigureGpuSurface { width, height }),
        match old(it).scale {
            SurfaceScale::BufferScale(scale) => {
                &&& r@[0] == SurfaceRequest::SetBufferScale(scale)
                &&& r@[1] == SurfaceRequest::SetDestination((-1) as i32, (-1) as i32)
            },
            SurfaceScale::FractionalScale(_) => {
                &&& r@[0] == SurfaceRequest::SetBufferScale(1)
                &&& r@[1] == SurfaceRequest::SetDestination(right, bottom)
            },
        },
{
}

/// A window that is given a scale is shown at that scale. Where it has a size, it keeps it,
/// and gets a buffer and a view port of as many pixels as its two sides take at that scale,
/// of which its user interface is told; where it has none, nothing follows. Nothing else
/// changes.
pub proof fn law_a_window_takes_a_scale<P, T>(
    it: &mut SurfaceState<P, T>,
    scale: SurfaceScale,
    r: Vec<SurfaceRequest>,
    width: u32,
    height: u32,
    right: i32,
    bottom: i32,
)
    requires
        call_ensures(SurfaceState::<P, T>::set_scale, (it, scale), r),
        it.size matches Some(size) ==> {
            &&& call_ensures(<u32 as core::ops::Mul<SurfaceScale>>::mul, (size.0, scale), width)
            &&& call_ensures(<u32 as core::ops::Mul<SurfaceScale>>::mul, (size.1, scale), height)
            &&& call_ensures(as_signed, (size.0,), right)
            &&& call_ensures(as_signed, (size.1,), bottom)
        },
    ensures
        final(it).scale == scale,
        final(it).size == old(it).size,
        final(it).cursor == old(it).cursor,
        final(it).exclusive_zone == old(it).exclusive_zone,
        old(it).size is None ==> {
            &&& final(it).buffer_size == old(it).buffer_size
            &&& final(it).view_port == old(it).view_port
            &&& final(it).pending_event@ == old(it).pending_event@
            &&& r@.len() == 0
        },
        old(it).size is Some ==> {
            &&& final(it).buffer_size == Some((width, height))
            &&& final(it).view_port == Some(ViewPort { width, height, scale })
            &&& final(it).pending_event@ == old(it).pending_event@.push(
                Event::Resized { width, height },
            )
            &&& r@.len() == 3
            &&& r@[2] == (SurfaceRequest::ConfigureGpuSurface { width, height })
            &&& match scale {
                SurfaceScale::BufferScale(factor) => {
                    &&& r@[0] == SurfaceRequest::SetBufferScale(factor)
                    &&& r@[1] == SurfaceRequest::SetDestination((-1) as i32, (-1) as i32)
                },
                SurfaceScale::FractionalScale(_) => {
                    &&& r@[0] == SurfaceRequest::SetBufferScale(1)
                    &&& r@[1] == SurfaceRequest::SetDestination(right, bottom)
                },
            }
        },
{
}

/// Whatever was given to a window, following up on it leaves its size, its scale and its
/// buffer alone: the view port becomes the whole buffer at the scale of the window, the
/// user interface is told the size of the buffer, and so is whoever makes it. Without a
/// size there is nothing to tell the compositor, and without a buffer nothing to draw on.
pub proof fn law_a_resize_is_followed_up<P, T>(
    it: &mut SurfaceState<P, T>,
    r: Vec<SurfaceRequest>,
    right: i32,
    bottom: i32,
)
    requires
        call_ensures(SurfaceState::<P, T>::on_resize, (it,), r),
        it.size matches Some(size) ==> {
            &&& call_ensures(as_signed, (size.0,), right)
            &&& call_ensures(as_signed, (size.1,), bottom)
        },
    ensures
        final(it).size == old(it).size,
        final(it).scale == old(it).scale,
        final(it).buffer_size == old(it).buffer_size,
        final(it).cursor == old(it).cursor,
        final(it).exclusive_zone == old(it).exclusive_zone,
        match old(it).buffer_size {
            Some((width, height)) => {
                &&& final(it).view_port == Some(ViewPort { width, height, scale: old(it).scale })
                &&& final(it).pending_event@ == old(it).pending_event@.push(
                    Event::Resized { width, height },
                )
                &&& r@.len() > 0
                &&& r@.last() == (SurfaceRequest::ConfigureGpuSurface { width, height })
            },
            None => {
                &&& final(it).view_port == old(it).view_port
                &&& final(it).pending_event@ == old(it).pending_event@
            },
        },
        r@.len() == (if old(it).size is Some {
            2int
        } else {
            0
        }) + (if old(it).buffer_size is Some {
            1int
        } else {
            0
        }),
        old(it).size is Some ==> match old(it).scale {
            SurfaceScale::BufferScale(scale) => {
                &&& r@[0] == SurfaceRequest::SetBufferScale(scale)
                &&& r@[1] == SurfaceRequest::SetDestination((-1) as i32, (-1) as i32)
            },
            SurfaceScale::FractionalScale(_) => {
                &&& r@[0] == SurfaceRequest::SetBufferScale(1)
                &&& r@[1] == SurfaceRequest::SetDestination(right, bottom)
            },
        },
{
}

/// A window is fitted to contents of another height than its own, or of any height where it
/// has none: it is to be asked for the height of the contents, and takes on their size at
/// once, unless a side of it is zero. Contents of its own height, or none, leave it alone.
/// Only the size ever changes.
pub proof fn law_a_window_is_fitted_to_its_contents<P, T>(
    it: &mut SurfaceState<P, T>,
    bounds: Option<(u32, u32)>,
    r: Option<u32>,
)
    requires
        call_ensures(SurfaceState::<P, T>::fit_content, (it, bounds), r),
    ensures
        r is Some <==> bounds is Some && (old(it).size is None || (old(it).size->0).1 != (
        bounds->0).1),
        r is Some ==> r->0 == (bounds->0).1,
        r is Some && (bounds->0).0 != 0 && (bounds->0).1 != 0 ==> final(it).size == bounds,
        r is None || (bounds->0).0 == 0 || (bounds->0).1 == 0 ==> final(it).size == old(it).size,
        final(it).scale == old(it).scale,
        final(it).buffer_size == old(it).buffer_size,
        final(it).view_port == old(it).view_port,
        final(it).cursor == old(it).cursor,
        final(it).pending_event@ == old(it).pending_event@,
        final(it).exclusive_zone == old(it).exclusive_zone,
{
}

/// What the pointer did is told to the user interface after all that it was to be told
/// already. The cursor is where the pointer entered or moved to, and nothing else moves it.
/// Nothing else changes.
pub proof fn law_a_window_follows_the_pointer<P: Copy, T>(
    it: &mut SurfaceState<P, T>,
    kind: PointerEventKind,
    position: P,
    told: MouseEvent<P>,
)
    requires
        call_ensures(SurfaceState::<P, T>::on_pointer, (it, kind, position), ()),
        call_ensures(mouse_event::<P>, (kind, position), told),
    ensures
        final(it).pending_event@ == old(it).pending_event@.push(Event::Mouse(told)),
        kind is Enter || kind is Motion ==> final(it).cursor == Cursor::Available(position),
        !(kind is Enter || kind is Motion) ==> final(it).cursor == old(it).cursor,
        final(it).size == old(it).size,
        final(it).scale == old(it).scale,
        final(it).buffer_size == old(it).buffer_size,
        final(it).view_port == old(it).view_port,
        final(it).exclusive_zone == old(it).exclusive_zone,
{
}

} // verus!
