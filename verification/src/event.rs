//! What the compositor reports, and what the user interface is told of it.
//!
//! Surfaces and outputs are known by number. A position on a surface and a point
//! in time are handed through as they come: their types are parameters.
use vstd::prelude::*;

use crate::scale::SurfaceScale;

verus! {

/// The number under which a surface is known.
pub type SurfaceId = u64;

/// The number under which an output is known.
pub type OutputId = u64;

/// The code of the left mouse button.
pub const BTN_LEFT: u32 = 0x110;

/// The code of the right mouse button.
pub const BTN_RIGHT: u32 = 0x111;

/// The code of the middle mouse button.
pub const BTN_MIDDLE: u32 = 0x112;

/// The code of the button that goes forward.
pub const BTN_FORWARD: u32 = 0x115;

/// The code of the button that goes back.
pub const BTN_BACK: u32 = 0x116;

/// A report of the compositor.
#[derive(Clone, Debug)]
pub enum WaylandEvent<P> {
    /// An output has come.
    NewOutput(OutputId),
    /// An output has gone.
    OutputDestroyed(OutputId),
    /// A surface is to have this size.
    SurfaceConfigure { wl_surface: SurfaceId, width: u32, height: u32 },
    /// It is time to draw a surface anew.
    SurfaceFrame(SurfaceId),
    /// A surface is to be closed.
    SurfaceClose(SurfaceId),
    /// A surface is to be shown at this scale.
    SurfaceScale { wl_surface: SurfaceId, scale: SurfaceScale },
    /// The pointer did these things, in this order.
    PointerEvents(Vec<PointerEvent<P>>),
}

/// One thing that the pointer did.
#[derive(Clone, Copy, Debug)]
pub struct PointerEvent<P> {
    pub surface: SurfaceId,
    pub position: P,
    pub kind: PointerEventKind,
}

/// What the pointer did.
#[derive(Clone, Copy, Debug, PartialEq, Eq, Structural)]
pub enum PointerEventKind {
    Enter,
    Leave,
    Motion,
    Press { button: u32 },
    Release { button: u32 },
    /// The wheel turned, by so many 120ths of a line in each direction.
    Axis { horizontal_value120: i32, vertical_value120: i32 },
}

/// A mouse button.
#[derive(Clone, Copy, Debug, PartialEq, Eq, Structural)]
pub enum Button {
    Left,
    Right,
    Middle,
    Back,
    Forward,
    Other(u16),
}

/// What the user interface is told of the mouse.
#[derive(Clone, Copy, Debug, PartialEq, Eq)]
pub enum MouseEvent<P> {
    CursorEntered,
    CursorLeft,
    CursorMoved { position: P },
    ButtonPressed(Button),
    ButtonReleased(Button),
    /// The wheel turned, by so many 120ths of a line in each direction.
    WheelScrolled { x120: i32, y120: i32 },
}

/// What the user interface is told.
#[derive(Clone, Copy, Debug, PartialEq, Eq)]
pub enum Event<P, T> {
    Resized { width: u32, height: u32 },
    RedrawRequested(T),
    Mouse(MouseEvent<P>),
}

/// Where the pointer is, seen from one surface.
#[derive(Clone, Copy, Debug, PartialEq, Eq)]
pub enum Cursor<P> {
    Unavailable,
    Available(P),
}

/// The button with the code `button`; an unknown one goes by the low half of its
/// code.
pub open spec fn button_of(button: u32) -> Button {
    if button == BTN_LEFT {
        Button::Left
    } else if button == BTN_RIGHT {
        Button::Right
    } else if button == BTN_MIDDLE {
        Button::Middle
    } else if button == BTN_BACK {
        Button::Back
    } else if button == BTN_FORWARD {
        Button::Forward
    } else {
        Button::Other((button % 0x1_0000) as u16)
    }
}

/// What the user interface is told when the pointer does `kind` at `position`.
pub open spec fn mouse_event_of<P>(kind: PointerEventKind, position: P) -> MouseEvent<P> {
    match kind {
        PointerEventKind::Enter => MouseEvent::CursorEntered,
        PointerEventKind::Leave => MouseEvent::CursorLeft,
        PointerEventKind::Motion => MouseEvent::CursorMoved { position },
        PointerEventKind::Press { button } => MouseEvent::ButtonPressed(button_of(button)),
        PointerEventKind::Release { button } => MouseEvent::ButtonReleased(button_of(button)),
        PointerEventKind::Axis { horizontal_value120, vertical_value120 } => {
            MouseEvent::WheelScrolled { x120: horizontal_value120, y120: vertical_value120 }
        },
    }
}

/// Where the pointer is after it did `kind` at `position`: entering and moving
/// show it, nothing else moves it.
pub open spec fn cursor_after<P>(cursor: Cursor<P>, kind: PointerEventKind, position: P) -> Cursor<
    P,
> {
    if kind is Enter || kind is Motion {
        Cursor::Available(position)
    } else {
        cursor
    }
}

/// The mouse button with the code `button`.
pub fn button_from_u32(button: u32) -> (r: Button)
    ensures
        r == button_of(button),
{
    if button == BTN_LEFT {
        Button::Left
    } else if button == BTN_RIGHT {
        Button::Right
    } else if button == BTN_MIDDLE {
        Button::Middle
    } else if button == BTN_BACK {
        Button::Back
    } else if button == BTN_FORWARD {
        Button::Forward
    } else {
        Button::Other((button % 0x1_0000) as u16)
    }
}

/// What the user interface is told when the pointer does `kind` at `position`.
pub fn mouse_event<P>(kind: PointerEventKind, position: P) -> (r: MouseEvent<P>)
    ensures
        r == mouse_event_of(kind, position),
{
    match kind {
        PointerEventKind::Enter => MouseEvent::CursorEntered,
        PointerEventKind::Leave => MouseEvent::CursorLeft,
        PointerEventKind::Motion => MouseEvent::CursorMoved { position },
        PointerEventKind::Press { button } => MouseEvent::ButtonPressed(button_from_u32(button)),
        PointerEventKind::Release { button } => MouseEvent::ButtonReleased(button_from_u32(button)),
        PointerEventKind::Axis { horizontal_value120, vertical_value120 } => {
            MouseEvent::WheelScrolled { x120: horizontal_value120, y120: vertical_value120 }
        },
    }
}

/// A button is known by its code: five codes name a button each, no two the same one,
/// and every other code names the button that has its low half for a number.
pub proof fn law_codes_name_buttons(button: u32, r: Button)
    requires
        call_ensures(button_from_u32, (button,), r),
    ensures
        r == Button::Left <==> button == 0x110,
        r == Button::Right <==> button == 0x111,
        r == Button::Middle <==> button == 0x112,
        r == Button::Forward <==> button == 0x115,
        r == Button::Back <==> button == 0x116,
        r matches Button::Other(number) ==> number as int == button as int % 0x1_0000,
{
}

/// A press and a release of one code name one and the same button, wherever the
/// pointer is, and that is the button that the code names.
pub proof fn law_a_press_and_its_release_name_one_button<P>(
    button: u32,
    pressed_at: P,
    released_at: P,
    pressed: MouseEvent<P>,
    released: MouseEvent<P>,
)
    requires
        call_ensures(mouse_event::<P>, (PointerEventKind::Press { button }, pressed_at), pressed),
        call_ensures(
            mouse_event::<P>,
            (PointerEventKind::Release { button }, released_at),
            released,
        ),
    ensures
        pressed is ButtonPressed,
        released is ButtonReleased,
        pressed->ButtonPressed_0 == released->ButtonReleased_0,
        ({
            let named = pressed->ButtonPressed_0;
            &&& named == Button::Left <==> button == 0x110
            &&& named == Button::Right <==> button == 0x111
            &&& named == Button::Middle <==> button == 0x112
            &&& named == Button::Forward <==> button == 0x115
            &&& named == Button::Back <==> button == 0x116
            &&& named matches Button::Other(number) ==> number as int == button as int % 0x1_0000
        }),
{
}

/// The user interface can tell what the pointer did: each kind of thing is told in a
/// way of its own, a motion with the place that it led to, and a turn of the wheel with
/// how far it went in each direction.
pub proof fn law_each_kind_is_told_in_its_own_way<P>(
    kind: PointerEventKind,
    position: P,
    r: MouseEvent<P>,
)
    requires
        call_ensures(mouse_event::<P>, (kind, position), r),
    ensures
        r is CursorEntered <==> kind is Enter,
        r is CursorLeft <==> kind is Leave,
        r is CursorMoved <==> kind is Motion,
        r is ButtonPressed <==> kind is Press,
        r is ButtonReleased <==> kind is Release,
        r is WheelScrolled <==> kind is Axis,
        r is CursorMoved ==> r->position == position,
        r is WheelScrolled ==> {
            &&& r->x120 == kind->horizontal_value120
            &&& r->y120 == kind->vertical_value120
        },
{
}

} // verus!
