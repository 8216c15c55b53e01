//! What the application knows of one window.
use vstd::prelude::*;

use crate::event::{cursor_after, mouse_event, mouse_event_of, Cursor, Event, PointerEventKind};
use crate::scale::{u32_fits, u32_scaled, SurfaceScale};

verus! {

/// The part of a buffer that is drawn on, in pixels, and its scale.
#[derive(Clone, Copy, Debug, PartialEq, Eq, Structural)]
pub struct ViewPort {
    pub width: u32,
    pub height: u32,
    pub scale: SurfaceScale,
}

/// What is to be done to a surface after it got another size or scale.
#[derive(Clone, Copy, Debug, PartialEq, Eq, Structural)]
pub enum SurfaceRequest {
    /// Tell the compositor how many pixels make up a unit.
    SetBufferScale(i32),
    /// Tell the compositor the size to show the buffer at; `-1` twice lifts it.
    SetDestination(i32, i32),
    /// Make the drawn buffer this large, in pixels.
    ConfigureGpuSurface { width: u32, height: u32 },
}

/// A window of the application.
#[derive(Debug)]
pub struct SurfaceState<P, T> {
    /// The size in units, once there is one.
    pub size: Option<(u32, u32)>,
    pub scale: SurfaceScale,
    /// The size in pixels, once there is one.
    pub buffer_size: Option<(u32, u32)>,
    pub view_port: Option<ViewPort>,
    pub cursor: Cursor<P>,
    /// What the user interface is yet to be told, the oldest first.
    pub pending_event: Vec<Event<P, T>>,
    /// Whether other windows keep off this one.
    pub exclusive_zone: bool,
}

/// The value of a [`SurfaceState`].
pub struct SurfaceView<P, T> {
    pub size: Option<(u32, u32)>,
    pub scale: SurfaceScale,
    pub buffer_size: Option<(u32, u32)>,
    pub view_port: Option<ViewPort>,
    pub cursor: Cursor<P>,
    pub pending_event: Seq<Event<P, T>>,
    pub exclusive_zone: bool,
}

impl<P, T> View for SurfaceState<P, T> {
    type V = SurfaceView<P, T>;

    open spec fn view(&self) -> SurfaceView<P, T> {
        SurfaceView {
            size: self.size,
            scale: self.scale,
            buffer_size: self.buffer_size,
            view_port: self.view_port,
            cursor: self.cursor,
            pending_event: self.pending_event@,
            exclusive_zone: self.exclusive_zone,
        }
    }
}

/// The bits of `length`, read as a signed number.
pub open spec fn signed(length: u32) -> int {
    if length <= i32::MAX {
        length as int
    } else {
        length - 0x1_0000_0000
    }
}

/// The bits of `length`, read as a signed number.
pub fn as_signed(length: u32) -> (r: i32)
    ensures
        r == signed(length),
{
    let r: i32 = #[verifier::truncate] (length as i32);
    assert(length <= 0x7fff_ffff ==> r == length) by (bit_vector)
        requires
            r == length as i32,
    ;
    assert(length > 0x7fff_ffff ==> r == length - 0x1_0000_0000) by (bit_vector)
        requires
            r == length as i32,
    ;
    r
}

/// A size in pixels.
pub open spec fn scaled_size(size: (u32, u32), scale: SurfaceScale) -> (u32, u32) {
    (u32_scaled(size.0, scale), u32_scaled(size.1, scale))
}

/// Whether both sides of a size can be multiplied by a scale.
pub open spec fn size_fits(size: (u32, u32), scale: SurfaceScale) -> bool {
    u32_fits(size.0, scale) && u32_fits(size.1, scale)
}

/// Whether a size has no side that is zero.
pub open spec fn size_nonzero(size: (u32, u32)) -> bool {
    size.0 != 0 && size.1 != 0
}

impl<P, T> SurfaceView<P, T> {
    /// A window that was just opened.
    pub open spec fn opened(exclusive_zone: bool) -> Self {
        SurfaceView {
            size: None,
            scale: SurfaceScale::BufferScale(1),
            buffer_size: None,
            view_port: None,
            cursor: Cursor::Unavailable,
            pending_event: seq![],
            exclusive_zone,
        }
    }

    /// The size has no zero side; there is a buffer only where there is a size;
    /// and what is drawn on is the whole buffer, at the scale of the window.
    pub open spec fn wf(self) -> bool {
        &&& self.size matches Some(size) ==> size_nonzero(size)
        &&& self.buffer_size is Some ==> self.size is Some
        &&& self.view_port == (match self.buffer_size {
            Some((width, height)) => Some(ViewPort { width, height, scale: self.scale }),
            None => None::<ViewPort>,
        })
    }

    /// One more thing for the user interface to be told.
    pub open spec fn told(self, event: Event<P, T>) -> Self {
        SurfaceView { pending_event: self.pending_event.push(event), ..self }
    }

    /// What is to be done after another size or scale: with a fractional scale
    /// the compositor shrinks the buffer to the size in units, else it is told
    /// the scale.
    pub open spec fn resize_requests(self) -> Seq<SurfaceRequest> {
        (match (self.size, self.scale) {
            (Some((width, height)), SurfaceScale::FractionalScale(_)) => seq![
                SurfaceRequest::SetBufferScale(1),
                SurfaceRequest::SetDestination(signed(width) as i32, signed(height) as i32),
            ],
            (Some(_), SurfaceScale::BufferScale(scale)) => seq![
                SurfaceRequest::SetBufferScale(scale),
                SurfaceRequest::SetDestination((-1) as i32, (-1) as i32),
            ],
            (None, _) => seq![],
        }) + (match self.buffer_size {
            Some((width, height)) => seq![SurfaceRequest::ConfigureGpuSurface { width, height }],
            None => seq![],
        })
    }

    /// The window after [`SurfaceState::on_resize`].
    pub open spec fn resized(self) -> Self {
        match self.buffer_size {
            Some((width, height)) => SurfaceView {
                view_port: Some(ViewPort { width, height, scale: self.scale }),
                ..self.told(Event::Resized { width, height })
            },
            None => self,
        }
    }

    /// The window with another size in units, and the size in pixels that goes
    /// with it, of which the user interface is told in units.
    pub open spec fn with_size(self, size: (u32, u32)) -> Self {
        SurfaceView {
            size: Some(size),
            buffer_size: Some(scaled_size(size, self.scale)),
            ..self.told(Event::Resized { width: size.0, height: size.1 })
        }
    }

    /// The window with another scale, and the size in pixels that goes with it.
    pub open spec fn with_scale(self, scale: SurfaceScale) -> Self {
        match self.size {
            Some(size) => SurfaceView {
                scale,
                buffer_size: Some(scaled_size(size, scale)),
                ..self
            },
            None => SurfaceView { scale, ..self },
        }
    }

    /// The window after the pointer did `kind` at `position`.
    pub open spec fn pointed(self, kind: PointerEventKind, position: P) -> Self {
        SurfaceView {
            cursor: cursor_after(self.cursor, kind, position),
            ..self.told(Event::Mouse(mouse_event_of(kind, position)))
        }
    }

    /// Whether the window is to be given another height, where its contents came
    /// out as `bounds`.
    pub open spec fn misfits(self, bounds: (u32, u32)) -> bool {
        match self.size {
            Some((_, height)) => height != bounds.1,
            None => true,
        }
    }

    /// The window after [`SurfaceState::fit_content`].
    pub open spec fn fitted(self, bounds: Option<(u32, u32)>) -> Self {
        match bounds {
            Some(bounds) => if self.misfits(bounds) && size_nonzero(bounds) {
                SurfaceView { size: Some(bounds), ..self }
            } else {
                self
            },
            None => self,
        }
    }
}

impl<P, T> SurfaceState<P, T> {
    /// A window that was just opened.
    pub fn new(exclusive_zone: bool) -> (r: Self)
        ensures
            r@ == SurfaceView::<P, T>::opened(exclusive_zone),
            r@.wf(),
    {
        SurfaceState {
            size: None,
            scale: SurfaceScale::BufferScale(1),
            buffer_size: None,
            view_port: None,
            cursor: Cursor::Unavailable,
            pending_event: Vec::new(),
            exclusive_zone,
        }
    }

    /// Follows up on another size or scale: tells the user interface the size in
    /// pixels, draws on all of the buffer, and says what is to be done to the
    /// surface.
    pub fn on_resize(&mut self) -> (r: Vec<SurfaceRequest>)
        ensures
            final(self)@ == old(self)@.resized(),
            r@ == old(self)@.resize_requests(),
    {
        let mut requests: Vec<SurfaceRequest> = Vec::new();
        if let Some((width, height)) = self.size {
            match self.scale {
                SurfaceScale::FractionalScale(_) => {
                    requests.push(SurfaceRequest::SetBufferScale(1));
                    requests.push(
                        SurfaceRequest::SetDestination(as_signed(width), as_signed(height)),
                    );
                },
                SurfaceScale::BufferScale(scale) => {
                    requests.push(SurfaceRequest::SetBufferScale(scale));
                    requests.push(SurfaceRequest::SetDestination(-1, -1));
                },
            }
        }
        if let Some((width, height)) = self.buffer_size {
            self.pending_event.push(Event::Resized { width, height });
            self.view_port = Some(ViewPort { width, height, scale: self.scale });
            requests.push(SurfaceRequest::ConfigureGpuSurface { width, height });
        }
        requests
    }

    /// Gives the window the size in units `size`.
    pub fn set_size(&mut self, size: (u32, u32)) -> (r: Vec<SurfaceRequest>)
        requires
            size_fits(size, old(self).scale),
        ensures
            final(self)@ == old(self)@.with_size(size).resized(),
            r@ == old(self)@.with_size(size).resize_requests(),
    {
        self.size = Some(size);
        self.buffer_size = Some((size.0 * self.scale, size.1 * self.scale));
        self.pending_event.push(Event::Resized { width: size.0, height: size.1 });
        self.on_resize()
    }

    /// Gives the window the scale `scale`. Nothing follows from that as long as
    /// the window has no size.
    pub fn set_scale(&mut self, scale: SurfaceScale) -> (r: Vec<SurfaceRequest>)
        requires
            old(self).size matches Some(size) ==> size_fits(size, scale),
        ensures
            final(self)@ == (if old(self).size is Some {
                old(self)@.with_scale(scale).resized()
            } else {
                old(self)@.with_scale(scale)
            }),
            r@ == (if old(self).size is Some {
                old(self)@.with_scale(scale).resize_requests()
            } else {
                seq![]
            }),
    {
        self.scale = scale;
        if let Some(size) = self.size {
            self.buffer_size = Some((size.0 * scale, size.1 * scale));
            self.on_resize()
        } else {
            Vec::new()
        }
    }

    /// Fits the window to its contents, which came out as `bounds`. Answers the
    /// height that the window is to be asked for, where it is another one. The
    /// new size counts at once, unless a side of it is zero.
    pub fn fit_content(&mut self, bounds: Option<(u32, u32)>) -> (r: Option<u32>)
        ensures
            final(self)@ == old(self)@.fitted(bounds),
            r == (match bounds {
                Some(bounds) => if old(self)@.misfits(bounds) {
                    Some(bounds.1)
                } else {
                    None
                },
                None => None::<u32>,
            }),
    {
        if let Some(bounds) = bounds {
            let misfits: bool = match self.size {
                Some((_, height)) => height != bounds.1,
                None => true,
            };
            if misfits {
                if bounds.0 != 0 && bounds.1 != 0 {
                    self.size = Some(bounds);
                }
                return Some(bounds.1);
            }
        }
        None
    }
}

impl<P: Copy, T> SurfaceState<P, T> {
    /// Notes that the pointer did `kind` at `position`.
    pub fn on_pointer(&mut self, kind: PointerEventKind, position: P)
        ensures
            final(self)@ == old(self)@.pointed(kind, position),
    {
        match kind {
            PointerEventKind::Enter | PointerEventKind::Motion => {
                self.cursor = Cursor::Available(position);
            },
            _ => {},
        }
        self.pending_event.push(Event::Mouse(mouse_event(kind, position)));
    }
}

} // verus!
