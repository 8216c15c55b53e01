//! The client side of the compositor: which surfaces it has, how large the
//! compositor wants them, and what it reports of them.
use std::collections::HashMap;
use vstd::prelude::*;

use crate::event::{OutputId, PointerEvent, SurfaceId, WaylandEvent};
use crate::scale::SurfaceScale;

verus! {

broadcast use vstd::std_specs::hash::group_hash_axioms;

/// The size that the compositor gave an ordinary window. A side that it left
/// open is `None`.
#[derive(Clone, Copy, Debug, PartialEq, Eq, Structural)]
pub struct WindowInfo {
    pub width: Option<u32>,
    pub height: Option<u32>,
    pub started: bool,
}

/// The size that the compositor gave a layer surface. A side that it left open
/// is `None`.
#[derive(Clone, Copy, Debug, PartialEq, Eq, Structural)]
pub struct LayerSurfaceInfo {
    pub width: Option<u32>,
    pub height: Option<u32>,
    pub started: bool,
}

/// A surface of the client.
#[derive(Clone, Copy, Debug, PartialEq, Eq, Structural)]
pub enum Surface {
    Window(WindowInfo),
    LayerSurface(LayerSurfaceInfo),
}

/// A layer of the screen, from the lowest to the highest.
#[derive(Clone, Copy, Debug, PartialEq, Eq, Structural)]
pub enum Layer {
    Background,
    Bottom,
    Top,
    Overlay,
}

/// An input device that a seat can have.
#[derive(Clone, Copy, Debug, PartialEq, Eq, Structural)]
pub enum Capability {
    Keyboard,
    Pointer,
    Touch,
}

/// A step in the making of a layer surface.
#[derive(Debug)]
pub enum LayerRequest {
    /// Ask to be told the fractional scale of the surface.
    GetFractionalScale,
    /// Make the surface a layer surface.
    CreateLayerSurface { layer: Layer, namespace: Option<String>, output: Option<OutputId> },
    /// Ask for a size; the compositor picks a side that is zero.
    SetSize { width: u32, height: u32 },
    /// Keep to these edges, one bit each.
    SetAnchor(u32),
    /// Keep other windows off by so much.
    SetExclusiveZone(i32),
    /// Let the compositor see the changes.
    Commit,
    /// Make a viewport for the surface.
    GetViewport,
    /// Make something to draw on.
    CreateGpuSurface,
}

/// Why a window was not opened.
#[derive(Clone, Copy, Debug, PartialEq, Eq, Structural)]
pub enum OpenError {
    /// The surface is one that the client had already.
    SurfaceExists,
    /// There is no display.
    NullDisplay,
    /// There is no surface.
    NullSurface,
}

impl OpenError {
    /// The error in words.
    pub fn message(self) -> (r: &'static str)
        ensures
            r@ == (match self {
                OpenError::SurfaceExists => "A new WlSurface should not already be in surfaces"@,
                OpenError::NullDisplay => "wayland display pointer is null"@,
                OpenError::NullSurface => "wl_surface is null"@,
            }),
    {
        match self {
            OpenError::SurfaceExists => "A new WlSurface should not already be in surfaces",
            OpenError::NullDisplay => "wayland display pointer is null",
            OpenError::NullSurface => "wl_surface is null",
        }
    }
}

impl WindowInfo {
    /// A window that the compositor gave no size yet.
    pub fn new() -> (r: Self)
        ensures
            r == (WindowInfo { width: None, height: None, started: false }),
    {
        WindowInfo { width: None, height: None, started: false }
    }
}

impl LayerSurfaceInfo {
    /// A layer surface that the compositor gave no size yet.
    pub fn new() -> (r: Self)
        ensures
            r == (LayerSurfaceInfo { width: None, height: None, started: false }),
    {
        LayerSurfaceInfo { width: None, height: None, started: false }
    }
}

impl Surface {
    /// The width and the height that the compositor gave the surface.
    pub open spec fn spec_size(self) -> (Option<u32>, Option<u32>) {
        match self {
            Surface::Window(info) => (info.width, info.height),
            Surface::LayerSurface(info) => (info.width, info.height),
        }
    }

    /// The width and the height that the compositor gave the surface.
    pub fn size(&self) -> (r: (Option<u32>, Option<u32>))
        ensures
            r == self.spec_size(),
    {
        match self {
            Surface::Window(info) => (info.width, info.height),
            Surface::LayerSurface(info) => (info.width, info.height),
        }
    }
}

/// A side of a surface: zero leaves it open.
pub open spec fn side(length: u32) -> Option<u32> {
    if length == 0 {
        None
    } else {
        Some(length)
    }
}

/// A side of a surface, as it is asked for: zero where it is left open.
pub open spec fn side_or_zero(side: Option<u32>) -> u32 {
    match side {
        Some(length) => length,
        None => 0,
    }
}

/// What a surface is to be told once it has both sides.
pub open spec fn configured<P>(wl_surface: SurfaceId, size: (Option<u32>, Option<u32>)) -> Option<
    WaylandEvent<P>,
> {
    match size {
        (Some(width), Some(height)) => Some(
            WaylandEvent::SurfaceConfigure { wl_surface, width, height },
        ),
        _ => None,
    }
}

/// The steps in the making of a layer surface, in order.
pub open spec fn layer_requests(
    fractional_scale: bool,
    layer: Layer,
    namespace: Option<String>,
    output: Option<OutputId>,
    size: (Option<u32>, Option<u32>),
    anchor: Option<u32>,
    exclusive_zone: Option<i32>,
) -> Seq<LayerRequest> {
    (if fractional_scale {
        seq![LayerRequest::GetFractionalScale]
    } else {
        seq![]
    }) + seq![
        LayerRequest::CreateLayerSurface { layer, namespace, output },
        LayerRequest::SetSize { width: side_or_zero(size.0), height: side_or_zero(size.1) },
    ] + (match anchor {
        Some(anchor) => seq![LayerRequest::SetAnchor(anchor)],
        None => seq![],
    }) + (match exclusive_zone {
        Some(zone) => seq![LayerRequest::SetExclusiveZone(zone)],
        None => seq![],
    }) + seq![LayerRequest::Commit]
}

/// The client: the surfaces that it made, and the devices that it holds.
#[derive(Debug)]
pub struct WaylandClient {
    /// Every surface that was ever made, by its number.
    pub surfaces: HashMap<SurfaceId, Surface>,
    /// Whether the client holds the pointer.
    pub pointer: bool,
    /// Whether the compositor knows fractional scales.
    pub fractional_scale: bool,
}

impl WaylandClient {
    /// No side that the compositor gave is zero.
    pub open spec fn wf(self) -> bool {
        forall|id: SurfaceId| #[trigger]
            self.surfaces@.contains_key(id) ==> {
                let size = self.surfaces@[id].spec_size();
                size.0 != Some(0u32) && size.1 != Some(0u32)
            }
    }

    /// The size of a surface, where the compositor gave it both sides.
    pub open spec fn full_size(self, wl_surface: SurfaceId) -> Option<(u32, u32)> {
        if self.surfaces@.contains_key(wl_surface) {
            match self.surfaces@[wl_surface].spec_size() {
                (Some(width), Some(height)) => Some((width, height)),
                _ => None,
            }
        } else {
            None
        }
    }

    /// A client that has no surfaces yet.
    pub fn new(fractional_scale: bool) -> (r: Self)
        ensures
            r.wf(),
            r.surfaces@ == Map::<SurfaceId, Surface>::empty(),
            !r.pointer,
            r.fractional_scale == fractional_scale,
    {
        WaylandClient { surfaces: HashMap::new(), pointer: false, fractional_scale }
    }

    /// Takes up the new surface `wl_surface` and says what makes it a layer
    /// surface. A surface that the client had already is taken up anew, and
    /// reported as an error when the steps are done.
    pub fn create_layer_surface(
        &mut self,
        wl_surface: SurfaceId,
        layer: Layer,
        namespace: Option<String>,
        output: Option<OutputId>,
        size: (Option<u32>, Option<u32>),
        anchor: Option<u32>,
        exclusive_zone: Option<i32>,
    ) -> (r: (Vec<LayerRequest>, Result<(), OpenError>))
        requires
            old(self).wf(),
        ensures
            final(self).wf(),
            r.0@ == layer_requests(
                old(self).fractional_scale,
                layer,
                namespace,
                output,
                size,
                anchor,
                exclusive_zone,
            ),
            r.1 == (if old(self).surfaces@.contains_key(wl_surface) {
                Err::<(), OpenError>(OpenError::SurfaceExists)
            } else {
                Ok(())
            }),
            final(self).surfaces@ == old(self).surfaces@.insert(
                wl_surface,
                Surface::LayerSurface(
                    LayerSurfaceInfo { width: None, height: None, started: false },
                ),
            ),
            final(self).pointer == old(self).pointer,
            final(self).fractional_scale == old(self).fractional_scale,
    {
        let mut requests: Vec<LayerRequest> = Vec::new();
        if self.fractional_scale {
            requests.push(LayerRequest::GetFractionalScale);
        }
        requests.push(LayerRequest::CreateLayerSurface { layer, namespace, output });
        let width: u32 = match size.0 {
            Some(width) => width,
            None => 0,
        };
        let height: u32 = match size.1 {
            Some(height) => height,
            None => 0,
        };
        requests.push(LayerRequest::SetSize { width, height });
        if let Some(anchor) = anchor {
            requests.push(LayerRequest::SetAnchor(anchor));
        }
        if let Some(zone) = exclusive_zone {
            requests.push(LayerRequest::SetExclusiveZone(zone));
        }
        requests.push(LayerRequest::Commit);
        let previous = self.surfaces.insert(
            wl_surface,
            Surface::LayerSurface(LayerSurfaceInfo::new()),
        );
        let result = match previous {
            Some(_) => Err(OpenError::SurfaceExists),
            None => Ok(()),
        };
        (requests, result)
    }

    /// The compositor gives an ordinary window a size. It counts only for a
    /// window of the client, and is passed on once it has both sides.
    pub fn configure_window<P>(
        &mut self,
        wl_surface: SurfaceId,
        new_size: (Option<u32>, Option<u32>),
    ) -> (r: Option<WaylandEvent<P>>)
        requires
            old(self).wf(),
            new_size.0 != Some(0u32),
            new_size.1 != Some(0u32),
        ensures
            final(self).wf(),
            ({
                let surfaces = old(self).surfaces@;
                if surfaces.contains_key(wl_surface) && surfaces[wl_surface] is Window {
                    &&& final(self).surfaces@ == surfaces.insert(
                        wl_surface,
                        Surface::Window(
                            WindowInfo {
                                width: new_size.0,
                                height: new_size.1,
                                started: surfaces[wl_surface]->Window_0.started,
                            },
                        ),
                    )
                    &&& r == configured::<P>(wl_surface, new_size)
                } else {
                    &&& final(self).surfaces@ == surfaces
                    &&& r is None
                }
            }),
            final(self).pointer == old(self).pointer,
            final(self).fractional_scale == old(self).fractional_scale,
    {
        let started: bool = match self.surfaces.get(&wl_surface) {
            Some(Surface::Window(info)) => info.started,
            _ => {
                return None;
            },
        };
        self.surfaces.insert(
            wl_surface,
            Surface::Window(WindowInfo { width: new_size.0, height: new_size.1, started }),
        );
        match new_size {
            (Some(width), Some(height)) => Some(
                WaylandEvent::SurfaceConfigure { wl_surface, width, height },
            ),
            _ => None,
        }
    }

    /// The compositor gives a layer surface a size, with zero for a side that it
    /// leaves open. It counts only for a layer surface of the client, and is
    /// passed on once it has both sides.
    pub fn configure_layer<P>(&mut self, wl_surface: SurfaceId, new_size: (u32, u32)) -> (r: Option<
        WaylandEvent<P>,
    >)
        requires
            old(self).wf(),
        ensures
            final(self).wf(),
            ({
                let surfaces = old(self).surfaces@;
                if surfaces.contains_key(wl_surface) && surfaces[wl_surface] is LayerSurface {
                    &&& final(self).surfaces@ == surfaces.insert(
                        wl_surface,
                        Surface::LayerSurface(
                            LayerSurfaceInfo {
                                width: side(new_size.0),
                                height: side(new_size.1),
                                started: surfaces[wl_surface]->LayerSurface_0.started,
                            },
                        ),
                    )
                    &&& r == configured::<P>(wl_surface, (side(new_size.0), side(new_size.1)))
                } else {
                    &&& final(self).surfaces@ == surfaces
                    &&& r is None
                }
            }),
            final(self).pointer == old(self).pointer,
            final(self).fractional_scale == old(self).fractional_scale,
    {
        let started: bool = match self.surfaces.get(&wl_surface) {
            Some(Surface::LayerSurface(info)) => info.started,
            _ => {
                return None;
            },
        };
        let width: Option<u32> = if new_size.0 == 0 {
            None
        } else {
            Some(new_size.0)
        };
        let height: Option<u32> = if new_size.1 == 0 {
            None
        } else {
            Some(new_size.1)
        };
        self.surfaces.insert(
            wl_surface,
            Surface::LayerSurface(LayerSurfaceInfo { width, height, started }),
        );
        match (width, height) {
            (Some(width), Some(height)) => Some(
                WaylandEvent::SurfaceConfigure { wl_surface, width, height },
            ),
            _ => None,
        }
    }

    /// A seat has got a device. Answers whether the client is to ask for the
    /// pointer now.
    pub fn new_capability(&self, capability: Capability) -> (r: bool)
        ensures
            r == (capability is Pointer && !self.pointer),
    {
        capability == Capability::Pointer && !self.pointer
    }

    /// The client asked for the pointer, and got it or not.
    pub fn pointer_answered(&mut self, acquired: bool)
        ensures
            *final(self) == (WaylandClient { pointer: acquired, ..*old(self) }),
    {
        self.pointer = acquired;
    }

    /// A seat has lost a device. Answers whether the client is to release the
    /// pointer, which it then no longer holds.
    pub fn remove_capability(&mut self, capability: Capability) -> (r: bool)
        ensures
            r == (capability is Pointer && old(self).pointer),
            *final(self) == (WaylandClient { pointer: old(self).pointer && !r, ..*old(self) }),
    {
        if capability == Capability::Pointer && self.pointer {
            self.pointer = false;
            true
        } else {
            false
        }
    }

    /// An output has come.
    pub fn new_output<P>(output: OutputId) -> (r: WaylandEvent<P>)
        ensures
            r == WaylandEvent::<P>::NewOutput(output),
    {
        WaylandEvent::NewOutput(output)
    }

    /// An output has gone.
    pub fn output_destroyed<P>(output: OutputId) -> (r: WaylandEvent<P>)
        ensures
            r == WaylandEvent::<P>::OutputDestroyed(output),
    {
        WaylandEvent::OutputDestroyed(output)
    }

    /// A surface is to be shown at a whole scale.
    pub fn scale_factor_changed<P>(wl_surface: SurfaceId, new_factor: i32) -> (r: WaylandEvent<P>)
        ensures
            r == (WaylandEvent::<P>::SurfaceScale {
                wl_surface,
                scale: SurfaceScale::BufferScale(new_factor),
            }),
    {
        WaylandEvent::SurfaceScale { wl_surface, scale: SurfaceScale::BufferScale(new_factor) }
    }

    /// A surface is to be shown at a scale in 120ths.
    pub fn preferred_scale<P>(wl_surface: SurfaceId, scale: u32) -> (r: WaylandEvent<P>)
        ensures
            r == (WaylandEvent::<P>::SurfaceScale {
                wl_surface,
                scale: SurfaceScale::FractionalScale(scale),
            }),
    {
        WaylandEvent::SurfaceScale { wl_surface, scale: SurfaceScale::FractionalScale(scale) }
    }

    /// It is time to draw a surface anew.
    pub fn frame<P>(wl_surface: SurfaceId) -> (r: WaylandEvent<P>)
        ensures
            r == WaylandEvent::<P>::SurfaceFrame(wl_surface),
    {
        WaylandEvent::SurfaceFrame(wl_surface)
    }

    /// The user or the compositor wants a surface closed.
    pub fn request_close<P>(wl_surface: SurfaceId) -> (r: WaylandEvent<P>)
        ensures
            r == WaylandEvent::<P>::SurfaceClose(wl_surface),
    {
        WaylandEvent::SurfaceClose(wl_surface)
    }

    /// The compositor has closed a layer surface.
    pub fn closed<P>(wl_surface: SurfaceId) -> (r: WaylandEvent<P>)
        ensures
            r == WaylandEvent::<P>::SurfaceClose(wl_surface),
    {
        WaylandEvent::SurfaceClose(wl_surface)
    }

    /// The pointer did these things.
    pub fn pointer_frame<P>(events: Vec<PointerEvent<P>>) -> (r: WaylandEvent<P>)
        ensures
            r == WaylandEvent::<P>::PointerEvents(events),
    {
        WaylandEvent::PointerEvents(events)
    }
}

/// The making of a layer surface takes each step once: first the surface becomes a layer
/// surface, on the layer, under the name and on the output that are asked for; it is then
/// asked for its size, with zero for a side that is left open, and kept to its edges and
/// other windows off it only where that is wanted; and at the end the compositor is let
/// see it. A fractional scale is asked for before all that, where there are any.
pub proof fn law_a_layer_surface_is_made_as_asked(
    client: &mut WaylandClient,
    wl_surface: SurfaceId,
    layer: Layer,
    namespace: Option<String>,
    output: Option<OutputId>,
    size: (Option<u32>, Option<u32>),
    anchor: Option<u32>,
    exclusive_zone: Option<i32>,
    r: (Vec<LayerRequest>, Result<(), OpenError>),
)
    requires
        call_ensures(
            WaylandClient::create_layer_surface,
            (client, wl_surface, layer, namespace, output, size, anchor, exclusive_zone),
            r,
        ),
    ensures
        ({
            let steps = r.0@;
            let made: int = if old(client).fractional_scale {
                1
            } else {
                0
            };
            let kept: int = if anchor is Some {
                1
            } else {
                0
            };
            let off: int = if exclusive_zone is Some {
                1
            } else {
                0
            };
            &&& steps.len() == made + 3 + kept + off
            &&& made == 1 ==> steps[0] is GetFractionalScale
            &&& steps[made] == LayerRequest::CreateLayerSurface { layer, namespace, output }
            &&& steps[made + 1] is SetSize
            &&& steps[made + 1]->width == (if size.0 is Some {
                size.0->0
            } else {
                0
            })
            &&& steps[made + 1]->height == (if size.1 is Some {
                size.1->0
            } else {
                0
            })
            &&& anchor matches Some(edges) ==> steps[made + 2] == LayerRequest::SetAnchor(edges)
            &&& exclusive_zone matches Some(zone) ==> steps[made + 2 + kept]
                == LayerRequest::SetExclusiveZone(zone)
            &&& steps.last() is Commit
        }),
{
}

/// A surface is made once: to make it again is an error. Made or not, it counts as a
/// layer surface without a size from then on, and no other surface is touched.
pub proof fn law_a_surface_is_made_once(
    client: &mut WaylandClient,
    wl_surface: SurfaceId,
    layer: Layer,
    namespace: Option<String>,
    output: Option<OutputId>,
    size: (Option<u32>, Option<u32>),
    anchor: Option<u32>,
    exclusive_zone: Option<i32>,
    r: (Vec<LayerRequest>, Result<(), OpenError>),
    other: SurfaceId,
)
    requires
        call_ensures(
            WaylandClient::create_layer_surface,
            (client, wl_surface, layer, namespace, output, size, anchor, exclusive_zone),
            r,
        ),
    ensures
        r.1 is Err <==> old(client).surfaces@.contains_key(wl_surface),
        r.1 is Err ==> r.1->Err_0 == OpenError::SurfaceExists,
        final(client).surfaces@.contains_key(wl_surface),
        final(client).surfaces@[wl_surface] is LayerSurface,
        ({
            let info = final(client).surfaces@[wl_surface]->LayerSurface_0;
            info.width is None && info.height is None && !info.started
        }),
        other != wl_surface ==> {
            &&& final(client).surfaces@.contains_key(other) == old(
                client,
            ).surfaces@.contains_key(other)
            &&& old(client).surfaces@.contains_key(other) ==> final(client).surfaces@[other]
                == old(client).surfaces@[other]
        },
        final(client).pointer == old(client).pointer,
        final(client).fractional_scale == old(client).fractional_scale,
{
}

/// A size that the compositor gives a layer surface of the client is the size of that
/// surface from then on, where zero leaves a side open, and is passed on exactly when
/// neither side is. Given to anything else it changes nothing. Nothing else is touched.
pub proof fn law_a_layer_surface_takes_the_size_that_it_is_given<P>(
    client: &mut WaylandClient,
    wl_surface: SurfaceId,
    new_size: (u32, u32),
    r: Option<WaylandEvent<P>>,
    other: SurfaceId,
)
    requires
        call_ensures(WaylandClient::configure_layer::<P>, (client, wl_surface, new_size), r),
    ensures
        ({
            let counts = old(client).surfaces@.contains_key(wl_surface) && old(
                client,
            ).surfaces@[wl_surface] is LayerSurface;
            &&& r is Some <==> counts && new_size.0 != 0 && new_size.1 != 0
            &&& r matches Some(event) ==> event == WaylandEvent::<P>::SurfaceConfigure {
                wl_surface,
                width: new_size.0,
                height: new_size.1,
            }
            &&& counts ==> final(client).surfaces@[wl_surface] is LayerSurface
            &&& counts ==> {
                let before = old(client).surfaces@[wl_surface]->LayerSurface_0;
                let after = final(client).surfaces@[wl_surface]->LayerSurface_0;
                &&& after.width is None <==> new_size.0 == 0
                &&& after.width is Some ==> after.width->0 == new_size.0
                &&& after.height is None <==> new_size.1 == 0
                &&& after.height is Some ==> after.height->0 == new_size.1
                &&& after.started == before.started
            }
            &&& !counts || other != wl_surface ==> {
                &&& final(client).surfaces@.contains_key(other) == old(
                    client,
                ).surfaces@.contains_key(other)
                &&& old(client).surfaces@.contains_key(other) ==> final(client).surfaces@[other]
                    == old(client).surfaces@[other]
            }
        }),
        final(client).pointer == old(client).pointer,
        final(client).fractional_scale == old(client).fractional_scale,
{
}

/// A size that the compositor gives an ordinary window of the client is the size of that
/// window from then on, and is passed on exactly when no side is left open. Given to
/// anything else it changes nothing. Nothing else is touched.
pub proof fn law_a_window_takes_the_size_that_it_is_given<P>(
    client: &mut WaylandClient,
    wl_surface: SurfaceId,
    new_size: (Option<u32>, Option<u32>),
    r: Option<WaylandEvent<P>>,
    other: SurfaceId,
)
    requires
        call_ensures(WaylandClient::configure_window::<P>, (client, wl_surface, new_size), r),
    ensures
        ({
            let counts = old(client).surfaces@.contains_key(wl_surface) && old(
                client,
            ).surfaces@[wl_surface] is Window;
            &&& r is Some <==> counts && new_size.0 is Some && new_size.1 is Some
            &&& r matches Some(event) ==> event == WaylandEvent::<P>::SurfaceConfigure {
                wl_surface,
                width: new_size.0->0,
                height: new_size.1->0,
            }
            &&& counts ==> final(client).surfaces@[wl_surface] is Window
            &&& counts ==> {
                let before = old(client).surfaces@[wl_surface]->Window_0;
                let after = final(client).surfaces@[wl_surface]->Window_0;
                (after.width, after.height) == new_size && after.started == before.started
            }
            &&& !counts || other != wl_surface ==> {
                &&& final(client).surfaces@.contains_key(other) == old(
                    client,
                ).surfaces@.contains_key(other)
                &&& old(client).surfaces@.contains_key(other) ==> final(client).surfaces@[other]
                    == old(client).surfaces@[other]
            }
        }),
        final(client).pointer == old(client).pointer,
        final(client).fractional_scale == old(client).fractional_scale,
{
}

/// What is new has no size and was not started, and a new client holds nothing.
pub proof fn law_what_is_new_is_empty(
    window: WindowInfo,
    layer_surface: LayerSurfaceInfo,
    fractional_scale: bool,
    client: WaylandClient,
)
    requires
        call_ensures(WindowInfo::new, (), window),
        call_ensures(LayerSurfaceInfo::new, (), layer_surface),
        call_ensures(WaylandClient::new, (fractional_scale,), client),
    ensures
        window.width is None && window.height is None && !window.started,
        layer_surface.width is None && layer_surface.height is None && !layer_surface.started,
        forall|id: SurfaceId| !client.surfaces@.contains_key(id),
        !client.pointer,
        client.fractional_scale == fractional_scale,
{
}

/// The size of a surface is its width and its height, whatever it is.
pub proof fn law_the_size_of_a_surface_is_what_it_was_given(
    surface: &Surface,
    r: (Option<u32>, Option<u32>),
)
    requires
        call_ensures(Surface::size, (surface,), r),
    ensures
        surface matches Surface::Window(info) ==> r.0 == info.width && r.1 == info.height,
        surface matches Surface::LayerSurface(info) ==> r.0 == info.width && r.1 == info.height,
{
}

/// The client asks for a pointer exactly when a seat has got one and it holds none. Once
/// it holds one it asks for no other; once it got none it asks again.
pub proof fn law_one_pointer_is_asked_for(
    client: &mut WaylandClient,
    capability: Capability,
    acquired: bool,
    asks: bool,
    later: Capability,
    asks_again: bool,
)
    requires
        call_ensures(WaylandClient::new_capability, (&*old(client), capability), asks),
        call_ensures(WaylandClient::pointer_answered, (client, acquired), ()),
        call_ensures(WaylandClient::new_capability, (&*final(client), later), asks_again),
    ensures
        asks <==> capability == Capability::Pointer && !old(client).pointer,
        asks_again <==> later == Capability::Pointer && !acquired,
        final(client).pointer == acquired,
        final(client).surfaces == old(client).surfaces,
        final(client).fractional_scale == old(client).fractional_scale,
{
}

/// A pointer that a seat has lost is released once, if the client holds it, and not held
/// any more. The loss of another device is nothing to the client.
pub proof fn law_a_lost_pointer_is_released_once(
    client: &mut WaylandClient,
    capability: Capability,
    released: bool,
)
    requires
        call_ensures(WaylandClient::remove_capability, (client, capability), released),
    ensures
        released <==> capability == Capability::Pointer && old(client).pointer,
        capability == Capability::Pointer ==> !final(client).pointer,
        capability != Capability::Pointer ==> final(client).pointer == old(client).pointer,
        final(client).surfaces == old(client).surfaces,
        final(client).fractional_scale == old(client).fractional_scale,
{
}

/// What an output does is reported under the number of that output.
pub proof fn law_outputs_are_reported<P>(
    output: OutputId,
    come: WaylandEvent<P>,
    gone: WaylandEvent<P>,
)
    requires
        call_ensures(WaylandClient::new_output::<P>, (output,), come),
        call_ensures(WaylandClient::output_destroyed::<P>, (output,), gone),
    ensures
        come is NewOutput && come->NewOutput_0 == output,
        gone is OutputDestroyed && gone->OutputDestroyed_0 == output,
{
}

/// What is to happen to a surface is reported under the number of that surface: it is to
/// be drawn; it is to be closed, whoever wants that; it is to have a scale, either a
/// whole one or one that counts in 120ths.
pub proof fn law_surfaces_are_reported<P>(
    wl_surface: SurfaceId,
    new_factor: i32,
    steps: u32,
    frame: WaylandEvent<P>,
    wanted: WaylandEvent<P>,
    closed: WaylandEvent<P>,
    whole: WaylandEvent<P>,
    fractional: WaylandEvent<P>,
)
    requires
        call_ensures(WaylandClient::frame::<P>, (wl_surface,), frame),
        call_ensures(WaylandClient::request_close::<P>, (wl_surface,), wanted),
        call_ensures(WaylandClient::closed::<P>, (wl_surface,), closed),
        call_ensures(
            WaylandClient::scale_factor_changed::<P>,
            (wl_surface, new_factor),
            whole,
        ),
        call_ensures(WaylandClient::preferred_scale::<P>, (wl_surface, steps), fractional),
    ensures
        frame is SurfaceFrame && frame->SurfaceFrame_0 == wl_surface,
        wanted is SurfaceClose && wanted->SurfaceClose_0 == wl_surface,
        closed == wanted,
        whole is SurfaceScale && whole->SurfaceScale_wl_surface == wl_surface,
        whole->SurfaceScale_scale == SurfaceScale::BufferScale(new_factor),
        fractional is SurfaceScale && fractional->SurfaceScale_wl_surface == wl_surface,
        fractional->SurfaceScale_scale == SurfaceScale::FractionalScale(steps),
{
}

/// All that the pointer did is reported, in order.
pub proof fn law_the_pointer_is_reported<P>(events: Vec<PointerEvent<P>>, r: WaylandEvent<P>)
    requires
        call_ensures(WaylandClient::pointer_frame::<P>, (events,), r),
    ensures
        r is PointerEvents,
        r->PointerEvents_0@ == events@,
{
}

/// Every error is put in words of its own.
pub proof fn law_errors_are_put_in_words(error: OpenError, r: &'static str)
    requires
        call_ensures(OpenError::message, (error,), r),
    ensures
        error is SurfaceExists ==> r@ == "A new WlSurface should not already be in surfaces"@,
        error is NullDisplay ==> r@ == "wayland display pointer is null"@,
        error is NullSurface ==> r@ == "wl_surface is null"@,
{
}

} // verus!
