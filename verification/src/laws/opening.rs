//! What holds of the opening of windows.
use vstd::prelude::*;

use crate::action::WindowSettings;
use crate::application::Application;
use crate::client::{Layer, LayerRequest, OpenError, WaylandClient};
use crate::event::{OutputId, SurfaceId};
use crate::scale::SurfaceScale;

verus! {

/// The value of an application shows all its windows, and all that it keeps in mind.
pub proof fn law_the_value_of_an_application_shows_all<P, T>(app: Application<P, T>)
    ensures
        app@.surfaces.dom() == app.surfaces@.dom(),
        forall|id: SurfaceId| #[trigger]
            app.surfaces@.contains_key(id) ==> app@.surfaces[id] == app.surfaces@[id]@,
        app@.windows.len() == app.window_settings_for_every_output@.len(),
        forall|i: int|
            0 <= i < app@.windows.len() ==> {
                let entry = #[trigger] app.window_settings_for_every_output@[i];
                app@.windows[i].0 == entry.0 && app@.windows[i].1 == entry.1@
            },
{
    assert(app@.surfaces.dom() =~= app.surfaces@.dom());
}

/// A new application has no windows, and keeps none in mind.
pub proof fn law_a_new_application_is_empty<P, T>(r: Application<P, T>)
    requires
        call_ensures(Application::<P, T>::new, (), r),
    ensures
        forall|id: SurfaceId| !r@.surfaces.contains_key(id),
        r@.windows.len() == 0,
{
}

/// Among the steps in the opening of a window there is exactly one that makes its surface a
/// layer surface: on the top layer, and under the name and on the output that are asked
/// for.
pub proof fn law_a_window_lies_on_the_top_layer<P, T>(
    client: &mut WaylandClient,
    wl_surface: SurfaceId,
    output: Option<OutputId>,
    settings: &WindowSettings,
    r: (Vec<LayerRequest>, Result<(), OpenError>),
)
    requires
        call_ensures(
            Application::<P, T>::open_new_layer_surface,
            (client, wl_surface, output, settings),
            r,
        ),
    ensures
        exists|at: int|
            {
                &&& 0 <= at < r.0@.len()
                &&& #[trigger] r.0@[at] is CreateLayerSurface
                &&& r.0@[at]->layer == Layer::Top
                &&& r.0@[at]->namespace == settings.namespace
                &&& r.0@[at]->output == output
            },
        forall|i: int, j: int|
            0 <= i < r.0@.len() && 0 <= j < r.0@.len() && #[trigger] r.0@[i] is CreateLayerSurface
                && #[trigger] r.0@[j] is CreateLayerSurface ==> i == j,
{
    let at: int = if old(client).fractional_scale {
        1
    } else {
        0
    };
    assert(r.0@[at] is CreateLayerSurface);
}

/// A window is asked for a height of 40 and any width, it is kept to the edges that are
/// asked for, and it keeps others off by its height exactly if that is asked for. All this
/// comes once, after its surface became a layer surface and before the compositor is let
/// see it, which also comes once.
pub proof fn law_a_window_is_opened_as_asked<P, T>(
    client: &mut WaylandClient,
    wl_surface: SurfaceId,
    output: Option<OutputId>,
    settings: &WindowSettings,
    r: (Vec<LayerRequest>, Result<(), OpenError>),
)
    requires
        call_ensures(
            Application::<P, T>::open_new_layer_surface,
            (client, wl_surface, output, settings),
            r,
        ),
    ensures
        ({
            let steps = r.0@;
            let made: int = if old(client).fractional_scale {
                1
            } else {
                0
            };
            let seen: int = made + if settings.exclusive_zone {
                4int
            } else {
                3
            };
            &&& seen < steps.len()
            &&& forall|i: int|
                #![trigger steps[i]]
                0 <= i < steps.len() ==> {
                    &&& steps[i] is GetFractionalScale <==> i < made
                    &&& steps[i] is CreateLayerSurface <==> i == made
                    &&& steps[i] is SetSize <==> i == made + 1
                    &&& steps[i] is SetAnchor <==> i == made + 2
                    &&& steps[i] is SetExclusiveZone <==> i == made + 3 && settings.exclusive_zone
                    &&& steps[i] is Commit <==> i == seen
                    &&& steps[i] is GetViewport <==> i == seen + 1
                    &&& steps[i] is CreateGpuSurface <==> i == seen + 2
                    &&& steps[i] matches LayerRequest::SetSize { width, height } ==> width == 0
                        && height == 40
                    &&& steps[i] matches LayerRequest::SetAnchor(edges) ==> edges
                        == settings.anchor
                    &&& steps[i] matches LayerRequest::SetExclusiveZone(zone) ==> zone == 40
                }
        }),
{
}

/// A surface that the client had already is an error, and then there is nothing to show or
/// draw a window with; on any other surface the window gets both. Either way the surface
/// is a layer surface without a size from then on, and no other one is touched.
pub proof fn law_a_window_needs_a_new_surface<P, T>(
    client: &mut WaylandClient,
    wl_surface: SurfaceId,
    output: Option<OutputId>,
    settings: &WindowSettings,
    r: (Vec<LayerRequest>, Result<(), OpenError>),
    other: SurfaceId,
)
    requires
        call_ensures(
            Application::<P, T>::open_new_layer_surface,
            (client, wl_surface, output, settings),
            r,
        ),
    ensures
        r.1 is Err <==> old(client).surfaces@.contains_key(wl_surface),
        r.1 is Err ==> r.1->Err_0 == OpenError::SurfaceExists,
        r.0@.len() > 0,
        r.1 is Err ==> r.0@.last() is Commit,
        r.1 is Ok ==> r.0@.len() > 2,
        r.1 is Ok ==> r.0@.last() is CreateGpuSurface,
        r.1 is Ok ==> r.0@[r.0@.len() - 2] is GetViewport,
        r.1 is Ok ==> r.0@[r.0@.len() - 3] is Commit,
        final(client).surfaces@.contains_key(wl_surface),
        final(client).surfaces@[wl_surface] is LayerSurface,
        ({
            let info = final(client).surfaces@[wl_surface]->LayerSurface_0;
            info.width is None && info.height is None && !info.started
        }),
        other != wl_surface ==> {
            &&& final(client).surfaces@.contains_key(other) == old(
                client,
            ).surfaces@.contains_key(other)
            &&& old(client).surfaces@.contains_key(other) ==> final(client).surfaces@[other]
                == old(client).surfaces@[other]
        },
        final(client).pointer == old(client).pointer,
        final(client).fractional_scale == old(client).fractional_scale,
{
}

/// There is something to draw on exactly when there is both a display and a surface, and a
/// missing display is noticed first.
pub proof fn law_a_window_needs_a_display_and_a_surface<P, T>(
    display_is_null: bool,
    surface_is_null: bool,
    r: Result<(), OpenError>,
)
    requires
        call_ensures(Application::<P, T>::check_handles, (display_is_null, surface_is_null), r),
    ensures
        r is Ok <==> !display_is_null && !surface_is_null,
        r matches Err(e) ==> (e == OpenError::NullDisplay <==> display_is_null),
        r matches Err(e) ==> (e == OpenError::NullSurface <==> !display_is_null),
{
}

/// A window that was opened is one more window: without a size, at a scale of one, with
/// nothing to be told, and keeping others off exactly if its settings say so. Every other
/// window stays as it was, and so does what is kept in mind.
pub proof fn law_an_opened_window_is_one_more<P, T>(
    app: &mut Application<P, T>,
    wl_surface: SurfaceId,
    settings: &WindowSettings,
    other: SurfaceId,
)
    requires
        call_ensures(Application::<P, T>::layer_surface_opened, (app, wl_surface, settings), ()),
    ensures
        final(app)@.surfaces.contains_key(wl_surface),
        ({
            let it = final(app)@.surfaces[wl_surface];
            &&& it.size is None
            &&& it.scale == SurfaceScale::BufferScale(1)
            &&& it.buffer_size is None
            &&& it.view_port is None
            &&& it.cursor is Unavailable
            &&& it.pending_event.len() == 0
            &&& it.exclusive_zone == settings.exclusive_zone
        }),
        other != wl_surface ==> {
            &&& final(app)@.surfaces.contains_key(other) == old(app)@.surfaces.contains_key(other)
            &&& final(app)@.surfaces[other] == old(app)@.surfaces[other]
        },
        final(app)@.windows == old(app)@.windows,
{
}

/// That a window was opened on some outputs is kept in mind: one entry more, last, with the
/// settings of the window and exactly these outputs. Nothing else changes.
pub proof fn law_opened_windows_are_kept_in_mind<P, T>(
    app: &mut Application<P, T>,
    settings: WindowSettings,
    outputs: Vec<OutputId>,
    output: OutputId,
)
    requires
        call_ensures(Application::<P, T>::windows_opened, (app, settings, outputs), ()),
    ensures
        final(app)@.surfaces == old(app)@.surfaces,
        final(app)@.windows.len() == old(app)@.windows.len() + 1,
        old(app)@.windows.is_prefix_of(final(app)@.windows),
        final(app)@.windows.last().0 == settings,
        final(app)@.windows.last().1.contains(output) <==> outputs@.contains(output),
{
}

} // verus!
