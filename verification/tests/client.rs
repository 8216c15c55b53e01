use eucalyptus::client::{
    Capability, Layer, LayerRequest, LayerSurfaceInfo, OpenError, Surface, WaylandClient, WindowInfo,
};
use eucalyptus::event::{PointerEvent, PointerEventKind, WaylandEvent};
use eucalyptus::scale::SurfaceScale;

type Position = (i32, i32);

#[test]
fn a_layer_surface_is_made_step_by_step() {
    let mut client = WaylandClient::new(true);
    let (requests, result) = client.create_layer_surface(
        7,
        Layer::Top,
        Some("bar".to_string()),
        Some(3),
        (None, Some(40)),
        Some(13),
        Some(40),
    );
    assert_eq!(result, Ok(()));
    assert_eq!(requests.len(), 6);
    assert!(matches!(requests[0], LayerRequest::GetFractionalScale));
    match &requests[1] {
        LayerRequest::CreateLayerSurface { layer, namespace, output } => {
            assert_eq!(*layer, Layer::Top);
            assert_eq!(namespace.as_deref(), Some("bar"));
            assert_eq!(*output, Some(3));
        }
        other => panic!("{other:?}"),
    }
    assert!(matches!(requests[2], LayerRequest::SetSize { width: 0, height: 40 }));
    assert!(matches!(requests[3], LayerRequest::SetAnchor(13)));
    assert!(matches!(requests[4], LayerRequest::SetExclusiveZone(40)));
    assert!(matches!(requests[5], LayerRequest::Commit));
    assert_eq!(client.surfaces[&7].size(), (None, None));
}

#[test]
fn optional_steps_are_left_out() {
    let mut client = WaylandClient::new(false);
    let (requests, result) =
        client.create_layer_surface(1, Layer::Overlay, None, None, (Some(5), None), None, None);
    assert_eq!(result, Ok(()));
    assert_eq!(requests.len(), 3);
    assert!(matches!(requests[0], LayerRequest::CreateLayerSurface { layer: Layer::Overlay, .. }));
    assert!(matches!(requests[1], LayerRequest::SetSize { width: 5, height: 0 }));
    assert!(matches!(requests[2], LayerRequest::Commit));
}

#[test]
fn a_surface_is_new_only_once() {
    let mut client = WaylandClient::new(false);
    let first = client.create_layer_surface(1, Layer::Top, None, None, (None, None), None, None);
    assert_eq!(first.1, Ok(()));
    let _ = client.configure_layer::<Position>(1, (10, 20));
    let second = client.create_layer_surface(1, Layer::Top, None, None, (None, None), None, None);
    assert_eq!(second.1, Err(OpenError::SurfaceExists));
    assert_eq!(second.0.len(), 3);
    assert_eq!(client.surfaces[&1].size(), (None, None));
    assert_eq!(
        OpenError::SurfaceExists.message(),
        "A new WlSurface should not already be in surfaces"
    );
    assert_eq!(OpenError::NullDisplay.message(), "wayland display pointer is null");
    assert_eq!(OpenError::NullSurface.message(), "wl_surface is null");
}

#[test]
fn a_layer_surface_is_configured_once_it_has_both_sides() {
    let mut client = WaylandClient::new(false);
    let _ = client.create_layer_surface(1, Layer::Top, None, None, (None, None), None, None);
    assert!(client.configure_layer::<Position>(1, (0, 40)).is_none());
    assert_eq!(client.surfaces[&1].size(), (None, Some(40)));
    assert!(client.configure_layer::<Position>(1, (1920, 0)).is_none());
    assert_eq!(client.surfaces[&1].size(), (Some(1920), None));
    assert!(matches!(
        client.configure_layer::<Position>(1, (1920, 40)),
        Some(WaylandEvent::SurfaceConfigure { wl_surface: 1, width: 1920, height: 40 })
    ));
    assert_eq!(client.surfaces[&1].size(), (Some(1920), Some(40)));
}

#[test]
fn only_surfaces_of_the_right_kind_are_configured() {
    let mut client = WaylandClient::new(false);
    assert!(client.configure_layer::<Position>(1, (1, 1)).is_none());
    assert!(client.configure_window::<Position>(1, (Some(1), Some(1))).is_none());
    client.surfaces.insert(1, Surface::Window(WindowInfo::new()));
    client.surfaces.insert(2, Surface::LayerSurface(LayerSurfaceInfo::new()));
    assert!(client.configure_layer::<Position>(1, (1, 1)).is_none());
    assert!(client.configure_window::<Position>(2, (Some(1), Some(1))).is_none());
    assert_eq!(client.surfaces[&1].size(), (None, None));
    assert_eq!(client.surfaces[&2].size(), (None, None));
    assert!(client.configure_window::<Position>(1, (Some(8), None)).is_none());
    assert_eq!(client.surfaces[&1].size(), (Some(8), None));
    assert!(matches!(
        client.configure_window::<Position>(1, (Some(8), Some(9))),
        Some(WaylandEvent::SurfaceConfigure { wl_surface: 1, width: 8, height: 9 })
    ));
}

#[test]
fn the_pointer_is_held_once() {
    let mut client = WaylandClient::new(false);
    assert!(!client.new_capability(Capability::Keyboard));
    assert!(!client.remove_capability(Capability::Pointer));
    assert!(client.new_capability(Capability::Pointer));
    client.pointer_answered(false);
    assert!(client.new_capability(Capability::Pointer));
    client.pointer_answered(true);
    assert!(!client.new_capability(Capability::Pointer));
    assert!(!client.remove_capability(Capability::Touch));
    assert!(client.pointer);
    assert!(client.remove_capability(Capability::Pointer));
    assert!(!client.pointer);
    assert!(client.new_capability(Capability::Pointer));
}

#[test]
fn reports_carry_what_happened() {
    assert!(matches!(WaylandClient::new_output::<Position>(4), WaylandEvent::NewOutput(4)));
    assert!(matches!(
        WaylandClient::output_destroyed::<Position>(4),
        WaylandEvent::OutputDestroyed(4)
    ));
    assert!(matches!(
        WaylandClient::scale_factor_changed::<Position>(1, 2),
        WaylandEvent::SurfaceScale { wl_surface: 1, scale: SurfaceScale::BufferScale(2) }
    ));
    assert!(matches!(
        WaylandClient::preferred_scale::<Position>(1, 150),
        WaylandEvent::SurfaceScale { wl_surface: 1, scale: SurfaceScale::FractionalScale(150) }
    ));
    assert!(matches!(WaylandClient::frame::<Position>(1), WaylandEvent::SurfaceFrame(1)));
    assert!(matches!(WaylandClient::request_close::<Position>(1), WaylandEvent::SurfaceClose(1)));
    assert!(matches!(WaylandClient::closed::<Position>(2), WaylandEvent::SurfaceClose(2)));
    let event = PointerEvent { surface: 1, position: (2, 3), kind: PointerEventKind::Leave };
    match WaylandClient::pointer_frame(vec![event]) {
        WaylandEvent::PointerEvents(events) => {
            assert_eq!(events.len(), 1);
            assert_eq!(events[0].position, (2, 3));
        }
        other => panic!("{other:?}"),
    }
}
