use eucalyptus::action::{Action, WindowSettings};
use eucalyptus::application::{Application, DrawStep, Effect, Polled, RunInput, HEIGHT};
use eucalyptus::client::{LayerRequest, OpenError, WaylandClient};
use eucalyptus::event::{Button, Cursor, Event, MouseEvent, PointerEvent, PointerEventKind, WaylandEvent};
use eucalyptus::scale::SurfaceScale;
use eucalyptus::surface_state::{as_signed, SurfaceRequest, SurfaceState, ViewPort};

type App = Application<(i32, i32), u64>;
type Wayland = WaylandEvent<(i32, i32)>;

fn settings(every: bool) -> WindowSettings {
    WindowSettings {
        namespace: Some("bar".to_string()),
        anchor: 5,
        exclusive_zone: every,
        open_on_every_output: every,
    }
}

/// An application with the window 1, which keeps others off.
fn with_window() -> App {
    let mut app = App::new();
    app.layer_surface_opened(1, &settings(true));
    app
}

fn report(app: &mut App, event: Wayland) -> Vec<Effect<&'static str>> {
    assert!(app.accepts(&event));
    app.on_wayland_event(event, 99)
}

fn act(app: &mut App, action: Action<&'static str>, outputs: Vec<u64>) -> Vec<Effect<&'static str>> {
    app.on_input(RunInput::Action { polled: Polled::Received(action), outputs }, 0)
}

/// Opens a window on every output, where each of them opens.
fn open_everywhere(app: &mut App, outputs: Vec<u64>) {
    for effect in act(app, Action::OpenWindow(settings(true)), outputs) {
        if let Effect::KeepInMind { settings, outputs } = effect {
            app.windows_opened(settings, outputs);
        }
    }
}

fn opened(effects: &[Effect<&'static str>]) -> Vec<Option<u64>> {
    let mut outputs = vec![];
    for effect in effects {
        if let Effect::Open { output, settings } = effect {
            assert_eq!(settings.namespace.as_deref(), Some("bar"));
            outputs.push(*output);
        }
    }
    outputs
}

fn waits(effect: &Effect<&'static str>) -> bool {
    matches!(effect, Effect::Dispatch { timeout_millis: 10 })
}

#[test]
fn the_run_goes_round() {
    let mut app = App::new();
    let effects = app.on_input::<&str>(RunInput::Started, 0);
    assert_eq!(effects.len(), 3);
    assert!(matches!(effects[0], Effect::RunBootTask));
    assert!(matches!(effects[1], Effect::TrackSubscriptions));
    assert!(waits(&effects[2]));
    let effects = app.on_input::<&str>(RunInput::Dispatched, 0);
    assert!(matches!(effects[..], [Effect::PollWayland]));
    let effects = app.on_input::<&str>(RunInput::Wayland(Polled::Empty), 0);
    assert!(matches!(effects[..], [Effect::PollActions]));
    let effects = app.on_input::<&str>(RunInput::Wayland(Polled::Closed), 0);
    assert!(matches!(effects[..], [Effect::WarnClosed, Effect::PollActions]));
    let effects = app.on_input::<&str>(RunInput::Wayland(Polled::Received(Wayland::SurfaceFrame(5))), 0);
    assert!(matches!(effects[..], [Effect::Draw(5), Effect::PollActions]));
    let effects =
        app.on_input::<&str>(RunInput::Action { polled: Polled::Empty, outputs: vec![] }, 0);
    assert!(effects.len() == 1 && waits(&effects[0]));
    let effects =
        app.on_input::<&str>(RunInput::Action { polled: Polled::Closed, outputs: vec![] }, 0);
    assert!(matches!(effects[0], Effect::WarnClosed));
    assert!(effects.len() == 2 && waits(&effects[1]));
}

#[test]
fn messages_are_handed_on_and_exit_ends_the_run() {
    let mut app = App::new();
    let effects = act(&mut app, Action::Output("hello"), vec![]);
    assert!(matches!(effects[0], Effect::Update("hello")));
    assert!(effects.len() == 2 && waits(&effects[1]));
    assert!(matches!(act(&mut app, Action::Exit, vec![])[..], [Effect::Exit]));
}

#[test]
fn a_window_for_one_output_is_not_kept_in_mind() {
    let mut app = App::new();
    let effects = act(&mut app, Action::OpenWindow(settings(false)), vec![1, 2]);
    assert_eq!(opened(&effects), [None]);
    assert!(app.window_settings_for_every_output.is_empty());
    assert!(report(&mut app, Wayland::NewOutput(3)).is_empty());
}

#[test]
fn every_output_gets_a_window_once() {
    let mut app = App::new();
    let effects = act(&mut app, Action::OpenWindow(settings(true)), vec![1, 2, 1]);
    assert_eq!(opened(&effects), [Some(1), Some(2)]);
    assert!(matches!(effects[2], Effect::KeepInMind { .. }));
    assert!(waits(&effects[3]));
    assert!(app.window_settings_for_every_output.is_empty());
    open_everywhere(&mut app, vec![1, 2, 1]);
    assert_eq!(app.window_settings_for_every_output[0].1.len(), 2);
    assert!(report(&mut app, Wayland::NewOutput(2)).is_empty());
    assert_eq!(opened(&report(&mut app, Wayland::NewOutput(3))), [Some(3)]);
    assert!(report(&mut app, Wayland::NewOutput(3)).is_empty());
    assert_eq!(app.window_settings_for_every_output[0].1.len(), 3);
}

#[test]
fn a_returning_output_gets_its_windows_again() {
    let mut app = App::new();
    open_everywhere(&mut app, vec![1]);
    open_everywhere(&mut app, vec![]);
    assert!(report(&mut app, Wayland::OutputDestroyed(1)).is_empty());
    assert_eq!(opened(&report(&mut app, Wayland::NewOutput(1))), [Some(1), Some(1)]);
}

#[test]
fn all_windows_are_destroyed_but_not_forgotten() {
    let mut app = with_window();
    app.layer_surface_opened(8, &settings(false));
    let effects = act(&mut app, Action::CloseAllWindow, vec![]);
    assert_eq!(effects.len(), 3);
    assert!(waits(&effects[2]));
    let mut destroyed = vec![];
    for effect in &effects[..2] {
        match effect {
            Effect::Destroy(id) => destroyed.push(*id),
            other => panic!("{other:?}"),
        }
    }
    destroyed.sort();
    assert_eq!(destroyed, [1, 8]);
    assert_eq!(app.surfaces.len(), 2);
    assert!(matches!(report(&mut app, Wayland::SurfaceClose(8))[..], [Effect::Release(8)]));
    assert!(report(&mut app, Wayland::SurfaceClose(8)).is_empty());
    assert_eq!(app.surfaces.len(), 1);
}

#[test]
fn opening_a_window_step_by_step() {
    let mut client = WaylandClient::new(false);
    let (requests, result) =
        App::open_new_layer_surface(&mut client, 1, Some(2), &settings(true));
    assert_eq!(result, Ok(()));
    assert_eq!(requests.len(), 7);
    assert!(matches!(requests[0], LayerRequest::CreateLayerSurface { output: Some(2), .. }));
    assert!(matches!(requests[1], LayerRequest::SetSize { width: 0, height: HEIGHT }));
    assert!(matches!(requests[2], LayerRequest::SetAnchor(5)));
    assert!(matches!(requests[3], LayerRequest::SetExclusiveZone(40)));
    assert!(matches!(requests[4], LayerRequest::Commit));
    assert!(matches!(requests[5], LayerRequest::GetViewport));
    assert!(matches!(requests[6], LayerRequest::CreateGpuSurface));
    let (requests, result) = App::open_new_layer_surface(&mut client, 1, None, &settings(false));
    assert_eq!(result, Err(OpenError::SurfaceExists));
    assert_eq!(requests.len(), 4);
    assert!(matches!(requests[3], LayerRequest::Commit));
}

#[test]
fn there_must_be_something_to_draw_on() {
    assert_eq!(App::check_handles(false, false), Ok(()));
    assert_eq!(App::check_handles(true, true), Err(OpenError::NullDisplay));
    assert_eq!(App::check_handles(false, true), Err(OpenError::NullSurface));
}

#[test]
fn an_opened_window_has_no_size() {
    let app = with_window();
    let it = &app.surfaces[&1];
    assert_eq!(it.size, None);
    assert_eq!(it.scale, SurfaceScale::BufferScale(1));
    assert_eq!(it.buffer_size, None);
    assert_eq!(it.view_port, None);
    assert_eq!(it.cursor, Cursor::Unavailable);
    assert!(it.pending_event.is_empty());
    assert!(it.exclusive_zone);
}

#[test]
fn a_size_reaches_the_buffer() {
    let mut app = with_window();
    report(
        &mut app,
        Wayland::SurfaceScale { wl_surface: 1, scale: SurfaceScale::FractionalScale(150) },
    );
    let effects =
        report(&mut app, Wayland::SurfaceConfigure { wl_surface: 1, width: 1920, height: 41 });
    assert_eq!(effects.len(), 4);
    assert!(matches!(effects[0], Effect::Request(1, SurfaceRequest::SetBufferScale(1))));
    assert!(matches!(effects[1], Effect::Request(1, SurfaceRequest::SetDestination(1920, 41))));
    assert!(matches!(
        effects[2],
        Effect::Request(1, SurfaceRequest::ConfigureGpuSurface { width: 2400, height: 51 })
    ));
    assert!(matches!(effects[3], Effect::Draw(1)));
    let it = &app.surfaces[&1];
    assert_eq!(it.size, Some((1920, 41)));
    assert_eq!(it.buffer_size, Some((2400, 51)));
    let scale = SurfaceScale::FractionalScale(150);
    assert_eq!(it.view_port, Some(ViewPort { width: 2400, height: 51, scale }));
    assert_eq!(
        it.pending_event,
        [Event::Resized { width: 1920, height: 41 }, Event::Resized { width: 2400, height: 51 }]
    );
}

#[test]
fn a_scale_reaches_the_buffer_once_there_is_a_size() {
    let mut app = with_window();
    let scale = SurfaceScale::BufferScale(2);
    assert!(report(&mut app, Wayland::SurfaceScale { wl_surface: 1, scale }).is_empty());
    assert_eq!(app.surfaces[&1].scale, scale);
    assert_eq!(app.surfaces[&1].buffer_size, None);
    report(&mut app, Wayland::SurfaceConfigure { wl_surface: 1, width: 10, height: 20 });
    let scale = SurfaceScale::BufferScale(3);
    let effects = report(&mut app, Wayland::SurfaceScale { wl_surface: 1, scale });
    assert_eq!(effects.len(), 3);
    assert!(matches!(effects[0], Effect::Request(1, SurfaceRequest::SetBufferScale(3))));
    assert!(matches!(effects[1], Effect::Request(1, SurfaceRequest::SetDestination(-1, -1))));
    assert!(matches!(
        effects[2],
        Effect::Request(1, SurfaceRequest::ConfigureGpuSurface { width: 30, height: 60 })
    ));
    assert_eq!(app.surfaces[&1].buffer_size, Some((30, 60)));
}

#[test]
fn size_and_scale_come_in_any_order() {
    let size = Wayland::SurfaceConfigure { wl_surface: 1, width: 33, height: 44 };
    let scale =
        Wayland::SurfaceScale { wl_surface: 1, scale: SurfaceScale::FractionalScale(180) };
    let mut one = with_window();
    report(&mut one, size.clone());
    report(&mut one, scale.clone());
    let mut other = with_window();
    report(&mut other, scale);
    report(&mut other, size);
    assert_eq!(one.surfaces[&1].buffer_size, other.surfaces[&1].buffer_size);
    assert_eq!(one.surfaces[&1].view_port, other.surfaces[&1].view_port);
    assert_eq!(one.surfaces[&1].buffer_size, Some((49, 66)));
}

#[test]
fn sizes_that_cannot_be_counted_are_not_taken() {
    let mut app = with_window();
    assert!(!app.accepts(&Wayland::SurfaceConfigure { wl_surface: 1, width: 0, height: 1 }));
    assert!(!app.accepts(&Wayland::SurfaceConfigure { wl_surface: 1, width: 1, height: 0 }));
    let scale = SurfaceScale::BufferScale(2);
    report(&mut app, Wayland::SurfaceScale { wl_surface: 1, scale });
    let large = u32::MAX;
    assert!(!app.accepts(&Wayland::SurfaceConfigure { wl_surface: 1, width: large, height: 1 }));
    assert!(app.accepts(&Wayland::SurfaceConfigure { wl_surface: 2, width: large, height: 1 }));
    report(&mut app, Wayland::SurfaceConfigure { wl_surface: 1, width: 1 << 30, height: 1 });
    let scale = SurfaceScale::BufferScale(4);
    assert!(!app.accepts(&Wayland::SurfaceScale { wl_surface: 1, scale }));
}

#[test]
fn surfaces_without_a_window_are_left_alone() {
    let mut app = with_window();
    let scale = SurfaceScale::BufferScale(2);
    assert!(report(&mut app, Wayland::SurfaceScale { wl_surface: 2, scale }).is_empty());
    let effects =
        report(&mut app, Wayland::SurfaceConfigure { wl_surface: 2, width: 3, height: 4 });
    assert!(matches!(effects[..], [Effect::Draw(2)]));
    assert_eq!(app.surfaces.len(), 1);
    assert_eq!(app.surfaces[&1].size, None);
}

#[test]
fn the_pointer_is_followed() {
    let mut app = with_window();
    let at = |surface, x, kind| PointerEvent { surface, position: (x, 0), kind };
    let effects = report(
        &mut app,
        Wayland::PointerEvents(vec![
            at(1, 1, PointerEventKind::Press { button: 0x112 }),
            at(1, 2, PointerEventKind::Enter),
            at(9, 3, PointerEventKind::Motion),
            at(1, 4, PointerEventKind::Motion),
            at(1, 5, PointerEventKind::Leave),
        ]),
    );
    assert!(effects.is_empty());
    let it = &app.surfaces[&1];
    assert_eq!(it.cursor, Cursor::Available((4, 0)));
    assert_eq!(
        it.pending_event,
        [
            Event::Mouse(MouseEvent::ButtonPressed(Button::Middle)),
            Event::Mouse(MouseEvent::CursorEntered),
            Event::Mouse(MouseEvent::CursorMoved { position: (4, 0) }),
            Event::Mouse(MouseEvent::CursorLeft),
        ]
    );
    assert_eq!(app.surfaces.len(), 1);
}

#[test]
fn the_pointer_can_be_followed_piece_by_piece() {
    let events: Vec<_> = [PointerEventKind::Enter, PointerEventKind::Motion, PointerEventKind::Leave]
        .into_iter()
        .zip(0..)
        .map(|(kind, x)| PointerEvent { surface: 1, position: (x, 0), kind })
        .collect();
    let mut one = with_window();
    report(&mut one, Wayland::PointerEvents(events.clone()));
    let mut other = with_window();
    report(&mut other, Wayland::PointerEvents(events[..1].to_vec()));
    report(&mut other, Wayland::PointerEvents(events[1..].to_vec()));
    assert_eq!(one.surfaces[&1].pending_event, other.surfaces[&1].pending_event);
    assert_eq!(one.surfaces[&1].cursor, other.surfaces[&1].cursor);
    assert_eq!(one.surfaces[&1].cursor, Cursor::Available((1, 0)));
}

#[test]
fn a_frame_hands_out_what_is_pending() {
    let mut app = with_window();
    report(&mut app, Wayland::SurfaceFrame(1));
    let frame = app.begin_frame(1).unwrap();
    assert_eq!(frame.events, [Event::RedrawRequested(99)]);
    assert_eq!(frame.cursor, Cursor::Unavailable);
    assert!(app.begin_frame(1).unwrap().events.is_empty());
    assert!(app.begin_frame(2).is_none());
}

#[test]
fn only_configured_windows_are_drawn() {
    let mut app = App::new();
    let mut client = WaylandClient::new(false);
    assert_eq!(app.draw(&client, 1), None);
    let _ = App::open_new_layer_surface(&mut client, 1, None, &settings(true));
    app.layer_surface_opened(1, &settings(true));
    assert_eq!(app.draw(&client, 1), None);
    let _ = client.configure_layer::<(i32, i32)>(1, (0, 40));
    assert_eq!(app.draw(&client, 1), None);
    let _ = client.configure_layer::<(i32, i32)>(1, (800, 40));
    assert_eq!(app.draw(&client, 1), Some((800, 40)));
    report(&mut app, Wayland::SurfaceClose(1));
    assert_eq!(app.draw(&client, 1), None);
}

#[test]
fn a_window_fits_its_contents() {
    let mut app = with_window();
    report(&mut app, Wayland::SurfaceConfigure { wl_surface: 1, width: 800, height: 40 });
    let scale = SurfaceScale::BufferScale(1);
    let tail = [
        DrawStep::DrawInterface,
        DrawStep::Present(ViewPort { width: 800, height: 40, scale }),
        DrawStep::RequestFrame,
        DrawStep::Commit,
        DrawStep::HandleMessages,
        DrawStep::TrackSubscriptions,
    ];
    assert!(app.presentable(1, (800, 40)));
    let steps = app.end_frame(1, (800, 40), Some((800, 36)));
    assert_eq!(
        steps[..2],
        [DrawStep::SetSize { width: 0, height: 36 }, DrawStep::SetExclusiveZone(36)]
    );
    assert_eq!(steps[2..], tail);
    assert_eq!(app.surfaces[&1].size, Some((800, 36)));
    assert_eq!(app.surfaces[&1].buffer_size, Some((800, 40)));
    assert_eq!(app.end_frame(1, (800, 40), Some((700, 36))), tail);
    assert_eq!(app.surfaces[&1].size, Some((800, 36)));
    assert_eq!(app.end_frame(1, (800, 40), None), tail);
    let steps = app.end_frame(1, (800, 40), Some((0, 12)));
    assert_eq!(steps[0], DrawStep::SetSize { width: 0, height: 12 });
    assert_eq!(app.surfaces[&1].size, Some((800, 36)));
    assert!(app.end_frame(2, (800, 40), Some((1, 1))).is_empty());
}

#[test]
fn a_window_that_keeps_nothing_off_sets_no_zone() {
    let mut app = App::new();
    app.layer_surface_opened(1, &settings(false));
    let steps = app.end_frame(1, (8, 4), Some((8, 3)));
    assert_eq!(steps[0], DrawStep::SetSize { width: 0, height: 3 });
    assert_eq!(steps[1], DrawStep::DrawInterface);
    assert_eq!(app.surfaces[&1].size, Some((8, 3)));
}

#[test]
fn frames_that_cannot_be_counted_are_not_presentable() {
    let mut app = with_window();
    let scale = SurfaceScale::BufferScale(2);
    report(&mut app, Wayland::SurfaceScale { wl_surface: 1, scale });
    assert!(!app.presentable(1, (1, 1 << 31)));
    assert!(app.presentable(2, (1, 1 << 31)));
}

#[test]
fn without_a_texture_a_window_is_drawn_later() {
    assert_eq!(App::texture_unavailable(), [DrawStep::RequestFrame, DrawStep::Commit]);
}

#[test]
fn long_sides_wrap_round() {
    assert_eq!(as_signed(0x7fff_ffff), i32::MAX);
    assert_eq!(as_signed(0x8000_0000), i32::MIN);
    assert_eq!(as_signed(u32::MAX), -1);
    let mut it: SurfaceState<(), ()> = SurfaceState::new(false);
    assert!(it.on_resize().is_empty());
    it.scale = SurfaceScale::FractionalScale(0);
    let requests = it.set_size((u32::MAX, 7));
    assert_eq!(requests[1], SurfaceRequest::SetDestination(-1, 7));
    assert_eq!(requests[2], SurfaceRequest::ConfigureGpuSurface { width: 0, height: 0 });
}
