use eucalyptus::action::{Action, WindowSettings};
use eucalyptus::application::{Application, Effect, Polled, RunInput};
use eucalyptus::event::WaylandEvent;
use eucalyptus::run::{Outcome, Plan, Step};
use eucalyptus::scale::SurfaceScale;

type App = Application<(), ()>;
type Out = Outcome<&'static str, (), &'static str>;
type Next = Step<&'static str, &'static str>;

fn settings() -> WindowSettings {
    WindowSettings { namespace: None, anchor: 0, exclusive_zone: false, open_on_every_output: true }
}

fn go_on(app: &mut App, plan: &mut Plan<&'static str>, outcome: Out) -> Next {
    assert!(!plan.ended);
    assert!(app.takes(plan, &outcome));
    app.run(plan, outcome, ())
}

fn action(action: Action<&'static str>, outputs: Vec<u64>) -> Out {
    Outcome::Happened(RunInput::Action { polled: Polled::Received(action), outputs })
}

fn event(event: WaylandEvent<()>) -> Out {
    Outcome::Happened(RunInput::Wayland(Polled::Received(event)))
}

fn opens(step: &Next, on: u64) -> bool {
    matches!(step, Step::Perform(Effect::Open { output: Some(output), .. }) if *output == on)
}

fn waits(step: &Next) -> bool {
    matches!(step, Step::Perform(Effect::Dispatch { timeout_millis: 10 }))
}

/// Opens a window on every output, where each of them opens.
fn open_everywhere(app: &mut App, plan: &mut Plan<&'static str>, outputs: &[u64]) {
    let mut step = go_on(app, plan, action(Action::OpenWindow(settings()), outputs.to_vec()));
    for output in outputs {
        assert!(opens(&step, *output));
        assert_eq!(app.window_settings_for_every_output.len(), 0);
        step = go_on(app, plan, Outcome::Done);
    }
    assert!(waits(&step));
}

#[test]
fn effects_are_handed_out_one_by_one() {
    let (mut app, mut plan) = (App::new(), Plan::new());
    let step = go_on(&mut app, &mut plan, Outcome::Happened(RunInput::Started));
    assert!(matches!(step, Step::Perform(Effect::RunBootTask)));
    let step = go_on(&mut app, &mut plan, Outcome::Done);
    assert!(matches!(step, Step::Perform(Effect::TrackSubscriptions)));
    let step = go_on(&mut app, &mut plan, Outcome::Done);
    assert!(waits(&step));
    let step = go_on(&mut app, &mut plan, Outcome::Happened(RunInput::Dispatched));
    assert!(matches!(step, Step::Perform(Effect::PollWayland)));
    let step = go_on(&mut app, &mut plan, event(WaylandEvent::SurfaceFrame(3)));
    assert!(matches!(step, Step::Perform(Effect::Draw(3))));
    let step = go_on(&mut app, &mut plan, Outcome::Done);
    assert!(matches!(step, Step::Perform(Effect::PollActions)));
    let step = go_on(&mut app, &mut plan, action(Action::Exit, vec![]));
    assert!(matches!(step, Step::End(Ok(()))));
    assert!(plan.ended);
}

#[test]
fn outcomes_must_fit_the_plan() {
    let (mut app, mut plan) = (App::new(), Plan::<&str>::new());
    assert!(!app.takes::<_, ()>(&plan, &Outcome::Done));
    let _ = go_on(&mut app, &mut plan, Outcome::Happened(RunInput::Started));
    assert!(app.takes::<_, ()>(&plan, &Outcome::Done));
    assert!(!app.takes::<_, ()>(&plan, &Outcome::Happened(RunInput::Dispatched)));
    assert!(app.takes(&plan, &Outcome::Failed("x")));
    let plan = Plan::<&str>::new();
    let zero: Out = event(WaylandEvent::SurfaceConfigure { wl_surface: 1, width: 0, height: 1 });
    assert!(!app.takes(&plan, &zero));
    let scale = SurfaceScale::BufferScale(2);
    assert!(app.takes(&plan, &event(WaylandEvent::SurfaceScale { wl_surface: 1, scale })));
}

#[test]
fn a_failed_wait_ends_the_run() {
    let (mut app, mut plan) = (App::new(), Plan::new());
    let _ = go_on(&mut app, &mut plan, Outcome::Happened(RunInput::Started));
    let _ = go_on(&mut app, &mut plan, Outcome::Done);
    let step = go_on(&mut app, &mut plan, Outcome::Done);
    assert!(waits(&step));
    let step = go_on(&mut app, &mut plan, Outcome::Failed("broken pipe"));
    assert!(matches!(step, Step::End(Err("broken pipe"))));
    assert!(plan.ended);
}

#[test]
fn windows_are_kept_in_mind_once_all_are_open() {
    let (mut app, mut plan) = (App::new(), Plan::new());
    open_everywhere(&mut app, &mut plan, &[4, 5]);
    assert_eq!(app.window_settings_for_every_output.len(), 1);
    assert_eq!(app.window_settings_for_every_output[0].1.len(), 2);
    let (mut app, mut plan) = (App::new(), Plan::new());
    open_everywhere(&mut app, &mut plan, &[]);
    assert_eq!(app.window_settings_for_every_output.len(), 1);
}

#[test]
fn a_failed_open_keeps_nothing_in_mind() {
    let (mut app, mut plan) = (App::new(), Plan::new());
    let step = go_on(&mut app, &mut plan, action(Action::OpenWindow(settings()), vec![4, 5, 6]));
    assert!(opens(&step, 4));
    let step = go_on(&mut app, &mut plan, Outcome::Done);
    assert!(opens(&step, 5));
    let step = go_on(&mut app, &mut plan, Outcome::Failed("no surface"));
    assert!(matches!(step, Step::End(Err("no surface"))));
    assert!(plan.ended && plan.effects.is_empty());
    assert!(app.window_settings_for_every_output.is_empty());
}

#[test]
fn a_new_output_is_kept_in_mind_though_an_open_fails() {
    let (mut app, mut plan) = (App::new(), Plan::new());
    open_everywhere(&mut app, &mut plan, &[]);
    let step = go_on(&mut app, &mut plan, event(WaylandEvent::NewOutput(9)));
    assert!(opens(&step, 9));
    app.layer_surface_opened(1, &settings());
    let step = go_on(&mut app, &mut plan, Outcome::Failed("no surface"));
    assert!(matches!(step, Step::End(Err("no surface"))));
    assert!(app.window_settings_for_every_output[0].1.contains(&9));
    assert_eq!(app.surfaces.len(), 1);
}
