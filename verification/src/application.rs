//! The application: its windows, and what it does about what it is told.
//!
//! The application decides; whoever runs it acts. Each of its functions takes what
//! has happened and answers with effects, which are carried out in order. What comes
//! of them, and how the run goes on, is in [`crate::run`].
use std::collections::{HashMap, HashSet};
use vstd::prelude::*;

use crate::action::{Action, WindowSettings};
use crate::client::{layer_requests, LayerSurfaceInfo, Surface};
use crate::client::{Layer, LayerRequest, OpenError, WaylandClient};
use crate::event::{Cursor, Event, OutputId, PointerEvent, SurfaceId, WaylandEvent};
use crate::laws::law_events_keep_the_application_well_formed;
use crate::surface_state::{as_signed, SurfaceRequest, SurfaceState, ViewPort};
use crate::surface_state::{scaled_size, signed, size_fits, size_nonzero, SurfaceView};

verus! {

broadcast use vstd::std_specs::hash::group_hash_axioms;

/// The height in units that a window is asked for when it is opened.
pub const HEIGHT: u32 = 40;

/// How long the application waits for the compositor at a time, in milliseconds.
pub const DISPATCH_MILLIS: u64 = 10;

/// Something to be done.
#[derive(Debug)]
pub enum Effect<Message> {
    /// Run what the program wants done at its start.
    RunBootTask,
    /// Listen to what the program wants to hear.
    TrackSubscriptions,
    /// Wait for the compositor, for so many milliseconds at most.
    Dispatch { timeout_millis: u64 },
    /// Look whether the compositor has reported something.
    PollWayland,
    /// Look whether the program has requested something.
    PollActions,
    /// Say that nothing can be reported or requested any more.
    WarnClosed,
    /// Hand the program a message, and run what it wants done about it.
    Update(Message),
    /// Open a window, on a given output or wherever the compositor likes.
    Open { output: Option<OutputId>, settings: WindowSettings },
    /// Keep in mind that these outputs have such a window, now that it was opened on
    /// each of them.
    KeepInMind { settings: WindowSettings, outputs: Vec<OutputId> },
    /// Destroy a surface.
    Destroy(SurfaceId),
    /// Let go of all that a window was drawn with.
    Release(SurfaceId),
    /// Do this to a surface.
    Request(SurfaceId, SurfaceRequest),
    /// Draw a window.
    Draw(SurfaceId),
    /// End the run.
    Exit,
}

/// What a look at a queue has shown.
#[derive(Debug)]
pub enum Polled<T> {
    Received(T),
    Empty,
    Closed,
}

/// What has happened in the run.
#[derive(Debug)]
pub enum RunInput<Message, P> {
    /// The run has begun.
    Started,
    /// The wait for the compositor is over.
    Dispatched,
    /// The queue of the compositor was looked at.
    Wayland(Polled<WaylandEvent<P>>),
    /// The queue of the program was looked at, when there were these outputs.
    Action { polled: Polled<Action<Message>>, outputs: Vec<OutputId> },
}

/// What a window is drawn from.
#[derive(Debug)]
pub struct Frame<P, T> {
    /// What the user interface is to be told, the oldest first.
    pub events: Vec<Event<P, T>>,
    pub cursor: Cursor<P>,
}

/// A step in the drawing of a window.
#[derive(Clone, Copy, Debug, PartialEq, Eq, Structural)]
pub enum DrawStep {
    /// Ask the compositor for a size; it picks a side that is zero.
    SetSize { width: u32, height: u32 },
    /// Keep other windows off by so much.
    SetExclusiveZone(i32),
    /// Draw the user interface.
    DrawInterface,
    /// Show what was drawn.
    Present(ViewPort),
    /// Ask to be told when to draw again.
    RequestFrame,
    /// Let the compositor see the changes.
    Commit,
    /// Hand the program what came out of the user interface.
    HandleMessages,
    /// Listen to what the program wants to hear.
    TrackSubscriptions,
}

/// The application.
#[derive(Debug)]
pub struct Application<P, T> {
    /// The open windows.
    pub surfaces: HashMap<SurfaceId, SurfaceState<P, T>>,
    /// The windows that every output gets, and the outputs that have them.
    pub window_settings_for_every_output: Vec<(WindowSettings, HashSet<OutputId>)>,
}

/// The value of an [`Application`].
#[verifier::ext_equal]
pub struct ApplicationView<P, T> {
    pub surfaces: Map<SurfaceId, SurfaceView<P, T>>,
    pub windows: Seq<(WindowSettings, Set<OutputId>)>,
}

impl<P, T> View for Application<P, T> {
    type V = ApplicationView<P, T>;

    open spec fn view(&self) -> ApplicationView<P, T> {
        ApplicationView {
            surfaces: self.surfaces@.map_values(|it: SurfaceState<P, T>| it@),
            windows: self.window_settings_for_every_output@.map_values(
                |entry: (WindowSettings, HashSet<OutputId>)| (entry.0, entry.1@),
            ),
        }
    }
}

/// The windows that are opened when `output` comes: one for each entry that is
/// for every output and that `output` does not have.
pub open spec fn opens_on<Message>(
    windows: Seq<(WindowSettings, Set<OutputId>)>,
    output: OutputId,
) -> Seq<Effect<Message>>
    decreases windows.len(),
{
    if windows.len() == 0 {
        seq![]
    } else {
        let (settings, outputs) = windows.last();
        let before = opens_on(windows.drop_last(), output);
        if settings.open_on_every_output && !outputs.contains(output) {
            before.push(Effect::Open { output: Some(output), settings })
        } else {
            before
        }
    }
}

/// The windows kept in mind when `output` has all of them that are for every
/// output.
pub open spec fn output_added(
    windows: Seq<(WindowSettings, Set<OutputId>)>,
    output: OutputId,
) -> Seq<(WindowSettings, Set<OutputId>)> {
    windows.map_values(
        |entry: (WindowSettings, Set<OutputId>)|
            if entry.0.open_on_every_output {
                (entry.0, entry.1.insert(output))
            } else {
                entry
            },
    )
}

/// The windows kept in mind when `output` has none of them.
pub open spec fn output_removed(
    windows: Seq<(WindowSettings, Set<OutputId>)>,
    output: OutputId,
) -> Seq<(WindowSettings, Set<OutputId>)> {
    windows.map_values(
        |entry: (WindowSettings, Set<OutputId>)| (entry.0, entry.1.remove(output)),
    )
}

/// The windows that are opened when one is wanted on every one of `outputs`: one
/// for each of them, however often it is listed.
pub open spec fn opens_on_each<Message>(
    settings: WindowSettings,
    outputs: Seq<OutputId>,
) -> Seq<Effect<Message>>
    decreases outputs.len(),
{
    if outputs.len() == 0 {
        seq![]
    } else {
        let before = opens_on_each(settings, outputs.drop_last());
        if outputs.drop_last().contains(outputs.last()) {
            before
        } else {
            before.push(Effect::Open { output: Some(outputs.last()), settings })
        }
    }
}

/// The windows after the pointer did `events`, in order.
pub open spec fn pointed<P, T>(
    surfaces: Map<SurfaceId, SurfaceView<P, T>>,
    events: Seq<PointerEvent<P>>,
) -> Map<SurfaceId, SurfaceView<P, T>>
    decreases events.len(),
{
    if events.len() == 0 {
        surfaces
    } else {
        let before = pointed(surfaces, events.drop_last());
        let event = events.last();
        if before.contains_key(event.surface) {
            before.insert(event.surface, before[event.surface].pointed(event.kind, event.position))
        } else {
            before
        }
    }
}

/// The requests of one surface, as effects.
pub open spec fn requests_of<Message>(
    wl_surface: SurfaceId,
    requests: Seq<SurfaceRequest>,
) -> Seq<Effect<Message>> {
    requests.map_values(|request: SurfaceRequest| Effect::<Message>::Request(wl_surface, request))
}

impl<P, T> ApplicationView<P, T> {
    /// Every window is well formed, and windows are kept in mind only for every
    /// output.
    pub open spec fn wf(self) -> bool {
        &&& forall|id: SurfaceId| #[trigger]
            self.surfaces.contains_key(id) ==> self.surfaces[id].wf()
        &&& forall|i: int|
            0 <= i < self.windows.len() ==> (#[trigger] self.windows[i]).0.open_on_every_output
    }

    /// Whether a report can be taken: it names no size with a zero side, and the
    /// size in pixels that follows from it can be counted.
    pub open spec fn accepts(self, event: WaylandEvent<P>) -> bool {
        match event {
            WaylandEvent::SurfaceConfigure { wl_surface, width, height } => {
                &&& size_nonzero((width, height))
                &&& self.surfaces.contains_key(wl_surface) ==> size_fits(
                    (width, height),
                    self.surfaces[wl_surface].scale,
                )
            },
            WaylandEvent::SurfaceScale { wl_surface, scale } => {
                self.surfaces.contains_key(wl_surface) ==> (self.surfaces[wl_surface].size matches Some(
                    size,
                ) ==> size_fits(size, scale))
            },
            _ => true,
        }
    }

    /// The application with another state of one window.
    pub open spec fn with_surface(self, wl_surface: SurfaceId, it: SurfaceView<P, T>) -> Self {
        ApplicationView { surfaces: self.surfaces.insert(wl_surface, it), ..self }
    }

    /// The application when it keeps in mind that `outputs` have such a window.
    pub open spec fn keeping_in_mind(self, settings: WindowSettings, outputs: Seq<OutputId>) -> Self {
        ApplicationView { windows: self.windows.push((settings, outputs.to_set())), ..self }
    }

    /// The application after a report of the compositor.
    pub open spec fn after_event(self, event: WaylandEvent<P>, now: T) -> Self {
        match event {
            WaylandEvent::NewOutput(output) => ApplicationView {
                windows: output_added(self.windows, output),
                ..self
            },
            WaylandEvent::OutputDestroyed(output) => ApplicationView {
                windows: output_removed(self.windows, output),
                ..self
            },
            WaylandEvent::SurfaceConfigure { wl_surface, width, height } => {
                if self.surfaces.contains_key(wl_surface) {
                    self.with_surface(
                        wl_surface,
                        self.surfaces[wl_surface].with_size((width, height)).resized(),
                    )
                } else {
                    self
                }
            },
            WaylandEvent::SurfaceFrame(wl_surface) => {
                if self.surfaces.contains_key(wl_surface) {
                    self.with_surface(
                        wl_surface,
                        self.surfaces[wl_surface].told(Event::RedrawRequested(now)),
                    )
                } else {
                    self
                }
            },
            WaylandEvent::SurfaceClose(wl_surface) => ApplicationView {
                surfaces: self.surfaces.remove(wl_surface),
                ..self
            },
            WaylandEvent::SurfaceScale { wl_surface, scale } => {
                if self.surfaces.contains_key(wl_surface) {
                    let it = self.surfaces[wl_surface];
                    self.with_surface(
                        wl_surface,
                        if it.size is Some {
                            it.with_scale(scale).resized()
                        } else {
                            it.with_scale(scale)
                        },
                    )
                } else {
                    self
                }
            },
            WaylandEvent::PointerEvents(events) => ApplicationView {
                surfaces: pointed(self.surfaces, events@),
                ..self
            },
        }
    }

    /// What is to be done about a report of the compositor.
    pub open spec fn effects_of_event<Message>(self, event: WaylandEvent<P>) -> Seq<
        Effect<Message>,
    > {
        match event {
            WaylandEvent::NewOutput(output) => opens_on(self.windows, output),
            WaylandEvent::OutputDestroyed(_) => seq![],
            WaylandEvent::SurfaceConfigure { wl_surface, width, height } => {
                (if self.surfaces.contains_key(wl_surface) {
                    requests_of(
                        wl_surface,
                        self.surfaces[wl_surface].with_size((width, height)).resize_requests(),
                    )
                } else {
                    seq![]
                }).push(Effect::Draw(wl_surface))
            },
            WaylandEvent::SurfaceFrame(wl_surface) => seq![Effect::Draw(wl_surface)],
            WaylandEvent::SurfaceClose(wl_surface) => {
                if self.surfaces.contains_key(wl_surface) {
                    seq![Effect::Release(wl_surface)]
                } else {
                    seq![]
                }
            },
            WaylandEvent::SurfaceScale { wl_surface, scale } => {
                if self.surfaces.contains_key(wl_surface)
                    && self.surfaces[wl_surface].size is Some {
                    requests_of(
                        wl_surface,
                        self.surfaces[wl_surface].with_scale(scale).resize_requests(),
                    )
                } else {
                    seq![]
                }
            },
            WaylandEvent::PointerEvents(_) => seq![],
        }
    }
}

impl<P, T> Application<P, T> {
    /// An application without windows.
    pub fn new() -> (r: Self)
        ensures
            r@ == (ApplicationView::<P, T> { surfaces: Map::empty(), windows: seq![] }),
            r@.wf(),
    {
        let r = Application {
            surfaces: HashMap::new(),
            window_settings_for_every_output: Vec::new(),
        };
        assert(r@ =~= ApplicationView::<P, T> { surfaces: Map::empty(), windows: seq![] });
        r
    }

    /// Whether a report can be taken.
    pub fn accepts(&self, event: &WaylandEvent<P>) -> (r: bool)
        ensures
            r == self@.accepts(*event),
    {
        match event {
            WaylandEvent::SurfaceConfigure { wl_surface, width, height } => {
                if *width == 0 || *height == 0 {
                    return false;
                }
                match self.surfaces.get(wl_surface) {
                    Some(it) => it.scale.fits(*width) && it.scale.fits(*height),
                    None => true,
                }
            },
            WaylandEvent::SurfaceScale { wl_surface, scale } => {
                match self.surfaces.get(wl_surface) {
                    Some(it) => match it.size {
                        Some(size) => scale.fits(size.0) && scale.fits(size.1),
                        None => true,
                    },
                    None => true,
                }
            },
            _ => true,
        }
    }

    /// Opens a window of every kind that `output` does not have.
    fn on_new_output<Message>(&mut self, output: OutputId) -> (r: Vec<Effect<Message>>)
        ensures
            final(self)@ == (ApplicationView {
                windows: output_added(old(self)@.windows, output),
                ..old(self)@
            }),
            r@ == opens_on::<Message>(old(self)@.windows, output),
    {
        let ghost windows = self.window_settings_for_every_output@;
        let mut effects: Vec<Effect<Message>> = Vec::new();
        let mut i: usize = 0;
        while i < self.window_settings_for_every_output.len()
            invariant
                i <= windows.len(),
                self.surfaces == old(self).surfaces,
                windows == old(self).window_settings_for_every_output@,
                self.window_settings_for_every_output@.len() == windows.len(),
                forall|j: int|
                    #![trigger self.window_settings_for_every_output@[j]]
                    0 <= j < i ==> {
                        let entry = self.window_settings_for_every_output@[j];
                        &&& entry.0 == windows[j].0
                        &&& entry.1@ == if entry.0.open_on_every_output {
                            windows[j].1@.insert(output)
                        } else {
                            windows[j].1@
                        }
                    },
                forall|j: int|
                    i <= j < windows.len() ==> #[trigger] self.window_settings_for_every_output@[j]
                        == windows[j],
                effects@ == opens_on::<Message>(old(self)@.windows.take(i as int), output),
            decreases windows.len() - i,
        {
            assert(old(self)@.windows.take(i + 1).drop_last() =~= old(self)@.windows.take(
                i as int,
            ));
            if self.window_settings_for_every_output[i].0.open_on_every_output {
                if self.window_settings_for_every_output[i].1.insert(output) {
                    effects.push(
                        Effect::Open {
                            output: Some(output),
                            settings: self.window_settings_for_every_output[i].0.clone(),
                        },
                    );
                }
            }
            i = i + 1;
        }
        assert(old(self)@.windows.take(i as int) =~= old(self)@.windows);
        assert(self@.windows =~= output_added(old(self)@.windows, output));
        effects
    }

    /// Forgets that `output` has any windows.
    fn on_output_destroyed(&mut self, output: OutputId)
        ensures
            final(self)@ == (ApplicationView {
                windows: output_removed(old(self)@.windows, output),
                ..old(self)@
            }),
    {
        let ghost windows = self.window_settings_for_every_output@;
        let mut i: usize = 0;
        while i < self.window_settings_for_every_output.len()
            invariant
                i <= windows.len(),
                self.surfaces == old(self).surfaces,
                windows == old(self).window_settings_for_every_output@,
                self.window_settings_for_every_output@.len() == windows.len(),
                forall|j: int|
                    #![trigger self.window_settings_for_every_output@[j]]
                    0 <= j < i ==> {
                        let entry = self.window_settings_for_every_output@[j];
                        entry.0 == windows[j].0 && entry.1@ == windows[j].1@.remove(output)
                    },
                forall|j: int|
                    i <= j < windows.len() ==> #[trigger] self.window_settings_for_every_output@[j]
                        == windows[j],
            decreases windows.len() - i,
        {
            self.window_settings_for_every_output[i].1.remove(&output);
            i = i + 1;
        }
        assert(self@.windows =~= output_removed(old(self)@.windows, output));
    }

    /// Puts back the state of a window.
    fn put(&mut self, wl_surface: SurfaceId, it: SurfaceState<P, T>)
        ensures
            final(self)@ == old(self)@.with_surface(wl_surface, it@),
    {
        self.surfaces.insert(wl_surface, it);
        assert(self@.surfaces =~= old(self)@.surfaces.insert(wl_surface, it@));
    }

    /// Takes out the state of a window.
    fn take(&mut self, wl_surface: SurfaceId) -> (r: Option<SurfaceState<P, T>>)
        ensures
            final(self)@ == (ApplicationView {
                surfaces: old(self)@.surfaces.remove(wl_surface),
                ..old(self)@
            }),
            match r {
                Some(it) => {
                    &&& old(self)@.surfaces.contains_key(wl_surface)
                    &&& it@ == old(self)@.surfaces[wl_surface]
                    &&& forall|new: SurfaceView<P, T>|
                        #[trigger] final(self)@.with_surface(wl_surface, new) == old(
                            self,
                        )@.with_surface(wl_surface, new)
                },
                None => {
                    &&& !old(self)@.surfaces.contains_key(wl_surface)
                    &&& final(self)@ == old(self)@
                },
            },
    {
        let r = self.surfaces.remove(&wl_surface);
        assert(self@.surfaces =~= old(self)@.surfaces.remove(wl_surface));
        assert forall|new: SurfaceView<P, T>|
            r is Some implies #[trigger] self@.with_surface(wl_surface, new) == old(
            self,
        )@.with_surface(wl_surface, new) by {
            assert(self@.with_surface(wl_surface, new).surfaces =~= old(self)@.with_surface(
                wl_surface,
                new,
            ).surfaces);
        }
        if r.is_none() {
            assert(self@.surfaces =~= old(self)@.surfaces);
        }
        r
    }
}

/// The requests of one surface, as effects.
fn effects_of_requests<Message>(wl_surface: SurfaceId, requests: Vec<SurfaceRequest>) -> (r: Vec<
    Effect<Message>,
>)
    ensures
        r@ == requests_of::<Message>(wl_surface, requests@),
{
    let mut effects: Vec<Effect<Message>> = Vec::new();
    let mut i: usize = 0;
    while i < requests.len()
        invariant
            i <= requests.len(),
            effects@ == requests_of::<Message>(wl_surface, requests@.take(i as int)),
        decreases requests.len() - i,
    {
        effects.push(Effect::Request(wl_surface, requests[i]));
        i = i + 1;
        assert(effects@ =~= requests_of::<Message>(wl_surface, requests@.take(i as int)));
    }
    assert(requests@.take(i as int) =~= requests@);
    effects
}

impl<P: Copy, T> Application<P, T> {
    /// Notes what the pointer did. What it did to a surface without a window is
    /// lost.
    fn on_pointer_events(&mut self, events: Vec<PointerEvent<P>>)
        ensures
            final(self)@ == (ApplicationView {
                surfaces: pointed(old(self)@.surfaces, events@),
                ..old(self)@
            }),
    {
        let mut i: usize = 0;
        assert(events@.take(0) =~= seq![]);
        while i < events.len()
            invariant
                i <= events.len(),
                self@.windows == old(self)@.windows,
                self@.surfaces == pointed(old(self)@.surfaces, events@.take(i as int)),
            decreases events.len() - i,
        {
            assert(events@.take(i + 1).drop_last() =~= events@.take(i as int));
            let event = &events[i];
            if let Some(mut it) = self.take(event.surface) {
                it.on_pointer(event.kind, event.position);
                self.put(event.surface, it);
            }
            i = i + 1;
        }
        assert(events@.take(i as int) =~= events@);
    }

    /// Takes a report of the compositor, which came at the time `now`.
    pub fn on_wayland_event<Message>(&mut self, event: WaylandEvent<P>, now: T) -> (r: Vec<
        Effect<Message>,
    >)
        requires
            old(self)@.wf(),
            old(self)@.accepts(event),
        ensures
            final(self)@ == old(self)@.after_event(event, now),
            final(self)@.wf(),
            r@ == old(self)@.effects_of_event::<Message>(event),
    {
        proof {
            law_events_keep_the_application_well_formed(self@, event, now);
        }
        match event {
            WaylandEvent::NewOutput(output) => self.on_new_output(output),
            WaylandEvent::OutputDestroyed(output) => {
                self.on_output_destroyed(output);
                Vec::new()
            },
            WaylandEvent::SurfaceConfigure { wl_surface, width, height } => {
                let mut effects: Vec<Effect<Message>> = Vec::new();
                if let Some(mut it) = self.take(wl_surface) {
                    effects = effects_of_requests(wl_surface, it.set_size((width, height)));
                    self.put(wl_surface, it);
                }
                effects.push(Effect::Draw(wl_surface));
                effects
            },
            WaylandEvent::SurfaceFrame(wl_surface) => {
                if let Some(mut it) = self.take(wl_surface) {
                    it.pending_event.push(Event::RedrawRequested(now));
                    self.put(wl_surface, it);
                }
                let mut effects: Vec<Effect<Message>> = Vec::new();
                effects.push(Effect::Draw(wl_surface));
                effects
            },
            WaylandEvent::SurfaceClose(wl_surface) => {
                let mut effects: Vec<Effect<Message>> = Vec::new();
                if self.take(wl_surface).is_some() {
                    effects.push(Effect::Release(wl_surface));
                }
                effects
            },
            WaylandEvent::SurfaceScale { wl_surface, scale } => {
                match self.take(wl_surface) {
                    Some(mut it) => {
                        let effects = effects_of_requests(wl_surface, it.set_scale(scale));
                        self.put(wl_surface, it);
                        effects
                    },
                    None => Vec::new(),
                }
            },
            WaylandEvent::PointerEvents(events) => {
                self.on_pointer_events(events);
                Vec::new()
            },
        }
    }
}

/// The destruction of these windows, in this order.
pub open spec fn destroys<Message>(order: Seq<SurfaceId>) -> Seq<Effect<Message>> {
    order.map_values(|wl_surface: SurfaceId| Effect::<Message>::Destroy(wl_surface))
}

/// The destruction of every window, once each, in some order.
pub open spec fn destroys_all<Message>(
    effects: Seq<Effect<Message>>,
    windows: Set<SurfaceId>,
) -> bool {
    exists|order: Seq<SurfaceId>|
        order.no_duplicates() && order.to_set() == windows && effects == #[trigger] destroys::<
            Message,
        >(order)
}

/// How the application answers what has happened in its run. It begins with what
/// the program wants done and heard; from then on it waits for the compositor,
/// takes one report, takes one request, and waits again.
pub open spec fn input_answers<Message, P, T>(
    before: ApplicationView<P, T>,
    input: RunInput<Message, P>,
    now: T,
    after: ApplicationView<P, T>,
    effects: Seq<Effect<Message>>,
) -> bool {
    let wait = Effect::<Message>::Dispatch { timeout_millis: DISPATCH_MILLIS };
    match input {
        RunInput::Started => {
            &&& after == before
            &&& effects =~= seq![Effect::RunBootTask, Effect::TrackSubscriptions, wait]
        },
        RunInput::Dispatched => {
            &&& after == before
            &&& effects =~= seq![Effect::<Message>::PollWayland]
        },
        RunInput::Wayland(Polled::Received(event)) => {
            &&& after == before.after_event(event, now)
            &&& effects =~= before.effects_of_event::<Message>(event).push(Effect::PollActions)
        },
        RunInput::Wayland(Polled::Empty) => {
            &&& after == before
            &&& effects =~= seq![Effect::<Message>::PollActions]
        },
        RunInput::Wayland(Polled::Closed) => {
            &&& after == before
            &&& effects =~= seq![Effect::WarnClosed, Effect::<Message>::PollActions]
        },
        RunInput::Action { polled: Polled::Received(Action::Output(message)), outputs } => {
            &&& after == before
            &&& effects =~= seq![Effect::Update(message), wait]
        },
        RunInput::Action { polled: Polled::Received(Action::OpenWindow(settings)), outputs } => {
            if settings.open_on_every_output {
                &&& after == before
                &&& effects =~= opens_on_each::<Message>(settings, outputs@).push(
                    Effect::KeepInMind { settings, outputs },
                ).push(wait)
            } else {
                &&& after == before
                &&& effects =~= seq![Effect::Open { output: None, settings }, wait]
            }
        },
        RunInput::Action { polled: Polled::Received(Action::CloseAllWindow), outputs } => {
            &&& after == before
            &&& effects.len() > 0
            &&& effects.last() == wait
            &&& destroys_all(effects.drop_last(), before.surfaces.dom())
        },
        RunInput::Action { polled: Polled::Received(Action::Exit), outputs } => {
            &&& after == before
            &&& effects =~= seq![Effect::<Message>::Exit]
        },
        RunInput::Action { polled: Polled::Empty, outputs } => {
            &&& after == before
            &&& effects =~= seq![wait]
        },
        RunInput::Action { polled: Polled::Closed, outputs } => {
            &&& after == before
            &&& effects =~= seq![Effect::WarnClosed, wait]
        },
    }
}

/// Whether the application can take what has happened.
pub open spec fn input_accepts<Message, P, T>(
    app: ApplicationView<P, T>,
    input: RunInput<Message, P>,
) -> bool {
    input matches RunInput::Wayland(Polled::Received(event)) ==> app.accepts(event)
}

impl<P, T> Application<P, T> {
    /// Opens a window on each of `outputs`, and then keeps in mind that they have it.
    fn open_on_every_output<Message>(settings: WindowSettings, outputs: Vec<OutputId>) -> (r: Vec<
        Effect<Message>,
    >)
        ensures
            r@ == opens_on_each::<Message>(settings, outputs@).push(
                Effect::KeepInMind { settings, outputs },
            ),
    {
        let mut opened: HashSet<OutputId> = HashSet::new();
        let mut effects: Vec<Effect<Message>> = Vec::new();
        let mut i: usize = 0;
        assert(outputs@.take(0) =~= seq![]);
        assert(outputs@.take(0).to_set() =~= Set::empty());
        while i < outputs.len()
            invariant
                i <= outputs.len(),
                opened@ == outputs@.take(i as int).to_set(),
                effects@ == opens_on_each::<Message>(settings, outputs@.take(i as int)),
            decreases outputs.len() - i,
        {
            let ghost seen = outputs@.take(i as int);
            assert(outputs@.take(i + 1).drop_last() =~= seen);
            assert(outputs@.take(i + 1) =~= seen.push(outputs@[i as int]));
            proof {
                seen.lemma_push_to_set_commute(outputs@[i as int]);
            }
            if opened.insert(outputs[i]) {
                effects.push(Effect::Open { output: Some(outputs[i]), settings: settings.clone() });
            }
            i = i + 1;
        }
        assert(outputs@.take(i as int) =~= outputs@);
        effects.push(Effect::KeepInMind { settings, outputs });
        effects
    }

    /// A window was opened on each of `outputs`: keeps in mind that they have it.
    pub fn windows_opened(&mut self, settings: WindowSettings, outputs: Vec<OutputId>)
        requires
            old(self)@.wf(),
            settings.open_on_every_output,
        ensures
            final(self)@ == old(self)@.keeping_in_mind(settings, outputs@),
            final(self)@.wf(),
    {
        let mut opened: HashSet<OutputId> = HashSet::new();
        let mut i: usize = 0;
        assert(outputs@.take(0).to_set() =~= Set::empty());
        while i < outputs.len()
            invariant
                i <= outputs.len(),
                opened@ == outputs@.take(i as int).to_set(),
            decreases outputs.len() - i,
        {
            assert(outputs@.take(i + 1) =~= outputs@.take(i as int).push(outputs@[i as int]));
            proof {
                outputs@.take(i as int).lemma_push_to_set_commute(outputs@[i as int]);
            }
            opened.insert(outputs[i]);
            i = i + 1;
        }
        assert(outputs@.take(i as int) =~= outputs@);
        self.window_settings_for_every_output.push((settings, opened));
        assert(self@.windows =~= old(self)@.windows.push((settings, outputs@.to_set())));
        assert(self@ == old(self)@.keeping_in_mind(settings, outputs@));
        assert forall|i: int| 0 <= i < self@.windows.len() implies (
        #[trigger] self@.windows[i]).0.open_on_every_output by {
            if i < old(self)@.windows.len() {
                assert(self@.windows[i] == old(self)@.windows[i]);
            }
        }
    }

    /// Destroys every window.
    fn close_all_window<Message>(&self) -> (r: Vec<Effect<Message>>)
        ensures
            destroys_all(r@, self@.surfaces.dom()),
    {
        let mut effects: Vec<Effect<Message>> = Vec::new();
        let ghost all = vstd::std_specs::iter::IteratorSpec::remaining(&self.surfaces.keys());
        for wl_surface in keys: self.surfaces.keys()
            invariant
                keys.seq() == all,
                effects@ == destroys::<Message>(all.unref().take(keys.index() as int)),
        {
            effects.push(Effect::Destroy(*wl_surface));
            assert(effects@ =~= destroys::<Message>(all.unref().take(keys.index() + 1)));
        }
        assert(all.unref().take(all.len() as int) =~= all.unref());
        assert(all.unref().no_duplicates());
        assert(all.unref().to_set() =~= self@.surfaces.dom());
        assert(effects@ == destroys::<Message>(all.unref()));
        effects
    }
}

/// The steps in the opening of a window: those of a layer surface on the top
/// layer, as high as every window at first and as wide as its output, and, where
/// the surface is a new one, what it is shown and drawn with.
pub open spec fn open_requests(
    client: WaylandClient,
    wl_surface: SurfaceId,
    output: Option<OutputId>,
    settings: WindowSettings,
) -> Seq<LayerRequest> {
    let made = layer_requests(
        client.fractional_scale,
        Layer::Top,
        settings.namespace,
        output,
        (None, Some(HEIGHT)),
        Some(settings.anchor),
        if settings.exclusive_zone {
            Some(HEIGHT as i32)
        } else {
            None
        },
    );
    if client.surfaces@.contains_key(wl_surface) {
        made
    } else {
        made + seq![LayerRequest::GetViewport, LayerRequest::CreateGpuSurface]
    }
}

/// The steps of a frame that has nothing to be drawn on.
pub open spec fn postponed_frame() -> Seq<DrawStep> {
    seq![DrawStep::RequestFrame, DrawStep::Commit]
}

/// The steps in which a frame ends, for a window of the value `it`, with `size` in
/// units and contents that came out as `bounds`.
pub open spec fn end_of_frame<P, T>(
    it: SurfaceView<P, T>,
    size: (u32, u32),
    bounds: Option<(u32, u32)>,
) -> Seq<DrawStep> {
    let pixels = scaled_size(size, it.scale);
    (match bounds {
        Some(bounds) => if it.misfits(bounds) {
            seq![DrawStep::SetSize { width: 0, height: bounds.1 }] + if it.exclusive_zone {
                seq![DrawStep::SetExclusiveZone(signed(bounds.1) as i32)]
            } else {
                seq![]
            }
        } else {
            seq![]
        },
        None => seq![],
    }) + seq![
        DrawStep::DrawInterface,
        DrawStep::Present(ViewPort { width: pixels.0, height: pixels.1, scale: it.scale }),
        DrawStep::RequestFrame,
        DrawStep::Commit,
        DrawStep::HandleMessages,
        DrawStep::TrackSubscriptions,
    ]
}

impl<P: Copy, T> Application<P, T> {
    /// There is something to draw on: hands out all that the user interface of the
    /// window is yet to be told.
    pub fn begin_frame(&mut self, wl_surface: SurfaceId) -> (r: Option<Frame<P, T>>)
        requires
            old(self)@.wf(),
        ensures
            final(self)@.wf(),
            match r {
                Some(frame) => {
                    let it = old(self)@.surfaces[wl_surface];
                    &&& old(self)@.surfaces.contains_key(wl_surface)
                    &&& frame.events@ == it.pending_event
                    &&& frame.cursor == it.cursor
                    &&& final(self)@ == old(self)@.with_surface(
                        wl_surface,
                        SurfaceView { pending_event: seq![], ..it },
                    )
                },
                None => {
                    &&& !old(self)@.surfaces.contains_key(wl_surface)
                    &&& final(self)@ == old(self)@
                },
            },
    {
        match self.take(wl_surface) {
            Some(mut it) => {
                let cursor = it.cursor;
                let mut events: Vec<Event<P, T>> = Vec::new();
                std::mem::swap(&mut events, &mut it.pending_event);
                self.put(wl_surface, it);
                Some(Frame { events, cursor })
            },
            None => None,
        }
    }

    /// Takes what has happened in the run, at the time `now`.
    pub fn on_input<Message>(&mut self, input: RunInput<Message, P>, now: T) -> (r: Vec<
        Effect<Message>,
    >)
        requires
            old(self)@.wf(),
            input_accepts(old(self)@, input),
        ensures
            input_answers(old(self)@, input, now, final(self)@, r@),
            final(self)@.wf(),
    {
        let mut effects: Vec<Effect<Message>> = Vec::new();
        match input {
            RunInput::Started => {
                effects.push(Effect::RunBootTask);
                effects.push(Effect::TrackSubscriptions);
            },
            RunInput::Dispatched => {
                effects.push(Effect::PollWayland);
                return effects;
            },
            RunInput::Wayland(polled) => {
                match polled {
                    Polled::Received(event) => {
                        effects = self.on_wayland_event(event, now);
                    },
                    Polled::Empty => {},
                    Polled::Closed => {
                        effects.push(Effect::WarnClosed);
                    },
                }
                effects.push(Effect::PollActions);
                return effects;
            },
            RunInput::Action { polled, outputs } => match polled {
                Polled::Received(Action::Output(message)) => {
                    effects.push(Effect::Update(message));
                },
                Polled::Received(Action::OpenWindow(settings)) => {
                    if settings.open_on_every_output {
                        effects = Self::open_on_every_output(settings, outputs);
                    } else {
                        effects.push(Effect::Open { output: None, settings });
                    }
                },
                Polled::Received(Action::CloseAllWindow) => {
                    effects = self.close_all_window();
                    let ghost closed = effects@;
                    effects.push(Effect::Dispatch { timeout_millis: DISPATCH_MILLIS });
                    assert(effects@.drop_last() =~= closed);
                    return effects;
                },
                Polled::Received(Action::Exit) => {
                    effects.push(Effect::Exit);
                    return effects;
                },
                Polled::Empty => {},
                Polled::Closed => {
                    effects.push(Effect::WarnClosed);
                },
            },
        }
        effects.push(Effect::Dispatch { timeout_millis: DISPATCH_MILLIS });
        effects
    }
}

impl<P, T> Application<P, T> {
    /// Begins to open a window on the new surface `wl_surface`. Once the steps are
    /// done without an error, [`Application::layer_surface_opened`] ends it.
    pub fn open_new_layer_surface(
        client: &mut WaylandClient,
        wl_surface: SurfaceId,
        output: Option<OutputId>,
        settings: &WindowSettings,
    ) -> (r: (Vec<LayerRequest>, Result<(), OpenError>))
        requires
            old(client).wf(),
        ensures
            final(client).wf(),
            r.0@ == open_requests(*old(client), wl_surface, output, *settings),
            r.1 == (if old(client).surfaces@.contains_key(wl_surface) {
                Err::<(), OpenError>(OpenError::SurfaceExists)
            } else {
                Ok(())
            }),
            final(client).surfaces@ == old(client).surfaces@.insert(
                wl_surface,
                Surface::LayerSurface(
                    LayerSurfaceInfo { width: None, height: None, started: false },
                ),
            ),
            final(client).pointer == old(client).pointer,
            final(client).fractional_scale == old(client).fractional_scale,
    {
        let (mut requests, result) = client.create_layer_surface(
            wl_surface,
            Layer::Top,
            settings.namespace.clone(),
            output,
            (None, Some(HEIGHT)),
            Some(settings.anchor),
            if settings.exclusive_zone {
                Some(HEIGHT as i32)
            } else {
                None
            },
        );
        if result.is_ok() {
            requests.push(LayerRequest::GetViewport);
            requests.push(LayerRequest::CreateGpuSurface);
        }
        (requests, result)
    }

    /// Whether there is something to draw on: a display, and then a surface.
    pub fn check_handles(display_is_null: bool, surface_is_null: bool) -> (r: Result<
        (),
        OpenError,
    >)
        ensures
            r == (if display_is_null {
                Err::<(), OpenError>(OpenError::NullDisplay)
            } else if surface_is_null {
                Err(OpenError::NullSurface)
            } else {
                Ok(())
            }),
    {
        if display_is_null {
            Err(OpenError::NullDisplay)
        } else if surface_is_null {
            Err(OpenError::NullSurface)
        } else {
            Ok(())
        }
    }

    /// A window was opened on `wl_surface`.
    pub fn layer_surface_opened(&mut self, wl_surface: SurfaceId, settings: &WindowSettings)
        requires
            old(self)@.wf(),
        ensures
            final(self)@ == old(self)@.with_surface(
                wl_surface,
                SurfaceView::opened(settings.exclusive_zone),
            ),
            final(self)@.wf(),
    {
        self.put(wl_surface, SurfaceState::new(settings.exclusive_zone));
    }

    /// Begins to draw a window, and answers the size in units to draw it at. Only
    /// an open window is drawn, and only once the compositor gave it both sides.
    pub fn draw(&self, client: &WaylandClient, wl_surface: SurfaceId) -> (r: Option<(u32, u32)>)
        requires
            client.wf(),
        ensures
            r == (if self@.surfaces.contains_key(wl_surface) {
                client.full_size(wl_surface)
            } else {
                None::<(u32, u32)>
            }),
            r matches Some(size) ==> size_nonzero(size),
    {
        let size: (Option<u32>, Option<u32>) = match client.surfaces.get(&wl_surface) {
            Some(surface) => surface.size(),
            None => {
                return None;
            },
        };
        match size {
            (Some(width), Some(height)) => {
                if self.surfaces.contains_key(&wl_surface) {
                    Some((width, height))
                } else {
                    None
                }
            },
            _ => None,
        }
    }

    /// There is nothing to draw on this time: the window is to be drawn later.
    pub fn texture_unavailable() -> (r: Vec<DrawStep>)
        ensures
            r@ == postponed_frame(),
    {
        let mut steps: Vec<DrawStep> = Vec::new();
        steps.push(DrawStep::RequestFrame);
        steps.push(DrawStep::Commit);
        steps
    }

    /// Whether a frame of `size` in units can be shown: its size in pixels can be
    /// counted.
    pub fn presentable(&self, wl_surface: SurfaceId, size: (u32, u32)) -> (r: bool)
        ensures
            r == (self@.surfaces.contains_key(wl_surface) ==> size_fits(
                size,
                self@.surfaces[wl_surface].scale,
            )),
    {
        match self.surfaces.get(&wl_surface) {
            Some(it) => it.scale.fits(size.0) && it.scale.fits(size.1),
            None => true,
        }
    }

    /// The user interface was told everything, and its contents came out as
    /// `bounds`: ends the frame that was begun at `size`.
    pub fn end_frame(
        &mut self,
        wl_surface: SurfaceId,
        size: (u32, u32),
        bounds: Option<(u32, u32)>,
    ) -> (r: Vec<DrawStep>)
        requires
            old(self)@.wf(),
            old(self)@.surfaces.contains_key(wl_surface) ==> size_fits(
                size,
                old(self)@.surfaces[wl_surface].scale,
            ),
        ensures
            final(self)@.wf(),
            ({
                let it = old(self)@.surfaces[wl_surface];
                if old(self)@.surfaces.contains_key(wl_surface) {
                    &&& final(self)@ == old(self)@.with_surface(wl_surface, it.fitted(bounds))
                    &&& r@ == end_of_frame(it, size, bounds)
                } else {
                    &&& final(self)@ == old(self)@
                    &&& r@ == Seq::<DrawStep>::empty()
                }
            }),
    {
        let mut steps: Vec<DrawStep> = Vec::new();
        if let Some(mut it) = self.take(wl_surface) {
            if let Some(height) = it.fit_content(bounds) {
                steps.push(DrawStep::SetSize { width: 0, height });
                if it.exclusive_zone {
                    steps.push(DrawStep::SetExclusiveZone(as_signed(height)));
                }
            }
            steps.push(DrawStep::DrawInterface);
            steps.push(
                DrawStep::Present(
                    ViewPort { width: size.0 * it.scale, height: size.1 * it.scale, scale: it.scale },
                ),
            );
            steps.push(DrawStep::RequestFrame);
            steps.push(DrawStep::Commit);
            steps.push(DrawStep::HandleMessages);
            steps.push(DrawStep::TrackSubscriptions);
            self.put(wl_surface, it);
        }
        steps
    }
}

} // verus!
