//! The functions that a program is made of.
//!
//! What a program wants done, shows and wants to hear is handed through as it
//! comes: each is a parameter. A plain function takes the part of one of these
//! traits if what it returns can be turned into what is asked for.
//!
//! What is known of a function whose type is a parameter is known through the
//! traits as well. Of one that is written out in place it is known through
//! [`boot_with`], [`update_with`], [`view_with`] and [`subscription_with`], which
//! do the same.
use vstd::prelude::*;

verus! {

/// What is known of `made`, once turned into `r`.
pub open spec fn turned_into<A: Into<B>, B>(made: A, r: B) -> bool {
    call_ensures(<A as Into<B>>::into, (made,), r)
}

/// Starts a program with `f`.
pub fn boot_with<F, State, Task, BootResult>(f: &F) -> (r: (State, Task)) where
    F: Fn() -> BootResult,
    BootResult: Into<(State, Task)>,

    requires
        call_requires(*f, ()),
    ensures
        exists|made: BootResult| #[trigger] call_ensures(*f, (), made) && turned_into(made, r),
{
    f().into()
}

/// Handles a message with `f`.
pub fn update_with<'a, F, State, Message, Task, UpdateResult>(
    f: &F,
    state: &'a mut State,
    message: Message,
) -> (r: Task) where
    F: Fn(&'a mut State, Message) -> UpdateResult,
    State: 'a,
    UpdateResult: Into<Task>,

    requires
        forall|s: &'a mut State|
            *s == *old(state) ==> #[trigger] call_requires(*f, (s, message)),
    ensures
        exists|s: &'a mut State, made: UpdateResult|
            {
                &&& *s == *old(state)
                &&& *final(s) == *final(state)
                &&& #[trigger] call_ensures(*f, (s, message), made)
                &&& turned_into(made, r)
            },
{
    f(state, message).into()
}

/// Shows a state with `f`.
pub fn view_with<'a, F, State, Element, ViewResult>(f: &F, state: &'a State) -> (r: Element) where
    F: Fn(&'a State) -> ViewResult,
    State: 'a,
    ViewResult: Into<Element>,

    requires
        call_requires(*f, (state,)),
    ensures
        exists|made: ViewResult| #[trigger]
            call_ensures(*f, (state,), made) && turned_into(made, r),
{
    f(state).into()
}

/// Asks `f` what a program wants to hear in its state.
pub fn subscription_with<'a, F, State, Subscription, SubscriptionResult>(
    f: &F,
    state: &'a State,
) -> (r: Subscription) where
    F: Fn(&'a State) -> SubscriptionResult,
    State: 'a,
    SubscriptionResult: Into<Subscription>,

    requires
        call_requires(*f, (state,)),
    ensures
        exists|made: SubscriptionResult| #[trigger]
            call_ensures(*f, (state,), made) && turned_into(made, r),
{
    f(state).into()
}

/// The state of a program: what it does about a message, what it shows, and what
/// it wants to hear.
pub trait State: Sized {
    type Message;

    /// What the program wants done.
    type Task;

    /// What the program shows.
    type Element<'a> where Self: 'a;

    /// What the program wants to hear.
    type Subscription;

    fn update(&mut self, message: Self::Message) -> (r: Self::Task);

    fn view(&self) -> (r: Self::Element<'_>);

    /// A program that does not say otherwise wants to hear nothing.
    fn subscription(&self) -> (r: Option<Self::Subscription>)
        default_ensures
            r is None,
    {
        None
    }
}

/// How a program starts: its first state, and what it wants done.
pub trait BootFn<State, Task> {
    /// Whether the program can start like this.
    spec fn boots(&self, r: (State, Task)) -> bool;

    /// Whether the program can be started.
    spec fn can_boot(&self) -> bool;

    fn boot(&self) -> (r: (State, Task))
        requires
            self.can_boot(),
        ensures
            self.boots(r),
    ;
}

impl<F, State, Task, BootResult> BootFn<State, Task> for F where
    F: Fn() -> BootResult,
    BootResult: Into<(State, Task)>,
 {
    open spec fn boots(&self, r: (State, Task)) -> bool {
        exists|made: BootResult| #[trigger]
            call_ensures(*self, (), made) && turned_into(made, r)
    }

    open spec fn can_boot(&self) -> bool {
        call_requires(*self, ())
    }

    fn boot(&self) -> (r: (State, Task)) {
        boot_with(self)
    }
}

/// What a program shows of its state.
pub trait ViewFn<'a, State, Element> {
    /// Whether the state can be shown.
    spec fn can_view(&self, state: &'a State) -> bool;

    /// Whether the state can be shown like this.
    spec fn views(&self, state: &'a State, r: Element) -> bool;

    fn view(&self, state: &'a State) -> (r: Element)
        requires
            self.can_view(state),
        ensures
            self.views(state, r),
    ;
}

impl<'a, F, State, Element, ViewResult> ViewFn<'a, State, Element> for F where
    F: Fn(&'a State) -> ViewResult,
    State: 'a,
    ViewResult: Into<Element>,
 {
    open spec fn can_view(&self, state: &'a State) -> bool {
        call_requires(*self, (state,))
    }

    open spec fn views(&self, state: &'a State, r: Element) -> bool {
        exists|made: ViewResult| #[trigger]
            call_ensures(*self, (state,), made) && turned_into(made, r)
    }

    fn view(&self, state: &'a State) -> (r: Element) {
        view_with(self, state)
    }
}

/// What a program wants to hear in its state.
pub trait SubscriptionFn<'a, State, Subscription> {
    /// Whether the state can be asked.
    spec fn can_subscribe(&self, state: &'a State) -> bool;

    /// Whether this is what the program can want to hear.
    spec fn subscribes(&self, state: &'a State, r: Subscription) -> bool;

    fn subscription(&self, state: &'a State) -> (r: Subscription)
        requires
            self.can_subscribe(state),
        ensures
            self.subscribes(state, r),
    ;
}

impl<'a, F, State, Subscription, SubscriptionResult> SubscriptionFn<'a, State, Subscription> for F where
    F: Fn(&'a State) -> SubscriptionResult,
    State: 'a,
    SubscriptionResult: Into<Subscription>,
 {
    open spec fn can_subscribe(&self, state: &'a State) -> bool {
        call_requires(*self, (state,))
    }

    open spec fn subscribes(&self, state: &'a State, r: Subscription) -> bool {
        exists|made: SubscriptionResult| #[trigger]
            call_ensures(*self, (state,), made) && turned_into(made, r)
    }

    fn subscription(&self, state: &'a State) -> (r: Subscription) {
        subscription_with(self, state)
    }
}

/// What a program does about a message: how its state changes, and what it wants
/// done.
pub trait UpdateFn<'a, State, Message, Task> {
    /// Whether the message can be handled in the state.
    spec fn can_update(&self, state: State, message: Message) -> bool;

    fn update(&self, state: &'a mut State, message: Message) -> (r: Task)
        requires
            self.can_update(*old(state), message),
    ;
}

impl<'a, F, State, Message, Task, UpdateResult> UpdateFn<'a, State, Message, Task> for F where
    F: Fn(&'a mut State, Message) -> UpdateResult,
    State: 'a,
    UpdateResult: Into<Task>,
 {
    open spec fn can_update(&self, state: State, message: Message) -> bool {
        forall|s: &'a mut State| *s == state ==> #[trigger] call_requires(*self, (s, message))
    }

    fn update(&self, state: &'a mut State, message: Message) -> (r: Task)
        ensures
            exists|s: &'a mut State, made: UpdateResult|
                {
                    &&& *s == *old(state)
                    &&& *final(s) == *final(state)
                    &&& #[trigger] call_ensures(*self, (s, message), made)
                    &&& turned_into(made, r)
                },
    {
        update_with(self, state, message)
    }
}

/// A program starts, shows its state and wants to hear what its functions say, turned into
/// what is asked for, and nothing else.
pub proof fn law_programs_do_what_their_functions_say<
    'a,
    Boot,
    View,
    Listen,
    State,
    Task,
    Element,
    Subscription,
    BootResult,
    ViewResult,
    SubscriptionResult,
>(
    boot: &Boot,
    view: &View,
    listen: &Listen,
    state: &'a State,
    booted: (State, Task),
    shown: Element,
    heard: Subscription,
) where
    Boot: Fn() -> BootResult,
    View: Fn(&'a State) -> ViewResult,
    Listen: Fn(&'a State) -> SubscriptionResult,
    State: 'a,
    BootResult: Into<(State, Task)>,
    ViewResult: Into<Element>,
    SubscriptionResult: Into<Subscription>,

    requires
        call_ensures(<Boot as BootFn<State, Task>>::boot, (boot,), booted),
        call_ensures(<View as ViewFn<'a, State, Element>>::view, (view, state), shown),
        call_ensures(
            <Listen as SubscriptionFn<'a, State, Subscription>>::subscription,
            (listen, state),
            heard,
        ),
    ensures
        exists|made: BootResult| #[trigger]
            call_ensures(*boot, (), made) && call_ensures(
                <BootResult as Into<(State, Task)>>::into,
                (made,),
                booted,
            ),
        exists|made: ViewResult| #[trigger]
            call_ensures(*view, (state,), made) && call_ensures(
                <ViewResult as Into<Element>>::into,
                (made,),
                shown,
            ),
        exists|made: SubscriptionResult| #[trigger]
            call_ensures(*listen, (state,), made) && call_ensures(
                <SubscriptionResult as Into<Subscription>>::into,
                (made,),
                heard,
            ),
{
}

} // verus!
