use eucalyptus::program::{
    boot_with, subscription_with, update_with, view_with, BootFn, State, SubscriptionFn, UpdateFn,
    ViewFn,
};

fn boot() -> (u32, &'static str) {
    (7, "boot")
}

fn add<'a>(state: &'a mut u32, message: u32) -> u8 {
    *state += message;
    3
}

fn show<'a>(state: &'a u32) -> u32 {
    *state
}

#[test]
fn plain_functions_make_a_program() {
    let (mut state, task): (u32, &'static str) = BootFn::boot(&boot);
    assert_eq!((state, task), (7, "boot"));
    let task: u64 = UpdateFn::update(&add, &mut state, 5);
    assert_eq!((state, task), (12, 3));
    let shown: u64 = ViewFn::view(&show, &state);
    assert_eq!(shown, 12);
    let heard: i64 = SubscriptionFn::subscription(&show, &state);
    assert_eq!(heard, 12);
}

#[test]
fn functions_can_be_used_directly() {
    let (mut state, task): (u32, &'static str) = boot_with(&boot);
    assert_eq!((state, task), (7, "boot"));
    let task: u64 = update_with(&add, &mut state, 5);
    assert_eq!((state, task), (12, 3));
    let shown: u64 = view_with(&show, &state);
    let heard: i64 = subscription_with(&show, &state);
    assert_eq!((shown, heard), (12, 12));
}

struct Counter(u32);

impl State for Counter {
    type Message = u32;
    type Task = bool;
    type Element<'a> = &'a u32;
    type Subscription = ();

    fn update(&mut self, message: u32) -> bool {
        self.0 += message;
        true
    }

    fn view(&self) -> &u32 {
        &self.0
    }
}

#[test]
fn a_state_listens_to_nothing_by_itself() {
    let mut counter = Counter(1);
    assert!(counter.update(2));
    assert_eq!(*counter.view(), 3);
    assert_eq!(counter.subscription(), None);
}
