//! What the program asks of the application.
use vstd::prelude::*;

verus! {

/// How a window is to be opened.
#[derive(Debug)]
pub struct WindowSettings {
    /// The name that the compositor knows the window by.
    pub namespace: Option<String>,
    /// The edges that the window keeps to, one bit each.
    pub anchor: u32,
    /// Whether other windows keep off the window.
    pub exclusive_zone: bool,
    /// Whether every output, also one that comes later, gets such a window.
    pub open_on_every_output: bool,
}

impl Clone for WindowSettings {
    fn clone(&self) -> (r: Self)
        ensures
            r == *self,
    {
        WindowSettings {
            namespace: self.namespace.clone(),
            anchor: self.anchor,
            exclusive_zone: self.exclusive_zone,
            open_on_every_output: self.open_on_every_output,
        }
    }
}

/// A request of the program.
#[derive(Debug)]
pub enum Action<Message> {
    /// A message for the program's own state.
    Output(Message),
    /// Open a window.
    OpenWindow(WindowSettings),
    /// Close every window.
    CloseAllWindow,
    /// End the application.
    Exit,
}

/// A copy of the settings of a window is the same in every respect.
pub proof fn law_a_copy_is_the_same(settings: &WindowSettings, r: WindowSettings)
    requires
        call_ensures(<WindowSettings as Clone>::clone, (settings,), r),
    ensures
        r.namespace == settings.namespace,
        r.anchor == settings.anchor,
        r.exclusive_zone == settings.exclusive_zone,
        r.open_on_every_output == settings.open_on_every_output,
{
}

} // verus!
