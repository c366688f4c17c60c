//! Window events, as far as the presentation loop reads them, and the
//! handler that decides whether the loop goes on.

use vstd::prelude::*;

verus! {

/// The window system's event type. Nothing inside it is visible here.
#[verifier::external_type_specification]
#[verifier::external_body]
pub struct ExWindowEvent(glutin::Event);

/// A key, as far as the default policy tells keys apart.
#[derive(Debug, Clone, Copy, PartialEq, Eq, Structural)]
pub enum Key {
    /// The escape key.
    Escape,
    /// Any other key.
    Other,
}

/// A polled event, as far as the default policy tells events apart.
#[derive(Debug, Clone, Copy, PartialEq, Eq, Structural)]
pub enum PolledEvent {
    /// The window was asked to close.
    Closed,
    /// Keyboard input, with the key where the window system names one.
    KeyboardInput(Option<Key>),
    /// Anything else.
    Other,
}

/// The polled event that stands for a window-system event.
pub uninterp spec fn classified(raw: glutin::Event) -> PolledEvent;

/// Reads `glutin::Event` (winit's `Event`) by its variants. A window event
/// `CloseRequested` gives `Closed`; a window event `KeyboardInput` gives
/// `KeyboardInput` with `Escape` for the virtual key code `Escape`, `Other`
/// for any other code and `None` where the field is `None`; every other
/// variant gives `Other`. The contract only names that result.
#[verifier::external_body]
fn classify(raw: &glutin::Event) -> (event: PolledEvent)
    ensures
        event == classified(*raw),
{
    match raw {
        glutin::Event::WindowEvent { event: glutin::WindowEvent::CloseRequested, .. } => {
            PolledEvent::Closed
        },
        glutin::Event::WindowEvent {
            event: glutin::WindowEvent::KeyboardInput { input, .. },
            ..
        } => match input.virtual_keycode {
            Some(glutin::VirtualKeyCode::Escape) => PolledEvent::KeyboardInput(Some(Key::Escape)),
            Some(_) => PolledEvent::KeyboardInput(Some(Key::Other)),
            None => PolledEvent::KeyboardInput(None),
        },
        _ => PolledEvent::Other,
    }
}

/// Classifies a batch of polled window-system events, keeping their order.
pub fn classify_all(raw: &Vec<glutin::Event>) -> (events: Vec<PolledEvent>)
    ensures
        events@.len() == raw@.len(),
        forall|i: int| 0 <= i < raw@.len() ==> events@[i] == classified(#[trigger] raw@[i]),
{
    let mut events: Vec<PolledEvent> = Vec::new();
    let mut i: usize = 0;
    while i < raw.len()
        invariant
            i <= raw@.len(),
            events@.len() == i,
            forall|k: int| 0 <= k < i ==> events@[k] == classified(#[trigger] raw@[k]),
        decreases raw@.len() - i,
    {
        events.push(classify(&raw[i]));
        i += 1;
    }
    events
}

/// The events on which the default policy ends the loop: a request to close
/// the window, and keyboard input of the escape key.
pub open spec fn requests_exit(event: PolledEvent) -> bool {
    event == PolledEvent::Closed || event == PolledEvent::KeyboardInput(Some(Key::Escape))
}

/// The default policy: go on unless the event requests the exit.
pub fn keeps_running(event: PolledEvent) -> (proceed: bool)
    ensures
        proceed == !requests_exit(event),
{
    match event {
        PolledEvent::Closed => false,
        PolledEvent::KeyboardInput(Some(Key::Escape)) => false,
        _ => true,
    }
}

/// Decides, event by event, whether the presentation loop goes on. The
/// events are of the handler's choosing: polled events as classified here,
/// or the window system's own. The unit value is the handler for both that
/// applies the default policy.
pub trait EventHandler<Ev = PolledEvent>: Sized {
    /// What one call of `handle` may answer and make of the handler. A
    /// handler that says nothing here may do anything.
    open spec fn handled(before: Self, event: Ev, after: Self, proceed: bool) -> bool {
        true
    }

    /// Handles one event; `false` ends the loop.
    fn handle(&mut self, event: &Ev) -> (proceed: bool)
        ensures
            Self::handled(*old(self), *event, *final(self), proceed),
    ;
}

/// The handler that does nothing but apply the default policy.
impl EventHandler<PolledEvent> for () {
    open spec fn handled(before: Self, event: PolledEvent, after: Self, proceed: bool) -> bool {
        proceed == !requests_exit(event)
    }

    fn handle(&mut self, event: &PolledEvent) -> (proceed: bool) {
        keeps_running(*event)
    }
}

/// The default policy on the window system's own events, read as
/// `classified` reads them.
impl EventHandler<glutin::Event> for () {
    open spec fn handled(before: Self, event: glutin::Event, after: Self, proceed: bool) -> bool {
        proceed == !requests_exit(classified(event))
    }

    fn handle(&mut self, event: &glutin::Event) -> (proceed: bool) {
        keeps_running(classify(event))
    }
}

} // verus!
