use pegasus::event::{classify_all, keeps_running, EventHandler, Key, PolledEvent};

#[test]
fn default_policy_stops_on_close() {
    assert!(!keeps_running(PolledEvent::Closed));
}

#[test]
fn default_policy_stops_on_escape() {
    assert!(!keeps_running(PolledEvent::KeyboardInput(Some(Key::Escape))));
}

#[test]
fn default_policy_goes_on_otherwise() {
    assert!(keeps_running(PolledEvent::KeyboardInput(Some(Key::Other))));
    assert!(keeps_running(PolledEvent::KeyboardInput(None)));
    assert!(keeps_running(PolledEvent::Other));
}

#[test]
fn unit_handler_applies_the_default_policy() {
    let mut handler = ();
    assert!(!handler.handle(&PolledEvent::Closed));
    assert!(!handler.handle(&PolledEvent::KeyboardInput(Some(Key::Escape))));
    assert!(handler.handle(&PolledEvent::KeyboardInput(Some(Key::Other))));
    assert!(handler.handle(&PolledEvent::Other));
}

#[test]
fn unit_handler_applies_the_default_policy_to_window_events() {
    let mut handler = ();
    assert!(handler.handle(&glutin::Event::Awakened));
    assert!(handler.handle(&glutin::Event::Suspended(false)));
}

struct CountsThenDefault {
    seen: u32,
}

impl EventHandler for CountsThenDefault {
    fn handle(&mut self, event: &PolledEvent) -> bool {
        self.seen += 1;
        keeps_running(*event)
    }
}

#[test]
fn a_handler_of_its_own_can_fall_back_on_the_default_policy() {
    let mut handler = CountsThenDefault { seen: 0 };
    assert!(handler.handle(&PolledEvent::Other));
    assert!(!handler.handle(&PolledEvent::Closed));
    assert!(!handler.handle(&PolledEvent::KeyboardInput(Some(Key::Escape))));
    assert_eq!(handler.seen, 3);
}

#[test]
fn classify_all_keeps_length_and_reads_events_without_a_window_as_other() {
    let raw = vec![glutin::Event::Awakened, glutin::Event::Suspended(true)];
    let events = classify_all(&raw);
    assert_eq!(events, vec![PolledEvent::Other, PolledEvent::Other]);
    assert!(classify_all(&Vec::new()).is_empty());
}
