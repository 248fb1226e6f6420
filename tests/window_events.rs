use std::cell::Cell;
use std::rc::Rc;

use cgl_rs::event::{drag_n_drop_event, key_event, mouse_button_event, Event};
use cgl_rs::input::{Action, Key, MouseButton};
use cgl_rs::registry::{WindowRegistry, MAX_ACTIVE_WINDOWS};
use cgl_rs::window::{dispatch_event, CreationError, DispatchOutcome, Window};

type Handler = Box<dyn Fn(&Event) -> bool>;

fn counting(counter: &Rc<Cell<u32>>, answer: bool) -> Handler {
    let c = Rc::clone(counter);
    Box::new(move |_e: &Event| {
        c.set(c.get() + 1);
        answer
    })
}

fn live_window(handle: u64) -> Window<Handler> {
    match Window::new(800, 600, handle) {
        Ok(w) => w,
        Err(_) => panic!("a non-null handle must give a window"),
    }
}

#[test]
fn creation_failure_on_null_handle() {
    let registry = WindowRegistry::new();
    let r: Result<Window<Handler>, CreationError> = Window::new(800, 600, 0);
    assert!(matches!(r, Err(CreationError::Failed)));
    let r2: Result<Window<Handler>, CreationError> = Window::new_undecorated(800, 600, 0);
    assert!(matches!(r2, Err(CreationError::Failed)));
    for h in [1u64, 7, 1023, 1024] {
        assert_eq!(registry.lookup(h), None);
    }
}

#[test]
fn creation_success_keeps_handle() {
    let w = live_window(4242);
    assert_eq!(w.native_handle(), 4242);
    assert!(!w.has_been_destroyed());
}

#[test]
fn basic_close_event_round_trip() {
    let mut registry = WindowRegistry::new();
    let mut w = live_window(0x5000);
    w.register_for_events(&mut registry);
    let calls = Rc::new(Cell::new(0u32));
    let c = Rc::clone(&calls);
    w.attach_event_handler(
        "h",
        Box::new(move |e: &Event| {
            c.set(c.get() + 1);
            matches!(e, Event::WindowClose)
        }),
    );
    let later = Rc::new(Cell::new(0u32));
    w.attach_event_handler("later", counting(&later, true));
    let outcome = dispatch_event(&registry, &w, 0x5000, &Event::WindowClose);
    assert_eq!(outcome, DispatchOutcome::Consumed(0));
    assert_eq!(calls.get(), 1);
    assert_eq!(later.get(), 0);
}

#[test]
fn single_claim_short_circuit() {
    let mut registry = WindowRegistry::new();
    let mut w = live_window(77);
    w.register_for_events(&mut registry);
    let a = Rc::new(Cell::new(0u32));
    let b = Rc::new(Cell::new(0u32));
    let c = Rc::new(Cell::new(0u32));
    w.attach_event_handler("a", counting(&a, false));
    w.attach_event_handler("b", counting(&b, true));
    w.attach_event_handler("c", counting(&c, true));
    let outcome = dispatch_event(&registry, &w, 77, &Event::FramebufferSize(640, 480));
    assert_eq!(outcome, DispatchOutcome::Consumed(1));
    assert_eq!((a.get(), b.get(), c.get()), (1, 1, 0));
}

#[test]
fn unclaimed_event_runs_every_handler_once() {
    let mut registry = WindowRegistry::new();
    let mut w = live_window(78);
    w.register_for_events(&mut registry);
    let a = Rc::new(Cell::new(0u32));
    let b = Rc::new(Cell::new(0u32));
    w.attach_event_handler("a", counting(&a, false));
    w.attach_event_handler("b", counting(&b, false));
    let outcome = dispatch_event(&registry, &w, 78, &Event::WindowClose);
    assert_eq!(outcome, DispatchOutcome::Unclaimed);
    assert_eq!((a.get(), b.get()), (1, 1));
}

#[test]
fn handler_replace_by_name() {
    let mut registry = WindowRegistry::new();
    let mut w = live_window(99);
    w.register_for_events(&mut registry);
    let old = Rc::new(Cell::new(0u32));
    let new = Rc::new(Cell::new(0u32));
    w.attach_event_handler("h", counting(&old, false));
    w.attach_event_handler("h", counting(&new, false));
    let outcome = dispatch_event(&registry, &w, 99, &Event::WindowClose);
    assert_eq!(outcome, DispatchOutcome::Unclaimed);
    assert_eq!((old.get(), new.get()), (0, 1));
}

#[test]
fn detach_removes_only_that_handler() {
    let mut registry = WindowRegistry::new();
    let mut w = live_window(100);
    w.register_for_events(&mut registry);
    let a = Rc::new(Cell::new(0u32));
    let b = Rc::new(Cell::new(0u32));
    w.attach_event_handler("a", counting(&a, true));
    w.attach_event_handler("b", counting(&b, true));
    w.detach_event_handler("a");
    w.detach_event_handler("absent");
    let outcome = dispatch_event(&registry, &w, 100, &Event::WindowClose);
    assert_eq!(outcome, DispatchOutcome::Consumed(0));
    assert_eq!((a.get(), b.get()), (0, 1));
}

#[test]
fn destroy_is_idempotent() {
    let mut registry = WindowRegistry::new();
    let mut w = live_window(321);
    w.register_for_events(&mut registry);
    assert_eq!(registry.lookup(321), Some(321));
    assert!(w.destroy(&mut registry));
    assert_eq!(registry.lookup(321), None);
    assert!(!w.destroy(&mut registry));
    assert!(!w.destroy(&mut registry));
    assert!(w.has_been_destroyed());
    assert_eq!(registry.lookup(321), None);
}

#[test]
fn dispatch_after_destroy_is_silent() {
    let mut registry = WindowRegistry::new();
    let mut w = live_window(555);
    w.register_for_events(&mut registry);
    let calls = Rc::new(Cell::new(0u32));
    w.attach_event_handler("h", counting(&calls, true));
    w.destroy(&mut registry);
    let outcome = dispatch_event(&registry, &w, 555, &Event::WindowClose);
    assert_eq!(outcome, DispatchOutcome::Ignored);
    assert_eq!(calls.get(), 0);
}

#[test]
fn dispatch_to_unregistered_window_is_silent() {
    let registry = WindowRegistry::new();
    let mut w = live_window(12);
    let calls = Rc::new(Cell::new(0u32));
    w.attach_event_handler("h", counting(&calls, true));
    assert_eq!(dispatch_event(&registry, &w, 12, &Event::WindowClose), DispatchOutcome::Ignored);
    assert_eq!(dispatch_event(&registry, &w, 0, &Event::WindowClose), DispatchOutcome::Ignored);
    assert_eq!(calls.get(), 0);
}

#[test]
fn registry_collision_overwrites() {
    let mut registry = WindowRegistry::new();
    let first = live_window(5);
    let second = live_window(5 + MAX_ACTIVE_WINDOWS as u64);
    first.register_for_events(&mut registry);
    second.register_for_events(&mut registry);
    assert_eq!(registry.lookup(5), Some(5 + MAX_ACTIVE_WINDOWS as u64));
    assert_eq!(dispatch_event(&registry, &first, 5, &Event::WindowClose), DispatchOutcome::Ignored);
    let mut first = first;
    // the first window no longer holds the slot, so its destruction leaves it
    assert!(first.destroy(&mut registry));
    assert_eq!(registry.lookup(5), Some(5 + MAX_ACTIVE_WINDOWS as u64));
}

#[test]
fn registry_lookup_of_null_handle() {
    let registry = WindowRegistry::new();
    assert_eq!(registry.lookup(0), None);
}

#[test]
fn drag_and_drop_payload() {
    let paths = vec!["a.png", "b.png"];
    match drag_n_drop_event(&paths) {
        Event::DragNDrop(v) => assert_eq!(v, vec!["a.png".to_string(), "b.png".to_string()]),
        other => panic!("unexpected event {:?}", other),
    }
    let none: Vec<&str> = Vec::new();
    assert_eq!(drag_n_drop_event(&none), Event::DragNDrop(Vec::new()));
}

#[test]
fn key_event_translation() {
    assert_eq!(key_event(65, 30, 1, 2), Some(Event::Key(Key::A, Action::Press, 30, 2)));
    assert_eq!(key_event(256, 9, 2, 0), Some(Event::Key(Key::Escape, Action::Repeat, 9, 0)));
    assert_eq!(key_event(65, 30, 99, 0), None);
    assert_eq!(key_event(1000, 30, 0, 0), None);
    assert_eq!(key_event(-1, 0, 0, 0), None);
}

#[test]
fn mouse_button_event_translation() {
    assert_eq!(
        mouse_button_event(1, 0, 4),
        Some(Event::MouseButton(MouseButton::Right, Action::Release, 4))
    );
    assert_eq!(mouse_button_event(8, 0, 0), None);
    assert_eq!(mouse_button_event(0, 3, 0), None);
}

#[test]
fn mouse_position_event_carries_bits() {
    let e = Event::MousePosition(1.5f64.to_bits(), (-2.25f64).to_bits());
    match e {
        Event::MousePosition(x, y) => {
            assert_eq!(f64::from_bits(x), 1.5);
            assert_eq!(f64::from_bits(y), -2.25);
        }
        _ => panic!("unexpected event"),
    }
}
