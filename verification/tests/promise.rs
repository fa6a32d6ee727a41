use crystal::promise::Promise;
use std::cell::RefCell;
use std::rc::Rc;

type Callback = Box<dyn FnOnce(u32)>;

#[test]
fn new_promise_is_pending() {
    let p: Promise<u32, Callback> = Promise::new();
    assert!(matches!(p, Promise::PendingNone));
}

#[test]
fn resolve_stores_the_value() {
    let mut p: Promise<u32, Callback> = Promise::new();
    p.resolve(7);
    match p {
        Promise::Resolved(v) => assert_eq!(v, 7),
        _ => panic!("promise should be resolved"),
    }
}

#[test]
fn first_resolution_wins() {
    let mut p: Promise<u32, Callback> = Promise::new();
    p.resolve(1);
    p.resolve(2);
    match p {
        Promise::Resolved(v) => assert_eq!(v, 1),
        _ => panic!("promise should be resolved"),
    }
}

#[test]
fn callback_registered_before_resolution_runs_on_resolve() {
    let seen: Rc<RefCell<Vec<u32>>> = Rc::new(RefCell::new(Vec::new()));
    let mut p: Promise<u32, Callback> = Promise::new();
    let sink = Rc::clone(&seen);
    p.then(Box::new(move |v| sink.borrow_mut().push(v)));
    assert!(seen.borrow().is_empty());
    p.resolve(41);
    assert_eq!(*seen.borrow(), vec![41]);
}

#[test]
fn callbacks_run_in_registration_order() {
    let seen: Rc<RefCell<Vec<u32>>> = Rc::new(RefCell::new(Vec::new()));
    let mut p: Promise<u32, Callback> = Promise::new();
    for tag in 0..3u32 {
        let sink = Rc::clone(&seen);
        p.then(Box::new(move |v| sink.borrow_mut().push(10 * tag + v)));
    }
    p.resolve(1);
    assert_eq!(*seen.borrow(), vec![1, 11, 21]);
}

#[test]
fn callback_registered_after_resolution_runs_at_once() {
    let seen: Rc<RefCell<Vec<u32>>> = Rc::new(RefCell::new(Vec::new()));
    let mut p: Promise<u32, Callback> = Promise::new();
    p.resolve(5);
    let sink = Rc::clone(&seen);
    p.then(Box::new(move |v| sink.borrow_mut().push(v)));
    assert_eq!(*seen.borrow(), vec![5]);
    match p {
        Promise::Resolved(v) => assert_eq!(v, 5),
        _ => panic!("promise should stay resolved"),
    }
}

#[test]
fn resolving_with_no_callbacks_calls_nothing_later() {
    let seen: Rc<RefCell<Vec<u32>>> = Rc::new(RefCell::new(Vec::new()));
    let mut p: Promise<u32, Callback> = Promise::new();
    p.resolve(9);
    let sink = Rc::clone(&seen);
    p.then(Box::new(move |v| sink.borrow_mut().push(v)));
    let sink = Rc::clone(&seen);
    p.then(Box::new(move |v| sink.borrow_mut().push(v + 1)));
    assert_eq!(*seen.borrow(), vec![9, 10]);
}
