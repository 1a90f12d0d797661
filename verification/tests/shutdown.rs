use std::cell::RefCell;
use std::rc::Rc;

use twelve::lifecycle::{summarize, Coordinator, FlushFailure};
use twelve::savable::StoreError;
use twelve::util::graceful_shutdown::{ShutdownSignal, Signal, Trigger};

#[test]
fn watched_signals_are_term_int_quit() {
    assert_eq!(ShutdownSignal::watched(), vec![Signal::Term, Signal::Int, Signal::Quit]);
}

#[test]
fn registered_signal_is_listening() {
    let signal = ShutdownSignal::register();
    assert!(!signal.is_resolved());
    assert_eq!(signal.trigger(), None);
}

#[test]
fn first_delivery_resolves() {
    for delivered in [
        Trigger::Received(Signal::Term),
        Trigger::Received(Signal::Int),
        Trigger::Received(Signal::Quit),
        Trigger::DeliveryError,
    ] {
        let mut signal = ShutdownSignal::register();
        assert_eq!(signal.resolve(delivered), delivered);
        assert!(signal.is_resolved());
        assert_eq!(signal.trigger(), Some(delivered));
    }
}

#[test]
fn second_wait_finds_the_first_trigger() {
    let mut signal = ShutdownSignal::register();
    signal.resolve(Trigger::Received(Signal::Int));
    assert_eq!(signal.trigger(), Some(Trigger::Received(Signal::Int)));
    assert_eq!(signal.resolve(Trigger::Received(Signal::Term)), Trigger::Received(Signal::Int));
    assert_eq!(signal.resolve(Trigger::DeliveryError), Trigger::Received(Signal::Int));
    assert_eq!(signal.trigger(), Some(Trigger::Received(Signal::Int)));
}

#[test]
fn summarize_lists_failures_by_store() {
    let results = vec![
        Err(StoreError::WriteFailure),
        Ok(()),
        Err(StoreError::NotFound),
        Err(StoreError::Corrupt),
        Ok(()),
    ];
    let summary = summarize(Trigger::DeliveryError, &results);
    assert_eq!(summary.trigger, Trigger::DeliveryError);
    assert_eq!(summary.attempted, 5);
    assert_eq!(
        summary.failures,
        vec![
            FlushFailure { store: 0, error: StoreError::WriteFailure },
            FlushFailure { store: 2, error: StoreError::NotFound },
            FlushFailure { store: 3, error: StoreError::Corrupt },
        ]
    );
    assert!(!summary.is_success());
}

#[test]
fn summarize_of_no_store_is_success() {
    let summary = summarize(Trigger::Received(Signal::Quit), &Vec::new());
    assert_eq!(summary.attempted, 0);
    assert!(summary.failures.is_empty());
    assert!(summary.is_success());
}

#[test]
fn run_flushes_third_store_after_second_fails() {
    let calls: Rc<RefCell<Vec<usize>>> = Rc::new(RefCell::new(Vec::new()));
    let mut coordinator: Coordinator<Box<dyn FnOnce() -> Result<(), StoreError>>> =
        Coordinator::new(ShutdownSignal::register());
    for store in 0..3usize {
        let calls = calls.clone();
        coordinator.register_store(Box::new(move || {
            calls.borrow_mut().push(store);
            if store == 1 {
                Err(StoreError::WriteFailure)
            } else {
                Ok(())
            }
        }));
    }
    assert_eq!(coordinator.stores(), 3);
    assert_eq!(coordinator.trigger(), None);
    assert!(calls.borrow().is_empty());
    let summary = coordinator.run(Trigger::Received(Signal::Term));
    assert_eq!(*calls.borrow(), vec![0, 1, 2]);
    assert_eq!(summary.trigger, Trigger::Received(Signal::Term));
    assert_eq!(summary.attempted, 3);
    assert_eq!(
        summary.failures,
        vec![FlushFailure { store: 1, error: StoreError::WriteFailure }]
    );
    assert!(!summary.is_success());
}

#[test]
fn run_keeps_trigger_of_signal_that_was_resolved_before() {
    let mut signal = ShutdownSignal::register();
    signal.resolve(Trigger::DeliveryError);
    let mut coordinator = Coordinator::new(signal);
    assert_eq!(coordinator.trigger(), Some(Trigger::DeliveryError));
    coordinator.register_store(|| Ok(()));
    let summary = coordinator.run(Trigger::Received(Signal::Int));
    assert_eq!(summary.trigger, Trigger::DeliveryError);
    assert_eq!(summary.attempted, 1);
    assert!(summary.is_success());
}
