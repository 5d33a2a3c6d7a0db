use roxy::lifecycle::{Action, Arguments, Error, Event, Lifecycle, Phase};

#[test]
fn fresh_run_is_unbound() {
    let lc = Lifecycle::new();
    assert_eq!(lc.phase, Phase::Unbound);
    assert_eq!(lc.in_flight, 0);
    assert_eq!(lc.outcome, None);
}

#[test]
fn bind_failure_terminates_with_could_not_start() {
    let mut lc = Lifecycle::new();
    let act = lc.step(Event::BindFailed(String::from("address in use")));
    assert_eq!(act, Action::Finish);
    assert_eq!(lc.phase, Phase::Terminated);
    let outcome = lc.finish();
    let err = outcome.expect_err("a failed bind must not be a clean outcome");
    assert!(err.is_bind_failure());
    assert_eq!(err.detail().as_str(), "address in use");
    assert_eq!(err, Error::CouldNotStart(String::from("address in use")));
}

#[test]
fn successful_bind_begins_serving() {
    let mut lc = Lifecycle::new();
    let act = lc.step(Event::BindSucceeded);
    assert_eq!(act, Action::BeginServing);
    assert_eq!(lc.phase, Phase::Bound);
    assert_eq!(lc.outcome, None);
    lc.enter_serving();
    assert_eq!(lc.phase, Phase::Serving);
}

#[test]
fn signal_with_nothing_in_flight_ends_cleanly() {
    let mut lc = Lifecycle::new();
    assert_eq!(lc.step(Event::BindSucceeded), Action::BeginServing);
    lc.enter_serving();
    let act = lc.step(Event::ShutdownSignal);
    assert_eq!(act, Action::Finish);
    assert_eq!(lc.phase, Phase::Terminated);
    assert_eq!(lc.finish(), Ok(()));
}

#[test]
fn arrivals_while_serving_are_dispatched() {
    let mut lc = Lifecycle::new();
    lc.step(Event::BindSucceeded);
    lc.enter_serving();
    let act = lc.step(Event::ConnectionArrived);
    assert_eq!(act, Action::ServeConnection);
    assert_eq!(lc.phase, Phase::Serving);
    assert_eq!(lc.in_flight, 1);
    let act = lc.step(Event::ConnectionArrived);
    assert_eq!(act, Action::ServeConnection);
    assert_eq!(lc.in_flight, 2);
}

#[test]
fn graceful_drain_lets_in_flight_work_finish() {
    let mut lc = Lifecycle::new();
    lc.step(Event::BindSucceeded);
    lc.enter_serving();
    lc.step(Event::ConnectionArrived);
    lc.step(Event::ConnectionArrived);
    let act = lc.step(Event::ShutdownSignal);
    assert_eq!(act, Action::StopAccepting);
    assert_eq!(lc.phase, Phase::ShuttingDown);
    assert_eq!(lc.step(Event::ConnectionFinished), Action::KeepWaiting);
    assert_eq!(lc.phase, Phase::ShuttingDown);
    assert_eq!(lc.in_flight, 1);
    assert_eq!(lc.step(Event::ConnectionFinished), Action::Finish);
    assert_eq!(lc.phase, Phase::Terminated);
    assert_eq!(lc.finish(), Ok(()));
}

#[test]
fn arrival_accepted_just_before_signal_is_still_served() {
    let mut lc = Lifecycle::new();
    lc.step(Event::BindSucceeded);
    lc.enter_serving();
    let act = lc.step(Event::ConnectionArrived);
    assert_eq!(act, Action::ServeConnection);
    lc.step(Event::ShutdownSignal);
    assert_eq!(lc.phase, Phase::ShuttingDown);
    assert_eq!(lc.in_flight, 1);
    assert_eq!(lc.step(Event::ConnectionFinished), Action::Finish);
    assert_eq!(lc.finish(), Ok(()));
}

#[test]
fn arrivals_after_signal_are_refused() {
    let mut lc = Lifecycle::new();
    lc.step(Event::BindSucceeded);
    lc.enter_serving();
    lc.step(Event::ConnectionArrived);
    lc.step(Event::ShutdownSignal);
    let act = lc.step(Event::ConnectionArrived);
    assert_eq!(act, Action::RefuseConnection);
    assert_eq!(lc.phase, Phase::ShuttingDown);
    assert_eq!(lc.in_flight, 1);
    let act = lc.step(Event::ConnectionArrived);
    assert_eq!(act, Action::RefuseConnection);
    assert_eq!(lc.in_flight, 1);
    assert_eq!(lc.step(Event::ConnectionFinished), Action::Finish);
    assert_eq!(lc.finish(), Ok(()));
}

#[test]
fn transport_failure_while_serving_is_a_bad_exit() {
    let mut lc = Lifecycle::new();
    lc.step(Event::BindSucceeded);
    lc.enter_serving();
    let act = lc.step(Event::TransportFailed(String::from("connection reset")));
    assert_eq!(act, Action::Finish);
    assert_eq!(lc.phase, Phase::Terminated);
    let err = lc.finish().expect_err("a transport failure must not be a clean outcome");
    assert!(!err.is_bind_failure());
    assert_eq!(err.detail().as_str(), "connection reset");
    assert_eq!(err, Error::BadExit(String::from("connection reset")));
}

#[test]
fn two_sequential_runs_succeed_independently() {
    let args = Arguments { port: 8080 };
    let mut first = Lifecycle::new();
    first.step(Event::BindSucceeded);
    first.enter_serving();
    first.step(Event::ShutdownSignal);
    assert_eq!(first.finish(), Ok(()));

    // The first run has fully terminated; a second run at the same
    // address starts from scratch and succeeds on its own.
    let addr = args.bind_address();
    assert_eq!(addr.port, 8080);
    let mut second = Lifecycle::new();
    assert_eq!(second.phase, Phase::Unbound);
    second.step(Event::BindSucceeded);
    second.enter_serving();
    second.step(Event::ShutdownSignal);
    assert_eq!(second.finish(), Ok(()));
}

#[test]
fn bind_address_is_loopback_at_the_callers_port() {
    let args = Arguments { port: 4321 };
    let addr = args.bind_address();
    assert_eq!(addr.octet0, 127);
    assert_eq!(addr.octet1, 0);
    assert_eq!(addr.octet2, 0);
    assert_eq!(addr.octet3, 1);
    assert_eq!(addr.port, 4321);
}
