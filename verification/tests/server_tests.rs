use fileserve::server::accept_action;
use fileserve::server::next_flow;
use fileserve::server::AcceptEvent;
use fileserve::server::Action;
use fileserve::server::Flow;
use fileserve::server::CLOSE_DELAY_MS;
use fileserve::server::SERVER_PORT;

#[test]
fn test_would_block_is_idle_and_loop_goes_on() {
    assert_eq!(accept_action(AcceptEvent::WouldBlock), Action::Idle);
    assert_eq!(next_flow(false), Flow::Polling);
}

#[test]
fn test_connection_is_served() {
    assert_eq!(accept_action(AcceptEvent::Connected), Action::Serve);
}

#[test]
fn test_accept_error_aborts() {
    assert_eq!(accept_action(AcceptEvent::Failed), Action::Abort);
}

#[test]
fn test_signal_while_idle_stops_within_one_cycle() {
    // The termination signal arrives while no client is connected: the
    // cycle that reads the flag serves nothing and ends the loop.
    assert_eq!(accept_action(AcceptEvent::WouldBlock), Action::Idle);
    assert_eq!(next_flow(true), Flow::Stopped);
}

#[test]
fn test_signal_during_service_lets_the_cycle_finish() {
    // A client was already accepted when the signal arrives: that one
    // cycle still serves, and the flag check at its end stops the loop.
    assert_eq!(accept_action(AcceptEvent::Connected), Action::Serve);
    assert_eq!(next_flow(true), Flow::Stopped);
}

#[test]
fn test_fixed_constants() {
    assert_eq!(SERVER_PORT, 8080);
    assert_eq!(CLOSE_DELAY_MS, 1000);
}
