//! The readiness bridge and the property-change filter, driven on concrete
//! event sequences.

use cnx::bridge::BridgePoll;
use cnx::bridge::PulsePoll;
use cnx::bridge::RawEvent;
use cnx::bridge::XConn;
use cnx::bridge::XcbEventStream;
use cnx::bridge::XcbPropertiesStream;
use cnx::bridge::xcb_properties_stream;
use cnx::bridge::PROPERTY_NOTIFY;

fn ev(kind: u8, atom: u32) -> RawEvent {
    RawEvent { response_type: kind, atom }
}

#[test]
fn single_readiness_drains_k_events() {
    // A buffer of three decodable events and one readiness notification:
    // exactly three polls yield events, the fourth suspends.
    let mut stream = XcbEventStream::new(XConn::new());
    stream.deliver_event(ev(12, 0));
    stream.deliver_event(ev(PROPERTY_NOTIFY, 7));
    stream.deliver_event(ev(12, 1));

    assert_eq!(stream.poll_next(), BridgePoll::Event(ev(12, 0)));
    assert_eq!(stream.poll_next(), BridgePoll::Event(ev(PROPERTY_NOTIFY, 7)));
    assert_eq!(stream.poll_next(), BridgePoll::Event(ev(12, 1)));
    assert_eq!(stream.poll_next(), BridgePoll::Pending);
    // Back on WouldBlock: polling again without any arrival still suspends.
    assert_eq!(stream.poll_next(), BridgePoll::Pending);
}

#[test]
fn event_between_drain_and_rearm_is_not_missed() {
    // Drive the bridge to WouldBlock with an empty buffer (the failed
    // decode and the readiness acknowledgment have both happened), then let
    // an event arrive. The very next poll must return it without any
    // further readiness notification.
    let mut stream = XcbEventStream::new(XConn::new());
    stream.deliver_event(ev(12, 0));
    assert_eq!(stream.poll_next(), BridgePoll::Event(ev(12, 0)));
    assert_eq!(stream.poll_next(), BridgePoll::Pending);

    stream.deliver_event(ev(PROPERTY_NOTIFY, 3));
    assert_eq!(stream.poll_next(), BridgePoll::Event(ev(PROPERTY_NOTIFY, 3)));
}

#[test]
fn broken_wait_is_fatal() {
    let mut stream = XcbEventStream::new(XConn::new());
    stream.fail_connection();
    assert_eq!(stream.poll_next(), BridgePoll::Fatal);
    assert_eq!(stream.poll_next(), BridgePoll::Fatal);
}

#[test]
fn buffered_events_still_decode_after_failure_once_off_wouldblock() {
    // Off WouldBlock the bridge decodes straight from the buffer; the wait
    // primitive is only consulted once the buffer runs dry.
    let mut stream = XcbEventStream::new(XConn::new());
    stream.deliver_event(ev(12, 0));
    stream.deliver_event(ev(12, 1));
    assert_eq!(stream.poll_next(), BridgePoll::Event(ev(12, 0)));
    stream.fail_connection();
    assert_eq!(stream.poll_next(), BridgePoll::Event(ev(12, 1)));
    assert_eq!(stream.poll_next(), BridgePoll::Fatal);
}

#[test]
fn filter_emits_one_synthetic_pulse_first() {
    let mut stream = xcb_properties_stream(vec![5, 9]);
    assert_eq!(stream.poll_next(), PulsePoll::Pulse);
    assert_eq!(stream.poll_next(), PulsePoll::Pending);
}

#[test]
fn synthetic_pulse_precedes_queued_real_changes() {
    // Even with a matching event already buffered, the first poll emits the
    // synthetic pulse without consuming anything; the real change follows.
    let inner = XcbEventStream::new(XConn::new());
    let mut stream = XcbPropertiesStream::new(inner, vec![5]);
    stream.deliver_event(ev(PROPERTY_NOTIFY, 5));
    assert_eq!(stream.poll_next(), PulsePoll::Pulse);
    assert_eq!(stream.poll_next(), PulsePoll::Pulse);
    assert_eq!(stream.poll_next(), PulsePoll::Pending);
}

#[test]
fn filter_one_pulse_per_matching_event() {
    let inner = XcbEventStream::new(XConn::new());
    let mut stream = XcbPropertiesStream::new(inner, vec![5, 9]);
    assert_eq!(stream.poll_next(), PulsePoll::Pulse);

    // Two matches among five raw events: exactly two pulses, then
    // suspension.
    stream.deliver_event(ev(PROPERTY_NOTIFY, 5));
    stream.deliver_event(ev(12, 5));
    stream.deliver_event(ev(PROPERTY_NOTIFY, 6));
    stream.deliver_event(ev(PROPERTY_NOTIFY, 9));
    stream.deliver_event(ev(33, 9));
    assert_eq!(stream.poll_next(), PulsePoll::Pulse);
    assert_eq!(stream.poll_next(), PulsePoll::Pulse);
    assert_eq!(stream.poll_next(), PulsePoll::Pending);
}

#[test]
fn filter_discards_non_matching_without_stalling() {
    let inner = XcbEventStream::new(XConn::new());
    let mut stream = XcbPropertiesStream::new(inner, vec![5]);
    assert_eq!(stream.poll_next(), PulsePoll::Pulse);

    // Non-matching events produce zero pulses and do not stall the wait.
    stream.deliver_event(ev(12, 5));
    stream.deliver_event(ev(PROPERTY_NOTIFY, 6));
    assert_eq!(stream.poll_next(), PulsePoll::Pending);

    // A later match still comes through.
    stream.deliver_event(ev(PROPERTY_NOTIFY, 5));
    assert_eq!(stream.poll_next(), PulsePoll::Pulse);
}

#[test]
fn filter_propagates_fatal() {
    let inner = XcbEventStream::new(XConn::new());
    let mut stream = XcbPropertiesStream::new(inner, vec![5]);
    assert_eq!(stream.poll_next(), PulsePoll::Pulse);
    stream.fail_connection();
    assert_eq!(stream.poll_next(), PulsePoll::Fatal);
}
