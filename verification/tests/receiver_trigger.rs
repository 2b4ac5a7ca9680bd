use osc_clock::order::{get_fallback_orders, split};
use osc_clock::receiver::{check, handle_datagram, handle_packet, RxArg, RxMessage, RxPacket};
use osc_clock::time::Timestamp;

fn now() -> Timestamp {
    Timestamp::new(2026, 10, 12, 13, 34, 56, 0)
}

fn handler_addr() -> String {
    "/avatar/parameters/osc_clock@ForceSync".to_string()
}

#[test]
fn a_message_without_arguments_triggers_a_full_resync() {
    let orders = split(get_fallback_orders());
    let msg = RxPacket::Message(RxMessage { addr: handler_addr(), first_arg: None });
    let out = handle_packet(&msg, &orders, &now());
    let msgs = out.expect("the handler address triggers");
    // A full resync carries every sender order, flags notwithstanding.
    assert_eq!(msgs.len(), 17);
}

#[test]
fn a_false_boolean_argument_suppresses_the_trigger() {
    let orders = split(get_fallback_orders());
    let msg = RxPacket::Message(
        RxMessage { addr: handler_addr(), first_arg: Some(RxArg::Bool(false)) },
    );
    assert!(handle_packet(&msg, &orders, &now()).is_none());
}

#[test]
fn a_true_boolean_argument_triggers() {
    let orders = split(get_fallback_orders());
    let msg = RxPacket::Message(
        RxMessage { addr: handler_addr(), first_arg: Some(RxArg::Bool(true)) },
    );
    assert!(handle_packet(&msg, &orders, &now()).is_some());
}

#[test]
fn a_non_boolean_argument_counts_as_true() {
    let orders = split(get_fallback_orders());
    let msg = RxPacket::Message(
        RxMessage { addr: handler_addr(), first_arg: Some(RxArg::Other) },
    );
    assert!(handle_packet(&msg, &orders, &now()).is_some());
}

#[test]
fn an_unknown_address_does_not_trigger() {
    let orders = split(get_fallback_orders());
    let msg = RxPacket::Message(
        RxMessage { addr: "/avatar/parameters/elsewhere".to_string(), first_arg: None },
    );
    assert!(handle_packet(&msg, &orders, &now()).is_none());
}

#[test]
fn bundles_are_ignored() {
    let orders = split(get_fallback_orders());
    assert!(handle_packet(&RxPacket::Bundle, &orders, &now()).is_none());
}

#[test]
fn check_matches_only_handler_addresses() {
    let orders = split(get_fallback_orders());
    let m = RxMessage { addr: handler_addr(), first_arg: None };
    assert!(check(&m, &orders.handler));
    assert!(!check(&m, &orders.sender));
    let m = RxMessage { addr: handler_addr(), first_arg: Some(RxArg::Bool(false)) };
    assert!(!check(&m, &orders.handler));
}

#[test]
fn a_wire_datagram_triggers_through_the_decoder() {
    let orders = split(get_fallback_orders());
    let packet = rosc::OscPacket::Message(rosc::OscMessage {
        addr: handler_addr(),
        args: vec![],
    });
    let bytes = rosc::encoder::encode(&packet).expect("encodable");
    let out = handle_datagram(&bytes, &orders, &now());
    assert_eq!(out.expect("the wire trigger fires").len(), 17);
}

#[test]
fn a_wire_false_boolean_suppresses_through_the_decoder() {
    let orders = split(get_fallback_orders());
    let packet = rosc::OscPacket::Message(rosc::OscMessage {
        addr: handler_addr(),
        args: vec![rosc::OscType::Bool(false)],
    });
    let bytes = rosc::encoder::encode(&packet).expect("encodable");
    assert!(handle_datagram(&bytes, &orders, &now()).is_none());
}

#[test]
fn garbage_bytes_decode_to_nothing() {
    let orders = split(get_fallback_orders());
    let bytes = [1u8, 2, 3];
    assert!(handle_datagram(&bytes, &orders, &now()).is_none());
}
