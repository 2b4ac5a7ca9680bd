//! The trigger receiver's decision logic: decode an inbound datagram,
//! match it against the handler orders, and on a match build a full
//! (all-flags) resync.
//!
//! The socket loop that receives datagrams and sends the results lives
//! outside the library; it hands each datagram's bytes to
//! `handle_datagram`.

use vstd::prelude::*;

use crate::message::{build, spec_build, spec_messages_of, BuilderParams, Message};
use crate::order::{clone_orders, Order, Orders};
use crate::text::str_eq;
use crate::time::Timestamp;
use crate::unit::{SyncFlag, UnitValue};

verus! {

/// The first argument of an inbound message, as the trigger logic reads
/// it: a boolean, or something else.
#[derive(Debug, Clone, Copy, PartialEq, Eq, Structural)]
pub enum RxArg {
    Bool(bool),
    Other,
}

/// One decoded inbound message: its address and its first argument, where
/// it has one.
#[derive(Debug)]
pub struct RxMessage {
    pub addr: String,
    pub first_arg: Option<RxArg>,
}

/// One decoded inbound packet: a single message, or a bundle (which the
/// receiver ignores).
#[derive(Debug)]
pub enum RxPacket {
    Message(RxMessage),
    Bundle,
}

/// Whether an inbound message triggers a resync: its first argument is
/// not the explicit boolean false (absence and non-boolean arguments
/// count as true), and its address is one of the handler orders'.
pub open spec fn spec_triggers(addr: Seq<char>, first_arg: Option<RxArg>, handlers: Seq<
    Order,
>) -> bool {
    &&& !(first_arg matches Some(RxArg::Bool(false)))
    &&& exists|i: int| 0 <= i < handlers.len() && (#[trigger] handlers[i]).address@ == addr
}

/// Whether the inbound message forces a resync: a false boolean first
/// argument suppresses it, and otherwise any handler order with the
/// message's address fires it.
pub fn check(msg: &RxMessage, order: &Vec<Order>) -> (r: bool)
    ensures
        r == spec_triggers(msg.addr@, msg.first_arg, order@),
{
    let update: bool = match msg.first_arg {
        Some(RxArg::Bool(b)) => b,
        _ => true,
    };
    if !update {
        return false;
    }
    let mut i: usize = 0;
    while i < order.len()
        invariant
            i <= order@.len(),
            !(msg.first_arg matches Some(RxArg::Bool(false))),
            forall|j: int| 0 <= j < i ==> (#[trigger] order@[j]).address@ != msg.addr@,
        decreases order@.len() - i,
    {
        if str_eq(msg.addr.as_str(), order[i].address.as_str()) {
            proof {
                assert((order@[i as int]).address@ == msg.addr@);
            }
            return true;
        }
        i = i + 1;
    }
    false
}

/// What the receiver does with one decoded packet: a message that
/// triggers yields the full resync built over the sender orders at `t`
/// with every flag set; everything else yields nothing.
pub open spec fn spec_rx_outcome(
    p: RxPacket,
    orders: Orders,
    t: Timestamp,
    r: Option<Seq<(Seq<char>, UnitValue)>>,
) -> bool {
    match p {
        RxPacket::Message(m) => {
            if spec_triggers(m.addr@, m.first_arg, orders.handler@) {
                r == Some(
                    spec_build(orders.sender@, t, SyncFlag { minute: true, hour: true, day: true }),
                )
            } else {
                r is None
            }
        },
        RxPacket::Bundle => r is None,
    }
}

/// Handle one decoded inbound packet: where it is a message at a handler
/// address whose first argument is not the boolean false, build the full
/// resync (all flags set) over the sender orders; otherwise nothing.
pub fn handle_packet(p: &RxPacket, orders: &Orders, t: &Timestamp) -> (r: Option<Vec<Message>>)
    requires
        t.wf(),
    ensures
        spec_rx_outcome(
            *p,
            *orders,
            *t,
            match r {
                Some(msgs) => Some(spec_messages_of(msgs@)),
                None => None,
            },
        ),
{
    match p {
        RxPacket::Message(m) => {
            if check(m, &orders.handler) {
                let params = BuilderParams {
                    orders: clone_orders(&orders.sender),
                    sync_flag: SyncFlag::all(),
                };
                Some(build(params, t))
            } else {
                None
            }
        },
        RxPacket::Bundle => None,
    }
}

/// What the outside decoder yields on a datagram's bytes: a function of
/// the bytes alone.
pub uninterp spec fn spec_osc_decoded(buf: Seq<u8>) -> Option<RxPacket>;

/// Relies on rosc::decoder::decode_udp: it decodes a datagram into one
/// packet, deterministically in the bytes, and fails exactly on bytes
/// that are no packet. Only the address and the first argument's
/// boolean-ness are kept.
#[verifier::external_body]
fn decode_rx(buf: &[u8]) -> (r: Option<RxPacket>)
    ensures
        r == spec_osc_decoded(buf@),
{
    match rosc::decoder::decode_udp(buf) {
        Ok((_, rosc::OscPacket::Message(m))) => {
            let first_arg = match m.args.first() {
                Some(rosc::OscType::Bool(b)) => Some(RxArg::Bool(*b)),
                Some(_) => Some(RxArg::Other),
                None => None,
            };
            Some(RxPacket::Message(RxMessage { addr: m.addr, first_arg }))
        },
        Ok((_, rosc::OscPacket::Bundle(_))) => Some(RxPacket::Bundle),
        Err(_) => None,
    }
}

/// Handle one inbound datagram: decode it, and where it is a message at a
/// handler address whose first argument is not the boolean false, build
/// the full resync over the sender orders; otherwise (a bundle, a
/// non-trigger message, or bytes that decode to nothing) nothing.
pub fn handle_datagram(buf: &[u8], orders: &Orders, t: &Timestamp) -> (r: Option<Vec<Message>>)
    requires
        t.wf(),
    ensures
        match spec_osc_decoded(buf@) {
            Some(p) => spec_rx_outcome(
                p,
                *orders,
                *t,
                match r {
                    Some(msgs) => Some(spec_messages_of(msgs@)),
                    None => None,
                },
            ),
            None => r is None,
        },
{
    match decode_rx(buf) {
        Some(p) => handle_packet(&p, orders, t),
        None => None,
    }
}

} // verus!
