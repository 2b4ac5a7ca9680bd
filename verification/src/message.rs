//! The message builder: orders plus change flags plus a point in time
//! give the sequence of address/value pairs ready for transport.

use vstd::prelude::*;

use crate::order::Order;
use crate::time::Timestamp;
use crate::unit::{handle_unit, spec_transcode, SyncFlag, UnitValue};

verus! {

/// One outbound message: a wire address and the value to carry there.
#[derive(Debug)]
pub struct Message {
    pub address: String,
    pub value: UnitValue,
}

/// The address/value pairs of a message list, as the contracts speak of
/// them.
pub open spec fn spec_messages_of(s: Seq<Message>) -> Seq<(Seq<char>, UnitValue)> {
    Seq::new(s.len(), |i: int| (s[i].address@, s[i].value))
}

/// What the builder produces on the given orders: each order's transcoded
/// value at its address, in order order, with the suppressed ones left
/// out.
pub open spec fn spec_build(orders: Seq<Order>, t: Timestamp, f: SyncFlag) -> Seq<
    (Seq<char>, UnitValue),
>
    decreases orders.len(),
{
    if orders.len() == 0 {
        Seq::empty()
    } else {
        let rest = spec_build(orders.drop_last(), t, f);
        let v = spec_transcode(orders.last().unit_type, t, f);
        if v is Nil {
            rest
        } else {
            rest.push((orders.last().address@, v))
        }
    }
}

/// The inputs of one builder run: the orders to transcode and the change
/// flags gating them.
pub struct BuilderParams {
    pub orders: Vec<Order>,
    pub sync_flag: SyncFlag,
}

/// Build the outbound messages for one tick: transcode every order at
/// `t` under the given flags and keep, in order, those that produced a
/// value.
pub fn build(params: BuilderParams, t: &Timestamp) -> (r: Vec<Message>)
    requires
        t.wf(),
    ensures
        spec_messages_of(r@) == spec_build(params.orders@, *t, params.sync_flag),
{
    let orders = &params.orders;
    let mut out: Vec<Message> = Vec::new();
    let mut i: usize = 0;
    proof {
        assert(spec_messages_of(out@) =~= spec_build(
            orders@.subrange(0, 0),
            *t,
            params.sync_flag,
        ));
    }
    while i < orders.len()
        invariant
            i <= orders@.len(),
            t.wf(),
            spec_messages_of(out@) == spec_build(
                orders@.subrange(0, i as int),
                *t,
                params.sync_flag,
            ),
        decreases orders@.len() - i,
    {
        let ghost prefix = orders@.subrange(0, i as int);
        let order = &orders[i];
        let value = handle_unit(order.unit_type, t, params.sync_flag);
        let keep = !matches!(value, UnitValue::Nil);
        if keep {
            out.push(make_message(order.address.as_str(), value));
        }
        i = i + 1;
        proof {
            assert(orders@.subrange(0, i as int).drop_last() =~= prefix);
            assert(orders@.subrange(0, i as int).last() == orders@[i - 1]);
            assert(spec_messages_of(out@) =~= spec_build(
                orders@.subrange(0, i as int),
                *t,
                params.sync_flag,
            ));
        }
    }
    proof {
        assert(orders@.subrange(0, orders@.len() as int) =~= orders@);
    }
    out
}

/// One message carrying `value` at `addr`.
pub fn make_message(addr: &str, value: UnitValue) -> (r: Message)
    ensures
        r.address@ == addr@,
        r.value == value,
{
    Message { address: addr.to_owned(), value }
}

} // verus!
