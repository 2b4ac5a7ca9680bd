//! The order store: declarative address-to-unit-type bindings, their
//! string tags, the sender/handler partition, and the built-in fallback
//! list.

use vstd::prelude::*;

use crate::json::{jm, jm_entries, jm_seq, lookup_key, spec_json_parse, spec_lookup, JsonModel, JsonValue};
use crate::text::str_eq;
use crate::unit::UnitType;

verus! {

/// One declarative binding of a wire address to a unit type.
#[derive(Debug, Clone)]
pub struct Order {
    pub unit_type: UnitType,
    pub address: String,
}

impl PartialEq for Order {
    fn eq(&self, other: &Order) -> (r: bool) {
        self.unit_type == other.unit_type && str_eq(self.address.as_str(), other.address.as_str())
    }
}

impl vstd::std_specs::cmp::PartialEqSpecImpl for Order {
    open spec fn obeys_eq_spec() -> bool {
        true
    }

    open spec fn eq_spec(&self, other: &Order) -> bool {
        self.unit_type == other.unit_type && self.address@ == other.address@
    }
}

/// The loaded orders, partitioned into broadcast values and trigger
/// addresses.
#[derive(Debug, Clone)]
pub struct Orders {
    pub sender: Vec<Order>,
    pub handler: Vec<Order>,
}

/// Whether an order marks a trigger address rather than a broadcast value.
pub open spec fn spec_is_handler(o: Order) -> bool {
    o.unit_type is UpdateHandler
}

/// The broadcast part of an order list.
pub open spec fn spec_sender_part(s: Seq<Order>) -> Seq<Order> {
    s.filter(|o: Order| !spec_is_handler(o))
}

/// The trigger part of an order list.
pub open spec fn spec_handler_part(s: Seq<Order>) -> Seq<Order> {
    s.filter(|o: Order| spec_is_handler(o))
}

/// Partition a loaded order list: orders with the handler sentinel go to
/// `handler`, every other order to `sender`, both in their original order.
pub fn split(orders: Vec<Order>) -> (r: Orders)
    ensures
        r.sender@ == spec_sender_part(orders@),
        r.handler@ == spec_handler_part(orders@),
{
    let mut sender: Vec<Order> = Vec::new();
    let mut handler: Vec<Order> = Vec::new();
    let mut i: usize = 0;
    proof {
        assert(orders@.subrange(0, 0) =~= Seq::<Order>::empty());
        reveal(Seq::filter);
    }
    while i < orders.len()
        invariant
            i <= orders@.len(),
            sender@ == spec_sender_part(orders@.subrange(0, i as int)),
            handler@ == spec_handler_part(orders@.subrange(0, i as int)),
        decreases orders@.len() - i,
    {
        let ghost prefix = orders@.subrange(0, i as int);
        let o = &orders[i];
        let is_handler = matches!(o.unit_type, UnitType::UpdateHandler);
        if is_handler {
            handler.push(o.clone_order());
        } else {
            sender.push(o.clone_order());
        }
        i = i + 1;
        proof {
            reveal(Seq::filter);
            assert(orders@.subrange(0, i as int).drop_last() =~= prefix);
            assert(orders@.subrange(0, i as int).last() == orders@[i - 1]);
        }
    }
    proof {
        assert(orders@.subrange(0, orders@.len() as int) =~= orders@);
    }
    Orders { sender, handler }
}

impl Order {
    /// A copy equal to this order.
    pub fn clone_order(&self) -> (r: Order)
        ensures
            r == *self,
    {
        Order { unit_type: self.unit_type, address: self.address.clone() }
    }
}

/// A copy of an order list, element for element.
pub fn clone_orders(orders: &Vec<Order>) -> (r: Vec<Order>)
    ensures
        r@ == orders@,
{
    let mut out: Vec<Order> = Vec::new();
    let mut i: usize = 0;
    while i < orders.len()
        invariant
            i <= orders@.len(),
            out@ == orders@.subrange(0, i as int),
        decreases orders@.len() - i,
    {
        out.push(orders[i].clone_order());
        proof {
            assert(out@ =~= orders@.subrange(0, i + 1));
        }
        i = i + 1;
    }
    proof {
        assert(orders@.subrange(0, orders@.len() as int) =~= orders@);
    }
    out
}

/// The split is a partition: nothing is lost or invented, the sender part
/// holds no handler order, the handler part only handler orders, and
/// every loaded order lands in one of the two.
pub proof fn lemma_split_partition(orders: Seq<Order>)
    ensures
        spec_sender_part(orders).len() + spec_handler_part(orders).len() == orders.len(),
        forall|i: int|
            0 <= i < spec_sender_part(orders).len() ==> !spec_is_handler(
                #[trigger] spec_sender_part(orders)[i],
            ),
        forall|i: int|
            0 <= i < spec_handler_part(orders).len() ==> spec_is_handler(
                #[trigger] spec_handler_part(orders)[i],
            ),
        forall|i: int|
            0 <= i < orders.len() ==> spec_sender_part(orders).contains(#[trigger] orders[i])
                || spec_handler_part(orders).contains(orders[i]),
{
    broadcast use vstd::seq_lib::group_seq_lib_default;

    let p = |o: Order| !spec_is_handler(o);
    let q = |o: Order| spec_is_handler(o);
    lemma_filter_complement_len(orders, p, q);
    assert forall|i: int| 0 <= i < orders.len() implies spec_sender_part(orders).contains(
        #[trigger] orders[i],
    ) || spec_handler_part(orders).contains(orders[i]) by {
        if p(orders[i]) {
            orders.lemma_filter_contains(p, i);
        } else {
            orders.lemma_filter_contains(q, i);
        }
    }
}

proof fn lemma_filter_complement_len<A>(s: Seq<A>, p: spec_fn(A) -> bool, q: spec_fn(A) -> bool)
    requires
        forall|x: A| #[trigger] q(x) == !p(x),
    ensures
        s.filter(p).len() + s.filter(q).len() == s.len(),
    decreases s.len(),
{
    reveal(Seq::filter);
    if s.len() > 0 {
        lemma_filter_complement_len(s.drop_last(), p, q);
    }
}

/// Splitting a partition again changes nothing: the sender part is all
/// sender, the handler part all handler.
pub proof fn lemma_split_idempotent(orders: Seq<Order>)
    ensures
        spec_sender_part(spec_sender_part(orders)) == spec_sender_part(orders),
        spec_handler_part(spec_sender_part(orders)) == Seq::<Order>::empty(),
        spec_handler_part(spec_handler_part(orders)) == spec_handler_part(orders),
        spec_sender_part(spec_handler_part(orders)) == Seq::<Order>::empty(),
{
    broadcast use vstd::seq_lib::group_seq_lib_default;

    let p = |o: Order| !spec_is_handler(o);
    let q = |o: Order| spec_is_handler(o);
    lemma_filter_all(orders.filter(p), p);
    lemma_filter_none(orders.filter(p), q);
    lemma_filter_all(orders.filter(q), q);
    lemma_filter_none(orders.filter(q), p);
}

proof fn lemma_filter_all<A>(s: Seq<A>, p: spec_fn(A) -> bool)
    requires
        forall|i: int| 0 <= i < s.len() ==> p(s[i]),
    ensures
        s.filter(p) =~= s,
    decreases s.len(),
{
    reveal(Seq::filter);
    if s.len() > 0 {
        lemma_filter_all(s.drop_last(), p);
    }
}

proof fn lemma_filter_none<A>(s: Seq<A>, p: spec_fn(A) -> bool)
    requires
        forall|i: int| 0 <= i < s.len() ==> !p(s[i]),
    ensures
        s.filter(p) =~= Seq::<A>::empty(),
    decreases s.len(),
{
    reveal(Seq::filter);
    if s.len() > 0 {
        lemma_filter_none(s.drop_last(), p);
    }
}

/// The unit type named by a declarative file's string tag.
pub open spec fn spec_unit_type_from_tag(s: Seq<char>) -> Option<UnitType> {
    if s == "second_int"@ {
        Some(UnitType::SecondInt)
    } else if s == "second_float"@ {
        Some(UnitType::SecondFloat)
    } else if s == "minute_int"@ {
        Some(UnitType::MinuteInt)
    } else if s == "minute_float"@ {
        Some(UnitType::MinuteFloat)
    } else if s == "minute_float_mixed"@ {
        Some(UnitType::MinuteFloatMixed)
    } else if s == "hour24_int"@ {
        Some(UnitType::Hour24Int)
    } else if s == "hour24_float"@ {
        Some(UnitType::Hour24Float)
    } else if s == "hour24_float_mixed"@ {
        Some(UnitType::Hour24FloatMixed)
    } else if s == "hour12_int"@ {
        Some(UnitType::Hour12Int)
    } else if s == "hour12_float"@ {
        Some(UnitType::Hour12Float)
    } else if s == "hour12_float_mixed"@ {
        Some(UnitType::Hour12FloatMixed)
    } else if s == "is_pm"@ {
        Some(UnitType::IsPm)
    } else if s == "day_int"@ {
        Some(UnitType::DayInt)
    } else if s == "day_float"@ {
        Some(UnitType::DayFloat)
    } else if s == "day_float_mixed"@ {
        Some(UnitType::DayFloatMixed)
    } else if s == "day_of_week_int"@ {
        Some(UnitType::DayOfWeekInt)
    } else if s == "day_of_week_float"@ {
        Some(UnitType::DayOfWeekFloat)
    } else if s == "day_of_week_float_mixed"@ {
        Some(UnitType::DayOfWeekFloatMixed)
    } else if s == "month_int"@ {
        Some(UnitType::MonthInt)
    } else if s == "month_float"@ {
        Some(UnitType::MonthFloat)
    } else if s == "month_float_mixed"@ {
        Some(UnitType::MonthFloatMixed)
    } else if s == "year"@ {
        Some(UnitType::Year)
    } else if s == "year_0"@ {
        Some(UnitType::Year0)
    } else if s == "year_1"@ {
        Some(UnitType::Year1)
    } else if s == "year_2"@ {
        Some(UnitType::Year2)
    } else if s == "year_3"@ {
        Some(UnitType::Year3)
    } else if s == "update_handler"@ {
        Some(UnitType::UpdateHandler)
    } else {
        None
    }
}

/// Parse a declarative file's string tag into a unit type.
pub fn unit_type_from_tag(s: &str) -> (r: Option<UnitType>)
    ensures
        r == spec_unit_type_from_tag(s@),
{
    if str_eq(s, "second_int") {
        Some(UnitType::SecondInt)
    } else if str_eq(s, "second_float") {
        Some(UnitType::SecondFloat)
    } else if str_eq(s, "minute_int") {
        Some(UnitType::MinuteInt)
    } else if str_eq(s, "minute_float") {
        Some(UnitType::MinuteFloat)
    } else if str_eq(s, "minute_float_mixed") {
        Some(UnitType::MinuteFloatMixed)
    } else if str_eq(s, "hour24_int") {
        Some(UnitType::Hour24Int)
    } else if str_eq(s, "hour24_float") {
        Some(UnitType::Hour24Float)
    } else if str_eq(s, "hour24_float_mixed") {
        Some(UnitType::Hour24FloatMixed)
    } else if str_eq(s, "hour12_int") {
        Some(UnitType::Hour12Int)
    } else if str_eq(s, "hour12_float") {
        Some(UnitType::Hour12Float)
    } else if str_eq(s, "hour12_float_mixed") {
        Some(UnitType::Hour12FloatMixed)
    } else if str_eq(s, "is_pm") {
        Some(UnitType::IsPm)
    } else if str_eq(s, "day_int") {
        Some(UnitType::DayInt)
    } else if str_eq(s, "day_float") {
        Some(UnitType::DayFloat)
    } else if str_eq(s, "day_float_mixed") {
        Some(UnitType::DayFloatMixed)
    } else if str_eq(s, "day_of_week_int") {
        Some(UnitType::DayOfWeekInt)
    } else if str_eq(s, "day_of_week_float") {
        Some(UnitType::DayOfWeekFloat)
    } else if str_eq(s, "day_of_week_float_mixed") {
        Some(UnitType::DayOfWeekFloatMixed)
    } else if str_eq(s, "month_int") {
        Some(UnitType::MonthInt)
    } else if str_eq(s, "month_float") {
        Some(UnitType::MonthFloat)
    } else if str_eq(s, "month_float_mixed") {
        Some(UnitType::MonthFloatMixed)
    } else if str_eq(s, "year") {
        Some(UnitType::Year)
    } else if str_eq(s, "year_0") {
        Some(UnitType::Year0)
    } else if str_eq(s, "year_1") {
        Some(UnitType::Year1)
    } else if str_eq(s, "year_2") {
        Some(UnitType::Year2)
    } else if str_eq(s, "year_3") {
        Some(UnitType::Year3)
    } else if str_eq(s, "update_handler") {
        Some(UnitType::UpdateHandler)
    } else {
        None
    }
}

/// The string tag of a unit type, as the declarative files write it.
pub open spec fn spec_unit_type_tag(u: UnitType) -> Seq<char> {
    match u {
        UnitType::SecondInt => "second_int"@,
        UnitType::SecondFloat => "second_float"@,
        UnitType::MinuteInt => "minute_int"@,
        UnitType::MinuteFloat => "minute_float"@,
        UnitType::MinuteFloatMixed => "minute_float_mixed"@,
        UnitType::Hour24Int => "hour24_int"@,
        UnitType::Hour24Float => "hour24_float"@,
        UnitType::Hour24FloatMixed => "hour24_float_mixed"@,
        UnitType::Hour12Int => "hour12_int"@,
        UnitType::Hour12Float => "hour12_float"@,
        UnitType::Hour12FloatMixed => "hour12_float_mixed"@,
        UnitType::IsPm => "is_pm"@,
        UnitType::DayInt => "day_int"@,
        UnitType::DayFloat => "day_float"@,
        UnitType::DayFloatMixed => "day_float_mixed"@,
        UnitType::DayOfWeekInt => "day_of_week_int"@,
        UnitType::DayOfWeekFloat => "day_of_week_float"@,
        UnitType::DayOfWeekFloatMixed => "day_of_week_float_mixed"@,
        UnitType::MonthInt => "month_int"@,
        UnitType::MonthFloat => "month_float"@,
        UnitType::MonthFloatMixed => "month_float_mixed"@,
        UnitType::Year => "year"@,
        UnitType::Year0 => "year_0"@,
        UnitType::Year1 => "year_1"@,
        UnitType::Year2 => "year_2"@,
        UnitType::Year3 => "year_3"@,
        UnitType::UpdateHandler => "update_handler"@,
    }
}

/// The string tag of a unit type, as the declarative files write it.
pub fn unit_type_tag(u: UnitType) -> (r: &'static str)
    ensures
        r@ == spec_unit_type_tag(u),
{
    match u {
        UnitType::SecondInt => "second_int",
        UnitType::SecondFloat => "second_float",
        UnitType::MinuteInt => "minute_int",
        UnitType::MinuteFloat => "minute_float",
        UnitType::MinuteFloatMixed => "minute_float_mixed",
        UnitType::Hour24Int => "hour24_int",
        UnitType::Hour24Float => "hour24_float",
        UnitType::Hour24FloatMixed => "hour24_float_mixed",
        UnitType::Hour12Int => "hour12_int",
        UnitType::Hour12Float => "hour12_float",
        UnitType::Hour12FloatMixed => "hour12_float_mixed",
        UnitType::IsPm => "is_pm",
        UnitType::DayInt => "day_int",
        UnitType::DayFloat => "day_float",
        UnitType::DayFloatMixed => "day_float_mixed",
        UnitType::DayOfWeekInt => "day_of_week_int",
        UnitType::DayOfWeekFloat => "day_of_week_float",
        UnitType::DayOfWeekFloatMixed => "day_of_week_float_mixed",
        UnitType::MonthInt => "month_int",
        UnitType::MonthFloat => "month_float",
        UnitType::MonthFloatMixed => "month_float_mixed",
        UnitType::Year => "year",
        UnitType::Year0 => "year_0",
        UnitType::Year1 => "year_1",
        UnitType::Year2 => "year_2",
        UnitType::Year3 => "year_3",
        UnitType::UpdateHandler => "update_handler",
    }
}

/// The unit type and address views of an order list, as the contracts
/// speak of them.
pub open spec fn spec_order_views(s: Seq<Order>) -> Seq<(UnitType, Seq<char>)> {
    Seq::new(s.len(), |i: int| (s[i].unit_type, s[i].address@))
}

/// The order described by one entry of a declarative document: an object
/// with a known "type" tag and an "address" string, or nothing.
pub open spec fn spec_order_of(m: JsonModel) -> Option<(UnitType, Seq<char>)> {
    match m {
        JsonModel::Obj(e) => match (spec_lookup(e, "type"@), spec_lookup(e, "address"@)) {
            (Some(JsonModel::Str(t)), Some(JsonModel::Str(a))) => match spec_unit_type_from_tag(
                t,
            ) {
                Some(u) => Some((u, a)),
                None => None,
            },
            _ => None,
        },
        _ => None,
    }
}

/// The orders described by a list of document entries: each one an order,
/// or nothing.
pub open spec fn spec_orders_of_seq(items: Seq<JsonModel>) -> Option<Seq<(UnitType, Seq<char>)>>
    decreases items.len(),
{
    if items.len() == 0 {
        Some(Seq::empty())
    } else {
        match (spec_orders_of_seq(items.drop_last()), spec_order_of(items.last())) {
            (Some(rest), Some(o)) => Some(rest.push(o)),
            _ => None,
        }
    }
}

/// The orders described by a declarative document: an array of order
/// entries, or nothing.
pub open spec fn spec_orders_of(m: JsonModel) -> Option<Seq<(UnitType, Seq<char>)>> {
    match m {
        JsonModel::Arr(items) => spec_orders_of_seq(items),
        _ => None,
    }
}

proof fn lemma_orders_of_seq_none(items: Seq<JsonModel>, i: int)
    requires
        0 <= i < items.len(),
        spec_order_of(items[i]) is None,
    ensures
        spec_orders_of_seq(items) is None,
    decreases items.len(),
{
    if i < items.len() - 1 {
        lemma_orders_of_seq_none(items.drop_last(), i);
    }
}

/// The order described by one entry of a declarative document.
fn order_of(v: &JsonValue) -> (r: Option<Order>)
    ensures
        match r {
            Some(o) => spec_order_of(jm(*v)) == Some((o.unit_type, o.address@)),
            None => spec_order_of(jm(*v)) is None,
        },
{
    let entries = match v {
        JsonValue::Obj(entries) => entries,
        _ => {
            return None;
        },
    };
    let tag = match lookup_key(entries, "type") {
        Some(JsonValue::Str(t)) => t,
        _ => {
            return None;
        },
    };
    let address = match lookup_key(entries, "address") {
        Some(JsonValue::Str(a)) => a.clone(),
        _ => {
            return None;
        },
    };
    match unit_type_from_tag(tag.as_str()) {
        Some(u) => Some(Order { unit_type: u, address }),
        None => None,
    }
}

/// The orders read out of a parsed declarative document: an array of
/// `{type, address}` entries, each with a known unit-type tag, or nothing
/// where the document has another shape.
pub fn orders_from_json(v: &JsonValue) -> (r: Option<Vec<Order>>)
    ensures
        match r {
            Some(os) => spec_orders_of(jm(*v)) == Some(spec_order_views(os@)),
            None => spec_orders_of(jm(*v)) is None,
        },
{
    let items = match v {
        JsonValue::Arr(items) => items,
        _ => {
            return None;
        },
    };
    proof {
        crate::json::lemma_jm_seq(items@);
    }
    let ghost ms = jm_seq(items@);
    let mut out: Vec<Order> = Vec::new();
    let mut i: usize = 0;
    proof {
        assert(ms.subrange(0, 0) =~= Seq::<JsonModel>::empty());
        assert(spec_order_views(out@) =~= Seq::<(UnitType, Seq<char>)>::empty());
    }
    while i < items.len()
        invariant
            i <= items@.len(),
            ms == jm_seq(items@),
            ms.len() == items@.len(),
            jm(*v) == JsonModel::Arr(ms),
            forall|j: int| 0 <= j < items@.len() ==> #[trigger] ms[j] == jm(items@[j]),
            spec_orders_of_seq(ms.subrange(0, i as int)) == Some(spec_order_views(out@)),
        decreases items@.len() - i,
    {
        let ghost prefix = ms.subrange(0, i as int);
        match order_of(&items[i]) {
            Some(o) => {
                out.push(o);
            },
            None => {
                proof {
                    lemma_orders_of_seq_none(ms, i as int);
                }
                return None;
            },
        }
        i = i + 1;
        proof {
            assert(ms.subrange(0, i as int).drop_last() =~= prefix);
            assert(ms.subrange(0, i as int).last() == ms[i - 1]);
            assert(spec_orders_of_seq(ms.subrange(0, i as int)) == Some(
                spec_order_views(out@),
            )) by {
                assert(spec_order_views(out@) =~= spec_order_views(out@.drop_last()).push(
                    (out@.last().unit_type, out@.last().address@),
                ));
            };
        }
    }
    proof {
        assert(ms.subrange(0, ms.len() as int) =~= ms);
    }
    Some(out)
}

/// The orders read out of one declarative file's text: a JSON array of
/// `{type, address}` entries, or nothing where the text does not parse or
/// has another shape.
pub fn parse_orders(s: &str) -> (r: Option<Vec<Order>>)
    ensures
        match spec_json_parse(s@) {
            Some(v) => match r {
                Some(os) => spec_orders_of(jm(v)) == Some(spec_order_views(os@)),
                None => spec_orders_of(jm(v)) is None,
            },
            None => r is None,
        },
{
    match crate::json::parse_json(s) {
        Some(v) => orders_from_json(&v),
        None => None,
    }
}

/// The declarative document describing the given order views: one
/// `{type, address}` entry per order.
pub open spec fn spec_orders_model(s: Seq<(UnitType, Seq<char>)>) -> JsonModel {
    JsonModel::Arr(
        Seq::new(
            s.len(),
            |i: int|
                JsonModel::Obj(
                    seq![
                        ("type"@, JsonModel::Str(spec_unit_type_tag(s[i].0))),
                        ("address"@, JsonModel::Str(s[i].1)),
                    ],
                ),
        ),
    )
}

/// The declarative document holding the given orders, as the order files
/// persist them.
pub fn orders_to_json(orders: &Vec<Order>) -> (r: JsonValue)
    ensures
        jm(r) == spec_orders_model(spec_order_views(orders@)),
{
    let mut items: Vec<JsonValue> = Vec::new();
    let mut i: usize = 0;
    while i < orders.len()
        invariant
            i <= orders@.len(),
            items@.len() == i,
            forall|j: int|
                0 <= j < i ==> jm(#[trigger] items@[j]) == spec_orders_model(
                    spec_order_views(orders@),
                )->Arr_0[j],
        decreases orders@.len() - i,
    {
        let o = &orders[i];
        let mut entries: Vec<(String, JsonValue)> = Vec::new();
        entries.push(
            (String::from_str("type"), JsonValue::Str(String::from_str(unit_type_tag(o.unit_type)))),
        );
        entries.push((String::from_str("address"), JsonValue::Str(o.address.clone())));
        let item = JsonValue::Obj(entries);
        proof {
            crate::json::lemma_jm_entries(entries@);
            assert(jm_entries(entries@) =~= seq![
                ("type"@, JsonModel::Str(spec_unit_type_tag(o.unit_type))),
                ("address"@, JsonModel::Str(o.address@)),
            ]);
        }
        items.push(item);
        i = i + 1;
    }
    proof {
        crate::json::lemma_jm_seq(items@);
        assert(jm_seq(items@) =~= spec_orders_model(spec_order_views(orders@))->Arr_0);
    }
    JsonValue::Arr(items)
}

/// The unit type and address at position `i` of the built-in fallback
/// order list.
pub open spec fn spec_fallback_order(i: int) -> (UnitType, Seq<char>) {
    if i == 0 {
        (UnitType::SecondFloat, "/avatar/parameters/osc_clock@second_f"@)
    } else if i == 1 {
        (UnitType::SecondInt, "/avatar/parameters/osc_clock@second_i"@)
    } else if i == 2 {
        (UnitType::MinuteFloatMixed, "/avatar/parameters/osc_clock@minute_f"@)
    } else if i == 3 {
        (UnitType::MinuteInt, "/avatar/parameters/osc_clock@minute_i"@)
    } else if i == 4 {
        (UnitType::Hour24FloatMixed, "/avatar/parameters/osc_clock@hour24_f"@)
    } else if i == 5 {
        (UnitType::Hour24Int, "/avatar/parameters/osc_clock@hour24_i"@)
    } else if i == 6 {
        (UnitType::Hour12FloatMixed, "/avatar/parameters/osc_clock@hour12_f"@)
    } else if i == 7 {
        (UnitType::Hour12Int, "/avatar/parameters/osc_clock@hour12_i"@)
    } else if i == 8 {
        (UnitType::IsPm, "/avatar/parameters/osc_clock@hour_isPM"@)
    } else if i == 9 {
        (UnitType::DayInt, "/avatar/parameters/osc_clock@day"@)
    } else if i == 10 {
        (UnitType::DayOfWeekInt, "/avatar/parameters/osc_clock@dofw"@)
    } else if i == 11 {
        (UnitType::MonthInt, "/avatar/parameters/osc_clock@month"@)
    } else if i == 12 {
        (UnitType::Year, "/avatar/parameters/osc_clock@year"@)
    } else if i == 13 {
        (UnitType::Year0, "/avatar/parameters/osc_clock@year_0"@)
    } else if i == 14 {
        (UnitType::Year1, "/avatar/parameters/osc_clock@year_1"@)
    } else if i == 15 {
        (UnitType::Year2, "/avatar/parameters/osc_clock@year_2"@)
    } else if i == 16 {
        (UnitType::Year3, "/avatar/parameters/osc_clock@year_3"@)
    } else {
        (UnitType::UpdateHandler, "/avatar/parameters/osc_clock@ForceSync"@)
    }
}

/// The built-in fallback order list, used when no declarative file can be
/// loaded: one order per fallback entry, in order.
pub fn get_fallback_orders() -> (r: Vec<Order>)
    ensures
        r@.len() == 18,
        forall|i: int|
            0 <= i < 18 ==> #[trigger] r@[i].unit_type == spec_fallback_order(i).0 && r@[
                i
            ].address@ == spec_fallback_order(i).1,
{
    let mut r: Vec<Order> = Vec::new();
    r.push(Order { unit_type: UnitType::SecondFloat, address: String::from_str("/avatar/parameters/osc_clock@second_f") });
    r.push(Order { unit_type: UnitType::SecondInt, address: String::from_str("/avatar/parameters/osc_clock@second_i") });
    r.push(Order { unit_type: UnitType::MinuteFloatMixed, address: String::from_str("/avatar/parameters/osc_clock@minute_f") });
    r.push(Order { unit_type: UnitType::MinuteInt, address: String::from_str("/avatar/parameters/osc_clock@minute_i") });
    r.push(Order { unit_type: UnitType::Hour24FloatMixed, address: String::from_str("/avatar/parameters/osc_clock@hour24_f") });
    r.push(Order { unit_type: UnitType::Hour24Int, address: String::from_str("/avatar/parameters/osc_clock@hour24_i") });
    r.push(Order { unit_type: UnitType::Hour12FloatMixed, address: String::from_str("/avatar/parameters/osc_clock@hour12_f") });
    r.push(Order { unit_type: UnitType::Hour12Int, address: String::from_str("/avatar/parameters/osc_clock@hour12_i") });
    r.push(Order { unit_type: UnitType::IsPm, address: String::from_str("/avatar/parameters/osc_clock@hour_isPM") });
    r.push(Order { unit_type: UnitType::DayInt, address: String::from_str("/avatar/parameters/osc_clock@day") });
    r.push(Order { unit_type: UnitType::DayOfWeekInt, address: String::from_str("/avatar/parameters/osc_clock@dofw") });
    r.push(Order { unit_type: UnitType::MonthInt, address: String::from_str("/avatar/parameters/osc_clock@month") });
    r.push(Order { unit_type: UnitType::Year, address: String::from_str("/avatar/parameters/osc_clock@year") });
    r.push(Order { unit_type: UnitType::Year0, address: String::from_str("/avatar/parameters/osc_clock@year_0") });
    r.push(Order { unit_type: UnitType::Year1, address: String::from_str("/avatar/parameters/osc_clock@year_1") });
    r.push(Order { unit_type: UnitType::Year2, address: String::from_str("/avatar/parameters/osc_clock@year_2") });
    r.push(Order { unit_type: UnitType::Year3, address: String::from_str("/avatar/parameters/osc_clock@year_3") });
    r.push(Order { unit_type: UnitType::UpdateHandler, address: String::from_str("/avatar/parameters/osc_clock@ForceSync") });
    r
}

} // verus!
