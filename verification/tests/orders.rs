use osc_clock::json::{json_to_string, merge_json, parse_json, JsonValue};
use osc_clock::order::{
    get_fallback_orders, orders_to_json, parse_orders, split, unit_type_from_tag, unit_type_tag,
    Order,
};
use osc_clock::unit::UnitType;

#[test]
fn fallback_orders_hold_the_builtin_list() {
    let orders = get_fallback_orders();
    assert_eq!(orders.len(), 18);
    assert_eq!(orders[0].unit_type, UnitType::SecondFloat);
    assert_eq!(orders[0].address, "/avatar/parameters/osc_clock@second_f");
    assert_eq!(orders[17].unit_type, UnitType::UpdateHandler);
    assert_eq!(orders[17].address, "/avatar/parameters/osc_clock@ForceSync");
}

#[test]
fn split_partitions_senders_from_handlers() {
    let orders = split(get_fallback_orders());
    assert_eq!(orders.sender.len(), 17);
    assert_eq!(orders.handler.len(), 1);
    assert!(orders.sender.iter().all(|o| o.unit_type != UnitType::UpdateHandler));
    assert!(orders.handler.iter().all(|o| o.unit_type == UnitType::UpdateHandler));
}

#[test]
fn split_twice_yields_identical_partitions() {
    let first = split(get_fallback_orders());
    let again = split(get_fallback_orders());
    assert_eq!(first.sender, again.sender);
    assert_eq!(first.handler, again.handler);
    let resplit = split(first.sender.clone());
    assert_eq!(resplit.sender, first.sender);
    assert!(resplit.handler.is_empty());
    let resplit = split(first.handler.clone());
    assert_eq!(resplit.handler, first.handler);
    assert!(resplit.sender.is_empty());
}

#[test]
fn order_text_parses_into_orders() {
    let text = "[{\"type\": \"second_int\", \"address\": \"/a\"},
                 {\"type\": \"update_handler\", \"address\": \"/b\"}]";
    let orders = parse_orders(text).expect("well-formed order file");
    assert_eq!(orders.len(), 2);
    assert_eq!(orders[0].unit_type, UnitType::SecondInt);
    assert_eq!(orders[0].address, "/a");
    assert_eq!(orders[1].unit_type, UnitType::UpdateHandler);
    assert_eq!(orders[1].address, "/b");
}

#[test]
fn duplicate_addresses_are_kept() {
    let text = "[{\"type\": \"second_int\", \"address\": \"/a\"},
                 {\"type\": \"minute_int\", \"address\": \"/a\"}]";
    let orders = parse_orders(text).expect("well-formed order file");
    assert_eq!(orders.len(), 2);
    assert_eq!(orders[0].address, orders[1].address);
}

#[test]
fn bad_order_text_parses_to_nothing() {
    assert!(parse_orders("{ not json").is_none());
    assert!(parse_orders("{\"type\": \"second_int\"}").is_none());
    assert!(parse_orders("[{\"type\": \"no_such_tag\", \"address\": \"/a\"}]").is_none());
    assert!(parse_orders("[{\"address\": \"/a\"}]").is_none());
    assert!(parse_orders("[{\"type\": \"second_int\"}]").is_none());
    assert!(parse_orders("[5]").is_none());
}

#[test]
fn orders_round_trip_through_their_file_form() {
    let orders = get_fallback_orders();
    let text = json_to_string(&orders_to_json(&orders));
    let back = parse_orders(text.as_str()).expect("the written file parses");
    assert_eq!(back, orders);
}

#[test]
fn unit_type_tags_round_trip() {
    let tags = [
        "second_int", "second_float", "minute_int", "minute_float", "minute_float_mixed",
        "hour24_int", "hour24_float", "hour24_float_mixed", "hour12_int", "hour12_float",
        "hour12_float_mixed", "is_pm", "day_int", "day_float", "day_float_mixed",
        "day_of_week_int", "day_of_week_float", "day_of_week_float_mixed", "month_int",
        "month_float", "month_float_mixed", "year", "year_0", "year_1", "year_2", "year_3",
        "update_handler",
    ];
    for tag in tags.iter() {
        let u = unit_type_from_tag(tag).expect("known tag");
        assert_eq!(unit_type_tag(u), *tag);
    }
    assert!(unit_type_from_tag("no_such_tag").is_none());
    assert!(unit_type_from_tag("").is_none());
}

#[test]
fn order_equality_is_structural() {
    let a = Order { unit_type: UnitType::Year, address: "/x".to_string() };
    let b = Order { unit_type: UnitType::Year, address: "/x".to_string() };
    let c = Order { unit_type: UnitType::Year, address: "/y".to_string() };
    assert_eq!(a, b);
    assert!(a != c);
}

#[test]
fn deep_merge_fills_missing_nested_keys() {
    let base = parse_json("{\"a\": {\"b\": 1}, \"keep\": true}").unwrap();
    let over = parse_json("{\"a\": {\"c\": 2}, \"d\": 3}").unwrap();
    let merged = merge_json(&base, &over);
    // The written form normalizes key order, so the comparison goes
    // through one serialize/parse round trip.
    let normalized = parse_json(json_to_string(&merged).as_str()).unwrap();
    let expected = parse_json("{\"a\": {\"b\": 1, \"c\": 2}, \"keep\": true, \"d\": 3}").unwrap();
    assert_eq!(normalized, expected);
}

#[test]
fn merge_replaces_scalar_and_array_mismatches_wholesale() {
    let base = parse_json("{\"a\": [1, 2], \"b\": {\"x\": 1}}").unwrap();
    let over = parse_json("{\"a\": [9], \"b\": 5}").unwrap();
    let merged = merge_json(&base, &over);
    let expected = parse_json("{\"a\": [9], \"b\": 5}").unwrap();
    assert_eq!(merged, expected);
    let merged = merge_json(&JsonValue::Null, &parse_json("{\"a\": 1}").unwrap());
    assert_eq!(merged, parse_json("{\"a\": 1}").unwrap());
}

#[test]
fn json_text_round_trips_through_the_parser() {
    let v = parse_json("{\"a\": [1, -2, true, null, \"s\"], \"b\": {\"c\": 2.5}}").unwrap();
    let text = json_to_string(&v);
    let back = parse_json(text.as_str()).unwrap();
    assert_eq!(back, v);
}
