use arikedb::requests::{
    authenticate_request, create_collections_request, create_variables_request,
    delete_collections_request, delete_variables_request, get_variables_request,
    list_variables_request, set_variables_request, subscribe_variables_request,
};
use arikedb::wire::{
    collections_from_wire, data_point_from_wire, data_points_from_wire, decimal_text,
    variables_from_wire, CollectionMeta, VarDataPoint, VariableMeta,
};
use arikedb::{Epoch, Event, VarEvent, Variable, VariableType};

#[test]
fn decimal_text_values() {
    assert_eq!(decimal_text(0), "0");
    assert_eq!(decimal_text(7), "7");
    assert_eq!(decimal_text(10), "10");
    assert_eq!(decimal_text(1_700_000_000_123_456), "1700000000123456");
    assert_eq!(decimal_text(u128::MAX), u128::MAX.to_string());
}

#[test]
fn collections_requests() {
    let r = create_collections_request(&vec!["a", "b"]);
    let names: Vec<&str> = r.collections.iter().map(|c| c.name.as_str()).collect();
    assert_eq!(names, vec!["a", "b"]);
    let d = delete_collections_request(&vec!["a"]);
    assert_eq!(d.names, vec![String::from("a")]);
    let empty = create_collections_request(&vec![]);
    assert!(empty.collections.is_empty());
}

#[test]
fn variables_requests() {
    let vars = vec![
        Variable { name: String::from("var1"), vtype: VariableType::I32, buffer_size: 10 },
        Variable { name: String::from("var2"), vtype: VariableType::BOOL, buffer_size: 5 },
    ];
    let r = create_variables_request("collection1", vars);
    assert_eq!(r.collection, "collection1");
    assert_eq!(r.variables.len(), 2);
    assert_eq!(r.variables[0].name, "var1");
    assert_eq!(r.variables[0].vtype, 2);
    assert_eq!(r.variables[0].buffer_size, 10);
    assert_eq!(r.variables[1].vtype, 13);
    assert_eq!(r.variables[1].buffer_size, 5);
    let l = list_variables_request("collection1");
    assert_eq!(l.collection, "collection1");
    let d = delete_variables_request("collection1", &vec!["var3", "var4"]);
    assert_eq!(d.collection, "collection1");
    assert_eq!(d.names, vec![String::from("var3"), String::from("var4")]);
}

#[test]
fn set_and_get_requests() {
    let s = set_variables_request(
        "collection1",
        vec!["var1", "var2"],
        1_700_000_000_000_000,
        vec!["-235", "48"],
        Epoch::Microsecond,
    );
    assert_eq!(s.collection, "collection1");
    assert_eq!(s.names, vec![String::from("var1"), String::from("var2")]);
    assert_eq!(s.timestamp, "1700000000000000");
    assert_eq!(s.values, vec![String::from("-235"), String::from("48")]);
    assert_eq!(s.epoch, 2);
    let g = get_variables_request("collection1", vec!["var1"], 0, Epoch::Nanosecond);
    assert_eq!(g.names, vec![String::from("var1")]);
    assert_eq!(g.derived_order, 0);
    assert_eq!(g.epoch, 3);
}

#[test]
fn set_request_passes_length_mismatch_through() {
    let s = set_variables_request("c", vec!["a", "b"], 5, vec!["1"], Epoch::Second);
    assert_eq!(s.names.len(), 2);
    assert_eq!(s.values.len(), 1);
    assert_eq!(s.timestamp, "5");
    assert_eq!(s.epoch, 0);
}

#[test]
fn subscribe_and_authenticate_requests() {
    let events = vec![
        VarEvent { event: Event::OnRise, ..Default::default() },
        VarEvent { event: Event::OnValueEqVal, value: String::from("56"), ..Default::default() },
        VarEvent {
            event: Event::OnValueInRange,
            value: String::new(),
            low_limit: String::from("1"),
            high_limit: String::from("9"),
        },
    ];
    let r = subscribe_variables_request("collection1", vec!["v1", "v2"], events);
    assert_eq!(r.names, vec![String::from("v1"), String::from("v2")]);
    assert_eq!(r.events.len(), 3);
    assert_eq!(r.events[0].event, 2);
    assert_eq!(r.events[1].event, 5);
    assert_eq!(r.events[1].value, "56");
    assert_eq!(r.events[2].event, 13);
    assert_eq!(r.events[2].low_limit, "1");
    assert_eq!(r.events[2].high_limit, "9");
    let a = authenticate_request("admin", "admin");
    assert_eq!(a.username, "admin");
    assert_eq!(a.password, "admin");
}

#[test]
fn responses_from_wire() {
    let cs = collections_from_wire(vec![
        CollectionMeta { name: String::from("collection1") },
        CollectionMeta { name: String::from("collection2") },
    ]);
    assert_eq!(cs.len(), 2);
    assert_eq!(cs[1].name, "collection2");
    let vs = variables_from_wire(vec![
        VariableMeta { name: String::from("var1"), vtype: 4, buffer_size: 10 },
        VariableMeta { name: String::from("var2"), vtype: 42, buffer_size: 3 },
    ]);
    assert_eq!(vs[0].vtype, VariableType::I128);
    assert_eq!(vs[0].buffer_size, 10);
    assert_eq!(vs[1].vtype, VariableType::I8);
    let w = VarDataPoint {
        name: String::from("var1"),
        vtype: 2,
        timestamp: String::from("123"),
        epoch: 3,
        value: String::from("-235"),
    };
    let p = data_point_from_wire(w);
    assert_eq!(p.name, "var1");
    assert_eq!(p.vtype, VariableType::I32);
    assert_eq!(p.timestamp, "123");
    assert_eq!(p.epoch, Epoch::Nanosecond);
    assert_eq!(p.value, "-235");
    let ps = data_points_from_wire(vec![VarDataPoint {
        name: String::from("var2"),
        vtype: 9,
        timestamp: String::from("340282366920938463463374607431768211455"),
        epoch: 9,
        value: String::from("48"),
    }]);
    assert_eq!(ps.len(), 1);
    assert_eq!(ps[0].vtype, VariableType::U128);
    assert_eq!(ps[0].epoch, Epoch::Second);
    assert_eq!(ps[0].timestamp, "340282366920938463463374607431768211455");
}
