use arikedb::{Epoch, Event, VarEvent, VariableType};

const ALL_TYPES: [VariableType; 14] = [
    VariableType::I8,
    VariableType::I16,
    VariableType::I32,
    VariableType::I64,
    VariableType::I128,
    VariableType::U8,
    VariableType::U16,
    VariableType::U32,
    VariableType::U64,
    VariableType::U128,
    VariableType::F32,
    VariableType::F64,
    VariableType::STR,
    VariableType::BOOL,
];

const ALL_EVENTS: [Event; 16] = [
    Event::OnSet,
    Event::OnChange,
    Event::OnRise,
    Event::OnFall,
    Event::OnValueReachVal,
    Event::OnValueEqVal,
    Event::OnValueLeaveVal,
    Event::OnValueDiffVal,
    Event::OnCrossHighLimit,
    Event::OnCrossLowLimit,
    Event::OnOverHighLimit,
    Event::OnUnderLowLimit,
    Event::OnValueReachRange,
    Event::OnValueInRange,
    Event::OnValueLeaveRange,
    Event::OnValueOutRange,
];

#[test]
fn variable_type_codes_round_trip() {
    for (i, t) in ALL_TYPES.iter().enumerate() {
        assert_eq!(t.to_code(), i as i32);
        assert_eq!(VariableType::from_code(t.to_code()), *t);
    }
}

#[test]
fn event_codes_round_trip() {
    for (i, e) in ALL_EVENTS.iter().enumerate() {
        assert_eq!(e.to_code(), i as i32);
        assert_eq!(Event::from_code(e.to_code()), *e);
    }
}

#[test]
fn epoch_codes_round_trip() {
    let all = [Epoch::Second, Epoch::Millisecond, Epoch::Microsecond, Epoch::Nanosecond];
    for (i, e) in all.iter().enumerate() {
        assert_eq!(e.to_code(), i as i32);
        assert_eq!(Epoch::from_code(e.to_code()), *e);
    }
}

#[test]
fn unknown_codes_decode_to_defaults() {
    for c in [-1, 14, 99, i32::MIN, i32::MAX] {
        assert_eq!(VariableType::from_code(c), VariableType::I8);
    }
    for c in [-1, 4, 77, i32::MIN, i32::MAX] {
        assert_eq!(Epoch::from_code(c), Epoch::Second);
    }
    for c in [-1, 16, 1000, i32::MIN, i32::MAX] {
        assert_eq!(Event::from_code(c), Event::OnSet);
    }
}

#[test]
fn defaults() {
    assert_eq!(VariableType::default(), VariableType::F64);
    assert_eq!(Event::default(), Event::OnSet);
    let e = VarEvent { event: Event::OnValueEqVal, value: String::from("56"), ..Default::default() };
    assert_eq!(e.event, Event::OnValueEqVal);
    assert_eq!(e.value, "56");
    assert_eq!(e.low_limit, "");
    assert_eq!(e.high_limit, "");
}
