use vstd::prelude::*;
use vstd::string::*;

use crate::types::{Collection, DataPoint, Epoch, VarEvent, Variable, VariableType};

verus! {

/// Wire form of a collection.
#[derive(Debug)]
pub struct CollectionMeta {
    pub name: String,
}

/// Wire form of a variable; the type travels as its code.
#[derive(Debug)]
pub struct VariableMeta {
    pub name: String,
    pub vtype: i32,
    pub buffer_size: u32,
}

/// Wire form of a data point; type and epoch travel as codes.
#[derive(Debug)]
pub struct VarDataPoint {
    pub name: String,
    pub vtype: i32,
    pub timestamp: String,
    pub epoch: i32,
    pub value: String,
}

/// Wire form of an event to watch; the kind travels as its code.
#[derive(Debug)]
pub struct VariableEvent {
    pub event: i32,
    pub value: String,
    pub low_limit: String,
    pub high_limit: String,
}

#[derive(Debug)]
pub struct ListCollectionsRequest {}

#[derive(Debug)]
pub struct CreateCollectionsRequest {
    pub collections: Vec<CollectionMeta>,
}

#[derive(Debug)]
pub struct DeleteCollectionsRequest {
    pub names: Vec<String>,
}

#[derive(Debug)]
pub struct ListVariablesRequest {
    pub collection: String,
}

#[derive(Debug)]
pub struct CreateVariablesRequest {
    pub collection: String,
    pub variables: Vec<VariableMeta>,
}

#[derive(Debug)]
pub struct DeleteVariablesRequest {
    pub collection: String,
    pub names: Vec<String>,
}

#[derive(Debug)]
pub struct SetVariablesRequest {
    pub collection: String,
    pub names: Vec<String>,
    pub timestamp: String,
    pub values: Vec<String>,
    pub epoch: i32,
}

#[derive(Debug)]
pub struct GetVariablesRequest {
    pub collection: String,
    pub names: Vec<String>,
    pub derived_order: u32,
    pub epoch: i32,
}

#[derive(Debug)]
pub struct SubscribeVariablesRequest {
    pub collection: String,
    pub names: Vec<String>,
    pub events: Vec<VariableEvent>,
}

#[derive(Debug)]
pub struct AuthenticateRequest {
    pub username: String,
    pub password: String,
}

/// The decimal digits of `n`, most significant first, with no leading zero.
pub open spec fn decimal(n: nat) -> Seq<char>
    decreases n,
{
    if n < 10 {
        seq![digit_char(n)]
    } else {
        decimal(n / 10).push(digit_char(n % 10))
    }
}

pub open spec fn digit_char(d: nat) -> char {
    if d == 0 {
        '0'
    } else if d == 1 {
        '1'
    } else if d == 2 {
        '2'
    } else if d == 3 {
        '3'
    } else if d == 4 {
        '4'
    } else if d == 5 {
        '5'
    } else if d == 6 {
        '6'
    } else if d == 7 {
        '7'
    } else if d == 8 {
        '8'
    } else {
        '9'
    }
}

fn digit_str(d: u8) -> (r: &'static str)
    requires
        d < 10,
    ensures
        r@ == seq![digit_char(d as nat)],
{
    proof {
        reveal_strlit("0");
        reveal_strlit("1");
        reveal_strlit("2");
        reveal_strlit("3");
        reveal_strlit("4");
        reveal_strlit("5");
        reveal_strlit("6");
        reveal_strlit("7");
        reveal_strlit("8");
        reveal_strlit("9");
    }
    match d {
        0 => "0",
        1 => "1",
        2 => "2",
        3 => "3",
        4 => "4",
        5 => "5",
        6 => "6",
        7 => "7",
        8 => "8",
        _ => "9",
    }
}

/// Decimal text of a number, as timestamps and ports are written.
pub fn decimal_text(n: u128) -> (r: String)
    ensures
        r@ == decimal(n as nat),
    decreases n,
{
    if n < 10 {
        let mut s = String::new();
        s.append(digit_str(n as u8));
        s
    } else {
        let mut s = decimal_text(n / 10);
        s.append(digit_str((n % 10) as u8));
        s
    }
}

/// `r` holds owned copies of `names`, in order.
pub open spec fn copies_of(r: Seq<String>, names: Seq<&str>) -> bool {
    &&& r.len() == names.len()
    &&& forall|j: int| 0 <= j < names.len() ==> (#[trigger] r[j])@ == names[j]@
}

/// Owned copies of borrowed names, in order.
pub fn owned_names(names: &Vec<&str>) -> (r: Vec<String>)
    ensures
        copies_of(r@, names@),
{
    let mut r: Vec<String> = Vec::new();
    let mut i: usize = 0;
    while i < names.len()
        invariant
            i <= names@.len(),
            r@.len() == i,
            forall|j: int| 0 <= j < i ==> (#[trigger] r@[j])@ == names@[j]@,
        decreases names@.len() - i,
    {
        r.push(names[i].to_owned());
        i += 1;
    }
    r
}

/// Wire data point `w` read as `p`: fields moved over, codes decoded.
pub open spec fn point_from_wire(w: VarDataPoint, p: DataPoint) -> bool {
    &&& p.name@ == w.name@
    &&& p.vtype == VariableType::decode(w.vtype as int)
    &&& p.timestamp@ == w.timestamp@
    &&& p.epoch == Epoch::decode(w.epoch as int)
    &&& p.value@ == w.value@
}

pub open spec fn variable_from_wire(w: VariableMeta, v: Variable) -> bool {
    &&& v.name@ == w.name@
    &&& v.vtype == VariableType::decode(w.vtype as int)
    &&& v.buffer_size == w.buffer_size
}

pub open spec fn event_to_wire(e: VarEvent, w: VariableEvent) -> bool {
    &&& w.event as int == e.event.code()
    &&& w.value@ == e.value@
    &&& w.low_limit@ == e.low_limit@
    &&& w.high_limit@ == e.high_limit@
}

pub open spec fn variable_to_wire(v: Variable, w: VariableMeta) -> bool {
    &&& w.name@ == v.name@
    &&& w.vtype as int == v.vtype.code()
    &&& w.buffer_size == v.buffer_size
}

/// The domain data point that a wire data point carries.
pub fn data_point_from_wire(w: VarDataPoint) -> (p: DataPoint)
    ensures
        point_from_wire(w, p),
{
    DataPoint {
        vtype: VariableType::from_code(w.vtype),
        epoch: Epoch::from_code(w.epoch),
        name: w.name,
        timestamp: w.timestamp,
        value: w.value,
    }
}

pub fn data_points_from_wire(ws: Vec<VarDataPoint>) -> (ps: Vec<DataPoint>)
    ensures
        ps@.len() == ws@.len(),
        forall|i: int| 0 <= i < ws@.len() ==> point_from_wire(#[trigger] ws@[i], ps@[i]),
{
    let mut ps: Vec<DataPoint> = Vec::new();
    let mut i: usize = 0;
    while i < ws.len()
        invariant
            i <= ws@.len(),
            ps@.len() == i,
            forall|j: int| 0 <= j < i ==> point_from_wire(#[trigger] ws@[j], ps@[j]),
        decreases ws@.len() - i,
    {
        let w = &ws[i];
        let p = DataPoint {
            name: w.name.clone(),
            vtype: VariableType::from_code(w.vtype),
            timestamp: w.timestamp.clone(),
            epoch: Epoch::from_code(w.epoch),
            value: w.value.clone(),
        };
        ps.push(p);
        i += 1;
    }
    ps
}

pub fn collections_from_wire(ws: Vec<CollectionMeta>) -> (cs: Vec<Collection>)
    ensures
        cs@.len() == ws@.len(),
        forall|i: int| 0 <= i < ws@.len() ==> (#[trigger] cs@[i]).name@ == ws@[i].name@,
{
    let mut cs: Vec<Collection> = Vec::new();
    let mut i: usize = 0;
    while i < ws.len()
        invariant
            i <= ws@.len(),
            cs@.len() == i,
            forall|j: int| 0 <= j < i ==> (#[trigger] cs@[j]).name@ == ws@[j].name@,
        decreases ws@.len() - i,
    {
        cs.push(Collection { name: ws[i].name.clone() });
        i += 1;
    }
    cs
}

pub fn variables_from_wire(ws: Vec<VariableMeta>) -> (vs: Vec<Variable>)
    ensures
        vs@.len() == ws@.len(),
        forall|i: int| 0 <= i < ws@.len() ==> variable_from_wire(#[trigger] ws@[i], vs@[i]),
{
    let mut vs: Vec<Variable> = Vec::new();
    let mut i: usize = 0;
    while i < ws.len()
        invariant
            i <= ws@.len(),
            vs@.len() == i,
            forall|j: int| 0 <= j < i ==> variable_from_wire(#[trigger] ws@[j], vs@[j]),
        decreases ws@.len() - i,
    {
        let w = &ws[i];
        vs.push(Variable {
            name: w.name.clone(),
            vtype: VariableType::from_code(w.vtype),
            buffer_size: w.buffer_size,
        });
        i += 1;
    }
    vs
}

pub fn variables_to_wire(vs: Vec<Variable>) -> (ws: Vec<VariableMeta>)
    ensures
        ws@.len() == vs@.len(),
        forall|i: int| 0 <= i < vs@.len() ==> variable_to_wire(#[trigger] vs@[i], ws@[i]),
{
    let mut ws: Vec<VariableMeta> = Vec::new();
    let mut i: usize = 0;
    while i < vs.len()
        invariant
            i <= vs@.len(),
            ws@.len() == i,
            forall|j: int| 0 <= j < i ==> variable_to_wire(#[trigger] vs@[j], ws@[j]),
        decreases vs@.len() - i,
    {
        let v = &vs[i];
        ws.push(VariableMeta {
            name: v.name.clone(),
            vtype: v.vtype.to_code(),
            buffer_size: v.buffer_size,
        });
        i += 1;
    }
    ws
}

pub fn events_to_wire(es: Vec<VarEvent>) -> (ws: Vec<VariableEvent>)
    ensures
        ws@.len() == es@.len(),
        forall|i: int| 0 <= i < es@.len() ==> event_to_wire(#[trigger] es@[i], ws@[i]),
{
    let mut ws: Vec<VariableEvent> = Vec::new();
    let mut i: usize = 0;
    while i < es.len()
        invariant
            i <= es@.len(),
            ws@.len() == i,
            forall|j: int| 0 <= j < i ==> event_to_wire(#[trigger] es@[j], ws@[j]),
        decreases es@.len() - i,
    {
        let e = &es[i];
        ws.push(VariableEvent {
            event: e.event.to_code(),
            value: e.value.clone(),
            low_limit: e.low_limit.clone(),
            high_limit: e.high_limit.clone(),
        });
        i += 1;
    }
    ws
}

} // verus!
