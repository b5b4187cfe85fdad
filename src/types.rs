use vstd::prelude::*;

verus! {

/// Resolution of a timestamp.
#[derive(Debug, Clone, Copy, PartialEq, Eq, Structural)]
pub enum Epoch {
    Second,
    Millisecond,
    Microsecond,
    Nanosecond,
}

/// Scalar kind of a variable.
#[derive(Debug, Clone, Copy, PartialEq, Eq, Structural)]
pub enum VariableType {
    I8,
    I16,
    I32,
    I64,
    I128,
    U8,
    U16,
    U32,
    U64,
    U128,
    F32,
    F64,
    STR,
    BOOL,
}

/// Trigger condition that a subscription watches for.
#[derive(Debug, Clone, Copy, PartialEq, Eq, Structural)]
pub enum Event {
    OnSet,
    OnChange,
    OnRise,
    OnFall,
    OnValueReachVal,
    OnValueEqVal,
    OnValueLeaveVal,
    OnValueDiffVal,
    OnCrossHighLimit,
    OnCrossLowLimit,
    OnOverHighLimit,
    OnUnderLowLimit,
    OnValueReachRange,
    OnValueInRange,
    OnValueLeaveRange,
    OnValueOutRange,
}

/// A named, typed variable with the size of its history buffer.
#[derive(Debug)]
pub struct Variable {
    pub name: String,
    pub vtype: VariableType,
    pub buffer_size: u32,
}

/// A named namespace of variables.
#[derive(Debug)]
pub struct Collection {
    pub name: String,
}

/// One observed sample of a variable; timestamp and value travel as text.
#[derive(Debug)]
pub struct DataPoint {
    pub name: String,
    pub vtype: VariableType,
    pub timestamp: String,
    pub epoch: Epoch,
    pub value: String,
}

/// An event to watch, with the operands its kind consults.
#[derive(Debug)]
pub struct VarEvent {
    pub event: Event,
    pub value: String,
    pub low_limit: String,
    pub high_limit: String,
}

impl Epoch {
    pub open spec fn code(self) -> int {
        match self {
            Epoch::Second => 0,
            Epoch::Millisecond => 1,
            Epoch::Microsecond => 2,
            Epoch::Nanosecond => 3,
        }
    }

    /// The variant with wire code `c`; `Second` for a code that names none.
    pub open spec fn decode(c: int) -> Epoch {
        if c == 1 {
            Epoch::Millisecond
        } else if c == 2 {
            Epoch::Microsecond
        } else if c == 3 {
            Epoch::Nanosecond
        } else {
            Epoch::Second
        }
    }

    pub fn to_code(self) -> (r: i32)
        ensures
            r == self.code(),
    {
        match self {
            Epoch::Second => 0,
            Epoch::Millisecond => 1,
            Epoch::Microsecond => 2,
            Epoch::Nanosecond => 3,
        }
    }

    pub fn from_code(c: i32) -> (r: Epoch)
        ensures
            r == Epoch::decode(c as int),
    {
        match c {
            1 => Epoch::Millisecond,
            2 => Epoch::Microsecond,
            3 => Epoch::Nanosecond,
            _ => Epoch::Second,
        }
    }
}

impl VariableType {
    pub open spec fn code(self) -> int {
        match self {
            VariableType::I8 => 0,
            VariableType::I16 => 1,
            VariableType::I32 => 2,
            VariableType::I64 => 3,
            VariableType::I128 => 4,
            VariableType::U8 => 5,
            VariableType::U16 => 6,
            VariableType::U32 => 7,
            VariableType::U64 => 8,
            VariableType::U128 => 9,
            VariableType::F32 => 10,
            VariableType::F64 => 11,
            VariableType::STR => 12,
            VariableType::BOOL => 13,
        }
    }

    /// The variant with wire code `c`; `I8` for a code that names none.
    pub open spec fn decode(c: int) -> VariableType {
        if c == 1 {
            VariableType::I16
        } else if c == 2 {
            VariableType::I32
        } else if c == 3 {
            VariableType::I64
        } else if c == 4 {
            VariableType::I128
        } else if c == 5 {
            VariableType::U8
        } else if c == 6 {
            VariableType::U16
        } else if c == 7 {
            VariableType::U32
        } else if c == 8 {
            VariableType::U64
        } else if c == 9 {
            VariableType::U128
        } else if c == 10 {
            VariableType::F32
        } else if c == 11 {
            VariableType::F64
        } else if c == 12 {
            VariableType::STR
        } else if c == 13 {
            VariableType::BOOL
        } else {
            VariableType::I8
        }
    }

    pub fn to_code(self) -> (r: i32)
        ensures
            r == self.code(),
    {
        match self {
            VariableType::I8 => 0,
            VariableType::I16 => 1,
            VariableType::I32 => 2,
            VariableType::I64 => 3,
            VariableType::I128 => 4,
            VariableType::U8 => 5,
            VariableType::U16 => 6,
            VariableType::U32 => 7,
            VariableType::U64 => 8,
            VariableType::U128 => 9,
            VariableType::F32 => 10,
            VariableType::F64 => 11,
            VariableType::STR => 12,
            VariableType::BOOL => 13,
        }
    }

    pub fn from_code(c: i32) -> (r: VariableType)
        ensures
            r == VariableType::decode(c as int),
    {
        match c {
            1 => VariableType::I16,
            2 => VariableType::I32,
            3 => VariableType::I64,
            4 => VariableType::I128,
            5 => VariableType::U8,
            6 => VariableType::U16,
            7 => VariableType::U32,
            8 => VariableType::U64,
            9 => VariableType::U128,
            10 => VariableType::F32,
            11 => VariableType::F64,
            12 => VariableType::STR,
            13 => VariableType::BOOL,
            _ => VariableType::I8,
        }
    }
}

impl Event {
    pub open spec fn code(self) -> int {
        match self {
            Event::OnSet => 0,
            Event::OnChange => 1,
            Event::OnRise => 2,
            Event::OnFall => 3,
            Event::OnValueReachVal => 4,
            Event::OnValueEqVal => 5,
            Event::OnValueLeaveVal => 6,
            Event::OnValueDiffVal => 7,
            Event::OnCrossHighLimit => 8,
            Event::OnCrossLowLimit => 9,
            Event::OnOverHighLimit => 10,
            Event::OnUnderLowLimit => 11,
            Event::OnValueReachRange => 12,
            Event::OnValueInRange => 13,
            Event::OnValueLeaveRange => 14,
            Event::OnValueOutRange => 15,
        }
    }

    /// The variant with wire code `c`; `OnSet` for a code that names none.
    pub open spec fn decode(c: int) -> Event {
        if c == 1 {
            Event::OnChange
        } else if c == 2 {
            Event::OnRise
        } else if c == 3 {
            Event::OnFall
        } else if c == 4 {
            Event::OnValueReachVal
        } else if c == 5 {
            Event::OnValueEqVal
        } else if c == 6 {
            Event::OnValueLeaveVal
        } else if c == 7 {
            Event::OnValueDiffVal
        } else if c == 8 {
            Event::OnCrossHighLimit
        } else if c == 9 {
            Event::OnCrossLowLimit
        } else if c == 10 {
            Event::OnOverHighLimit
        } else if c == 11 {
            Event::OnUnderLowLimit
        } else if c == 12 {
            Event::OnValueReachRange
        } else if c == 13 {
            Event::OnValueInRange
        } else if c == 14 {
            Event::OnValueLeaveRange
        } else if c == 15 {
            Event::OnValueOutRange
        } else {
            Event::OnSet
        }
    }

    pub fn to_code(self) -> (r: i32)
        ensures
            r == self.code(),
    {
        match self {
            Event::OnSet => 0,
            Event::OnChange => 1,
            Event::OnRise => 2,
            Event::OnFall => 3,
            Event::OnValueReachVal => 4,
            Event::OnValueEqVal => 5,
            Event::OnValueLeaveVal => 6,
            Event::OnValueDiffVal => 7,
            Event::OnCrossHighLimit => 8,
            Event::OnCrossLowLimit => 9,
            Event::OnOverHighLimit => 10,
            Event::OnUnderLowLimit => 11,
            Event::OnValueReachRange => 12,
            Event::OnValueInRange => 13,
            Event::OnValueLeaveRange => 14,
            Event::OnValueOutRange => 15,
        }
    }

    pub fn from_code(c: i32) -> (r: Event)
        ensures
            r == Event::decode(c as int),
    {
        match c {
            1 => Event::OnChange,
            2 => Event::OnRise,
            3 => Event::OnFall,
            4 => Event::OnValueReachVal,
            5 => Event::OnValueEqVal,
            6 => Event::OnValueLeaveVal,
            7 => Event::OnValueDiffVal,
            8 => Event::OnCrossHighLimit,
            9 => Event::OnCrossLowLimit,
            10 => Event::OnOverHighLimit,
            11 => Event::OnUnderLowLimit,
            12 => Event::OnValueReachRange,
            13 => Event::OnValueInRange,
            14 => Event::OnValueLeaveRange,
            15 => Event::OnValueOutRange,
            _ => Event::OnSet,
        }
    }
}

impl Default for VariableType {
    fn default() -> (r: VariableType)
        ensures
            r == VariableType::F64,
    {
        VariableType::F64
    }
}

impl Default for Event {
    fn default() -> (r: Event)
        ensures
            r == Event::OnSet,
    {
        Event::OnSet
    }
}

impl Default for VarEvent {
    fn default() -> (r: VarEvent)
        ensures
            r.event == Event::OnSet,
            r.value@ == Seq::<char>::empty(),
            r.low_limit@ == Seq::<char>::empty(),
            r.high_limit@ == Seq::<char>::empty(),
    {
        VarEvent {
            event: Event::OnSet,
            value: String::new(),
            low_limit: String::new(),
            high_limit: String::new(),
        }
    }
}

/// Encoding an epoch and decoding its code gives the epoch back.
pub proof fn lemma_epoch_round_trip(e: Epoch)
    ensures
        Epoch::decode(e.code()) == e,
{
}

/// Encoding a variable type and decoding its code gives the type back.
pub proof fn lemma_variable_type_round_trip(t: VariableType)
    ensures
        VariableType::decode(t.code()) == t,
{
}

/// Encoding an event kind and decoding its code gives the kind back.
pub proof fn lemma_event_round_trip(e: Event)
    ensures
        Event::decode(e.code()) == e,
{
}

/// A code that no epoch carries decodes to `Second`.
pub proof fn lemma_epoch_unknown_code(c: int)
    requires
        forall|e: Epoch| e.code() != c,
    ensures
        Epoch::decode(c) == Epoch::Second,
{
    assert(Epoch::Millisecond.code() != c);
    assert(Epoch::Microsecond.code() != c);
    assert(Epoch::Nanosecond.code() != c);
}

/// A code that no variable type carries decodes to `I8`.
pub proof fn lemma_variable_type_unknown_code(c: int)
    requires
        forall|t: VariableType| t.code() != c,
    ensures
        VariableType::decode(c) == VariableType::I8,
{
    assert(!(1 <= c <= 13)) by {
        if 1 <= c <= 13 {
            assert(VariableType::decode(c).code() == c);
        }
    }
}

/// A code that no event kind carries decodes to `OnSet`.
pub proof fn lemma_event_unknown_code(c: int)
    requires
        forall|e: Event| e.code() != c,
    ensures
        Event::decode(c) == Event::OnSet,
{
    assert(!(1 <= c <= 15)) by {
        if 1 <= c <= 15 {
            assert(Event::decode(c).code() == c);
        }
    }
}

} // verus!
