//! The generic invocation representation: typed WebAssembly values, function
//! signature shapes, and the marshalling between typed values and the `u64`
//! argument/return buffers that trampolines consume and fill.
//!
//! Floating-point values cross the call boundary as raw bit patterns; this
//! subsystem never interprets them arithmetically, it only moves the bits
//! between a typed value and a buffer slot.

use vstd::prelude::*;

verus! {

/// The kind of one WebAssembly value in a function signature.
#[derive(Clone, Copy, Debug, PartialEq, Eq, Structural)]
pub enum ValueKind {
    I32,
    I64,
    F32,
    F64,
}

/// One WebAssembly value as it crosses the call boundary. The two
/// floating-point kinds carry their raw bit patterns.
#[derive(Clone, Copy, Debug, PartialEq, Eq, Structural)]
pub enum Value {
    I32(i32),
    I64(i64),
    F32(u32),
    F64(u64),
}

/// The shape of one function signature: a stable signature id together with
/// the parameter and result kinds. Built once per module by the linking
/// layer; stable for the module's lifetime.
#[derive(Clone, Debug)]
pub struct FuncSig {
    pub id: u32,
    pub params: Vec<ValueKind>,
    pub rets: Vec<ValueKind>,
}

impl Value {
    /// The kind a value belongs to.
    pub open spec fn kind(self) -> ValueKind {
        match self {
            Value::I32(_) => ValueKind::I32,
            Value::I64(_) => ValueKind::I64,
            Value::F32(_) => ValueKind::F32,
            Value::F64(_) => ValueKind::F64,
        }
    }
}

/// A value list matches a kind list when the lengths agree and every value
/// is of the declared kind.
pub open spec fn has_kinds(vals: Seq<Value>, kinds: Seq<ValueKind>) -> bool {
    &&& vals.len() == kinds.len()
    &&& forall|i: int| 0 <= i < vals.len() ==> (#[trigger] vals[i]).kind() == kinds[i]
}

/// How one typed value is stored in a `u64` buffer slot: integers and raw
/// float bits are zero-extended.
pub open spec fn encode_value(v: Value) -> u64 {
    match v {
        Value::I32(x) => (x as u32) as u64,
        Value::I64(x) => x as u64,
        Value::F32(b) => b as u64,
        Value::F64(b) => b,
    }
}

/// How one buffer slot is read back as a typed value of the declared kind.
pub open spec fn decode_slot(kind: ValueKind, slot: u64) -> Value {
    match kind {
        ValueKind::I32 => Value::I32((slot as u32) as i32),
        ValueKind::I64 => Value::I64(slot as i64),
        ValueKind::F32 => Value::F32(slot as u32),
        ValueKind::F64 => Value::F64(slot),
    }
}

/// Marshalling is lossless: reading a slot back at the kind of the value
/// stored in it yields the value itself.
pub proof fn lemma_encode_decode(v: Value)
    ensures
        decode_slot(v.kind(), encode_value(v)) == v,
{
    match v {
        Value::I32(x) => {
            assert((((x as u32) as u64) as u32) as i32 == x) by (bit_vector);
        },
        Value::I64(x) => {
            assert((x as u64) as i64 == x) by (bit_vector);
        },
        Value::F32(b) => {
            assert(((b as u64) as u32) == b) by (bit_vector);
        },
        Value::F64(_) => {},
    }
}

/// Marshals a typed argument list into the generic `u64` argument buffer a
/// trampoline consumes. Fails exactly when the arguments do not match the
/// declared parameter kinds.
pub fn marshal_args(params: &Vec<ValueKind>, args: &Vec<Value>) -> (r: Option<Vec<u64>>)
    ensures
        (r is Some) <==> has_kinds(args@, params@),
        r matches Some(buf) ==> {
            &&& buf@.len() == args@.len()
            &&& forall|i: int| 0 <= i < args@.len() ==> buf@[i] == encode_value(#[trigger] args@[i])
        },
{
    if args.len() != params.len() {
        return None;
    }
    let n = args.len();
    let mut buf: Vec<u64> = Vec::new();
    let mut i: usize = 0;
    while i < n
        invariant
            n == args@.len() == params@.len(),
            i <= n,
            buf@.len() == i,
            forall|j: int| 0 <= j < i ==> (#[trigger] args@[j]).kind() == params@[j],
            forall|j: int| 0 <= j < i ==> buf@[j] == encode_value(#[trigger] args@[j]),
        decreases n - i,
    {
        let slot: u64 = match (args[i], params[i]) {
            (Value::I32(x), ValueKind::I32) => (x as u32) as u64,
            (Value::I64(x), ValueKind::I64) => x as u64,
            (Value::F32(b), ValueKind::F32) => b as u64,
            (Value::F64(b), ValueKind::F64) => b,
            _ => {
                return None;
            },
        };
        buf.push(slot);
        i = i + 1;
    }
    Some(buf)
}

/// Reads a filled return buffer back as typed values of the declared result
/// kinds. The buffer length is owed by the trampoline that filled it.
pub fn unmarshal_rets(rets: &Vec<ValueKind>, raw: &Vec<u64>) -> (r: Vec<Value>)
    requires
        raw@.len() == rets@.len(),
    ensures
        has_kinds(r@, rets@),
        r@.len() == rets@.len(),
        forall|i: int| 0 <= i < rets@.len() ==> r@[i] == decode_slot(rets@[i], #[trigger] raw@[i]),
{
    let n = rets.len();
    let mut out: Vec<Value> = Vec::new();
    let mut i: usize = 0;
    while i < n
        invariant
            n == rets@.len() == raw@.len(),
            i <= n,
            out@.len() == i,
            forall|j: int| 0 <= j < i ==> out@[j] == decode_slot(rets@[j], #[trigger] raw@[j]),
            forall|j: int| 0 <= j < i ==> (#[trigger] out@[j]).kind() == rets@[j],
        decreases n - i,
    {
        let v: Value = match rets[i] {
            ValueKind::I32 => Value::I32((raw[i] as u32) as i32),
            ValueKind::I64 => Value::I64(raw[i] as i64),
            ValueKind::F32 => Value::F32(raw[i] as u32),
            ValueKind::F64 => Value::F64(raw[i]),
        };
        out.push(v);
        i = i + 1;
    }
    out
}

} // verus!
