//! Typed marshalling between the JSON parameter shape of a request and
//! the Wasm value ABI.
//!
//! JSON knows a single numeric type, so a number is carried here in every
//! reading the marshaller may need: its integral value when it has one,
//! and its raw bit patterns at both floating-point widths.  The declared
//! signature of the target function then picks the reading, and the
//! verified logic never holds a floating-point value itself.

use vstd::prelude::*;

use crate::errors::{BadParamsKind, BadResultKind, ExecError};

verus! {

/// A Wasm value type, as a function signature declares it.
#[derive(Clone, Copy, PartialEq, Eq, Structural, Debug)]
pub enum WasmType {
    I32,
    I64,
    F32,
    F64,
    /// Any type outside the four numeric ones (a vector, a reference).
    Unsupported,
}

/// A Wasm value, with floats carried as their raw bit patterns.
#[derive(Clone, Copy, PartialEq, Eq, Structural, Debug)]
pub enum WasmVal {
    I32(i32),
    I64(i64),
    F32Bits(u32),
    F64Bits(u64),
}

/// One JSON number, in every reading the marshaller may need.
#[derive(Clone, Copy, PartialEq, Eq, Debug)]
pub struct JsonNum {
    /// The integral value, where the number has one in signed 64 bits.
    pub int_val: Option<i64>,
    /// The number narrowed to `f32`, as raw bits.
    pub f32_bits: u32,
    /// The number as `f64`, as raw bits.
    pub f64_bits: u64,
}

/// One element of a request's parameter array.
#[derive(Clone, Copy, PartialEq, Eq, Debug)]
pub enum JsonParam {
    Num(JsonNum),
    /// Any JSON value other than a number.
    Other,
}

/// A request's `params` field: a JSON array, or anything else.
#[derive(Clone, PartialEq, Eq, Debug)]
pub enum ParamsValue {
    Array(Vec<JsonParam>),
    NotArray,
}

/// One scalar of a result rendered back to JSON.
#[derive(Clone, Copy, PartialEq, Eq, Structural, Debug)]
pub enum JsonScalar {
    Int(i64),
    F32Bits(u32),
    F64Bits(u64),
}

/// A whole result rendered back to JSON: `null` for no results, one
/// scalar for one, an array preserving order for several.
#[derive(Clone, PartialEq, Eq, Debug)]
pub enum JsonOut {
    Null,
    Scalar(JsonScalar),
    Array(Vec<JsonScalar>),
}

/// The mathematical shape of a rendered result.
pub enum JsonOutModel {
    Null,
    Scalar(JsonScalar),
    Array(Seq<JsonScalar>),
}

impl View for JsonOut {
    type V = JsonOutModel;

    open spec fn view(&self) -> JsonOutModel {
        match self {
            JsonOut::Null => JsonOutModel::Null,
            JsonOut::Scalar(s) => JsonOutModel::Scalar(*s),
            JsonOut::Array(v) => JsonOutModel::Array(v@),
        }
    }
}

/// Whether `f32` bits denote a finite number (not a NaN, not an infinity).
pub open spec fn spec_f32_finite(bits: u32) -> bool {
    (bits >> 23) & 0xff != 0xff
}

/// Whether `f64` bits denote a finite number.
pub open spec fn spec_f64_finite(bits: u64) -> bool {
    (bits >> 52) & 0x7ff != 0x7ff
}

/// How one parameter marshals into one declared slot.
pub open spec fn spec_marshal_one(p: JsonParam, t: WasmType) -> Result<WasmVal, BadParamsKind> {
    match (p, t) {
        (JsonParam::Num(n), WasmType::I32) => match n.int_val {
            Some(v) => if -0x8000_0000 <= v && v <= 0x7fff_ffff {
                Ok(WasmVal::I32(v as i32))
            } else {
                Err(BadParamsKind::NotI32)
            },
            None => Err(BadParamsKind::NotI32),
        },
        (JsonParam::Num(n), WasmType::I64) => match n.int_val {
            Some(v) => Ok(WasmVal::I64(v)),
            None => Err(BadParamsKind::NotI64),
        },
        (JsonParam::Num(n), WasmType::F32) => Ok(WasmVal::F32Bits(n.f32_bits)),
        (JsonParam::Num(n), WasmType::F64) => Ok(WasmVal::F64Bits(n.f64_bits)),
        _ => Err(BadParamsKind::UnsupportedType),
    }
}

/// How a whole parameter array marshals against a parameter list:
/// `Err` carries the kind of the first refusal.
pub open spec fn spec_marshal_params(ps: Seq<JsonParam>, ts: Seq<WasmType>) -> Result<
    Seq<WasmVal>,
    BadParamsKind,
>
    decreases ps.len(),
{
    if ps.len() != ts.len() {
        Err(BadParamsKind::ArityMismatch)
    } else if ps.len() == 0 {
        Ok(Seq::empty())
    } else {
        match spec_marshal_one(ps[0], ts[0]) {
            Err(k) => Err(k),
            Ok(v) => match spec_marshal_params(ps.drop_first(), ts.drop_first()) {
                Err(k) => Err(k),
                Ok(vs) => Ok(seq![v] + vs),
            },
        }
    }
}

/// The marshalling of a request's `params` field: a non-array is refused
/// before any slot is looked at.
pub open spec fn spec_marshal_in(params: ParamsValue, ts: Seq<WasmType>) -> Result<
    Seq<WasmVal>,
    BadParamsKind,
> {
    match params {
        ParamsValue::NotArray => Err(BadParamsKind::NotAnArray),
        ParamsValue::Array(ps) => spec_marshal_params(ps@, ts),
    }
}

/// How one result value renders to a JSON scalar.  `None` stands for a
/// result of an unsupported type.
pub open spec fn spec_out_one(v: Option<WasmVal>) -> Result<JsonScalar, BadResultKind> {
    match v {
        None => Err(BadResultKind::UnsupportedType),
        Some(WasmVal::I32(i)) => Ok(JsonScalar::Int(i as i64)),
        Some(WasmVal::I64(i)) => Ok(JsonScalar::Int(i)),
        Some(WasmVal::F32Bits(b)) => if spec_f32_finite(b) {
            Ok(JsonScalar::F32Bits(b))
        } else {
            Err(BadResultKind::NonFinite)
        },
        Some(WasmVal::F64Bits(b)) => if spec_f64_finite(b) {
            Ok(JsonScalar::F64Bits(b))
        } else {
            Err(BadResultKind::NonFinite)
        },
    }
}

/// How a whole result vector renders: `Err` carries the kind of the
/// first refusal.
pub open spec fn spec_render_all(vs: Seq<Option<WasmVal>>) -> Result<Seq<JsonScalar>, BadResultKind>
    decreases vs.len(),
{
    if vs.len() == 0 {
        Ok(Seq::empty())
    } else {
        match spec_out_one(vs[0]) {
            Err(k) => Err(k),
            Ok(s) => match spec_render_all(vs.drop_first()) {
                Err(k) => Err(k),
                Ok(ss) => Ok(seq![s] + ss),
            },
        }
    }
}

/// The rendering of a whole result vector to one JSON value.
pub open spec fn spec_marshal_out(vs: Seq<Option<WasmVal>>) -> Result<JsonOutModel, BadResultKind> {
    match spec_render_all(vs) {
        Err(k) => Err(k),
        Ok(ss) => if ss.len() == 0 {
            Ok(JsonOutModel::Null)
        } else if ss.len() == 1 {
            Ok(JsonOutModel::Scalar(ss[0]))
        } else {
            Ok(JsonOutModel::Array(ss))
        },
    }
}

proof fn lemma_marshal_params_step(ps: Seq<JsonParam>, ts: Seq<WasmType>, i: int)
    requires
        ps.len() == ts.len(),
        0 <= i < ps.len(),
    ensures
        spec_marshal_params(ps.skip(i), ts.skip(i)) == match spec_marshal_one(ps[i], ts[i]) {
            Err(k) => Err::<Seq<WasmVal>, BadParamsKind>(k),
            Ok(v) => match spec_marshal_params(ps.skip(i + 1), ts.skip(i + 1)) {
                Err(k) => Err::<Seq<WasmVal>, BadParamsKind>(k),
                Ok(vs) => Ok::<Seq<WasmVal>, BadParamsKind>(seq![v] + vs),
            },
        },
{
    assert(ps.skip(i).len() == ts.skip(i).len());
    assert(ps.skip(i)[0] == ps[i]);
    assert(ts.skip(i)[0] == ts[i]);
    assert(ps.skip(i).drop_first() =~= ps.skip(i + 1));
    assert(ts.skip(i).drop_first() =~= ts.skip(i + 1));
}

proof fn lemma_render_all_step(vs: Seq<Option<WasmVal>>, i: int)
    requires
        0 <= i < vs.len(),
    ensures
        spec_render_all(vs.skip(i)) == match spec_out_one(vs[i]) {
            Err(k) => Err::<Seq<JsonScalar>, BadResultKind>(k),
            Ok(s) => match spec_render_all(vs.skip(i + 1)) {
                Err(k) => Err::<Seq<JsonScalar>, BadResultKind>(k),
                Ok(ss) => Ok::<Seq<JsonScalar>, BadResultKind>(seq![s] + ss),
            },
        },
{
    assert(vs.skip(i)[0] == vs[i]);
    assert(vs.skip(i).drop_first() =~= vs.skip(i + 1));
}

/// Convert one parameter against one declared slot.
fn marshal_one(p: &JsonParam, t: WasmType) -> (r: Result<WasmVal, BadParamsKind>)
    ensures
        r == spec_marshal_one(*p, t),
{
    match (p, t) {
        (JsonParam::Num(n), WasmType::I32) => match n.int_val {
            Some(v) => if -0x8000_0000i64 <= v && v <= 0x7fff_ffffi64 {
                Ok(WasmVal::I32(v as i32))
            } else {
                Err(BadParamsKind::NotI32)
            },
            None => Err(BadParamsKind::NotI32),
        },
        (JsonParam::Num(n), WasmType::I64) => match n.int_val {
            Some(v) => Ok(WasmVal::I64(v)),
            None => Err(BadParamsKind::NotI64),
        },
        (JsonParam::Num(n), WasmType::F32) => Ok(WasmVal::F32Bits(n.f32_bits)),
        (JsonParam::Num(n), WasmType::F64) => Ok(WasmVal::F64Bits(n.f64_bits)),
        _ => Err(BadParamsKind::UnsupportedType),
    }
}

/// Convert a request's `params` field into the typed argument vector of
/// a function with parameter list `ts`.
pub fn marshal_in(params: &ParamsValue, ts: &Vec<WasmType>) -> (r: Result<Vec<WasmVal>, ExecError>)
    ensures
        match spec_marshal_in(*params, ts@) {
            Ok(vs) => r matches Ok(out) && out@ == vs,
            Err(k) => r == Err::<Vec<WasmVal>, ExecError>(ExecError::BadParams(k)),
        },
{
    let ps = match params {
        ParamsValue::NotArray => {
            return Err(ExecError::BadParams(BadParamsKind::NotAnArray));
        },
        ParamsValue::Array(ps) => ps,
    };
    if ps.len() != ts.len() {
        return Err(ExecError::BadParams(BadParamsKind::ArityMismatch));
    }
    let ghost pseq = ps@;
    proof {
        assert(spec_marshal_in(*params, ts@) == spec_marshal_params(pseq, ts@));
    }
    let mut out: Vec<WasmVal> = Vec::new();
    let mut i: usize = 0;
    proof {
        assert(pseq.skip(0) =~= pseq);
        assert(ts@.skip(0) =~= ts@);
    }
    while i < ps.len()
        invariant
            ps@ == pseq,
            spec_marshal_in(*params, ts@) == spec_marshal_params(pseq, ts@),
            pseq.len() == ts@.len(),
            0 <= i <= pseq.len(),
            spec_marshal_params(pseq, ts@) == match spec_marshal_params(
                pseq.skip(i as int),
                ts@.skip(i as int),
            ) {
                Ok(vs) => Ok::<Seq<WasmVal>, BadParamsKind>(out@ + vs),
                Err(k) => Err::<Seq<WasmVal>, BadParamsKind>(k),
            },
        decreases pseq.len() - i,
    {
        proof {
            lemma_marshal_params_step(pseq, ts@, i as int);
        }
        match marshal_one(&ps[i], ts[i]) {
            Err(k) => {
                return Err(ExecError::BadParams(k));
            },
            Ok(v) => {
                let ghost old_out = out@;
                out.push(v);
                proof {
                    if spec_marshal_params(pseq.skip(i as int + 1), ts@.skip(i as int + 1)) is Ok {
                        let vs = spec_marshal_params(
                            pseq.skip(i as int + 1),
                            ts@.skip(i as int + 1),
                        )->Ok_0;
                        assert(old_out + (seq![v] + vs) =~= out@ + vs);
                    }
                }
                i += 1;
            },
        }
    }
    proof {
        assert(pseq.skip(pseq.len() as int) =~= Seq::<JsonParam>::empty());
        assert(ts@.skip(ts@.len() as int) =~= Seq::<WasmType>::empty());
        assert(spec_marshal_params(Seq::<JsonParam>::empty(), Seq::<WasmType>::empty())
            == Ok::<Seq<WasmVal>, BadParamsKind>(Seq::empty()));
        assert(out@ + Seq::<WasmVal>::empty() =~= out@);
    }
    Ok(out)
}

/// Render one result value, with `None` standing for an unsupported type.
fn render_one(v: &Option<WasmVal>) -> (r: Result<JsonScalar, BadResultKind>)
    ensures
        r == spec_out_one(*v),
{
    match v {
        None => Err(BadResultKind::UnsupportedType),
        Some(WasmVal::I32(i)) => Ok(JsonScalar::Int(*i as i64)),
        Some(WasmVal::I64(i)) => Ok(JsonScalar::Int(*i)),
        Some(WasmVal::F32Bits(b)) => if (*b >> 23u32) & 0xffu32 != 0xffu32 {
            Ok(JsonScalar::F32Bits(*b))
        } else {
            Err(BadResultKind::NonFinite)
        },
        Some(WasmVal::F64Bits(b)) => if (*b >> 52u64) & 0x7ffu64 != 0x7ffu64 {
            Ok(JsonScalar::F64Bits(*b))
        } else {
            Err(BadResultKind::NonFinite)
        },
    }
}

/// Render a whole result vector to one JSON value: `null` for none, one
/// scalar for one, an array preserving order for several.
pub fn marshal_out(vs: &Vec<Option<WasmVal>>) -> (r: Result<JsonOut, ExecError>)
    ensures
        match spec_marshal_out(vs@) {
            Ok(out) => r matches Ok(o) && o@ == out,
            Err(k) => r == Err::<JsonOut, ExecError>(ExecError::BadResult(k)),
        },
{
    let ghost vseq = vs@;
    let mut ss: Vec<JsonScalar> = Vec::new();
    let mut i: usize = 0;
    proof {
        assert(vseq.skip(0) =~= vseq);
    }
    while i < vs.len()
        invariant
            vs@ == vseq,
            0 <= i <= vseq.len(),
            ss@.len() == i as int,
            spec_render_all(vseq) == match spec_render_all(vseq.skip(i as int)) {
                Ok(rest) => Ok::<Seq<JsonScalar>, BadResultKind>(ss@ + rest),
                Err(k) => Err::<Seq<JsonScalar>, BadResultKind>(k),
            },
        decreases vseq.len() - i,
    {
        proof {
            lemma_render_all_step(vseq, i as int);
        }
        match render_one(&vs[i]) {
            Err(k) => {
                return Err(ExecError::BadResult(k));
            },
            Ok(s) => {
                let ghost old_ss = ss@;
                ss.push(s);
                proof {
                    if spec_render_all(vseq.skip(i as int + 1)) is Ok {
                        let rest = spec_render_all(vseq.skip(i as int + 1))->Ok_0;
                        assert(old_ss + (seq![s] + rest) =~= ss@ + rest);
                    }
                }
                i += 1;
            },
        }
    }
    proof {
        assert(vseq.skip(vseq.len() as int) =~= Seq::<Option<WasmVal>>::empty());
        assert(spec_render_all(Seq::<Option<WasmVal>>::empty()) == Ok::<
            Seq<JsonScalar>,
            BadResultKind,
        >(Seq::empty()));
        assert(ss@ + Seq::<JsonScalar>::empty() =~= ss@);
    }
    if ss.len() == 0 {
        Ok(JsonOut::Null)
    } else if ss.len() == 1 {
        Ok(JsonOut::Scalar(ss[0]))
    } else {
        Ok(JsonOut::Array(ss))
    }
}

/// Marshalling round trip.  A binary `i32` function invoked with the
/// JSON array `[a, b]` receives exactly the arguments `a` and `b`, and
/// whatever single `i32` it returns renders as exactly that JSON number;
/// in particular a function computing `a + b` yields the JSON number
/// `a + b`.
pub proof fn lemma_marshal_round_trip(na: JsonNum, nb: JsonNum, a: i64, b: i64, c: i32)
    requires
        na.int_val == Some(a),
        nb.int_val == Some(b),
        -0x8000_0000 <= a <= 0x7fff_ffff,
        -0x8000_0000 <= b <= 0x7fff_ffff,
    ensures
        spec_marshal_params(
            seq![JsonParam::Num(na), JsonParam::Num(nb)],
            seq![WasmType::I32, WasmType::I32],
        ) == Ok::<Seq<WasmVal>, BadParamsKind>(seq![WasmVal::I32(a as i32), WasmVal::I32(b as i32)]),
        spec_marshal_out(seq![Some(WasmVal::I32(c))]) == Ok::<JsonOutModel, BadResultKind>(
            JsonOutModel::Scalar(JsonScalar::Int(c as i64)),
        ),
{
    let ps = seq![JsonParam::Num(na), JsonParam::Num(nb)];
    let ts = seq![WasmType::I32, WasmType::I32];
    assert(ps.len() == 2);
    let tail = ps.drop_first();
    let ttail = ts.drop_first();
    assert(tail.len() == 1);
    assert(tail[0] == JsonParam::Num(nb));
    assert(tail.drop_first().len() == 0);
    assert(spec_marshal_params(tail.drop_first(), ttail.drop_first())
        == Ok::<Seq<WasmVal>, BadParamsKind>(Seq::empty()));
    assert(spec_marshal_params(tail, ttail) == Ok::<Seq<WasmVal>, BadParamsKind>(
        seq![WasmVal::I32(b as i32)] + Seq::<WasmVal>::empty(),
    ));
    assert(seq![WasmVal::I32(b as i32)] + Seq::<WasmVal>::empty() =~= seq![WasmVal::I32(b as i32)]);
    assert(seq![WasmVal::I32(a as i32)] + seq![WasmVal::I32(b as i32)]
        =~= seq![WasmVal::I32(a as i32), WasmVal::I32(b as i32)]);
    let rs = seq![Some(WasmVal::I32(c))];
    assert(rs.drop_first().len() == 0);
    assert(rs[0] == Some(WasmVal::I32(c)));
    assert(spec_out_one(rs[0]) == Ok::<JsonScalar, BadResultKind>(JsonScalar::Int(c as i64)));
    assert(spec_render_all(rs.drop_first()) == Ok::<Seq<JsonScalar>, BadResultKind>(Seq::empty()));
    assert(spec_render_all(rs) == Ok::<Seq<JsonScalar>, BadResultKind>(
        seq![JsonScalar::Int(c as i64)] + Seq::<JsonScalar>::empty(),
    ));
    assert(seq![JsonScalar::Int(c as i64)] + Seq::<JsonScalar>::empty()
        =~= seq![JsonScalar::Int(c as i64)]);
}

/// Arity rejection.  A parameter array whose length differs from the
/// declared arity is refused as an arity mismatch, whatever its
/// elements, so no argument vector is ever built from it.
pub proof fn lemma_arity_mismatch(ps: Seq<JsonParam>, ts: Seq<WasmType>)
    requires
        ps.len() != ts.len(),
    ensures
        spec_marshal_params(ps, ts) == Err::<Seq<WasmVal>, BadParamsKind>(
            BadParamsKind::ArityMismatch,
        ),
        forall|v: Vec<JsonParam>|
            v@ == ps ==> spec_marshal_in(ParamsValue::Array(v), ts) == Err::<
                Seq<WasmVal>,
                BadParamsKind,
            >(BadParamsKind::ArityMismatch),
{
}

} // verus!
