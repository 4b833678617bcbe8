//! Parameter encoder: turns host values into the closed set of wire
//! parameter shapes, expanding one level of grouped values for
//! `IN`-clause ergonomics.
//!
//! Groups come from the embedding, which marks every iterable
//! argument that is neither text nor bytes as expandable. The encoder
//! flattens exactly one level, preserving order; an argument — at the
//! top level or inside a group — that has no wire shape (a nested
//! iterable, a mapping, an unconvertible object) fails the whole call
//! with a conversion error, as an input value is never silently
//! substituted.

use vstd::prelude::*;
use crate::errors::Error;
use crate::host_value::{HostValue, HostValueModel};

verus! {

/// The mathematical shape of a [`WireParam`].
pub enum WireParamModel {
    /// SQL NULL.
    WNull,
    /// A boolean.
    WBool(bool),
    /// A 64-bit signed integer.
    WInt64(i64),
    /// The bit pattern of a 64-bit IEEE 754 float.
    WFloat64(u64),
    /// Text.
    WStr(Seq<char>),
    /// A byte sequence.
    WBytes(Seq<u8>),
}

/// A bound statement parameter as it goes out on the wire: the closed
/// variant set of the protocol client.
pub enum WireParam {
    /// SQL NULL.
    Null,
    /// A boolean.
    Bool(bool),
    /// A 64-bit signed integer.
    Int64(i64),
    /// The bit pattern of a 64-bit IEEE 754 float.
    Float64(u64),
    /// Text.
    Str(String),
    /// A byte sequence.
    Bytes(Vec<u8>),
}

impl View for WireParam {
    type V = WireParamModel;

    open spec fn view(&self) -> WireParamModel {
        match self {
            WireParam::Null => WireParamModel::WNull,
            WireParam::Bool(b) => WireParamModel::WBool(*b),
            WireParam::Int64(i) => WireParamModel::WInt64(*i),
            WireParam::Float64(bits) => WireParamModel::WFloat64(*bits),
            WireParam::Str(s) => WireParamModel::WStr(s@),
            WireParam::Bytes(b) => WireParamModel::WBytes(b@),
        }
    }
}

/// How each host value encodes: one wire shape per host shape, with
/// timestamps sent as their ISO-8601 text.
pub open spec fn spec_encode(v: HostValueModel) -> WireParamModel {
    match v {
        HostValueModel::MNull => WireParamModel::WNull,
        HostValueModel::MBool(b) => WireParamModel::WBool(b),
        HostValueModel::MInt(i) => WireParamModel::WInt64(i),
        HostValueModel::MFloat(bits) => WireParamModel::WFloat64(bits),
        HostValueModel::MStr(s) => WireParamModel::WStr(s),
        HostValueModel::MBytes(b) => WireParamModel::WBytes(b),
        HostValueModel::MDateTime(s) => WireParamModel::WStr(s),
    }
}

/// How a wire parameter reads back as a host value.
pub open spec fn spec_decode(w: WireParamModel) -> HostValueModel {
    match w {
        WireParamModel::WNull => HostValueModel::MNull,
        WireParamModel::WBool(b) => HostValueModel::MBool(b),
        WireParamModel::WInt64(i) => HostValueModel::MInt(i),
        WireParamModel::WFloat64(bits) => HostValueModel::MFloat(bits),
        WireParamModel::WStr(s) => HostValueModel::MStr(s),
        WireParamModel::WBytes(b) => HostValueModel::MBytes(b),
    }
}

/// Encodes one host value.
pub fn encode_value(v: &HostValue) -> (w: WireParam)
    ensures
        w@ == spec_encode(v@),
{
    match v {
        HostValue::Null => WireParam::Null,
        HostValue::Bool(b) => WireParam::Bool(*b),
        HostValue::Int(i) => WireParam::Int64(*i),
        HostValue::Float(bits) => WireParam::Float64(*bits),
        HostValue::Str(s) => WireParam::Str(s.clone()),
        HostValue::Bytes(b) => WireParam::Bytes(crate::host_value::clone_bytes(b)),
        HostValue::DateTime(s) => WireParam::Str(s.clone()),
    }
}

/// Reads one wire parameter back as a host value.
pub fn decode_wire(w: WireParam) -> (v: HostValue)
    ensures
        v@ == spec_decode(w@),
{
    match w {
        WireParam::Null => HostValue::Null,
        WireParam::Bool(b) => HostValue::Bool(b),
        WireParam::Int64(i) => HostValue::Int(i),
        WireParam::Float64(bits) => HostValue::Float(bits),
        WireParam::Str(s) => HostValue::Str(s),
        WireParam::Bytes(b) => HostValue::Bytes(b),
    }
}

/// Encoding then decoding hands back the very value that went in, for
/// every host shape that the wire set carries directly — every shape
/// but the timestamp, which goes out as its text.
pub proof fn lemma_parameter_round_trip(v: HostValueModel)
    requires
        !(v is MDateTime),
    ensures
        spec_decode(spec_encode(v)) == v,
{
}

// --- one-level expansion of grouped parameters ---------------------------

/// The mathematical shape of a [`GroupArg`].
pub enum GroupArgModel {
    /// A converted element.
    GItem(HostValueModel),
    /// An element with no wire shape; carries the reported type name.
    GOdd(Seq<char>),
}

/// One element of an expandable group, as the embedding converted it:
/// either a host value, or an element it could not convert (a nested
/// iterable, say), named by its type.
pub enum GroupArg {
    /// A converted element.
    Item(HostValue),
    /// An element with no wire shape; carries the reported type name.
    Odd(String),
}

impl View for GroupArg {
    type V = GroupArgModel;

    open spec fn view(&self) -> GroupArgModel {
        match self {
            GroupArg::Item(v) => GroupArgModel::GItem(v@),
            GroupArg::Odd(name) => GroupArgModel::GOdd(name@),
        }
    }
}

/// The mathematical shape of a [`ParamInput`].
pub enum ParamInputModel {
    /// One positional parameter.
    PSingle(HostValueModel),
    /// An expandable group: each element becomes one positional
    /// parameter.
    PMany(Seq<GroupArgModel>),
    /// An argument with no wire shape; carries the reported type name.
    PUnsupported(Seq<char>),
}

/// A parameter argument as the embedding hands it over: a single
/// value, a group the embedding found iterable (and neither text nor
/// bytes), or an argument it could not convert at all.
pub enum ParamInput {
    /// One positional parameter.
    Single(HostValue),
    /// An expandable group of arguments.
    Many(Vec<GroupArg>),
    /// An argument with no wire shape; carries the reported type name.
    Unsupported(String),
}

impl View for ParamInput {
    type V = ParamInputModel;

    open spec fn view(&self) -> ParamInputModel {
        match self {
            ParamInput::Single(v) => ParamInputModel::PSingle(v@),
            ParamInput::Many(items) => ParamInputModel::PMany(items@.map_values(|q: GroupArg| q@)),
            ParamInput::Unsupported(name) => ParamInputModel::PUnsupported(name@),
        }
    }
}

/// One argument has a wire shape: it is a value, or a group whose
/// every element converted.
pub open spec fn flat_arg(p: ParamInputModel) -> bool {
    match p {
        ParamInputModel::PSingle(_) => true,
        ParamInputModel::PMany(g) => forall|j: int| 0 <= j < g.len() ==> (#[trigger] g[j])
            is GItem,
        ParamInputModel::PUnsupported(_) => false,
    }
}

/// Every argument of the list has a wire shape.
pub open spec fn encodable(inputs: Seq<ParamInputModel>) -> bool {
    forall|i: int| 0 <= i < inputs.len() ==> flat_arg(#[trigger] inputs[i])
}

/// What one argument contributes to the flattened parameter list.
pub open spec fn expand_one(p: ParamInputModel) -> Seq<WireParamModel> {
    match p {
        ParamInputModel::PSingle(v) => seq![spec_encode(v)],
        ParamInputModel::PMany(g) => Seq::new(
            g.len(),
            |j: int|
                spec_encode(
                    match g[j] {
                        GroupArgModel::GItem(v) => v,
                        GroupArgModel::GOdd(_) => HostValueModel::MNull,
                    },
                ),
        ),
        ParamInputModel::PUnsupported(_) => Seq::empty(),
    }
}

/// The flattened, order-preserving encoding of an argument list.
pub open spec fn spec_expand(inputs: Seq<ParamInputModel>) -> Seq<WireParamModel>
    decreases inputs.len(),
{
    if inputs.len() == 0 {
        Seq::empty()
    } else {
        expand_one(inputs[0]) + spec_expand(inputs.skip(1))
    }
}

proof fn lemma_expand_snoc(inputs: Seq<ParamInputModel>, p: ParamInputModel)
    ensures
        spec_expand(inputs.push(p)) == spec_expand(inputs) + expand_one(p),
    decreases inputs.len(),
{
    let w = inputs.push(p);
    if inputs.len() == 0 {
        assert(w[0] == p);
        assert(w.skip(1) =~= Seq::<ParamInputModel>::empty());
        assert(spec_expand(Seq::<ParamInputModel>::empty()) =~= Seq::<WireParamModel>::empty());
        assert(spec_expand(w) =~= expand_one(p));
        assert(spec_expand(inputs) + expand_one(p) =~= expand_one(p));
    } else {
        assert(w[0] == inputs[0]);
        assert(w.skip(1) =~= inputs.skip(1).push(p));
        lemma_expand_snoc(inputs.skip(1), p);
        assert(spec_expand(w) =~= spec_expand(inputs) + expand_one(p));
    }
}

/// The models of a vector of wire parameters.
pub open spec fn wire_models(ws: Seq<WireParam>) -> Seq<WireParamModel> {
    ws.map_values(|w: WireParam| w@)
}

/// The models of a vector of parameter arguments.
pub open spec fn input_models(ps: Seq<ParamInput>) -> Seq<ParamInputModel> {
    ps.map_values(|p: ParamInput| p@)
}

/// Encodes an argument list into the flat wire parameter list,
/// expanding each group by one level and preserving order. The call
/// fails — and no parameter list is produced — exactly when some
/// argument has no wire shape.
pub fn encode_params(inputs: &Vec<ParamInput>) -> (r: Result<Vec<WireParam>, Error>)
    ensures
        r is Ok <==> encodable(input_models(inputs@)),
        r matches Ok(ws) ==> wire_models(ws@) == spec_expand(input_models(inputs@)),
        r matches Err(e) ==> e is TypeConversion,
{
    let ghost all = input_models(inputs@);
    let mut out: Vec<WireParam> = Vec::new();
    let n = inputs.len();
    let mut i: usize = 0;
    proof {
        assert(all.take(0) =~= Seq::<ParamInputModel>::empty());
        assert(wire_models(out@) =~= spec_expand(all.take(0)));
    }
    while i < n
        invariant
            n == inputs@.len(),
            all == input_models(inputs@),
            all.len() == n,
            i <= n,
            encodable(all.take(i as int)),
            wire_models(out@) == spec_expand(all.take(i as int)),
        decreases n - i,
    {
        let p = &inputs[i];
        let ghost pm = all[i as int];
        proof {
            assert(pm == inputs@[i as int]@);
        }
        match p {
            ParamInput::Single(v) => {
                let ghost out0 = out@;
                let w = encode_value(v);
                out.push(w);
                proof {
                    lemma_expand_snoc(all.take(i as int), pm);
                    assert(all.take(i as int + 1) =~= all.take(i as int).push(pm));
                    assert(wire_models(out@) =~= wire_models(out0).push(w@));
                    assert(wire_models(out@) =~= spec_expand(all.take(i as int)) + expand_one(pm));
                }
            },
            ParamInput::Many(group) => {
                let ghost gm = pm->PMany_0;
                let m = group.len();
                let mut j: usize = 0;
                proof {
                    assert(gm == group@.map_values(|q: GroupArg| q@));
                    assert(expand_one(pm).take(0) =~= Seq::<WireParamModel>::empty());
                    assert(wire_models(out@) =~= spec_expand(all.take(i as int)) + expand_one(
                        pm,
                    ).take(0));
                }
                while j < m
                    invariant
                        m == group@.len(),
                        j <= m,
                        gm == group@.map_values(|q: GroupArg| q@),
                        gm.len() == m,
                        forall|k: int| 0 <= k < j ==> (#[trigger] gm[k]) is GItem,
                        pm == ParamInputModel::PMany(gm),
                        0 <= i < all.len(),
                        all == input_models(inputs@),
                        pm == all[i as int],
                        encodable(all.take(i as int)),
                        wire_models(out@) == spec_expand(all.take(i as int)) + expand_one(
                            pm,
                        ).take(j as int),
                    decreases m - j,
                {
                    let q = &group[j];
                    let ghost qm = gm[j as int];
                    proof {
                        assert(qm == group@[j as int]@);
                    }
                    match q {
                        GroupArg::Item(v) => {
                            let ghost out0 = out@;
                            let w = encode_value(v);
                            out.push(w);
                            proof {
                                assert(expand_one(pm)[j as int] == spec_encode(v@)) by {
                                    assert(qm == GroupArgModel::GItem(v@));
                                }
                                assert(expand_one(pm).take(j as int + 1) =~= expand_one(pm).take(
                                    j as int,
                                ).push(spec_encode(v@)));
                                assert(wire_models(out@) =~= wire_models(out0).push(w@));
                                assert(wire_models(out@) =~= spec_expand(all.take(i as int))
                                    + expand_one(pm).take(j as int + 1));
                            }
                        },
                        GroupArg::Odd(name) => {
                            proof {
                                assert(qm is GOdd);
                                assert(!flat_arg(all[i as int]));
                                assert(!encodable(all)) by {
                                    assert(0 <= (i as int) && (i as int) < all.len());
                                    assert(!flat_arg(all[i as int]));
                                }
                            }
                            let mut msg = String::from_str("unsupported parameter type: ");
                            msg.append(name.as_str());
                            return Err(Error::TypeConversion(msg));
                        },
                    }
                    j = j + 1;
                }
                proof {
                    assert(expand_one(pm).take(m as int) =~= expand_one(pm));
                    lemma_expand_snoc(all.take(i as int), pm);
                    assert(all.take(i as int + 1) =~= all.take(i as int).push(pm));
                    assert(flat_arg(pm));
                }
            },
            ParamInput::Unsupported(name) => {
                proof {
                    assert(pm is PUnsupported);
                    assert(!flat_arg(all[i as int]));
                    assert(!encodable(all)) by {
                        assert(0 <= (i as int) && (i as int) < all.len());
                        assert(!flat_arg(all[i as int]));
                    }
                }
                let mut msg = String::from_str("unsupported parameter type: ");
                msg.append(name.as_str());
                return Err(Error::TypeConversion(msg));
            },
        }
        proof {
            assert forall|q: int|
                0 <= q < all.take(i as int + 1).len() implies flat_arg(
                #[trigger] all.take(i as int + 1)[q],
            ) by {
                if q < i as int {
                    assert(all.take(i as int)[q] == all.take(i as int + 1)[q]);
                    assert(flat_arg(all.take(i as int)[q]));
                } else {
                    assert(all.take(i as int + 1)[q] == all[i as int]);
                    assert(flat_arg(all[i as int]));
                }
            }
        }
        i = i + 1;
    }
    proof {
        assert(all.take(n as int) =~= all);
    }
    Ok(out)
}

} // verus!
