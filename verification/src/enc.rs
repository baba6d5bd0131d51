//! Executable encoder for the schema-driven binary format, and the all-zero
//! default value of a schema.

use vstd::prelude::*;

use crate::codec::{
    spec_enc, spec_enc_array, spec_enc_list, wf_ty, wf_tys, wf_val, wf_val_array, wf_val_list,
    tys_view, vals_view, zero_bytes, lemma_vals_view_len, lemma_vals_view_index,
    lemma_tys_view_len, lemma_tys_view_index, FixedString, GTy, GVal, Ty, Value,
};

verus! {

broadcast use lemma_vals_view_len, lemma_vals_view_index, lemma_tys_view_len, lemma_tys_view_index;

pub proof fn lemma_wf_val_array_index(e: GTy, vs: Seq<GVal>, i: int)
    requires
        wf_val_array(e, vs),
        0 <= i < vs.len(),
    ensures
        wf_val(e, vs[i]),
    decreases i,
{
    if i > 0 {
        lemma_wf_val_array_index(e, vs.drop_first(), i - 1);
    }
}

pub proof fn lemma_wf_val_list_index(fs: Seq<GTy>, vs: Seq<GVal>, i: int)
    requires
        wf_val_list(fs, vs),
        0 <= i < fs.len(),
    ensures
        vs.len() == fs.len(),
        wf_val(fs[i], vs[i]),
    decreases i,
{
    if i > 0 {
        lemma_wf_val_list_index(fs.drop_first(), vs.drop_first(), i - 1);
    }
}

pub proof fn lemma_wf_tys_index(fs: Seq<GTy>, i: int)
    requires
        wf_tys(fs),
        0 <= i < fs.len(),
    ensures
        wf_ty(fs[i]),
    decreases i,
{
    if i > 0 {
        lemma_wf_tys_index(fs.drop_first(), i - 1);
    }
}

pub proof fn lemma_wf_val_array_push(e: GTy, vs: Seq<GVal>, v: GVal)
    requires
        wf_val_array(e, vs),
        wf_val(e, v),
    ensures
        wf_val_array(e, vs.push(v)),
    decreases vs.len(),
{
    if vs.len() == 0 {
        assert(vs.push(v)[0] == v);
        assert(vs.push(v).drop_first() =~= Seq::<GVal>::empty());
        assert(wf_val_array(e, Seq::<GVal>::empty()));
        assert(vs.push(v).len() == 1);
        assert(wf_val(e, vs.push(v)[0]));
        assert(wf_val_array(e, vs.push(v).drop_first()));
        assert(wf_val_array(e, vs.push(v)));
    } else {
        assert(vs.push(v)[0] == vs[0]);
        assert(vs.push(v).drop_first() =~= vs.drop_first().push(v));
        lemma_wf_val_array_push(e, vs.drop_first(), v);
        assert(wf_val(e, vs[0]));
        assert(wf_val_array(e, vs.push(v).drop_first()));
        assert(wf_val_array(e, vs.push(v)));
    }
}

pub proof fn lemma_wf_val_list_push(fs: Seq<GTy>, vs: Seq<GVal>, v: GVal, i: int)
    requires
        0 <= i < fs.len(),
        vs.len() == i,
        wf_val_list(fs.take(i), vs),
        wf_val(fs[i], v),
    ensures
        wf_val_list(fs.take(i + 1), vs.push(v)),
    decreases i,
{
    if i == 0 {
        assert(fs.take(1) =~= seq![fs[0]]);
        assert(vs.push(v) =~= seq![v]);
        assert(seq![fs[0]].drop_first() =~= Seq::<GTy>::empty());
        assert(seq![v].drop_first() =~= Seq::<GVal>::empty());
        assert(wf_val_list(Seq::<GTy>::empty(), Seq::<GVal>::empty()));
        assert(wf_val(fs.take(1)[0], vs.push(v)[0]));
        assert(wf_val_list(fs.take(1).drop_first(), vs.push(v).drop_first()));
        assert(wf_val_list(fs.take(i + 1), vs.push(v)));
    } else {
        let df = fs.drop_first();
        let dv = vs.drop_first();
        assert(fs.take(i + 1)[0] == fs[0]);
        assert(vs.push(v)[0] == vs[0]);
        assert(fs.take(i)[0] == fs[0]);
        assert(fs.take(i).drop_first() =~= df.take(i - 1));
        assert(fs.take(i + 1).drop_first() =~= df.take(i));
        assert(vs.push(v).drop_first() =~= dv.push(v));
        assert(df[i - 1] == fs[i]);
        lemma_wf_val_list_push(df, dv, v, i - 1);
        assert(wf_val(fs[0], vs[0]));
        assert(wf_val_list(fs.take(i + 1).drop_first(), vs.push(v).drop_first()));
        assert(wf_val_list(fs.take(i + 1), vs.push(v)));
    }
}

pub proof fn lemma_enc_array_take_succ(e: GTy, vs: Seq<GVal>, i: int)
    requires
        0 <= i < vs.len(),
    ensures
        spec_enc_array(e, vs.take(i + 1)) == spec_enc_array(e, vs.take(i)) + spec_enc(e, vs[i]),
    decreases i,
{
    if i == 0 {
        assert(vs.take(1) =~= seq![vs[0]]);
        assert(vs.take(0) =~= Seq::<GVal>::empty());
        assert(seq![vs[0]].drop_first() =~= Seq::<GVal>::empty());
        assert(spec_enc(e, vs[0]) + Seq::<u8>::empty() =~= spec_enc(e, vs[0]));
        assert(Seq::<u8>::empty() + spec_enc(e, vs[0]) =~= spec_enc(e, vs[0]));
    } else {
        let d = vs.drop_first();
        assert(vs.take(i + 1)[0] == vs[0]);
        assert(vs.take(i)[0] == vs[0]);
        assert(vs.take(i + 1).drop_first() =~= d.take(i));
        assert(vs.take(i).drop_first() =~= d.take(i - 1));
        assert(d[i - 1] == vs[i]);
        lemma_enc_array_take_succ(e, d, i - 1);
        assert(spec_enc(e, vs[0]) + (spec_enc_array(e, d.take(i - 1)) + spec_enc(e, vs[i])) =~= (
        spec_enc(e, vs[0]) + spec_enc_array(e, d.take(i - 1))) + spec_enc(e, vs[i]));
    }
}

pub proof fn lemma_enc_list_take_succ(fs: Seq<GTy>, vs: Seq<GVal>, i: int)
    requires
        0 <= i < fs.len(),
        i < vs.len(),
    ensures
        spec_enc_list(fs.take(i + 1), vs.take(i + 1)) == spec_enc_list(fs.take(i), vs.take(i))
            + spec_enc(fs[i], vs[i]),
    decreases i,
{
    if i == 0 {
        assert(fs.take(1) =~= seq![fs[0]]);
        assert(vs.take(1) =~= seq![vs[0]]);
        assert(fs.take(0) =~= Seq::<GTy>::empty());
        assert(seq![fs[0]].drop_first() =~= Seq::<GTy>::empty());
        assert(seq![vs[0]].drop_first() =~= Seq::<GVal>::empty());
        assert(spec_enc(fs[0], vs[0]) + Seq::<u8>::empty() =~= spec_enc(fs[0], vs[0]));
        assert(Seq::<u8>::empty() + spec_enc(fs[0], vs[0]) =~= spec_enc(fs[0], vs[0]));
        assert(fs.take(1).len() == 1);
        assert(vs.take(1).len() == 1);
        assert(fs.take(1)[0] == fs[0]);
        assert(vs.take(1)[0] == vs[0]);
        assert(fs.take(1).drop_first() =~= Seq::<GTy>::empty());
        assert(vs.take(1).drop_first() =~= Seq::<GVal>::empty());
        assert(spec_enc_list(Seq::<GTy>::empty(), Seq::<GVal>::empty()) =~= Seq::<u8>::empty());
        assert(spec_enc_list(fs.take(1), vs.take(1)) =~= spec_enc(fs[0], vs[0]));
        assert(spec_enc_list(fs.take(0), vs.take(0)) =~= Seq::<u8>::empty());
        assert(spec_enc_list(fs.take(i + 1), vs.take(i + 1)) =~= spec_enc_list(
            fs.take(i),
            vs.take(i),
        ) + spec_enc(fs[i], vs[i]));
    } else {
        let df = fs.drop_first();
        let dv = vs.drop_first();
        assert(fs.take(i + 1)[0] == fs[0]);
        assert(vs.take(i + 1)[0] == vs[0]);
        assert(fs.take(i)[0] == fs[0]);
        assert(vs.take(i)[0] == vs[0]);
        assert(fs.take(i + 1).drop_first() =~= df.take(i));
        assert(vs.take(i + 1).drop_first() =~= dv.take(i));
        assert(fs.take(i).drop_first() =~= df.take(i - 1));
        assert(vs.take(i).drop_first() =~= dv.take(i - 1));
        assert(df[i - 1] == fs[i]);
        assert(dv[i - 1] == vs[i]);
        lemma_enc_list_take_succ(df, dv, i - 1);
        assert(spec_enc(fs[0], vs[0]) + (spec_enc_list(df.take(i - 1), dv.take(i - 1)) + spec_enc(
            fs[i],
            vs[i],
        )) =~= (spec_enc(fs[0], vs[0]) + spec_enc_list(df.take(i - 1), dv.take(i - 1))) + spec_enc(
            fs[i],
            vs[i],
        ));
        assert(spec_enc_list(fs.take(i + 1), vs.take(i + 1)) == spec_enc(fs[0], vs[0])
            + spec_enc_list(df.take(i), dv.take(i)));
        assert(spec_enc_list(fs.take(i), vs.take(i)) == spec_enc(fs[0], vs[0]) + spec_enc_list(
            df.take(i - 1),
            dv.take(i - 1),
        ));
        assert(spec_enc_list(fs.take(i + 1), vs.take(i + 1)) =~= spec_enc_list(
            fs.take(i),
            vs.take(i),
        ) + spec_enc(fs[i], vs[i]));
    }
}

/// Appends the canonical encoding of `v` under schema node `t` to `out`.
#[verifier::loop_isolation(false)]
pub fn encode_value(t: &Ty, v: &Value, out: &mut Vec<u8>)
    requires
        wf_val(t@, v@),
    ensures
        final(out)@ == old(out)@ + spec_enc(t@, v@),
    decreases *t,
{
    let ghost out0 = out@;
    match (t, v) {
        (Ty::Bool, Value::Bool(x)) => {
            out.push(if *x { 1u8 } else { 0u8 });
            proof {
                assert(out@ =~= out0 + spec_enc(t@, v@));
            }
        },
        (Ty::U8, Value::U8(x)) => {
            out.push(*x);
            proof {
                assert(out@ =~= out0 + spec_enc(t@, v@));
            }
        },
        (Ty::I32, Value::I32(x)) => {
            let mut bytes = vstd::bytes::u32_to_le_bytes(#[verifier::truncate] (*x as u32));
            out.append(&mut bytes);
            proof {
                assert(((*x as u32) as i32) == *x) by (bit_vector);
            }
        },
        (Ty::F32, Value::F32(x)) => {
            let mut bytes = vstd::bytes::u32_to_le_bytes(*x);
            out.append(&mut bytes);
        },
        (Ty::Enum(_), Value::Enum(x)) => {
            out.push(*x);
            proof {
                assert(out@ =~= out0 + spec_enc(t@, v@));
            }
        },
        (Ty::Str(w), Value::Str(s)) => {
            out.extend_from_slice(s.bytes.as_slice());
            let live = s.bytes.len();
            let mut j: usize = live;
            while j < *w
                invariant
                    live <= j <= *w,
                    out@ == out0 + s@ + zero_bytes((j - live) as nat),
                decreases *w - j,
            {
                out.push(0u8);
                proof {
                    assert(out@ =~= out0 + s@ + zero_bytes((j + 1 - live) as nat));
                }
                j = j + 1;
            }
            proof {
                assert(out0 + s@ + zero_bytes((*w - live) as nat) =~= out0 + (s@ + zero_bytes(
                    (*w - live) as nat,
                )));
                assert(out@ =~= out0 + spec_enc(t@, v@));
            }
        },
        (Ty::Array(e, n), Value::Array(vs)) => {
            let et: &Ty = &**e;
            let ghost ev = et@;
            let ghost vsv = vals_view(vs@);
            let m = vs.len();
            let mut i: usize = 0;
            proof {
                assert(t@ == GTy::Array(Box::new(ev), *n as nat));
                assert(vsv.take(0) =~= Seq::<GVal>::empty());
                assert(out0 + Seq::<u8>::empty() =~= out0);
            }
            while i < m
                invariant
                    i <= m,
                    out@ == out0 + spec_enc_array(ev, vsv.take(i as int)),
                decreases m - i,
            {
                proof {
                    assert(*t == Ty::Array(*e, *n));
                    assert(decreases_to!(*t => **e));
                    lemma_wf_val_array_index(ev, vsv, i as int);
                    assert(vsv[i as int] == (&vs[i as int])@);
                }
                encode_value(et, &vs[i], out);
                proof {
                    lemma_enc_array_take_succ(ev, vsv, i as int);
                    assert((out0 + spec_enc_array(ev, vsv.take(i as int))) + spec_enc(
                        ev,
                        vsv[i as int],
                    ) =~= out0 + (spec_enc_array(ev, vsv.take(i as int)) + spec_enc(
                        ev,
                        vsv[i as int],
                    )));
                }
                i = i + 1;
            }
            proof {
                assert(vsv.take(m as int) =~= vsv);
            }
        },
        (Ty::Struct(fs), Value::Struct(vs)) => {
            let ghost fsv = tys_view(fs@);
            let ghost vsv = vals_view(vs@);
            let m = fs.len();
            let mut i: usize = 0;
            proof {
                assert(t@ == GTy::Struct(fsv));
                assert(fsv.take(0) =~= Seq::<GTy>::empty());
                assert(vsv.take(0) =~= Seq::<GVal>::empty());
                assert(out0 + Seq::<u8>::empty() =~= out0);
            }
            while i < m
                invariant
                    i <= m,
                    out@ == out0 + spec_enc_list(fsv.take(i as int), vsv.take(i as int)),
                decreases m - i,
            {
                proof {
                    assert(*t == Ty::Struct(*fs));
                    assert(decreases_to!(*t => *fs));
                    assert(decreases_to!(*fs => fs@[i as int]));
                    assert(decreases_to!(*t => fs@[i as int]));
                    lemma_wf_val_list_index(fsv, vsv, i as int);
                    assert(fsv[i as int] == (&fs[i as int])@);
                    assert(vsv[i as int] == (&vs[i as int])@);
                }
                encode_value(&fs[i], &vs[i], out);
                proof {
                    lemma_enc_list_take_succ(fsv, vsv, i as int);
                    assert((out0 + spec_enc_list(fsv.take(i as int), vsv.take(i as int)))
                        + spec_enc(fsv[i as int], vsv[i as int]) =~= out0 + (spec_enc_list(
                        fsv.take(i as int),
                        vsv.take(i as int),
                    ) + spec_enc(fsv[i as int], vsv[i as int])));
                }
                i = i + 1;
            }
            proof {
                assert(fsv.take(m as int) =~= fsv);
                assert(vsv.take(m as int) =~= vsv);
            }
        },
        _ => {
            proof {
                assert(false);
            }
        },
    }
}

/// The canonical encoding of a well-formed value as a fresh byte vector.
pub fn encode(t: &Ty, v: &Value) -> (r: Vec<u8>)
    requires
        wf_val(t@, v@),
    ensures
        r@ == spec_enc(t@, v@),
{
    let mut out: Vec<u8> = Vec::new();
    encode_value(t, v, &mut out);
    proof {
        assert(Seq::<u8>::empty() + spec_enc(t@, v@) =~= spec_enc(t@, v@));
    }
    out
}

/// The all-zero value of a schema node: numbers zero, booleans false, enums
/// at their first variant, strings empty. Its encoding is all zero bytes.
#[verifier::loop_isolation(false)]
pub fn default_value(t: &Ty) -> (r: Value)
    requires
        wf_ty(t@),
    ensures
        wf_val(t@, r@),
    decreases *t,
{
    match t {
        Ty::Bool => Value::Bool(false),
        Ty::U8 => Value::U8(0),
        Ty::I32 => Value::I32(0),
        Ty::F32 => Value::F32(0),
        Ty::Enum(_) => Value::Enum(0),
        Ty::Str(_) => {
            let r = Value::Str(FixedString { bytes: Vec::new() });
            proof {
                assert(vstd::utf8::valid_utf8(Seq::<u8>::empty()));
            }
            r
        },
        Ty::Array(e, n) => {
            let et: &Ty = &**e;
            let ghost ev = et@;
            let mut vs: Vec<Value> = Vec::new();
            let mut i: usize = 0;
            while i < *n
                invariant
                    i <= *n,
                    vs@.len() == i,
                    wf_val_array(ev, vals_view(vs@)),
                decreases *n - i,
            {
                proof {
                    assert(*t == Ty::Array(*e, *n));
                    assert(decreases_to!(*t => **e));
                }
                let v = default_value(et);
                proof {
                    lemma_wf_val_array_push(ev, vals_view(vs@), v@);
                    assert(vals_view(vs@.push(v)) =~= vals_view(vs@).push(v@));
                }
                vs.push(v);
                i = i + 1;
            }
            Value::Array(vs)
        },
        Ty::Struct(fs) => {
            let ghost fsv = tys_view(fs@);
            let mut vs: Vec<Value> = Vec::new();
            let m = fs.len();
            let mut i: usize = 0;
            proof {
                assert(t@ == GTy::Struct(fsv));
                assert(fsv.take(0) =~= Seq::<GTy>::empty());
            }
            while i < m
                invariant
                    i <= m,
                    vs@.len() == i,
                    wf_val_list(fsv.take(i as int), vals_view(vs@)),
                decreases m - i,
            {
                proof {
                    assert(*t == Ty::Struct(*fs));
                    assert(decreases_to!(*t => *fs));
                    assert(decreases_to!(*fs => fs@[i as int]));
                    assert(decreases_to!(*t => fs@[i as int]));
                    lemma_wf_tys_index(fsv, i as int);
                    assert(fsv[i as int] == (&fs[i as int])@);
                }
                let v = default_value(&fs[i]);
                proof {
                    lemma_wf_val_list_push(fsv, vals_view(vs@), v@, i as int);
                    assert(vals_view(vs@.push(v)) =~= vals_view(vs@).push(v@));
                }
                vs.push(v);
                i = i + 1;
            }
            proof {
                assert(fsv.take(m as int) =~= fsv);
            }
            Value::Struct(vs)
        },
    }
}

} // verus!
