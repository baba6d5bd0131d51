//! Schema-driven binary codec for the player progression blob.
//!
//! The wire format is not self-describing: every field's size and position is
//! determined solely by a schema value of type [`Ty`]. All forms are fixed
//! width, so a schema has a single well-defined byte size. The only wire-level
//! rules beyond the schema are the null-padded UTF-8 rule for fixed strings
//! and the "byte != 0 means true" rule for booleans.

use vstd::prelude::*;

verus! {

/// A schema node: the type of one encoded field.
///
/// 32-bit floating-point fields are carried as their raw little-endian bit
/// pattern; the codec assigns them no numeric meaning.
#[derive(Debug)]
pub enum Ty {
    /// One byte; zero is false, anything else is true.
    Bool,
    /// One byte.
    U8,
    /// Four bytes, little-endian two's complement.
    I32,
    /// Four bytes, little-endian; held as raw bits.
    F32,
    /// One byte holding an index into a variant list of the given length.
    Enum(u16),
    /// A fixed-width string: exactly this many bytes, UTF-8 up to the first
    /// zero byte, the padding after it discarded.
    Str(usize),
    /// A fixed-size array: back-to-back encodings of the element type.
    Array(Box<Ty>, usize),
    /// Each declared field encoded in order, no padding, no length prefix.
    Struct(Vec<Ty>),
}

/// The mathematical form of a schema node.
#[verifier::ext_equal]
pub enum GTy {
    Bool,
    U8,
    I32,
    F32,
    Enum(u16),
    Str(nat),
    Array(Box<GTy>, nat),
    Struct(Seq<GTy>),
}

/// A decoded field value, shaped by the schema node it was decoded with.
#[derive(Debug)]
pub enum Value {
    Bool(bool),
    U8(u8),
    I32(i32),
    F32(u32),
    Enum(u8),
    Str(FixedString),
    Array(Vec<Value>),
    Struct(Vec<Value>),
}

/// The live text of a fixed-width string field: the bytes before the first
/// zero byte, which must be valid UTF-8.
#[derive(Debug)]
pub struct FixedString {
    pub bytes: Vec<u8>,
}

/// The mathematical form of a decoded value.
#[verifier::ext_equal]
pub enum GVal {
    Bool(bool),
    U8(u8),
    I32(i32),
    F32(u32),
    Enum(u8),
    Str(Seq<u8>),
    Array(Seq<GVal>),
    Struct(Seq<GVal>),
}

impl View for FixedString {
    type V = Seq<u8>;

    open spec fn view(&self) -> Seq<u8> {
        self.bytes@
    }
}

pub open spec fn ty_view(t: Ty) -> GTy
    decreases t,
{
    match t {
        Ty::Bool => GTy::Bool,
        Ty::U8 => GTy::U8,
        Ty::I32 => GTy::I32,
        Ty::F32 => GTy::F32,
        Ty::Enum(n) => GTy::Enum(n),
        Ty::Str(w) => GTy::Str(w as nat),
        Ty::Array(e, n) => GTy::Array(Box::new(ty_view(*e)), n as nat),
        Ty::Struct(fs) => GTy::Struct(tys_view(fs@)),
    }
}

pub open spec fn tys_view(ts: Seq<Ty>) -> Seq<GTy>
    decreases ts,
{
    if ts.len() == 0 {
        Seq::empty()
    } else {
        tys_view(ts.drop_last()).push(ty_view(ts.last()))
    }
}

pub broadcast proof fn lemma_tys_view_len(ts: Seq<Ty>)
    ensures
        #[trigger] tys_view(ts).len() == ts.len(),
    decreases ts,
{
    if ts.len() != 0 {
        lemma_tys_view_len(ts.drop_last());
    }
}

pub broadcast proof fn lemma_tys_view_index(ts: Seq<Ty>, i: int)
    requires
        0 <= i < ts.len(),
    ensures
        #[trigger] tys_view(ts)[i] == ty_view(ts[i]),
    decreases ts,
{
    lemma_tys_view_len(ts);
    if ts.len() != 0 && i < ts.len() - 1 {
        lemma_tys_view_index(ts.drop_last(), i);
    }
}

impl View for Ty {
    type V = GTy;

    open spec fn view(&self) -> GTy {
        ty_view(*self)
    }
}

pub open spec fn val_view(v: Value) -> GVal
    decreases v,
{
    match v {
        Value::Bool(x) => GVal::Bool(x),
        Value::U8(x) => GVal::U8(x),
        Value::I32(x) => GVal::I32(x),
        Value::F32(x) => GVal::F32(x),
        Value::Enum(x) => GVal::Enum(x),
        Value::Str(s) => GVal::Str(s@),
        Value::Array(vs) => GVal::Array(vals_view(vs@)),
        Value::Struct(vs) => GVal::Struct(vals_view(vs@)),
    }
}

pub open spec fn vals_view(vs: Seq<Value>) -> Seq<GVal>
    decreases vs,
{
    if vs.len() == 0 {
        Seq::empty()
    } else {
        vals_view(vs.drop_last()).push(val_view(vs.last()))
    }
}

pub broadcast proof fn lemma_vals_view_len(vs: Seq<Value>)
    ensures
        #[trigger] vals_view(vs).len() == vs.len(),
    decreases vs,
{
    if vs.len() != 0 {
        lemma_vals_view_len(vs.drop_last());
    }
}

pub broadcast proof fn lemma_vals_view_index(vs: Seq<Value>, i: int)
    requires
        0 <= i < vs.len(),
    ensures
        #[trigger] vals_view(vs)[i] == val_view(vs[i]),
    decreases vs,
{
    lemma_vals_view_len(vs);
    if vs.len() != 0 && i < vs.len() - 1 {
        lemma_vals_view_index(vs.drop_last(), i);
    }
}

impl View for Value {
    type V = GVal;

    open spec fn view(&self) -> GVal {
        val_view(*self)
    }
}

pub broadcast proof fn lemma_tys_view_push(ts: Seq<Ty>, t: Ty)
    ensures
        #[trigger] tys_view(ts.push(t)) == tys_view(ts).push(ty_view(t)),
{
    assert(ts.push(t).drop_last() =~= ts);
}

pub broadcast proof fn lemma_tys_view_concat(a: Seq<Ty>, b: Seq<Ty>)
    ensures
        #[trigger] tys_view(a + b) == tys_view(a) + tys_view(b),
    decreases b.len(),
{
    if b.len() == 0 {
        assert(a + b =~= a);
        assert(tys_view(a) + tys_view(b) =~= tys_view(a));
    } else {
        lemma_tys_view_concat(a, b.drop_last());
        assert((a + b).drop_last() =~= a + b.drop_last());
        assert((a + b).last() == b.last());
        lemma_tys_view_len(a);
        lemma_tys_view_len(b);
        lemma_tys_view_len(b.drop_last());
        assert((tys_view(a) + tys_view(b.drop_last())).push(ty_view(b.last())) =~= tys_view(a)
            + tys_view(b));
    }
}

/// The exact number of bytes that a value of this schema node occupies.
pub open spec fn ty_size(t: GTy) -> nat
    decreases t,
{
    match t {
        GTy::Bool => 1,
        GTy::U8 => 1,
        GTy::I32 => 4,
        GTy::F32 => 4,
        GTy::Enum(_) => 1,
        GTy::Str(w) => w,
        GTy::Array(e, n) => n * ty_size(*e),
        GTy::Struct(fs) => tys_size(fs),
    }
}

pub open spec fn tys_size(fs: Seq<GTy>) -> nat
    decreases fs,
{
    if fs.len() == 0 {
        0
    } else {
        ty_size(fs[0]) + tys_size(fs.drop_first())
    }
}

/// A well-formed schema node: every variant list is non-empty and indexable
/// by one byte.
pub open spec fn wf_ty(t: GTy) -> bool
    decreases t,
{
    match t {
        GTy::Enum(n) => 1 <= n <= 256,
        GTy::Array(e, _) => wf_ty(*e),
        GTy::Struct(fs) => wf_tys(fs),
        _ => true,
    }
}

pub open spec fn wf_tys(fs: Seq<GTy>) -> bool
    decreases fs,
{
    if fs.len() == 0 {
        true
    } else {
        wf_ty(fs[0]) && wf_tys(fs.drop_first())
    }
}

pub proof fn lemma_wf_tys_push(fs: Seq<GTy>, t: GTy)
    requires
        wf_tys(fs),
        wf_ty(t),
    ensures
        wf_tys(fs.push(t)),
    decreases fs.len(),
{
    if fs.len() == 0 {
        assert(fs.push(t)[0] == t);
        assert(fs.push(t).drop_first() =~= Seq::<GTy>::empty());
        assert(wf_tys(fs.push(t).drop_first()));
        assert(wf_tys(fs.push(t)));
    } else {
        assert(fs.push(t)[0] == fs[0]);
        assert(fs.push(t).drop_first() =~= fs.drop_first().push(t));
        lemma_wf_tys_push(fs.drop_first(), t);
        assert(wf_tys(fs.push(t)));
    }
}

pub proof fn lemma_wf_tys_concat(a: Seq<GTy>, b: Seq<GTy>)
    requires
        wf_tys(a),
        wf_tys(b),
    ensures
        wf_tys(a + b),
    decreases a.len(),
{
    if a.len() == 0 {
        assert(a + b =~= b);
    } else {
        assert((a + b)[0] == a[0]);
        assert((a + b).drop_first() =~= a.drop_first() + b);
        lemma_wf_tys_concat(a.drop_first(), b);
        assert(wf_tys(a + b));
    }
}

/// Appends one field type to a schema under construction, keeping track of
/// the fields' mathematical form and well-formedness.
pub fn push_field(fs: &mut Vec<Ty>, t: Ty)
    requires
        wf_tys(tys_view(old(fs)@)),
        wf_ty(ty_view(t)),
    ensures
        tys_view(final(fs)@) == tys_view(old(fs)@).push(ty_view(t)),
        wf_tys(tys_view(final(fs)@)),
{
    proof {
        lemma_tys_view_push(fs@, t);
        lemma_wf_tys_push(tys_view(fs@), ty_view(t));
    }
    fs.push(t);
}

/// Builds a fixed-size array schema node over a well-formed element type.
pub fn array_of(e: Ty, n: usize) -> (t: Ty)
    requires
        wf_ty(ty_view(e)),
    ensures
        ty_view(t) == GTy::Array(Box::new(ty_view(e)), n as nat),
        wf_ty(ty_view(t)),
{
    let ghost ev = ty_view(e);
    let t = Ty::Array(Box::new(e), n);
    proof {
        assert(ty_view(t) == GTy::Array(Box::new(ev), n as nat));
        assert(wf_ty(GTy::Array(Box::new(ev), n as nat)));
    }
    t
}

/// The length of the live prefix of a fixed-width string: the number of bytes
/// before the first zero byte, or the whole width when no zero byte occurs.
pub open spec fn live_len(b: Seq<u8>) -> int
    decreases b,
{
    if b.len() == 0 {
        0
    } else if b[0] == 0 {
        0
    } else {
        1 + live_len(b.drop_first())
    }
}

pub proof fn lemma_live_len_bounds(b: Seq<u8>)
    ensures
        0 <= live_len(b) <= b.len(),
        forall|i: int| 0 <= i < live_len(b) ==> b[i] != 0,
        live_len(b) < b.len() ==> b[live_len(b)] == 0,
    decreases b.len(),
{
    if b.len() != 0 && b[0] != 0 {
        lemma_live_len_bounds(b.drop_first());
        assert forall|i: int| 0 <= i < live_len(b) implies b[i] != 0 by {
            if i > 0 {
                assert(b.drop_first()[i - 1] != 0);
            }
        }
    }
}

/// The live-prefix length is determined by its characterisation: if the first
/// `j` bytes are non-zero and either the string ends there or a zero byte
/// follows, then the live prefix has length `j`.
pub proof fn lemma_live_len_is(b: Seq<u8>, j: int)
    requires
        0 <= j <= b.len(),
        forall|i: int| 0 <= i < j ==> b[i] != 0,
        j == b.len() || b[j] == 0,
    ensures
        live_len(b) == j,
    decreases j,
{
    if j == 0 {
    } else {
        assert(b[0] != 0);
        lemma_live_len_is(b.drop_first(), j - 1);
    }
}

/// A sequence of `n` zero bytes.
pub open spec fn zero_bytes(n: nat) -> Seq<u8> {
    Seq::new(n, |i: int| 0u8)
}

/// What a value of schema node `t` decodes to from the byte sequence `b`:
/// the value read from the first `ty_size(t)` bytes, or `None` when the bytes
/// are too short, an enum byte is out of range, or a string's live prefix is
/// not valid UTF-8.
pub open spec fn spec_dec(t: GTy, b: Seq<u8>) -> Option<GVal>
    decreases t, 0nat,
{
    match t {
        GTy::Bool => if b.len() >= 1 {
            Some(GVal::Bool(b[0] != 0))
        } else {
            None
        },
        GTy::U8 => if b.len() >= 1 {
            Some(GVal::U8(b[0]))
        } else {
            None
        },
        GTy::I32 => if b.len() >= 4 {
            Some(GVal::I32(vstd::bytes::spec_u32_from_le_bytes(b.take(4)) as i32))
        } else {
            None
        },
        GTy::F32 => if b.len() >= 4 {
            Some(GVal::F32(vstd::bytes::spec_u32_from_le_bytes(b.take(4))))
        } else {
            None
        },
        GTy::Enum(n) => if b.len() >= 1 && (b[0] as u16) < n {
            Some(GVal::Enum(b[0]))
        } else {
            None
        },
        GTy::Str(w) => if b.len() >= w {
            let live = b.take(w as int).take(live_len(b.take(w as int)));
            if vstd::utf8::valid_utf8(live) {
                Some(GVal::Str(live))
            } else {
                None
            }
        } else {
            None
        },
        GTy::Array(e, n) => match spec_dec_array(*e, n, b) {
            Some(vs) => Some(GVal::Array(vs)),
            None => None,
        },
        GTy::Struct(fs) => match spec_dec_list(fs, b) {
            Some(vs) => Some(GVal::Struct(vs)),
            None => None,
        },
    }
}

pub open spec fn spec_dec_array(e: GTy, n: nat, b: Seq<u8>) -> Option<Seq<GVal>>
    decreases e, n,
{
    if n == 0 {
        Some(Seq::empty())
    } else {
        match spec_dec(e, b) {
            Some(v) => match spec_dec_array(e, (n - 1) as nat, b.skip(ty_size(e) as int)) {
                Some(vs) => Some(seq![v] + vs),
                None => None,
            },
            None => None,
        }
    }
}

pub open spec fn spec_dec_list(fs: Seq<GTy>, b: Seq<u8>) -> Option<Seq<GVal>>
    decreases fs, 0nat,
{
    if fs.len() == 0 {
        Some(Seq::empty())
    } else {
        match spec_dec(fs[0], b) {
            Some(v) => match spec_dec_list(fs.drop_first(), b.skip(ty_size(fs[0]) as int)) {
                Some(vs) => Some(seq![v] + vs),
                None => None,
            },
            None => None,
        }
    }
}

/// Why a decode fails: the input ran short, an enum byte was out of range,
/// or a string's live prefix was not valid UTF-8.
pub enum GErr {
    Short,
    BadEnum,
    BadText,
}

/// The cause of the first failure when `spec_dec(t, b)` is `None`: failures
/// are classified in reading order, so the cause is that of the first field
/// that does not decode.
pub open spec fn spec_dec_err(t: GTy, b: Seq<u8>) -> GErr
    decreases t, 0nat,
{
    match t {
        GTy::Bool => GErr::Short,
        GTy::U8 => GErr::Short,
        GTy::I32 => GErr::Short,
        GTy::F32 => GErr::Short,
        GTy::Enum(n) => if b.len() < 1 {
            GErr::Short
        } else {
            GErr::BadEnum
        },
        GTy::Str(w) => if b.len() < w {
            GErr::Short
        } else {
            GErr::BadText
        },
        GTy::Array(e, n) => spec_dec_array_err(*e, n, b),
        GTy::Struct(fs) => spec_dec_list_err(fs, b),
    }
}

pub open spec fn spec_dec_array_err(e: GTy, n: nat, b: Seq<u8>) -> GErr
    decreases e, n,
{
    if n == 0 {
        GErr::Short
    } else {
        match spec_dec(e, b) {
            None => spec_dec_err(e, b),
            Some(_) => spec_dec_array_err(e, (n - 1) as nat, b.skip(ty_size(e) as int)),
        }
    }
}

pub open spec fn spec_dec_list_err(fs: Seq<GTy>, b: Seq<u8>) -> GErr
    decreases fs, 0nat,
{
    if fs.len() == 0 {
        GErr::Short
    } else {
        match spec_dec(fs[0], b) {
            None => spec_dec_err(fs[0], b),
            Some(_) => spec_dec_list_err(fs.drop_first(), b.skip(ty_size(fs[0]) as int)),
        }
    }
}

/// A value has the shape that a schema node calls for, every enum index is in
/// range, and every string's live text is zero-free valid UTF-8 that fits the
/// field width.
pub open spec fn wf_val(t: GTy, v: GVal) -> bool
    decreases t, 0nat,
{
    match t {
        GTy::Bool => v is Bool,
        GTy::U8 => v is U8,
        GTy::I32 => v is I32,
        GTy::F32 => v is F32,
        GTy::Enum(n) => match v {
            GVal::Enum(x) => (x as u16) < n,
            _ => false,
        },
        GTy::Str(w) => match v {
            GVal::Str(live) => live.len() <= w && vstd::utf8::valid_utf8(live) && (forall|i: int|
                0 <= i < live.len() ==> live[i] != 0),
            _ => false,
        },
        GTy::Array(e, n) => match v {
            GVal::Array(vs) => vs.len() == n && wf_val_array(*e, vs),
            _ => false,
        },
        GTy::Struct(fs) => match v {
            GVal::Struct(vs) => wf_val_list(fs, vs),
            _ => false,
        },
    }
}

pub open spec fn wf_val_array(e: GTy, vs: Seq<GVal>) -> bool
    decreases e, vs.len(),
{
    if vs.len() == 0 {
        true
    } else {
        wf_val(e, vs[0]) && wf_val_array(e, vs.drop_first())
    }
}

pub open spec fn wf_val_list(fs: Seq<GTy>, vs: Seq<GVal>) -> bool
    decreases fs, 0nat,
{
    if fs.len() != vs.len() {
        false
    } else if fs.len() == 0 {
        true
    } else {
        wf_val(fs[0], vs[0]) && wf_val_list(fs.drop_first(), vs.drop_first())
    }
}

/// The canonical encoding of a well-formed value: the inverse of `spec_dec`,
/// with booleans written as zero or one and strings padded with zero bytes to
/// their field width.
pub open spec fn spec_enc(t: GTy, v: GVal) -> Seq<u8>
    decreases t, 0nat,
{
    match t {
        GTy::Bool => match v {
            GVal::Bool(x) => seq![if x { 1u8 } else { 0u8 }],
            _ => Seq::empty(),
        },
        GTy::U8 => match v {
            GVal::U8(x) => seq![x],
            _ => Seq::empty(),
        },
        GTy::I32 => match v {
            GVal::I32(x) => vstd::bytes::spec_u32_to_le_bytes(x as u32),
            _ => Seq::empty(),
        },
        GTy::F32 => match v {
            GVal::F32(x) => vstd::bytes::spec_u32_to_le_bytes(x),
            _ => Seq::empty(),
        },
        GTy::Enum(_) => match v {
            GVal::Enum(x) => seq![x],
            _ => Seq::empty(),
        },
        GTy::Str(w) => match v {
            GVal::Str(live) => if live.len() <= w {
                live + zero_bytes((w - live.len()) as nat)
            } else {
                live.take(w as int)
            },
            _ => Seq::empty(),
        },
        GTy::Array(e, _) => match v {
            GVal::Array(vs) => spec_enc_array(*e, vs),
            _ => Seq::empty(),
        },
        GTy::Struct(fs) => match v {
            GVal::Struct(vs) => spec_enc_list(fs, vs),
            _ => Seq::empty(),
        },
    }
}

pub open spec fn spec_enc_array(e: GTy, vs: Seq<GVal>) -> Seq<u8>
    decreases e, vs.len(),
{
    if vs.len() == 0 {
        Seq::empty()
    } else {
        spec_enc(e, vs[0]) + spec_enc_array(e, vs.drop_first())
    }
}

pub open spec fn spec_enc_list(fs: Seq<GTy>, vs: Seq<GVal>) -> Seq<u8>
    decreases fs, 0nat,
{
    if fs.len() == 0 || vs.len() == 0 {
        Seq::empty()
    } else {
        spec_enc(fs[0], vs[0]) + spec_enc_list(fs.drop_first(), vs.drop_first())
    }
}

/// A well-formed value encodes to exactly the byte size of its schema node.
pub proof fn lemma_enc_size(t: GTy, v: GVal)
    requires
        wf_val(t, v),
    ensures
        spec_enc(t, v).len() == ty_size(t),
    decreases t, 0nat,
{
    match t {
        GTy::Array(e, n) => match v {
            GVal::Array(vs) => {
                lemma_enc_array_size(*e, vs);
            },
            _ => {},
        },
        GTy::Struct(fs) => match v {
            GVal::Struct(vs) => {
                lemma_enc_list_size(fs, vs);
            },
            _ => {},
        },
        _ => {
            vstd::bytes::lemma_auto_spec_u32_to_from_le_bytes();
        },
    }
}

pub proof fn lemma_enc_array_size(e: GTy, vs: Seq<GVal>)
    requires
        wf_val_array(e, vs),
    ensures
        spec_enc_array(e, vs).len() == vs.len() * ty_size(e),
    decreases e, vs.len(),
{
    if vs.len() != 0 {
        lemma_enc_size(e, vs[0]);
        lemma_enc_array_size(e, vs.drop_first());
        assert(vs.len() * ty_size(e) == ty_size(e) + (vs.len() - 1) * ty_size(e)) by (nonlinear_arith)
            requires
                vs.len() >= 1,
        ;
    } else {
        assert(vs.len() * ty_size(e) == 0) by (nonlinear_arith)
            requires
                vs.len() == 0,
        ;
    }
}

pub proof fn lemma_enc_list_size(fs: Seq<GTy>, vs: Seq<GVal>)
    requires
        wf_val_list(fs, vs),
    ensures
        spec_enc_list(fs, vs).len() == tys_size(fs),
    decreases fs, 0nat,
{
    if fs.len() != 0 {
        lemma_enc_size(fs[0], vs[0]);
        lemma_enc_list_size(fs.drop_first(), vs.drop_first());
    }
}

/// Round trip: decoding the encoding of a well-formed value yields that value
/// back, whatever bytes follow the encoding.
pub proof fn lemma_dec_enc(t: GTy, v: GVal, rest: Seq<u8>)
    requires
        wf_ty(t),
        wf_val(t, v),
    ensures
        spec_dec(t, spec_enc(t, v) + rest) == Some(v),
    decreases t, 0nat,
{
    let b = spec_enc(t, v) + rest;
    lemma_enc_size(t, v);
    match t {
        GTy::Bool => {
            assert(b.take(1) =~= spec_enc(t, v));
        },
        GTy::U8 => {},
        GTy::I32 => {
            match v {
                GVal::I32(x) => {
                    assert(b.take(4) =~= vstd::bytes::spec_u32_to_le_bytes(x as u32));
                    vstd::bytes::lemma_auto_spec_u32_to_from_le_bytes();
                    assert(vstd::bytes::spec_u32_from_le_bytes(b.take(4)) == x as u32);
                    assert(((x as u32) as i32) == x) by (bit_vector);
                },
                _ => {},
            }
        },
        GTy::F32 => {
            match v {
                GVal::F32(x) => {
                    assert(b.take(4) =~= vstd::bytes::spec_u32_to_le_bytes(x));
                    vstd::bytes::lemma_auto_spec_u32_to_from_le_bytes();
                },
                _ => {},
            }
        },
        GTy::Enum(_) => {},
        GTy::Str(w) => {
            match v {
                GVal::Str(live) => {
                    let window = b.take(w as int);
                    assert(window =~= live + zero_bytes((w - live.len()) as nat));
                    lemma_live_len_is(window, live.len() as int);
                    assert(window.take(live.len() as int) =~= live);
                },
                _ => {},
            }
        },
        GTy::Array(e, n) => {
            match v {
                GVal::Array(vs) => {
                    lemma_dec_enc_array(*e, vs, rest);
                },
                _ => {},
            }
        },
        GTy::Struct(fs) => {
            match v {
                GVal::Struct(vs) => {
                    lemma_dec_enc_list(fs, vs, rest);
                },
                _ => {},
            }
        },
    }
}

pub proof fn lemma_dec_enc_array(e: GTy, vs: Seq<GVal>, rest: Seq<u8>)
    requires
        wf_ty(e),
        wf_val_array(e, vs),
    ensures
        spec_dec_array(e, vs.len(), spec_enc_array(e, vs) + rest) == Some(vs),
    decreases e, vs.len(),
{
    if vs.len() == 0 {
        assert(spec_enc_array(e, vs) + rest =~= rest);
        assert(spec_dec_array(e, 0, rest) == Some(Seq::<GVal>::empty()));
        assert(vs =~= Seq::<GVal>::empty());
    } else {
        let tail_enc = spec_enc_array(e, vs.drop_first()) + rest;
        let b = spec_enc_array(e, vs) + rest;
        assert(b =~= spec_enc(e, vs[0]) + tail_enc);
        lemma_dec_enc(e, vs[0], tail_enc);
        lemma_enc_size(e, vs[0]);
        assert(b.skip(ty_size(e) as int) =~= tail_enc);
        lemma_dec_enc_array(e, vs.drop_first(), rest);
        assert(seq![vs[0]] + vs.drop_first() =~= vs);
    }
}

pub proof fn lemma_dec_enc_list(fs: Seq<GTy>, vs: Seq<GVal>, rest: Seq<u8>)
    requires
        wf_tys(fs),
        wf_val_list(fs, vs),
    ensures
        spec_dec_list(fs, spec_enc_list(fs, vs) + rest) == Some(vs),
    decreases fs, 0nat,
{
    if fs.len() == 0 {
        assert(vs =~= Seq::<GVal>::empty());
    } else {
        let tail_enc = spec_enc_list(fs.drop_first(), vs.drop_first()) + rest;
        let b = spec_enc_list(fs, vs) + rest;
        assert(b =~= spec_enc(fs[0], vs[0]) + tail_enc);
        lemma_dec_enc(fs[0], vs[0], tail_enc);
        lemma_enc_size(fs[0], vs[0]);
        assert(b.skip(ty_size(fs[0]) as int) =~= tail_enc);
        lemma_dec_enc_list(fs.drop_first(), vs.drop_first(), rest);
        assert(seq![vs[0]] + vs.drop_first() =~= vs);
    }
}

/// Whatever decodes is well formed.
pub proof fn lemma_dec_wf(t: GTy, b: Seq<u8>)
    requires
        spec_dec(t, b) is Some,
    ensures
        wf_val(t, spec_dec(t, b)->Some_0),
    decreases t, 0nat,
{
    match t {
        GTy::Str(w) => {
            let window = b.take(w as int);
            lemma_live_len_bounds(window);
        },
        GTy::Array(e, n) => {
            lemma_dec_wf_array(*e, n, b);
        },
        GTy::Struct(fs) => {
            lemma_dec_wf_list(fs, b);
        },
        _ => {},
    }
}

pub proof fn lemma_dec_wf_array(e: GTy, n: nat, b: Seq<u8>)
    requires
        spec_dec_array(e, n, b) is Some,
    ensures
        ({
            let vs = spec_dec_array(e, n, b)->Some_0;
            vs.len() == n && wf_val_array(e, vs)
        }),
    decreases e, n,
{
    if n != 0 {
        lemma_dec_wf(e, b);
        lemma_dec_wf_array(e, (n - 1) as nat, b.skip(ty_size(e) as int));
        let v = spec_dec(e, b)->Some_0;
        let vs = spec_dec_array(e, (n - 1) as nat, b.skip(ty_size(e) as int))->Some_0;
        assert((seq![v] + vs).drop_first() =~= vs);
    }
}

pub proof fn lemma_dec_wf_list(fs: Seq<GTy>, b: Seq<u8>)
    requires
        spec_dec_list(fs, b) is Some,
    ensures
        wf_val_list(fs, spec_dec_list(fs, b)->Some_0),
    decreases fs, 0nat,
{
    if fs.len() != 0 {
        lemma_dec_wf(fs[0], b);
        lemma_dec_wf_list(fs.drop_first(), b.skip(ty_size(fs[0]) as int));
        let v = spec_dec(fs[0], b)->Some_0;
        let vs = spec_dec_list(fs.drop_first(), b.skip(ty_size(fs[0]) as int))->Some_0;
        assert((seq![v] + vs).drop_first() =~= vs);
    }
}

} // verus!
