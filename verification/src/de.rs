//! Executable decoder for the schema-driven binary format.

use vstd::prelude::*;

use crate::codec::{
    spec_dec, spec_dec_array, spec_dec_array_err, spec_dec_err, spec_dec_list, spec_dec_list_err,
    ty_size, tys_size, tys_view, vals_view, live_len, lemma_live_len_is, lemma_vals_view_len,
    lemma_vals_view_index, lemma_tys_view_len, lemma_tys_view_index, lemma_dec_wf, FixedString,
    GErr, Ty, Value,
};

verus! {

broadcast use lemma_vals_view_len, lemma_vals_view_index, lemma_tys_view_len, lemma_tys_view_index;

/// Decoder errors. The whole record is aborted on any of them; partial
/// records are never surfaced.
#[derive(Debug)]
pub enum Error {
    /// A string field's live prefix was not valid UTF-8; carries the detail.
    Message(String),
    /// The input parsed, but this many bytes followed the record.
    TrailingBytes(usize),
    /// The input ended before the record was complete.
    Eof,
    /// An encoded enum byte is not an index into the declared variant list.
    InvalidEnum,
    /// A schema asked for a wire form the format does not have.
    UnsupportedType,
}

/// Which error variant reports a failure of the given cause: a short input
/// is `Eof`, an out-of-range enum byte is `InvalidEnum`, and an invalid
/// string prefix is the message error.
pub open spec fn err_matches(ge: GErr, e: Error) -> bool {
    match ge {
        GErr::Short => e is Eof,
        GErr::BadEnum => e is InvalidEnum,
        GErr::BadText => e is Message,
    }
}

/// Relies on core::str::from_utf8: it accepts exactly the valid UTF-8 byte
/// sequences, as specified by vstd's UTF-8 model.
#[verifier::external_body]
fn utf8_check(bytes: &Vec<u8>) -> (r: bool)
    ensures
        r == vstd::utf8::valid_utf8(bytes@),
{
    core::str::from_utf8(bytes.as_slice()).is_ok()
}

pub proof fn lemma_skip_skip(s: Seq<u8>, a: int, b: int)
    requires
        0 <= a,
        0 <= b,
        a + b <= s.len(),
    ensures
        s.skip(a).skip(b) == s.skip(a + b),
{
    assert(s.skip(a).skip(b) =~= s.skip(a + b));
}

pub proof fn lemma_tys_size_take_succ(fs: Seq<crate::codec::GTy>, i: int)
    requires
        0 <= i < fs.len(),
    ensures
        tys_size(fs.take(i + 1)) == tys_size(fs.take(i)) + ty_size(fs[i]),
    decreases i,
{
    if i == 0 {
        assert(fs.take(1) =~= seq![fs[0]]);
        assert(fs.take(0) =~= Seq::<crate::codec::GTy>::empty());
        assert(seq![fs[0]].drop_first() =~= Seq::<crate::codec::GTy>::empty());
    } else {
        let d = fs.drop_first();
        assert(fs.take(i + 1).drop_first() =~= d.take(i));
        assert(fs.take(i).drop_first() =~= d.take(i - 1));
        assert(fs.take(i + 1)[0] == fs[0]);
        assert(fs.take(i)[0] == fs[0]);
        lemma_tys_size_take_succ(d, i - 1);
        assert(d[i - 1] == fs[i]);
    }
}

/// A cursor over the encoded input.
pub struct Deserializer<'a> {
    input: &'a [u8],
    pos: usize,
}

impl<'a> Deserializer<'a> {
    pub closed spec fn wf(&self) -> bool {
        self.pos <= self.input@.len()
    }

    /// The bytes not yet consumed.
    pub closed spec fn rest(&self) -> Seq<u8> {
        self.input@.skip(self.pos as int)
    }

    pub fn from_u8(input: &'a [u8]) -> (r: Self)
        ensures
            r.wf(),
            r.rest() == input@,
    {
        let r = Deserializer { input, pos: 0 };
        proof {
            assert(input@.skip(0) =~= input@);
        }
        r
    }

    /// How many bytes are left.
    pub fn remaining(&self) -> (n: usize)
        requires
            self.wf(),
        ensures
            n == self.rest().len(),
    {
        self.input.len() - self.pos
    }

    fn read_byte(&mut self) -> (r: Result<u8, Error>)
        requires
            old(self).wf(),
        ensures
            final(self).wf(),
            match r {
                Ok(b) => old(self).rest().len() >= 1 && b == old(self).rest()[0]
                    && final(self).rest() == old(self).rest().skip(1),
                Err(e) => e is Eof && old(self).rest().len() == 0 && *final(self) == *old(self),
            },
    {
        if self.pos < self.input.len() {
            let b = *vstd::slice::slice_index_get(self.input, self.pos);
            proof {
                lemma_skip_skip(self.input@, self.pos as int, 1);
            }
            self.pos = self.pos + 1;
            Ok(b)
        } else {
            Err(Error::Eof)
        }
    }

    fn read_u32_le(&mut self) -> (r: Result<u32, Error>)
        requires
            old(self).wf(),
        ensures
            final(self).wf(),
            match r {
                Ok(x) => old(self).rest().len() >= 4
                    && x == vstd::bytes::spec_u32_from_le_bytes(old(self).rest().take(4))
                    && final(self).rest() == old(self).rest().skip(4),
                Err(e) => e is Eof && old(self).rest().len() < 4 && *final(self) == *old(self),
            },
    {
        if self.input.len() - self.pos >= 4 {
            let s = vstd::slice::slice_subrange(self.input, self.pos, self.pos + 4);
            proof {
                assert(s@ =~= self.rest().take(4));
                lemma_skip_skip(self.input@, self.pos as int, 4);
            }
            let x = vstd::bytes::u32_from_le_bytes(s);
            self.pos = self.pos + 4;
            Ok(x)
        } else {
            Err(Error::Eof)
        }
    }

    /// Decodes one value of schema node `t` from the front of the remaining
    /// input, consuming exactly `ty_size` bytes on success.
    #[verifier::loop_isolation(false)]
    #[verifier::rlimit(100)]
    pub fn decode_value(&mut self, t: &Ty) -> (r: Result<Value, Error>)
        requires
            old(self).wf(),
        ensures
            final(self).wf(),
            match r {
                Ok(v) => {
                    &&& spec_dec(t@, old(self).rest()) == Some(v@)
                    &&& ty_size(t@) <= old(self).rest().len()
                    &&& final(self).rest() == old(self).rest().skip(ty_size(t@) as int)
                },
                Err(e) => {
                    &&& spec_dec(t@, old(self).rest()) is None
                    &&& err_matches(spec_dec_err(t@, old(self).rest()), e)
                },
            },
        decreases *t,
    {
        match t {
            Ty::Bool => {
                match self.read_byte() {
                    Ok(b) => Ok(Value::Bool(b != 0)),
                    Err(e) => Err(e),
                }
            },
            Ty::U8 => {
                match self.read_byte() {
                    Ok(b) => Ok(Value::U8(b)),
                    Err(e) => Err(e),
                }
            },
            Ty::I32 => {
                match self.read_u32_le() {
                    Ok(x) => Ok(Value::I32(#[verifier::truncate] (x as i32))),
                    Err(e) => Err(e),
                }
            },
            Ty::F32 => {
                match self.read_u32_le() {
                    Ok(x) => Ok(Value::F32(x)),
                    Err(e) => Err(e),
                }
            },
            Ty::Enum(n) => {
                match self.read_byte() {
                    Ok(b) => {
                        if (b as u16) < *n {
                            Ok(Value::Enum(b))
                        } else {
                            Err(Error::InvalidEnum)
                        }
                    },
                    Err(e) => Err(e),
                }
            },
            Ty::Str(w) => self.decode_str(*w),
            Ty::Array(e, n) => {
                let ghost b0 = self.rest();
                let et: &Ty = &**e;
                let ghost ev = et@;
                proof {
                    assert(t@ == crate::codec::GTy::Array(Box::new(ev), *n as nat));
                    if spec_dec_array(ev, *n as nat, b0) is Some {
                        assert(Seq::<crate::codec::GVal>::empty() + spec_dec_array(
                            ev,
                            *n as nat,
                            b0,
                        )->Some_0 =~= spec_dec_array(ev, *n as nat, b0)->Some_0);
                    }
                }
                let mut vs: Vec<Value> = Vec::new();
                let mut i: usize = 0;
                let ghost mut used: int = 0;
                while i < *n
                    invariant
                        self.wf(),
                        i <= *n,
                        vs@.len() == i,
                        0 <= used <= b0.len(),
                        used == i * ty_size(ev),
                        self.rest() == b0.skip(used),
                        spec_dec_array(ev, *n as nat, b0) == (match spec_dec_array(
                            ev,
                            (*n - i) as nat,
                            self.rest(),
                        ) {
                            Some(tail) => Some(vals_view(vs@) + tail),
                            None => None,
                        }),
                        spec_dec_array(ev, (*n - i) as nat, self.rest()) is None
                            ==> spec_dec_array_err(ev, *n as nat, b0) == spec_dec_array_err(
                            ev,
                            (*n - i) as nat,
                            self.rest(),
                        ),
                    decreases *n - i,
                {
                    let ghost cur = self.rest();
                    proof {
                        assert(*t == Ty::Array(*e, *n));
                        assert(decreases_to!(*t => **e));
                    }
                    match self.decode_value(et) {
                        Ok(v) => {
                            proof {
                                let k = (*n - i) as nat;
                                assert(spec_dec(ev, cur) == Some(v@));
                                assert(k >= 1);
                                let rest1 = cur.skip(ty_size(ev) as int);
                                let tail_dec = spec_dec_array(ev, (k - 1) as nat, rest1);
                                assert(spec_dec_array(ev, k, cur) == (match tail_dec {
                                    Some(t2) => Some(seq![v@] + t2),
                                    None => None,
                                }));
                                assert(vals_view(vs@.push(v)) =~= vals_view(vs@) + seq![v@]);
                                if tail_dec is Some {
                                    assert(vals_view(vs@) + (seq![v@] + tail_dec->Some_0) =~= (
                                    vals_view(vs@) + seq![v@]) + tail_dec->Some_0);
                                }
                                assert((i + 1) * ty_size(ev) == i * ty_size(ev) + ty_size(ev))
                                    by (nonlinear_arith);
                                assert(spec_dec_array_err(ev, k, cur) == spec_dec_array_err(
                                    ev,
                                    (k - 1) as nat,
                                    rest1,
                                ));
                                lemma_skip_skip(b0, used, ty_size(ev) as int);
                                used = used + ty_size(ev) as int;
                            }
                            vs.push(v);
                            i = i + 1;
                        },
                        Err(e2) => {
                            proof {
                                assert((*n - i) as nat != 0);
                                assert(spec_dec(ev, cur) is None);
                                assert(spec_dec_array(ev, (*n - i) as nat, cur) is None);
                                assert(spec_dec_array(ev, *n as nat, b0) is None);
                                assert(spec_dec(t@, b0) is None);
                                assert(spec_dec_array_err(ev, (*n - i) as nat, cur)
                                    == spec_dec_err(ev, cur));
                                assert(spec_dec_err(t@, b0) == spec_dec_array_err(
                                    ev,
                                    *n as nat,
                                    b0,
                                ));
                                assert(err_matches(spec_dec_err(t@, b0), e2));
                            }
                            return Err(e2);
                        },
                    }
                }
                proof {
                    assert(spec_dec_array(ev, 0, self.rest()) == Some(Seq::<
                        crate::codec::GVal,
                    >::empty()));
                    assert(vals_view(vs@) + Seq::<crate::codec::GVal>::empty() =~= vals_view(vs@));
                    assert(spec_dec_array(ev, *n as nat, b0) == Some(vals_view(vs@)));
                    assert(spec_dec(t@, b0) == Some(crate::codec::GVal::Array(vals_view(vs@))));
                    assert(ty_size(t@) == *n * ty_size(ev));
                }
                Ok(Value::Array(vs))
            },
            Ty::Struct(fs) => {
                let ghost b0 = self.rest();
                let ghost fsv = tys_view(fs@);
                proof {
                    assert(t@ == crate::codec::GTy::Struct(fsv));
                    assert(fsv.skip(0) =~= fsv);
                    assert(fsv.take(0) =~= Seq::<crate::codec::GTy>::empty());
                    if spec_dec_list(fsv, b0) is Some {
                        assert(Seq::<crate::codec::GVal>::empty() + spec_dec_list(
                            fsv,
                            b0,
                        )->Some_0 =~= spec_dec_list(fsv, b0)->Some_0);
                    }
                }
                let mut vs: Vec<Value> = Vec::new();
                let mut i: usize = 0;
                let ghost mut used: int = 0;
                let m = fs.len();
                while i < m
                    invariant
                        self.wf(),
                        i <= m,
                        m == fs@.len(),
                        fsv == tys_view(fs@),
                        vs@.len() == i,
                        0 <= used <= b0.len(),
                        used == tys_size(fsv.take(i as int)),
                        self.rest() == b0.skip(used),
                        spec_dec_list(fsv, b0) == (match spec_dec_list(
                            fsv.skip(i as int),
                            self.rest(),
                        ) {
                            Some(tail) => Some(vals_view(vs@) + tail),
                            None => None,
                        }),
                        spec_dec_list(fsv.skip(i as int), self.rest()) is None
                            ==> spec_dec_list_err(fsv, b0) == spec_dec_list_err(
                            fsv.skip(i as int),
                            self.rest(),
                        ),
                    decreases m - i,
                {
                    let ghost cur = self.rest();
                    proof {
                        assert(fsv.skip(i as int).len() != 0);
                        assert(fsv.skip(i as int)[0] == fsv[i as int]);
                        assert(fsv.skip(i as int).drop_first() =~= fsv.skip(i as int + 1));
                        assert(*t == Ty::Struct(*fs));
                        assert(decreases_to!(*t => *fs));
                        assert(decreases_to!(*fs => fs@[i as int]));
                        assert(decreases_to!(*t => fs@[i as int]));
                    }
                    match self.decode_value(&fs[i]) {
                        Ok(v) => {
                            proof {
                                assert(spec_dec(fsv[i as int], cur) == Some(v@));
                                let sz = ty_size(fsv[i as int]) as int;
                                let tail_dec = spec_dec_list(
                                    fsv.skip(i as int + 1),
                                    cur.skip(sz),
                                );
                                assert(spec_dec_list(fsv.skip(i as int), cur) == (match tail_dec {
                                    Some(t2) => Some(seq![v@] + t2),
                                    None => None,
                                }));
                                assert(vals_view(vs@.push(v)) =~= vals_view(vs@) + seq![v@]);
                                if tail_dec is Some {
                                    assert(vals_view(vs@) + (seq![v@] + tail_dec->Some_0) =~= (
                                    vals_view(vs@) + seq![v@]) + tail_dec->Some_0);
                                }
                                assert(spec_dec_list_err(fsv.skip(i as int), cur)
                                    == spec_dec_list_err(fsv.skip(i as int + 1), cur.skip(sz)));
                                lemma_tys_size_take_succ(fsv, i as int);
                                lemma_skip_skip(b0, used, sz);
                                used = used + sz;
                            }
                            vs.push(v);
                            i = i + 1;
                        },
                        Err(e2) => {
                            proof {
                                assert(spec_dec(fsv[i as int], cur) is None);
                                assert(spec_dec_list(fsv.skip(i as int), cur) is None);
                                assert(spec_dec_list(fsv, b0) is None);
                                assert(spec_dec(t@, b0) is None);
                                assert(spec_dec_list_err(fsv.skip(i as int), cur) == spec_dec_err(
                                    fsv[i as int],
                                    cur,
                                ));
                                assert(spec_dec_err(t@, b0) == spec_dec_list_err(fsv, b0));
                                assert(err_matches(spec_dec_err(t@, b0), e2));
                            }
                            return Err(e2);
                        },
                    }
                }
                proof {
                    assert(fsv.skip(i as int) =~= Seq::<crate::codec::GTy>::empty());
                    assert(spec_dec_list(fsv.skip(i as int), self.rest()) == Some(Seq::<
                        crate::codec::GVal,
                    >::empty()));
                    assert(vals_view(vs@) + Seq::<crate::codec::GVal>::empty() =~= vals_view(vs@));
                    assert(fsv.take(i as int) =~= fsv);
                    assert(spec_dec_list(fsv, b0) == Some(vals_view(vs@)));
                    assert(spec_dec(t@, b0) == Some(crate::codec::GVal::Struct(vals_view(vs@))));
                    assert(ty_size(t@) == tys_size(fsv));
                }
                Ok(Value::Struct(vs))
            },
        }
    }

    fn decode_str(&mut self, w: usize) -> (r: Result<Value, Error>)
        requires
            old(self).wf(),
        ensures
            final(self).wf(),
            match r {
                Ok(v) => {
                    &&& spec_dec(crate::codec::GTy::Str(w as nat), old(self).rest()) == Some(v@)
                    &&& w <= old(self).rest().len()
                    &&& final(self).rest() == old(self).rest().skip(w as int)
                },
                Err(e) => {
                    &&& spec_dec(crate::codec::GTy::Str(w as nat), old(self).rest()) is None
                    &&& err_matches(
                        spec_dec_err(crate::codec::GTy::Str(w as nat), old(self).rest()),
                        e,
                    )
                },
            },
    {
        if self.input.len() - self.pos < w {
            return Err(Error::Eof);
        }
        let ghost window = self.rest().take(w as int);
        let mut live: Vec<u8> = Vec::new();
        let mut j: usize = 0;
        while j < w
            invariant_except_break
                self.wf(),
                j <= w,
                w <= self.rest().len(),
                self.pos + w <= self.input@.len(),
                self.input@.len() <= usize::MAX,
                window == self.rest().take(w as int),
                live@ == window.take(j as int),
                forall|i: int| 0 <= i < j ==> window[i] != 0,
            ensures
                self.wf(),
                j <= w,
                w <= self.rest().len(),
                self.pos + w <= self.input@.len(),
                window == self.rest().take(w as int),
                live@ == window.take(j as int),
                forall|i: int| 0 <= i < j ==> window[i] != 0,
                j == w || window[j as int] == 0,
            decreases w - j,
        {
            let b = *vstd::slice::slice_index_get(self.input, self.pos + j);
            proof {
                assert(window[j as int] == b);
            }
            if b == 0 {
                break;
            }
            live.push(b);
            proof {
                assert(window.take(j as int).push(b) =~= window.take(j as int + 1));
            }
            j = j + 1;
        }
        proof {
            lemma_live_len_is(window, j as int);
            assert(window.take(live_len(window)) == live@);
        }
        if !utf8_check(&live) {
            return Err(Error::Message(String::from_str("Failed decoding string")));
        }
        proof {
            lemma_skip_skip(self.input@, self.pos as int, w as int);
        }
        self.pos = self.pos + w;
        Ok(Value::Str(FixedString { bytes: live }))
    }
}

/// Decodes one whole record of schema node `t` from `input`. The input must
/// hold exactly one record: bytes beyond it are reported as trailing.
pub fn decode(t: &Ty, input: &[u8]) -> (r: Result<Value, Error>)
    ensures
        match r {
            Ok(v) => {
                &&& input@.len() == ty_size(t@)
                &&& spec_dec(t@, input@) == Some(v@)
                &&& crate::codec::wf_val(t@, v@)
            },
            Err(e) => match e {
                Error::TrailingBytes(n) => {
                    &&& spec_dec(t@, input@) is Some
                    &&& input@.len() > ty_size(t@)
                    &&& n == input@.len() - ty_size(t@)
                },
                _ => spec_dec(t@, input@) is None && err_matches(spec_dec_err(t@, input@), e),
            },
        },
{
    let mut de = Deserializer::from_u8(input);
    match de.decode_value(t) {
        Ok(v) => {
            let left = de.remaining();
            if left > 0 {
                Err(Error::TrailingBytes(left))
            } else {
                proof {
                    lemma_dec_wf(t@, input@);
                }
                Ok(v)
            }
        },
        Err(e) => Err(e),
    }
}

} // verus!
