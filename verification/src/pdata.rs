//! The decoded player progression record and its typed fields.

use vstd::prelude::*;

use crate::codec::{
    lemma_vals_view_index, lemma_vals_view_len, spec_dec, ty_size, wf_val, wf_val_list, GTy, GVal,
    Value,
};
use crate::de::Error;
use crate::enc::lemma_wf_val_list_index;
use crate::schema::{spec_pd_fields, spec_player_data_ty};

verus! {

broadcast use lemma_vals_view_len, lemma_vals_view_index;

/// The field of a decoded record at a top-level position.
pub open spec fn pd_field(v: GVal, i: int) -> GVal {
    match v {
        GVal::Struct(vs) => vs[i],
        _ => GVal::Bool(false),
    }
}

/// The 32-bit integer held by the field at a top-level position.
pub open spec fn pd_i32(v: GVal, i: int) -> i32 {
    match pd_field(v, i) {
        GVal::I32(x) => x,
        _ => 0,
    }
}

/// Accumulated experience points.
pub open spec fn pd_xp(v: GVal) -> i32 {
    pd_i32(v, 2)
}

/// Accumulated currency.
pub open spec fn pd_net_worth(v: GVal) -> i32 {
    pd_i32(v, 7)
}

/// Index of the selected calling card.
pub open spec fn pd_active_calling_card_index(v: GVal) -> i32 {
    pd_i32(v, 59)
}

/// Index of the selected callsign icon.
pub open spec fn pd_active_callsign_icon_index(v: GVal) -> i32 {
    pd_i32(v, 60)
}

/// Style index of the selected callsign icon.
pub open spec fn pd_active_callsign_icon_style_index(v: GVal) -> i32 {
    pd_i32(v, 61)
}

/// Regeneration count.
pub open spec fn pd_gen(v: GVal) -> i32 {
    pd_i32(v, 62)
}

/// A fully decoded player progression record.
pub struct PlayerData {
    root: Value,
}

impl View for PlayerData {
    type V = GVal;

    closed spec fn view(&self) -> GVal {
        self.root@
    }
}

impl PlayerData {
    /// The record has the shape of the progression schema.
    pub closed spec fn wf(&self) -> bool {
        wf_val(spec_player_data_ty(), self.root@)
    }

    /// The decoded record as a raw schema value.
    pub fn value(&self) -> (r: &Value)
        ensures
            r@ == self@,
    {
        &self.root
    }

    fn field_i32(&self, i: usize) -> (r: i32)
        requires
            self.wf(),
            i < spec_pd_fields().len(),
            spec_pd_fields()[i as int] == GTy::I32,
        ensures
            r == pd_i32(self@, i as int),
    {
        match &self.root {
            Value::Struct(vs) => {
                proof {
                    assert(self.root == Value::Struct(*vs));
                    assert(self.root@ == GVal::Struct(crate::codec::vals_view(vs@)));
                    lemma_wf_val_list_index(
                        spec_pd_fields(),
                        crate::codec::vals_view(vs@),
                        i as int,
                    );
                }
                let f: &Value = &vs[i];
                match f {
                    Value::I32(x) => *x,
                    _ => {
                        proof {
                            assert(f@ == crate::codec::vals_view(vs@)[i as int]);
                            assert(f@ is I32);
                            assert(false);
                        }
                        0
                    },
                }
            },
            _ => {
                proof {
                    assert(self.root@ is Struct);
                    assert(false);
                }
                0
            },
        }
    }

    pub fn xp(&self) -> (r: i32)
        requires
            self.wf(),
        ensures
            r == pd_xp(self@),
    {
        proof {
            lemma_pd_i32_fields();
        }
        self.field_i32(2)
    }

    pub fn net_worth(&self) -> (r: i32)
        requires
            self.wf(),
        ensures
            r == pd_net_worth(self@),
    {
        proof {
            lemma_pd_i32_fields();
        }
        self.field_i32(7)
    }

    pub fn active_calling_card_index(&self) -> (r: i32)
        requires
            self.wf(),
        ensures
            r == pd_active_calling_card_index(self@),
    {
        proof {
            lemma_pd_i32_fields();
        }
        self.field_i32(59)
    }

    pub fn active_callsign_icon_index(&self) -> (r: i32)
        requires
            self.wf(),
        ensures
            r == pd_active_callsign_icon_index(self@),
    {
        proof {
            lemma_pd_i32_fields();
        }
        self.field_i32(60)
    }

    pub fn active_callsign_icon_style_index(&self) -> (r: i32)
        requires
            self.wf(),
        ensures
            r == pd_active_callsign_icon_style_index(self@),
    {
        proof {
            lemma_pd_i32_fields();
        }
        self.field_i32(61)
    }

    pub fn gen(&self) -> (r: i32)
        requires
            self.wf(),
        ensures
            r == pd_gen(self@),
    {
        proof {
            lemma_pd_i32_fields();
        }
        self.field_i32(62)
    }
}

/// The top-level fields that other components read are 32-bit integers.
pub proof fn lemma_pd_i32_fields()
    ensures
        spec_pd_fields().len() == 165,
        spec_pd_fields()[2] == GTy::I32,
        spec_pd_fields()[7] == GTy::I32,
        spec_pd_fields()[59] == GTy::I32,
        spec_pd_fields()[60] == GTy::I32,
        spec_pd_fields()[61] == GTy::I32,
        spec_pd_fields()[62] == GTy::I32,
{
    assert(crate::schema::spec_pd_part_a().len() == 33);
    assert(crate::schema::spec_pd_part_b().len() == 33);
    assert(crate::schema::spec_pd_part_c().len() == 33);
    assert(crate::schema::spec_pd_part_d().len() == 33);
    assert(crate::schema::spec_pd_part_e().len() == 33);
    assert(crate::schema::spec_pd_part_a()[2] == GTy::I32);
    assert(crate::schema::spec_pd_part_a()[7] == GTy::I32);
    assert(crate::schema::spec_pd_part_b()[26] == GTy::I32);
    assert(crate::schema::spec_pd_part_b()[27] == GTy::I32);
    assert(crate::schema::spec_pd_part_b()[28] == GTy::I32);
    assert(crate::schema::spec_pd_part_b()[29] == GTy::I32);
}

/// Decodes a whole player progression record from raw bytes. The input must
/// hold exactly one record.
pub fn from_u8(s: &[u8]) -> (r: Result<PlayerData, Error>)
    ensures
        match r {
            Ok(pd) => {
                &&& s@.len() == ty_size(spec_player_data_ty())
                &&& spec_dec(spec_player_data_ty(), s@) == Some(pd@)
                &&& pd.wf()
            },
            Err(e) => match e {
                Error::TrailingBytes(n) => {
                    &&& spec_dec(spec_player_data_ty(), s@) is Some
                    &&& s@.len() > ty_size(spec_player_data_ty())
                    &&& n == s@.len() - ty_size(spec_player_data_ty())
                },
                _ => spec_dec(spec_player_data_ty(), s@) is None && crate::de::err_matches(
                    crate::codec::spec_dec_err(spec_player_data_ty(), s@),
                    e,
                ),
            },
        },
{
    let t = crate::schema::player_data_schema();
    match crate::de::decode(&t, s) {
        Ok(v) => Ok(PlayerData { root: v }),
        Err(e) => Err(e),
    }
}

} // verus!
