//! The public projection of a player's decoded progression record.

use vstd::prelude::*;
use vstd::string::StringExecFns;

use crate::account::{has_account, AccountId, AccountRepository};
use crate::envelope::ApiErrorKind;
use crate::pdata::{
    pd_active_calling_card_index, pd_active_callsign_icon_index,
    pd_active_callsign_icon_style_index, pd_gen, pd_net_worth, pd_xp,
};
use crate::schema::spec_player_data_ty;

verus! {

/// Ways the player projection can fail.
#[derive(Debug)]
pub enum PlayerError {
    /// The account is unknown, or its stored record cannot be read.
    NotFound,
}

impl ApiErrorKind for PlayerError {
    open spec fn kind_spec(&self) -> Seq<char> {
        "PLAYER_NOT_FOUND"@
    }

    open spec fn message_spec(&self) -> Seq<char> {
        "player not found"@
    }

    fn kind(&self) -> (s: &'static str) {
        "PLAYER_NOT_FOUND"
    }

    fn message(&self) -> (s: String) {
        String::from_str("player not found")
    }
}

/// The fields of the progression record that the directory shows publicly.
pub struct PlayerInfoResponse {
    pub id: AccountId,
    pub name: Option<String>,
    pub gen: i32,
    pub xp: i32,
    pub active_calling_card_index: i32,
    pub active_callsign_icon_index: i32,
    pub active_callsign_icon_style_index: i32,
    pub net_worth: i32,
}

/// Projects an account's stored progression record into its public fields:
/// the record is decoded under the progression schema and the consumed fields
/// are read out. An unknown account, or a stored record that does not decode,
/// reports the player as not found.
pub fn player_info(table: &AccountRepository, id: AccountId) -> (r: Result<
    PlayerInfoResponse,
    PlayerError,
>)
    requires
        table.wf(),
    ensures
        match r {
            Ok(resp) => {
                &&& resp.id == id
                &&& exists|i: int|
                    0 <= i < table.rows@.len() && #[trigger] table.rows@[i].id == id && {
                        let data = table.spec_data_of(table.rows@[i]);
                        crate::codec::spec_dec(spec_player_data_ty(), data) matches Some(v) && {
                            &&& resp.gen == pd_gen(v)
                            &&& resp.xp == pd_xp(v)
                            &&& resp.net_worth == pd_net_worth(v)
                            &&& resp.active_calling_card_index == pd_active_calling_card_index(v)
                            &&& resp.active_callsign_icon_index == pd_active_callsign_icon_index(v)
                            &&& resp.active_callsign_icon_style_index
                                == pd_active_callsign_icon_style_index(v)
                        }
                    }
                &&& exists|i: int|
                    0 <= i < table.rows@.len() && #[trigger] table.rows@[i].id == id && resp.name
                        == table.rows@[i].display_name
            },
            Err(e) => e is NotFound && (!has_account(table.rows@, id) || exists|i: int|
                0 <= i < table.rows@.len() && #[trigger] table.rows@[i].id == id && {
                    let data = table.spec_data_of(table.rows@[i]);
                    !(data.len() == crate::codec::ty_size(spec_player_data_ty())
                        && crate::codec::spec_dec(spec_player_data_ty(), data) is Some)
                }),
        },
{
    let data = match table.get_data(id) {
        Ok(d) => d,
        Err(_) => {
            return Err(PlayerError::NotFound);
        },
    };
    let pd = match crate::pdata::from_u8(data.as_slice()) {
        Ok(pd) => pd,
        Err(_) => {
            return Err(PlayerError::NotFound);
        },
    };
    let name = match table.get_name(id) {
        Ok(n) => n,
        Err(_) => {
            proof {
                let w = choose|w: int|
                    0 <= w < table.rows@.len() && #[trigger] table.rows@[w].id == id && data@
                        == table.spec_data_of(table.rows@[w]);
                assert(false);
            }
            None
        },
    };
    Ok(
        PlayerInfoResponse {
            id,
            name,
            gen: pd.gen(),
            xp: pd.xp(),
            active_calling_card_index: pd.active_calling_card_index(),
            active_callsign_icon_index: pd.active_callsign_icon_index(),
            active_callsign_icon_style_index: pd.active_callsign_icon_style_index(),
            net_worth: pd.net_worth(),
        },
    )
}

} // verus!
