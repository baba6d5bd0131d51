//! The fixed schema of the player progression record.
//!
//! The byte layout of the record is determined entirely by this schema: every
//! field is fixed width, encoded in declaration order with no padding and no
//! length prefixes. Future field additions touch this module alone.

use vstd::prelude::*;

use crate::codec::{
    array_of, push_field, tys_view, wf_ty, wf_tys, lemma_tys_view_concat, lemma_wf_tys_concat,
    GTy, Ty,
};

verus! {

/// Number of maps the record keeps statistics for.
pub const MAP_COUNT: usize = 25;

/// Number of titan chassis classes.
pub const TITAN_COUNT: usize = 7;

/// Number of game modes.
pub const GAME_MODE_COUNT: usize = 14;

/// Number of weapon and ability slots with per-item statistics.
pub const WEAPONS_ABILITIES_COUNT: usize = 100;

/// Number of pilot execution animations.
pub const PILOT_EXECUTION_COUNT: usize = 13;

/// Number of tracked challenges.
pub const CHALLENGE_COUNT: usize = 177;

/// Number of daily challenge slots.
pub const DAILY_CHALLENGE_COUNT: usize = 4;

/// Wire variants of the DailyChallenge enum.
pub const DAILY_CHALLENGE_VARIANTS: u16 = 4;

/// Wire variants of the Faction enum.
pub const FACTION_VARIANTS: u16 = 7;

/// Wire variants of the GameMode enum.
pub const GAME_MODE_VARIANTS: u16 = 14;

/// Wire variants of the LoadoutWeaponsAbilities enum.
pub const LOADOUT_WEAPONS_ABILITIES_VARIANTS: u16 = 100;

/// Wire variants of the PilotExecution enum.
pub const PILOT_EXECUTION_VARIANTS: u16 = 13;

/// Wire variants of the PilotMod enum.
pub const PILOT_MOD_VARIANTS: u16 = 79;

/// Wire variants of the PilotPassive enum.
pub const PILOT_PASSIVE_VARIANTS: u16 = 24;

/// Wire variants of the PilotRace enum.
pub const PILOT_RACE_VARIANTS: u16 = 2;

/// Wire variants of the PilotSuit enum.
pub const PILOT_SUIT_VARIANTS: u16 = 7;

/// Wire variants of the TitanClass enum.
pub const TITAN_CLASS_VARIANTS: u16 = 7;

/// Wire variants of the TitanExecution enum.
pub const TITAN_EXECUTION_VARIANTS: u16 = 20;

/// Wire variants of the TitanIsPrime enum.
pub const TITAN_IS_PRIME_VARIANTS: u16 = 2;

/// Wire variants of the TitanMod enum.
pub const TITAN_MOD_VARIANTS: u16 = 26;

/// Wire variants of the TitanPassive enum.
pub const TITAN_PASSIVE_VARIANTS: u16 = 62;

pub open spec fn spec_recent_unlock_fields() -> Seq<GTy> {
    seq![
        GTy::I32,  // refGuid
        GTy::I32,  // parentRefGuid
        GTy::I32,  // count
    ]
}

pub open spec fn spec_recent_unlock_ty() -> GTy {
    GTy::Struct(spec_recent_unlock_fields())
}

fn ty_recent_unlock() -> (t: Ty)
    ensures
        t@ == spec_recent_unlock_ty(),
        wf_ty(t@),
{
    let mut fs: Vec<Ty> = Vec::new();
    proof {
        assert(tys_view(fs@) =~= Seq::<GTy>::empty());
        assert(wf_tys(Seq::<GTy>::empty()));
    }
    push_field(&mut fs, Ty::I32);  // refGuid
    push_field(&mut fs, Ty::I32);  // parentRefGuid
    push_field(&mut fs, Ty::I32);  // count
    let t = Ty::Struct(fs);
    proof {
        assert(tys_view(fs@) =~= spec_recent_unlock_fields());
        assert(t@ == spec_recent_unlock_ty());
    }
    t
}

pub open spec fn spec_pve_data_fields() -> Seq<GTy> {
    seq![
        GTy::I32,  // version
        GTy::I32,  // currency
        GTy::I32,  // currencyInLatestMatch
        GTy::Array(Box::new(GTy::I32), 6),  // tacticalUnlocks
        GTy::Array(Box::new(GTy::I32), MAP_COUNT as nat),  // feathersForMap
    ]
}

pub open spec fn spec_pve_data_ty() -> GTy {
    GTy::Struct(spec_pve_data_fields())
}

fn ty_pve_data() -> (t: Ty)
    ensures
        t@ == spec_pve_data_ty(),
        wf_ty(t@),
{
    let mut fs: Vec<Ty> = Vec::new();
    proof {
        assert(tys_view(fs@) =~= Seq::<GTy>::empty());
        assert(wf_tys(Seq::<GTy>::empty()));
    }
    push_field(&mut fs, Ty::I32);  // version
    push_field(&mut fs, Ty::I32);  // currency
    push_field(&mut fs, Ty::I32);  // currencyInLatestMatch
    push_field(&mut fs, array_of(Ty::I32, 6));  // tacticalUnlocks
    push_field(&mut fs, array_of(Ty::I32, MAP_COUNT));  // feathersForMap
    let t = Ty::Struct(fs);
    proof {
        assert(tys_view(fs@) =~= spec_pve_data_fields());
        assert(t@ == spec_pve_data_ty());
    }
    t
}

pub open spec fn spec_spawn_loadout_fields() -> Seq<GTy> {
    seq![
        GTy::I32,  // index
    ]
}

pub open spec fn spec_spawn_loadout_ty() -> GTy {
    GTy::Struct(spec_spawn_loadout_fields())
}

fn ty_spawn_loadout() -> (t: Ty)
    ensures
        t@ == spec_spawn_loadout_ty(),
        wf_ty(t@),
{
    let mut fs: Vec<Ty> = Vec::new();
    proof {
        assert(tys_view(fs@) =~= Seq::<GTy>::empty());
        assert(wf_tys(Seq::<GTy>::empty()));
    }
    push_field(&mut fs, Ty::I32);  // index
    let t = Ty::Struct(fs);
    proof {
        assert(tys_view(fs@) =~= spec_spawn_loadout_fields());
        assert(t@ == spec_spawn_loadout_ty());
    }
    t
}

pub open spec fn spec_pilot_loadout_fields() -> Seq<GTy> {
    seq![
        GTy::Str(42),  // name
        GTy::Enum(PILOT_SUIT_VARIANTS),  // suit
        GTy::Enum(PILOT_RACE_VARIANTS),  // race
        GTy::Enum(PILOT_EXECUTION_VARIANTS),  // execution
        GTy::Enum(LOADOUT_WEAPONS_ABILITIES_VARIANTS),  // primary
        GTy::Enum(PILOT_MOD_VARIANTS),  // primaryAttachment
        GTy::Enum(PILOT_MOD_VARIANTS),  // primaryMod1
        GTy::Enum(PILOT_MOD_VARIANTS),  // primaryMod2
        GTy::Enum(PILOT_MOD_VARIANTS),  // primaryMod3
        GTy::Enum(LOADOUT_WEAPONS_ABILITIES_VARIANTS),  // secondary
        GTy::Enum(PILOT_MOD_VARIANTS),  // secondaryMod1
        GTy::Enum(PILOT_MOD_VARIANTS),  // secondaryMod2
        GTy::Enum(PILOT_MOD_VARIANTS),  // secondaryMod3
        GTy::Enum(LOADOUT_WEAPONS_ABILITIES_VARIANTS),  // weapon3
        GTy::Enum(PILOT_MOD_VARIANTS),  // weapon3Mod1
        GTy::Enum(PILOT_MOD_VARIANTS),  // weapon3Mod2
        GTy::Enum(PILOT_MOD_VARIANTS),  // weapon3Mod3
        GTy::Enum(LOADOUT_WEAPONS_ABILITIES_VARIANTS),  // ordnance
        GTy::Enum(PILOT_PASSIVE_VARIANTS),  // passive1
        GTy::Enum(PILOT_PASSIVE_VARIANTS),  // passive2
        GTy::I32,  // skinIndex
        GTy::I32,  // camoIndex
        GTy::I32,  // primarySkinIndex
        GTy::I32,  // primaryCamoIndex
        GTy::I32,  // secondarySkinIndex
        GTy::I32,  // secondaryCamoIndex
        GTy::I32,  // weapon3SkinIndex
        GTy::I32,  // weapon3CamoIndex
    ]
}

pub open spec fn spec_pilot_loadout_ty() -> GTy {
    GTy::Struct(spec_pilot_loadout_fields())
}

fn ty_pilot_loadout() -> (t: Ty)
    ensures
        t@ == spec_pilot_loadout_ty(),
        wf_ty(t@),
{
    let mut fs: Vec<Ty> = Vec::new();
    proof {
        assert(tys_view(fs@) =~= Seq::<GTy>::empty());
        assert(wf_tys(Seq::<GTy>::empty()));
    }
    push_field(&mut fs, Ty::Str(42));  // name
    push_field(&mut fs, Ty::Enum(PILOT_SUIT_VARIANTS));  // suit
    push_field(&mut fs, Ty::Enum(PILOT_RACE_VARIANTS));  // race
    push_field(&mut fs, Ty::Enum(PILOT_EXECUTION_VARIANTS));  // execution
    push_field(&mut fs, Ty::Enum(LOADOUT_WEAPONS_ABILITIES_VARIANTS));  // primary
    push_field(&mut fs, Ty::Enum(PILOT_MOD_VARIANTS));  // primaryAttachment
    push_field(&mut fs, Ty::Enum(PILOT_MOD_VARIANTS));  // primaryMod1
    push_field(&mut fs, Ty::Enum(PILOT_MOD_VARIANTS));  // primaryMod2
    push_field(&mut fs, Ty::Enum(PILOT_MOD_VARIANTS));  // primaryMod3
    push_field(&mut fs, Ty::Enum(LOADOUT_WEAPONS_ABILITIES_VARIANTS));  // secondary
    push_field(&mut fs, Ty::Enum(PILOT_MOD_VARIANTS));  // secondaryMod1
    push_field(&mut fs, Ty::Enum(PILOT_MOD_VARIANTS));  // secondaryMod2
    push_field(&mut fs, Ty::Enum(PILOT_MOD_VARIANTS));  // secondaryMod3
    push_field(&mut fs, Ty::Enum(LOADOUT_WEAPONS_ABILITIES_VARIANTS));  // weapon3
    push_field(&mut fs, Ty::Enum(PILOT_MOD_VARIANTS));  // weapon3Mod1
    push_field(&mut fs, Ty::Enum(PILOT_MOD_VARIANTS));  // weapon3Mod2
    push_field(&mut fs, Ty::Enum(PILOT_MOD_VARIANTS));  // weapon3Mod3
    push_field(&mut fs, Ty::Enum(LOADOUT_WEAPONS_ABILITIES_VARIANTS));  // ordnance
    push_field(&mut fs, Ty::Enum(PILOT_PASSIVE_VARIANTS));  // passive1
    push_field(&mut fs, Ty::Enum(PILOT_PASSIVE_VARIANTS));  // passive2
    push_field(&mut fs, Ty::I32);  // skinIndex
    push_field(&mut fs, Ty::I32);  // camoIndex
    push_field(&mut fs, Ty::I32);  // primarySkinIndex
    push_field(&mut fs, Ty::I32);  // primaryCamoIndex
    push_field(&mut fs, Ty::I32);  // secondarySkinIndex
    push_field(&mut fs, Ty::I32);  // secondaryCamoIndex
    push_field(&mut fs, Ty::I32);  // weapon3SkinIndex
    push_field(&mut fs, Ty::I32);  // weapon3CamoIndex
    let t = Ty::Struct(fs);
    proof {
        assert(tys_view(fs@) =~= spec_pilot_loadout_fields());
        assert(t@ == spec_pilot_loadout_ty());
    }
    t
}

pub open spec fn spec_titan_loadout_fields() -> Seq<GTy> {
    seq![
        GTy::Str(42),  // name
        GTy::Enum(TITAN_CLASS_VARIANTS),  // titanClass
        GTy::Enum(TITAN_MOD_VARIANTS),  // primaryMod
        GTy::Enum(LOADOUT_WEAPONS_ABILITIES_VARIANTS),  // special
        GTy::Enum(LOADOUT_WEAPONS_ABILITIES_VARIANTS),  // antirodeo
        GTy::Enum(TITAN_PASSIVE_VARIANTS),  // passive1
        GTy::Enum(TITAN_PASSIVE_VARIANTS),  // passive2
        GTy::Enum(TITAN_PASSIVE_VARIANTS),  // passive3
        GTy::Enum(TITAN_PASSIVE_VARIANTS),  // passive4
        GTy::Enum(TITAN_PASSIVE_VARIANTS),  // passive5
        GTy::Enum(TITAN_PASSIVE_VARIANTS),  // passive6
        GTy::Enum(TITAN_EXECUTION_VARIANTS),  // titanExecution
        GTy::I32,  // skinIndex
        GTy::I32,  // camoIndex
        GTy::I32,  // decalIndex
        GTy::I32,  // primarySkinIndex
        GTy::I32,  // primaryCamoIndex
        GTy::Enum(TITAN_IS_PRIME_VARIANTS),  // isPrime
        GTy::I32,  // primeSkinIndex
        GTy::I32,  // primeCamoIndex
        GTy::I32,  // primeDecalIndex
        GTy::I32,  // showArmBadge
    ]
}

pub open spec fn spec_titan_loadout_ty() -> GTy {
    GTy::Struct(spec_titan_loadout_fields())
}

fn ty_titan_loadout() -> (t: Ty)
    ensures
        t@ == spec_titan_loadout_ty(),
        wf_ty(t@),
{
    let mut fs: Vec<Ty> = Vec::new();
    proof {
        assert(tys_view(fs@) =~= Seq::<GTy>::empty());
        assert(wf_tys(Seq::<GTy>::empty()));
    }
    push_field(&mut fs, Ty::Str(42));  // name
    push_field(&mut fs, Ty::Enum(TITAN_CLASS_VARIANTS));  // titanClass
    push_field(&mut fs, Ty::Enum(TITAN_MOD_VARIANTS));  // primaryMod
    push_field(&mut fs, Ty::Enum(LOADOUT_WEAPONS_ABILITIES_VARIANTS));  // special
    push_field(&mut fs, Ty::Enum(LOADOUT_WEAPONS_ABILITIES_VARIANTS));  // antirodeo
    push_field(&mut fs, Ty::Enum(TITAN_PASSIVE_VARIANTS));  // passive1
    push_field(&mut fs, Ty::Enum(TITAN_PASSIVE_VARIANTS));  // passive2
    push_field(&mut fs, Ty::Enum(TITAN_PASSIVE_VARIANTS));  // passive3
    push_field(&mut fs, Ty::Enum(TITAN_PASSIVE_VARIANTS));  // passive4
    push_field(&mut fs, Ty::Enum(TITAN_PASSIVE_VARIANTS));  // passive5
    push_field(&mut fs, Ty::Enum(TITAN_PASSIVE_VARIANTS));  // passive6
    push_field(&mut fs, Ty::Enum(TITAN_EXECUTION_VARIANTS));  // titanExecution
    push_field(&mut fs, Ty::I32);  // skinIndex
    push_field(&mut fs, Ty::I32);  // camoIndex
    push_field(&mut fs, Ty::I32);  // decalIndex
    push_field(&mut fs, Ty::I32);  // primarySkinIndex
    push_field(&mut fs, Ty::I32);  // primaryCamoIndex
    push_field(&mut fs, Ty::Enum(TITAN_IS_PRIME_VARIANTS));  // isPrime
    push_field(&mut fs, Ty::I32);  // primeSkinIndex
    push_field(&mut fs, Ty::I32);  // primeCamoIndex
    push_field(&mut fs, Ty::I32);  // primeDecalIndex
    push_field(&mut fs, Ty::I32);  // showArmBadge
    let t = Ty::Struct(fs);
    proof {
        assert(tys_view(fs@) =~= spec_titan_loadout_fields());
        assert(t@ == spec_titan_loadout_ty());
    }
    t
}

pub open spec fn spec_game_stats_fields() -> Seq<GTy> {
    seq![
        GTy::Array(Box::new(GTy::I32), GAME_MODE_COUNT as nat),  // modesPlayed
        GTy::Array(Box::new(GTy::I32), GAME_MODE_COUNT as nat),  // previousModesPlayed
        GTy::Array(Box::new(GTy::I32), GAME_MODE_COUNT as nat),  // modesWon
        GTy::I32,  // mvp_total
        GTy::I32,  // gamesCompletedTotal
        GTy::I32,  // gamesWonTotal
        GTy::I32,  // gamesWonAsIMC
        GTy::I32,  // gamesWonAsMilitia
        GTy::I32,  // gamesCompletedAsIMC
        GTy::I32,  // gamesCompletedAsMilitia
        GTy::Array(Box::new(GTy::I32), GAME_MODE_COUNT as nat),  // pvpKills
        GTy::Array(Box::new(GTy::I32), GAME_MODE_COUNT as nat),  // timesKillDeathRatio2to1
        GTy::Array(Box::new(GTy::I32), GAME_MODE_COUNT as nat),  // timesKillDeathRatio2to1_pvp
        GTy::I32,  // timesScored100AttritionPoints_total
    ]
}

pub open spec fn spec_game_stats_ty() -> GTy {
    GTy::Struct(spec_game_stats_fields())
}

fn ty_game_stats() -> (t: Ty)
    ensures
        t@ == spec_game_stats_ty(),
        wf_ty(t@),
{
    let mut fs: Vec<Ty> = Vec::new();
    proof {
        assert(tys_view(fs@) =~= Seq::<GTy>::empty());
        assert(wf_tys(Seq::<GTy>::empty()));
    }
    push_field(&mut fs, array_of(Ty::I32, GAME_MODE_COUNT));  // modesPlayed
    push_field(&mut fs, array_of(Ty::I32, GAME_MODE_COUNT));  // previousModesPlayed
    push_field(&mut fs, array_of(Ty::I32, GAME_MODE_COUNT));  // modesWon
    push_field(&mut fs, Ty::I32);  // mvp_total
    push_field(&mut fs, Ty::I32);  // gamesCompletedTotal
    push_field(&mut fs, Ty::I32);  // gamesWonTotal
    push_field(&mut fs, Ty::I32);  // gamesWonAsIMC
    push_field(&mut fs, Ty::I32);  // gamesWonAsMilitia
    push_field(&mut fs, Ty::I32);  // gamesCompletedAsIMC
    push_field(&mut fs, Ty::I32);  // gamesCompletedAsMilitia
    push_field(&mut fs, array_of(Ty::I32, GAME_MODE_COUNT));  // pvpKills
    push_field(&mut fs, array_of(Ty::I32, GAME_MODE_COUNT));  // timesKillDeathRatio2to1
    push_field(&mut fs, array_of(Ty::I32, GAME_MODE_COUNT));  // timesKillDeathRatio2to1_pvp
    push_field(&mut fs, Ty::I32);  // timesScored100AttritionPoints_total
    let t = Ty::Struct(fs);
    proof {
        assert(tys_view(fs@) =~= spec_game_stats_fields());
        assert(t@ == spec_game_stats_ty());
    }
    t
}

pub open spec fn spec_map_stats_fields() -> Seq<GTy> {
    seq![
        GTy::Array(Box::new(GTy::I32), GAME_MODE_COUNT as nat),  // gamesJoined
        GTy::Array(Box::new(GTy::I32), GAME_MODE_COUNT as nat),  // gamesCompleted
        GTy::Array(Box::new(GTy::I32), GAME_MODE_COUNT as nat),  // gamesWon
        GTy::Array(Box::new(GTy::I32), GAME_MODE_COUNT as nat),  // gamesLost
        GTy::Array(Box::new(GTy::I32), GAME_MODE_COUNT as nat),  // topPlayerOnTeam
        GTy::Array(Box::new(GTy::I32), GAME_MODE_COUNT as nat),  // top3OnTeam
        GTy::Array(Box::new(GTy::F32), GAME_MODE_COUNT as nat),  // hoursPlayed
        GTy::I32,  // timesScored100AttritionPoints_byMap
        GTy::Array(Box::new(GTy::I32), 5),  // winsByDifficulty
        GTy::Array(Box::new(GTy::I32), 5),  // matchesByDifficulty
        GTy::Array(Box::new(GTy::I32), 5),  // perfectMatchesByDifficulty
    ]
}

pub open spec fn spec_map_stats_ty() -> GTy {
    GTy::Struct(spec_map_stats_fields())
}

fn ty_map_stats() -> (t: Ty)
    ensures
        t@ == spec_map_stats_ty(),
        wf_ty(t@),
{
    let mut fs: Vec<Ty> = Vec::new();
    proof {
        assert(tys_view(fs@) =~= Seq::<GTy>::empty());
        assert(wf_tys(Seq::<GTy>::empty()));
    }
    push_field(&mut fs, array_of(Ty::I32, GAME_MODE_COUNT));  // gamesJoined
    push_field(&mut fs, array_of(Ty::I32, GAME_MODE_COUNT));  // gamesCompleted
    push_field(&mut fs, array_of(Ty::I32, GAME_MODE_COUNT));  // gamesWon
    push_field(&mut fs, array_of(Ty::I32, GAME_MODE_COUNT));  // gamesLost
    push_field(&mut fs, array_of(Ty::I32, GAME_MODE_COUNT));  // topPlayerOnTeam
    push_field(&mut fs, array_of(Ty::I32, GAME_MODE_COUNT));  // top3OnTeam
    push_field(&mut fs, array_of(Ty::F32, GAME_MODE_COUNT));  // hoursPlayed
    push_field(&mut fs, Ty::I32);  // timesScored100AttritionPoints_byMap
    push_field(&mut fs, array_of(Ty::I32, 5));  // winsByDifficulty
    push_field(&mut fs, array_of(Ty::I32, 5));  // matchesByDifficulty
    push_field(&mut fs, array_of(Ty::I32, 5));  // perfectMatchesByDifficulty
    let t = Ty::Struct(fs);
    proof {
        assert(tys_view(fs@) =~= spec_map_stats_fields());
        assert(t@ == spec_map_stats_ty());
    }
    t
}

pub open spec fn spec_hours_played_fields() -> Seq<GTy> {
    seq![
        GTy::F32,  // total
        GTy::Array(Box::new(GTy::F32), TITAN_COUNT as nat),  // asTitan
        GTy::F32,  // asPilot
        GTy::F32,  // asTitanTotal
        GTy::F32,  // dead
        GTy::F32,  // wallhanging
        GTy::F32,  // wallrunning
        GTy::F32,  // inAir
    ]
}

pub open spec fn spec_hours_played_ty() -> GTy {
    GTy::Struct(spec_hours_played_fields())
}

fn ty_hours_played() -> (t: Ty)
    ensures
        t@ == spec_hours_played_ty(),
        wf_ty(t@),
{
    let mut fs: Vec<Ty> = Vec::new();
    proof {
        assert(tys_view(fs@) =~= Seq::<GTy>::empty());
        assert(wf_tys(Seq::<GTy>::empty()));
    }
    push_field(&mut fs, Ty::F32);  // total
    push_field(&mut fs, array_of(Ty::F32, TITAN_COUNT));  // asTitan
    push_field(&mut fs, Ty::F32);  // asPilot
    push_field(&mut fs, Ty::F32);  // asTitanTotal
    push_field(&mut fs, Ty::F32);  // dead
    push_field(&mut fs, Ty::F32);  // wallhanging
    push_field(&mut fs, Ty::F32);  // wallrunning
    push_field(&mut fs, Ty::F32);  // inAir
    let t = Ty::Struct(fs);
    proof {
        assert(tys_view(fs@) =~= spec_hours_played_fields());
        assert(t@ == spec_hours_played_ty());
    }
    t
}

pub open spec fn spec_miles_traveled_fields() -> Seq<GTy> {
    seq![
        GTy::F32,  // total
        GTy::Array(Box::new(GTy::F32), TITAN_COUNT as nat),  // asTitan
        GTy::F32,  // asPilot
        GTy::F32,  // asTitanTotal
        GTy::F32,  // wallrunning
        GTy::F32,  // inAir
        GTy::F32,  // ziplining
        GTy::F32,  // onFriendlyTitan
        GTy::F32,  // onEnemyTitan
    ]
}

pub open spec fn spec_miles_traveled_ty() -> GTy {
    GTy::Struct(spec_miles_traveled_fields())
}

fn ty_miles_traveled() -> (t: Ty)
    ensures
        t@ == spec_miles_traveled_ty(),
        wf_ty(t@),
{
    let mut fs: Vec<Ty> = Vec::new();
    proof {
        assert(tys_view(fs@) =~= Seq::<GTy>::empty());
        assert(wf_tys(Seq::<GTy>::empty()));
    }
    push_field(&mut fs, Ty::F32);  // total
    push_field(&mut fs, array_of(Ty::F32, TITAN_COUNT));  // asTitan
    push_field(&mut fs, Ty::F32);  // asPilot
    push_field(&mut fs, Ty::F32);  // asTitanTotal
    push_field(&mut fs, Ty::F32);  // wallrunning
    push_field(&mut fs, Ty::F32);  // inAir
    push_field(&mut fs, Ty::F32);  // ziplining
    push_field(&mut fs, Ty::F32);  // onFriendlyTitan
    push_field(&mut fs, Ty::F32);  // onEnemyTitan
    let t = Ty::Struct(fs);
    proof {
        assert(tys_view(fs@) =~= spec_miles_traveled_fields());
        assert(t@ == spec_miles_traveled_ty());
    }
    t
}

pub open spec fn spec_weapon_stats_fields() -> Seq<GTy> {
    seq![
        GTy::F32,  // hoursUsed
        GTy::F32,  // hoursEquipped
        GTy::I32,  // shotsFired
        GTy::I32,  // shotsHit
        GTy::I32,  // headshots
        GTy::I32,  // critHits
        GTy::I32,  // titanDamage
    ]
}

pub open spec fn spec_weapon_stats_ty() -> GTy {
    GTy::Struct(spec_weapon_stats_fields())
}

fn ty_weapon_stats() -> (t: Ty)
    ensures
        t@ == spec_weapon_stats_ty(),
        wf_ty(t@),
{
    let mut fs: Vec<Ty> = Vec::new();
    proof {
        assert(tys_view(fs@) =~= Seq::<GTy>::empty());
        assert(wf_tys(Seq::<GTy>::empty()));
    }
    push_field(&mut fs, Ty::F32);  // hoursUsed
    push_field(&mut fs, Ty::F32);  // hoursEquipped
    push_field(&mut fs, Ty::I32);  // shotsFired
    push_field(&mut fs, Ty::I32);  // shotsHit
    push_field(&mut fs, Ty::I32);  // headshots
    push_field(&mut fs, Ty::I32);  // critHits
    push_field(&mut fs, Ty::I32);  // titanDamage
    let t = Ty::Struct(fs);
    proof {
        assert(tys_view(fs@) =~= spec_weapon_stats_fields());
        assert(t@ == spec_weapon_stats_ty());
    }
    t
}

pub open spec fn spec_weapon_kill_stats_fields() -> Seq<GTy> {
    seq![
        GTy::I32,  // total
        GTy::I32,  // pilots
        GTy::I32,  // ejecting_pilots
        GTy::I32,  // spectres
        GTy::I32,  // marvins
        GTy::I32,  // grunts
        GTy::I32,  // ai
        GTy::I32,  // titansTotal
        GTy::Array(Box::new(GTy::I32), TITAN_COUNT as nat),  // titans
        GTy::Array(Box::new(GTy::I32), TITAN_COUNT as nat),  // npcTitans
        GTy::I32,  // assistsTotal
        GTy::I32,  // killingSprees
    ]
}

pub open spec fn spec_weapon_kill_stats_ty() -> GTy {
    GTy::Struct(spec_weapon_kill_stats_fields())
}

fn ty_weapon_kill_stats() -> (t: Ty)
    ensures
        t@ == spec_weapon_kill_stats_ty(),
        wf_ty(t@),
{
    let mut fs: Vec<Ty> = Vec::new();
    proof {
        assert(tys_view(fs@) =~= Seq::<GTy>::empty());
        assert(wf_tys(Seq::<GTy>::empty()));
    }
    push_field(&mut fs, Ty::I32);  // total
    push_field(&mut fs, Ty::I32);  // pilots
    push_field(&mut fs, Ty::I32);  // ejecting_pilots
    push_field(&mut fs, Ty::I32);  // spectres
    push_field(&mut fs, Ty::I32);  // marvins
    push_field(&mut fs, Ty::I32);  // grunts
    push_field(&mut fs, Ty::I32);  // ai
    push_field(&mut fs, Ty::I32);  // titansTotal
    push_field(&mut fs, array_of(Ty::I32, TITAN_COUNT));  // titans
    push_field(&mut fs, array_of(Ty::I32, TITAN_COUNT));  // npcTitans
    push_field(&mut fs, Ty::I32);  // assistsTotal
    push_field(&mut fs, Ty::I32);  // killingSprees
    let t = Ty::Struct(fs);
    proof {
        assert(tys_view(fs@) =~= spec_weapon_kill_stats_fields());
        assert(t@ == spec_weapon_kill_stats_ty());
    }
    t
}

pub open spec fn spec_kill_stats_fields() -> Seq<GTy> {
    seq![
        GTy::I32,  // total
        GTy::I32,  // totalWhileUsingBurnCard
        GTy::I32,  // titansWhileTitanBCActive
        GTy::I32,  // totalPVP
        GTy::I32,  // pilots
        GTy::I32,  // spectres
        GTy::I32,  // marvins
        GTy::I32,  // grunts
        GTy::I32,  // totalTitans
        GTy::I32,  // totalTitansWhileDoomed
        GTy::I32,  // totalPilots
        GTy::I32,  // totalNPC
        GTy::I32,  // asPilot
        GTy::Array(Box::new(GTy::I32), TITAN_COUNT as nat),  // asTitan
        GTy::I32,  // firstStrikes
        GTy::I32,  // ejectingPilots
        GTy::I32,  // whileEjecting
        GTy::I32,  // cloakedPilots
        GTy::I32,  // whileCloaked
        GTy::I32,  // wallrunningPilots
        GTy::I32,  // whileWallrunning
        GTy::I32,  // wallhangingPilots
        GTy::I32,  // whileWallhanging
        GTy::I32,  // pilotExecution
        GTy::I32,  // pilotExecutePilot
        GTy::Array(Box::new(GTy::I32), PILOT_EXECUTION_COUNT as nat),  // pilotExecutePilotByType
        GTy::I32,  // pilotKickMelee
        GTy::I32,  // pilotKickMeleePilot
        GTy::I32,  // titanMelee
        GTy::I32,  // titanMeleePilot
        GTy::I32,  // titanStepCrush
        GTy::I32,  // titanStepCrushPilot
        GTy::I32,  // titanExocutionIon
        GTy::I32,  // titanExocutionScorch
        GTy::I32,  // titanExocutionNorthstar
        GTy::I32,  // titanExocutionRonin
        GTy::I32,  // titanExocutionTone
        GTy::I32,  // titanExocutionLegion
        GTy::I32,  // titanExocutionVanguard
        GTy::I32,  // titanFallKill
        GTy::I32,  // petTitanKillsFollowMode
        GTy::I32,  // petTitanKillsGuardMode
        GTy::I32,  // rodeo_total
        GTy::I32,  // rodeo_stryder
        GTy::I32,  // rodeo_buddy
        GTy::I32,  // rodeo_atlas
        GTy::I32,  // rodeo_ogre
        GTy::I32,  // pilot_headshots_total
        GTy::I32,  // evacShips
        GTy::I32,  // flyers
        GTy::I32,  // nuclearCore
        GTy::I32,  // evacuatingEnemies
        GTy::I32,  // exportTrapKills
        GTy::I32,  // coopChallenge_NukeTitan_Kills
        GTy::I32,  // coopChallenge_MortarTitan_Kills
        GTy::I32,  // coopChallenge_EmpTitan_Kills
        GTy::I32,  // coopChallenge_BubbleShieldGrunt_Kills
        GTy::I32,  // coopChallenge_CloakDrone_Kills
        GTy::I32,  // coopChallenge_Dropship_Kills
        GTy::I32,  // coopChallenge_SuicideSpectre_Kills
        GTy::I32,  // coopChallenge_Turret_Kills
        GTy::I32,  // coopChallenge_Sniper_Kills
        GTy::I32,  // ampedVortexKills
        GTy::I32,  // meleeWhileCloaked
        GTy::I32,  // pilotKillsWhileUsingActiveRadarPulse
        GTy::I32,  // titanKillsAsPilot
        GTy::I32,  // pilotKillsWhileStimActive
        GTy::I32,  // pilotKillsAsTitan
        GTy::I32,  // totalAssists
        GTy::Array(Box::new(GTy::I32), TITAN_COUNT as nat),  // killingSpreeds
        GTy::I32,  // pilotKillsAsPilot
        GTy::I32,  // titanKillsAsTitan
        GTy::I32,  // telefragKils
        GTy::I32,  // grappleKills
        GTy::I32,  // throughAWallKills
        GTy::I32,  // distractedKills
        GTy::I32,  // pilotExecutePilotWhileCloaked
        GTy::I32,  // pilotKillsWithHoloPilotActive
        GTy::I32,  // pilotKillsWithAmpedWallActive
    ]
}

pub open spec fn spec_kill_stats_ty() -> GTy {
    GTy::Struct(spec_kill_stats_fields())
}

#[verifier::rlimit(100)]
fn ty_kill_stats() -> (t: Ty)
    ensures
        t@ == spec_kill_stats_ty(),
        wf_ty(t@),
{
    let mut fs: Vec<Ty> = Vec::new();
    proof {
        assert(tys_view(fs@) =~= Seq::<GTy>::empty());
        assert(wf_tys(Seq::<GTy>::empty()));
    }
    push_field(&mut fs, Ty::I32);  // total
    push_field(&mut fs, Ty::I32);  // totalWhileUsingBurnCard
    push_field(&mut fs, Ty::I32);  // titansWhileTitanBCActive
    push_field(&mut fs, Ty::I32);  // totalPVP
    push_field(&mut fs, Ty::I32);  // pilots
    push_field(&mut fs, Ty::I32);  // spectres
    push_field(&mut fs, Ty::I32);  // marvins
    push_field(&mut fs, Ty::I32);  // grunts
    push_field(&mut fs, Ty::I32);  // totalTitans
    push_field(&mut fs, Ty::I32);  // totalTitansWhileDoomed
    push_field(&mut fs, Ty::I32);  // totalPilots
    push_field(&mut fs, Ty::I32);  // totalNPC
    push_field(&mut fs, Ty::I32);  // asPilot
    push_field(&mut fs, array_of(Ty::I32, TITAN_COUNT));  // asTitan
    push_field(&mut fs, Ty::I32);  // firstStrikes
    push_field(&mut fs, Ty::I32);  // ejectingPilots
    push_field(&mut fs, Ty::I32);  // whileEjecting
    push_field(&mut fs, Ty::I32);  // cloakedPilots
    push_field(&mut fs, Ty::I32);  // whileCloaked
    push_field(&mut fs, Ty::I32);  // wallrunningPilots
    push_field(&mut fs, Ty::I32);  // whileWallrunning
    push_field(&mut fs, Ty::I32);  // wallhangingPilots
    push_field(&mut fs, Ty::I32);  // whileWallhanging
    push_field(&mut fs, Ty::I32);  // pilotExecution
    push_field(&mut fs, Ty::I32);  // pilotExecutePilot
    push_field(&mut fs, array_of(Ty::I32, PILOT_EXECUTION_COUNT));  // pilotExecutePilotByType
    push_field(&mut fs, Ty::I32);  // pilotKickMelee
    push_field(&mut fs, Ty::I32);  // pilotKickMeleePilot
    push_field(&mut fs, Ty::I32);  // titanMelee
    push_field(&mut fs, Ty::I32);  // titanMeleePilot
    push_field(&mut fs, Ty::I32);  // titanStepCrush
    push_field(&mut fs, Ty::I32);  // titanStepCrushPilot
    push_field(&mut fs, Ty::I32);  // titanExocutionIon
    push_field(&mut fs, Ty::I32);  // titanExocutionScorch
    push_field(&mut fs, Ty::I32);  // titanExocutionNorthstar
    push_field(&mut fs, Ty::I32);  // titanExocutionRonin
    push_field(&mut fs, Ty::I32);  // titanExocutionTone
    push_field(&mut fs, Ty::I32);  // titanExocutionLegion
    push_field(&mut fs, Ty::I32);  // titanExocutionVanguard
    push_field(&mut fs, Ty::I32);  // titanFallKill
    push_field(&mut fs, Ty::I32);  // petTitanKillsFollowMode
    push_field(&mut fs, Ty::I32);  // petTitanKillsGuardMode
    push_field(&mut fs, Ty::I32);  // rodeo_total
    push_field(&mut fs, Ty::I32);  // rodeo_stryder
    push_field(&mut fs, Ty::I32);  // rodeo_buddy
    push_field(&mut fs, Ty::I32);  // rodeo_atlas
    push_field(&mut fs, Ty::I32);  // rodeo_ogre
    push_field(&mut fs, Ty::I32);  // pilot_headshots_total
    push_field(&mut fs, Ty::I32);  // evacShips
    push_field(&mut fs, Ty::I32);  // flyers
    push_field(&mut fs, Ty::I32);  // nuclearCore
    push_field(&mut fs, Ty::I32);  // evacuatingEnemies
    push_field(&mut fs, Ty::I32);  // exportTrapKills
    push_field(&mut fs, Ty::I32);  // coopChallenge_NukeTitan_Kills
    push_field(&mut fs, Ty::I32);  // coopChallenge_MortarTitan_Kills
    push_field(&mut fs, Ty::I32);  // coopChallenge_EmpTitan_Kills
    push_field(&mut fs, Ty::I32);  // coopChallenge_BubbleShieldGrunt_Kills
    push_field(&mut fs, Ty::I32);  // coopChallenge_CloakDrone_Kills
    push_field(&mut fs, Ty::I32);  // coopChallenge_Dropship_Kills
    push_field(&mut fs, Ty::I32);  // coopChallenge_SuicideSpectre_Kills
    push_field(&mut fs, Ty::I32);  // coopChallenge_Turret_Kills
    push_field(&mut fs, Ty::I32);  // coopChallenge_Sniper_Kills
    push_field(&mut fs, Ty::I32);  // ampedVortexKills
    push_field(&mut fs, Ty::I32);  // meleeWhileCloaked
    push_field(&mut fs, Ty::I32);  // pilotKillsWhileUsingActiveRadarPulse
    push_field(&mut fs, Ty::I32);  // titanKillsAsPilot
    push_field(&mut fs, Ty::I32);  // pilotKillsWhileStimActive
    push_field(&mut fs, Ty::I32);  // pilotKillsAsTitan
    push_field(&mut fs, Ty::I32);  // totalAssists
    push_field(&mut fs, array_of(Ty::I32, TITAN_COUNT));  // killingSpreeds
    push_field(&mut fs, Ty::I32);  // pilotKillsAsPilot
    push_field(&mut fs, Ty::I32);  // titanKillsAsTitan
    push_field(&mut fs, Ty::I32);  // telefragKils
    push_field(&mut fs, Ty::I32);  // grappleKills
    push_field(&mut fs, Ty::I32);  // throughAWallKills
    push_field(&mut fs, Ty::I32);  // distractedKills
    push_field(&mut fs, Ty::I32);  // pilotExecutePilotWhileCloaked
    push_field(&mut fs, Ty::I32);  // pilotKillsWithHoloPilotActive
    push_field(&mut fs, Ty::I32);  // pilotKillsWithAmpedWallActive
    let t = Ty::Struct(fs);
    proof {
        assert(tys_view(fs@) =~= spec_kill_stats_fields());
        assert(t@ == spec_kill_stats_ty());
    }
    t
}

pub open spec fn spec_death_stats_fields() -> Seq<GTy> {
    seq![
        GTy::I32,  // total
        GTy::I32,  // totalPVP
        GTy::I32,  // asPilot
        GTy::Array(Box::new(GTy::I32), TITAN_COUNT as nat),  // asTitan
        GTy::I32,  // byPilots
        GTy::I32,  // bySpectres
        GTy::I32,  // byGrunts
        GTy::Array(Box::new(GTy::I32), TITAN_COUNT as nat),  // byTitans
        GTy::Array(Box::new(GTy::I32), TITAN_COUNT as nat),  // byNPCTitans
        GTy::I32,  // suicides
        GTy::I32,  // whileEjecting
    ]
}

pub open spec fn spec_death_stats_ty() -> GTy {
    GTy::Struct(spec_death_stats_fields())
}

fn ty_death_stats() -> (t: Ty)
    ensures
        t@ == spec_death_stats_ty(),
        wf_ty(t@),
{
    let mut fs: Vec<Ty> = Vec::new();
    proof {
        assert(tys_view(fs@) =~= Seq::<GTy>::empty());
        assert(wf_tys(Seq::<GTy>::empty()));
    }
    push_field(&mut fs, Ty::I32);  // total
    push_field(&mut fs, Ty::I32);  // totalPVP
    push_field(&mut fs, Ty::I32);  // asPilot
    push_field(&mut fs, array_of(Ty::I32, TITAN_COUNT));  // asTitan
    push_field(&mut fs, Ty::I32);  // byPilots
    push_field(&mut fs, Ty::I32);  // bySpectres
    push_field(&mut fs, Ty::I32);  // byGrunts
    push_field(&mut fs, array_of(Ty::I32, TITAN_COUNT));  // byTitans
    push_field(&mut fs, array_of(Ty::I32, TITAN_COUNT));  // byNPCTitans
    push_field(&mut fs, Ty::I32);  // suicides
    push_field(&mut fs, Ty::I32);  // whileEjecting
    let t = Ty::Struct(fs);
    proof {
        assert(tys_view(fs@) =~= spec_death_stats_fields());
        assert(t@ == spec_death_stats_ty());
    }
    t
}

pub open spec fn spec_misc_stats_fields() -> Seq<GTy> {
    seq![
        GTy::I32,  // titanFalls
        GTy::I32,  // titanFallsFirst
        GTy::I32,  // titanEmbarks
        GTy::I32,  // rodeos
        GTy::I32,  // rodeosFromEject
        GTy::I32,  // timesEjected
        GTy::I32,  // timesEjectedNuclear
        GTy::I32,  // burnCardsEarned
        GTy::I32,  // burnCardsSpent
        GTy::I32,  // boostsActivated
        GTy::I32,  // spectreLeeches
        GTy::Array(Box::new(GTy::I32), MAP_COUNT as nat),  // spectreLeechesByMap
        GTy::I32,  // evacsAttempted
        GTy::I32,  // evacsSurvived
        GTy::I32,  // flagsCaptured
        GTy::I32,  // flagsReturned
        GTy::I32,  // arcCannonMultiKills
        GTy::I32,  // gruntsConscripted
        GTy::I32,  // hardpointsCaptured
        GTy::I32,  // challengeTiersCompleted
        GTy::I32,  // challengesCompleted
        GTy::I32,  // dailyChallengesCompleted
        GTy::I32,  // timesLastTitanRemaining
        GTy::I32,  // killingSprees
        GTy::I32,  // coopChallengesCompleted
        GTy::I32,  // forgedCertificationsUsed
        GTy::I32,  // regenForgedCertificationsUsed
    ]
}

pub open spec fn spec_misc_stats_ty() -> GTy {
    GTy::Struct(spec_misc_stats_fields())
}

fn ty_misc_stats() -> (t: Ty)
    ensures
        t@ == spec_misc_stats_ty(),
        wf_ty(t@),
{
    let mut fs: Vec<Ty> = Vec::new();
    proof {
        assert(tys_view(fs@) =~= Seq::<GTy>::empty());
        assert(wf_tys(Seq::<GTy>::empty()));
    }
    push_field(&mut fs, Ty::I32);  // titanFalls
    push_field(&mut fs, Ty::I32);  // titanFallsFirst
    push_field(&mut fs, Ty::I32);  // titanEmbarks
    push_field(&mut fs, Ty::I32);  // rodeos
    push_field(&mut fs, Ty::I32);  // rodeosFromEject
    push_field(&mut fs, Ty::I32);  // timesEjected
    push_field(&mut fs, Ty::I32);  // timesEjectedNuclear
    push_field(&mut fs, Ty::I32);  // burnCardsEarned
    push_field(&mut fs, Ty::I32);  // burnCardsSpent
    push_field(&mut fs, Ty::I32);  // boostsActivated
    push_field(&mut fs, Ty::I32);  // spectreLeeches
    push_field(&mut fs, array_of(Ty::I32, MAP_COUNT));  // spectreLeechesByMap
    push_field(&mut fs, Ty::I32);  // evacsAttempted
    push_field(&mut fs, Ty::I32);  // evacsSurvived
    push_field(&mut fs, Ty::I32);  // flagsCaptured
    push_field(&mut fs, Ty::I32);  // flagsReturned
    push_field(&mut fs, Ty::I32);  // arcCannonMultiKills
    push_field(&mut fs, Ty::I32);  // gruntsConscripted
    push_field(&mut fs, Ty::I32);  // hardpointsCaptured
    push_field(&mut fs, Ty::I32);  // challengeTiersCompleted
    push_field(&mut fs, Ty::I32);  // challengesCompleted
    push_field(&mut fs, Ty::I32);  // dailyChallengesCompleted
    push_field(&mut fs, Ty::I32);  // timesLastTitanRemaining
    push_field(&mut fs, Ty::I32);  // killingSprees
    push_field(&mut fs, Ty::I32);  // coopChallengesCompleted
    push_field(&mut fs, Ty::I32);  // forgedCertificationsUsed
    push_field(&mut fs, Ty::I32);  // regenForgedCertificationsUsed
    let t = Ty::Struct(fs);
    proof {
        assert(tys_view(fs@) =~= spec_misc_stats_fields());
        assert(t@ == spec_misc_stats_ty());
    }
    t
}

pub open spec fn spec_fd_stats_fields() -> Seq<GTy> {
    seq![
        GTy::I32,  // arcMinesPlaced
        GTy::I32,  // turretsPlaced
        GTy::I32,  // rodeos
        GTy::I32,  // rodeoNukes
        GTy::I32,  // arcMineZaps
        GTy::I32,  // turretKills
        GTy::I32,  // harvesterBoosts
        GTy::I32,  // wavesComplete
        GTy::I32,  // easyWins
        GTy::I32,  // normalWins
        GTy::I32,  // hardWins
        GTy::I32,  // masterWins
        GTy::I32,  // insaneWins
        GTy::I32,  // highestTitanFDLevel
    ]
}

pub open spec fn spec_fd_stats_ty() -> GTy {
    GTy::Struct(spec_fd_stats_fields())
}

fn ty_fd_stats() -> (t: Ty)
    ensures
        t@ == spec_fd_stats_ty(),
        wf_ty(t@),
{
    let mut fs: Vec<Ty> = Vec::new();
    proof {
        assert(tys_view(fs@) =~= Seq::<GTy>::empty());
        assert(wf_tys(Seq::<GTy>::empty()));
    }
    push_field(&mut fs, Ty::I32);  // arcMinesPlaced
    push_field(&mut fs, Ty::I32);  // turretsPlaced
    push_field(&mut fs, Ty::I32);  // rodeos
    push_field(&mut fs, Ty::I32);  // rodeoNukes
    push_field(&mut fs, Ty::I32);  // arcMineZaps
    push_field(&mut fs, Ty::I32);  // turretKills
    push_field(&mut fs, Ty::I32);  // harvesterBoosts
    push_field(&mut fs, Ty::I32);  // wavesComplete
    push_field(&mut fs, Ty::I32);  // easyWins
    push_field(&mut fs, Ty::I32);  // normalWins
    push_field(&mut fs, Ty::I32);  // hardWins
    push_field(&mut fs, Ty::I32);  // masterWins
    push_field(&mut fs, Ty::I32);  // insaneWins
    push_field(&mut fs, Ty::I32);  // highestTitanFDLevel
    let t = Ty::Struct(fs);
    proof {
        assert(tys_view(fs@) =~= spec_fd_stats_fields());
        assert(t@ == spec_fd_stats_ty());
    }
    t
}

pub open spec fn spec_titan_stats_fields() -> Seq<GTy> {
    seq![
        GTy::I32,  // pilots
        GTy::I32,  // titansTotal
        GTy::I32,  // ejections
        GTy::I32,  // titansWhileDoomed
        GTy::I32,  // titanDamage
        GTy::I32,  // titansAsPrime
        GTy::I32,  // pilotsAsPrime
        GTy::I32,  // executionsAsPrime
        GTy::I32,  // coresEarned
        GTy::Array(Box::new(GTy::I32), 5),  // matchesByDifficulty
        GTy::Array(Box::new(GTy::I32), 5),  // perfectMatchesByDifficulty
    ]
}

pub open spec fn spec_titan_stats_ty() -> GTy {
    GTy::Struct(spec_titan_stats_fields())
}

fn ty_titan_stats() -> (t: Ty)
    ensures
        t@ == spec_titan_stats_ty(),
        wf_ty(t@),
{
    let mut fs: Vec<Ty> = Vec::new();
    proof {
        assert(tys_view(fs@) =~= Seq::<GTy>::empty());
        assert(wf_tys(Seq::<GTy>::empty()));
    }
    push_field(&mut fs, Ty::I32);  // pilots
    push_field(&mut fs, Ty::I32);  // titansTotal
    push_field(&mut fs, Ty::I32);  // ejections
    push_field(&mut fs, Ty::I32);  // titansWhileDoomed
    push_field(&mut fs, Ty::I32);  // titanDamage
    push_field(&mut fs, Ty::I32);  // titansAsPrime
    push_field(&mut fs, Ty::I32);  // pilotsAsPrime
    push_field(&mut fs, Ty::I32);  // executionsAsPrime
    push_field(&mut fs, Ty::I32);  // coresEarned
    push_field(&mut fs, array_of(Ty::I32, 5));  // matchesByDifficulty
    push_field(&mut fs, array_of(Ty::I32, 5));  // perfectMatchesByDifficulty
    let t = Ty::Struct(fs);
    proof {
        assert(tys_view(fs@) =~= spec_titan_stats_fields());
        assert(t@ == spec_titan_stats_ty());
    }
    t
}

pub open spec fn spec_weapon_main_fields() -> Seq<GTy> {
    seq![
        spec_weapon_stats_ty(),  // weaponStats
        spec_weapon_kill_stats_ty(),  // weaponKillStats
        GTy::I32,  // weaponXP
        GTy::I32,  // previousWeaponXP
        GTy::I32,  // proScreenKills
        GTy::I32,  // previousProScreenKills
        GTy::I32,  // newMods
        GTy::I32,  // unlockedMods
        GTy::Array(Box::new(GTy::I32), 5),  // newWeaponSkins
        GTy::Array(Box::new(GTy::I32), 5),  // unlockedWeaponSkins
        GTy::Array(Box::new(GTy::I32), 6),  // newPrimeWeaponSkins
        GTy::Array(Box::new(GTy::I32), 6),  // unlockedPrimeWeaponSkins
        GTy::I32,  // newFeatures
        GTy::I32,  // unlockedFeatures
    ]
}

pub open spec fn spec_weapon_main_ty() -> GTy {
    GTy::Struct(spec_weapon_main_fields())
}

fn ty_weapon_main() -> (t: Ty)
    ensures
        t@ == spec_weapon_main_ty(),
        wf_ty(t@),
{
    let mut fs: Vec<Ty> = Vec::new();
    proof {
        assert(tys_view(fs@) =~= Seq::<GTy>::empty());
        assert(wf_tys(Seq::<GTy>::empty()));
    }
    push_field(&mut fs, ty_weapon_stats());  // weaponStats
    push_field(&mut fs, ty_weapon_kill_stats());  // weaponKillStats
    push_field(&mut fs, Ty::I32);  // weaponXP
    push_field(&mut fs, Ty::I32);  // previousWeaponXP
    push_field(&mut fs, Ty::I32);  // proScreenKills
    push_field(&mut fs, Ty::I32);  // previousProScreenKills
    push_field(&mut fs, Ty::I32);  // newMods
    push_field(&mut fs, Ty::I32);  // unlockedMods
    push_field(&mut fs, array_of(Ty::I32, 5));  // newWeaponSkins
    push_field(&mut fs, array_of(Ty::I32, 5));  // unlockedWeaponSkins
    push_field(&mut fs, array_of(Ty::I32, 6));  // newPrimeWeaponSkins
    push_field(&mut fs, array_of(Ty::I32, 6));  // unlockedPrimeWeaponSkins
    push_field(&mut fs, Ty::I32);  // newFeatures
    push_field(&mut fs, Ty::I32);  // unlockedFeatures
    let t = Ty::Struct(fs);
    proof {
        assert(tys_view(fs@) =~= spec_weapon_main_fields());
        assert(t@ == spec_weapon_main_ty());
    }
    t
}

pub open spec fn spec_weapon_off_hand_fields() -> Seq<GTy> {
    seq![
        spec_weapon_stats_ty(),  // weaponStats
        spec_weapon_kill_stats_ty(),  // weaponKillStats
    ]
}

pub open spec fn spec_weapon_off_hand_ty() -> GTy {
    GTy::Struct(spec_weapon_off_hand_fields())
}

fn ty_weapon_off_hand() -> (t: Ty)
    ensures
        t@ == spec_weapon_off_hand_ty(),
        wf_ty(t@),
{
    let mut fs: Vec<Ty> = Vec::new();
    proof {
        assert(tys_view(fs@) =~= Seq::<GTy>::empty());
        assert(wf_tys(Seq::<GTy>::empty()));
    }
    push_field(&mut fs, ty_weapon_stats());  // weaponStats
    push_field(&mut fs, ty_weapon_kill_stats());  // weaponKillStats
    let t = Ty::Struct(fs);
    proof {
        assert(tys_view(fs@) =~= spec_weapon_off_hand_fields());
        assert(t@ == spec_weapon_off_hand_ty());
    }
    t
}

pub open spec fn spec_titan_main_fields() -> Seq<GTy> {
    seq![
        GTy::Array(Box::new(GTy::I32), 2),  // newPassives
        GTy::Array(Box::new(GTy::I32), 2),  // unlockedPassives
        GTy::Array(Box::new(GTy::I32), 5),  // newSkins
        GTy::Array(Box::new(GTy::I32), 5),  // unlockedSkins
        GTy::Array(Box::new(GTy::I32), 2),  // newPrimeSkins
        GTy::Array(Box::new(GTy::I32), 2),  // unlockedPrimeSkins
        GTy::Array(Box::new(GTy::I32), 5),  // newWeaponSkins
        GTy::Array(Box::new(GTy::I32), 5),  // unlockedWeaponSkins
        GTy::I32,  // newPrimeWeaponSkins
        GTy::I32,  // unlockedPrimeWeaponSkins
        GTy::Array(Box::new(GTy::I32), 3),  // newTitanDecals
        GTy::Array(Box::new(GTy::I32), 3),  // unlockedTitanDecals
        GTy::I32,  // newPrimeTitanDecals
        GTy::I32,  // unlockedPrimeTitanDecals
        GTy::Array(Box::new(GTy::I32), 2),  // unlockedFDUpgrades
        GTy::Array(Box::new(GTy::I32), 2),  // newFDUpgrades
    ]
}

pub open spec fn spec_titan_main_ty() -> GTy {
    GTy::Struct(spec_titan_main_fields())
}

fn ty_titan_main() -> (t: Ty)
    ensures
        t@ == spec_titan_main_ty(),
        wf_ty(t@),
{
    let mut fs: Vec<Ty> = Vec::new();
    proof {
        assert(tys_view(fs@) =~= Seq::<GTy>::empty());
        assert(wf_tys(Seq::<GTy>::empty()));
    }
    push_field(&mut fs, array_of(Ty::I32, 2));  // newPassives
    push_field(&mut fs, array_of(Ty::I32, 2));  // unlockedPassives
    push_field(&mut fs, array_of(Ty::I32, 5));  // newSkins
    push_field(&mut fs, array_of(Ty::I32, 5));  // unlockedSkins
    push_field(&mut fs, array_of(Ty::I32, 2));  // newPrimeSkins
    push_field(&mut fs, array_of(Ty::I32, 2));  // unlockedPrimeSkins
    push_field(&mut fs, array_of(Ty::I32, 5));  // newWeaponSkins
    push_field(&mut fs, array_of(Ty::I32, 5));  // unlockedWeaponSkins
    push_field(&mut fs, Ty::I32);  // newPrimeWeaponSkins
    push_field(&mut fs, Ty::I32);  // unlockedPrimeWeaponSkins
    push_field(&mut fs, array_of(Ty::I32, 3));  // newTitanDecals
    push_field(&mut fs, array_of(Ty::I32, 3));  // unlockedTitanDecals
    push_field(&mut fs, Ty::I32);  // newPrimeTitanDecals
    push_field(&mut fs, Ty::I32);  // unlockedPrimeTitanDecals
    push_field(&mut fs, array_of(Ty::I32, 2));  // unlockedFDUpgrades
    push_field(&mut fs, array_of(Ty::I32, 2));  // newFDUpgrades
    let t = Ty::Struct(fs);
    proof {
        assert(tys_view(fs@) =~= spec_titan_main_fields());
        assert(t@ == spec_titan_main_ty());
    }
    t
}

pub open spec fn spec_e_challenge_fields() -> Seq<GTy> {
    seq![
        GTy::F32,  // progress
        GTy::F32,  // previousProgress
    ]
}

pub open spec fn spec_e_challenge_ty() -> GTy {
    GTy::Struct(spec_e_challenge_fields())
}

fn ty_e_challenge() -> (t: Ty)
    ensures
        t@ == spec_e_challenge_ty(),
        wf_ty(t@),
{
    let mut fs: Vec<Ty> = Vec::new();
    proof {
        assert(tys_view(fs@) =~= Seq::<GTy>::empty());
        assert(wf_tys(Seq::<GTy>::empty()));
    }
    push_field(&mut fs, Ty::F32);  // progress
    push_field(&mut fs, Ty::F32);  // previousProgress
    let t = Ty::Struct(fs);
    proof {
        assert(tys_view(fs@) =~= spec_e_challenge_fields());
        assert(t@ == spec_e_challenge_ty());
    }
    t
}

pub open spec fn spec_active_daily_challenge_fields() -> Seq<GTy> {
    seq![
        GTy::Enum(DAILY_CHALLENGE_VARIANTS),  // reference
        GTy::I32,  // day
    ]
}

pub open spec fn spec_active_daily_challenge_ty() -> GTy {
    GTy::Struct(spec_active_daily_challenge_fields())
}

fn ty_active_daily_challenge() -> (t: Ty)
    ensures
        t@ == spec_active_daily_challenge_ty(),
        wf_ty(t@),
{
    let mut fs: Vec<Ty> = Vec::new();
    proof {
        assert(tys_view(fs@) =~= Seq::<GTy>::empty());
        assert(wf_tys(Seq::<GTy>::empty()));
    }
    push_field(&mut fs, Ty::Enum(DAILY_CHALLENGE_VARIANTS));  // reference
    push_field(&mut fs, Ty::I32);  // day
    let t = Ty::Struct(fs);
    proof {
        assert(tys_view(fs@) =~= spec_active_daily_challenge_fields());
        assert(t@ == spec_active_daily_challenge_ty());
    }
    t
}

pub open spec fn spec_post_game_player_fields() -> Seq<GTy> {
    seq![
        GTy::Str(32),  // name
        GTy::Str(22),  // xuid
        GTy::I32,  // level
        GTy::I32,  // gen
        GTy::I32,  // team
        GTy::Array(Box::new(GTy::I32), DAILY_CHALLENGE_COUNT as nat),  // scores
        GTy::Bool,  // playingRanked
        GTy::I32,  // rank
        GTy::I32,  // callsignIconIndex
        GTy::F32,  // matchPerformance
    ]
}

pub open spec fn spec_post_game_player_ty() -> GTy {
    GTy::Struct(spec_post_game_player_fields())
}

fn ty_post_game_player() -> (t: Ty)
    ensures
        t@ == spec_post_game_player_ty(),
        wf_ty(t@),
{
    let mut fs: Vec<Ty> = Vec::new();
    proof {
        assert(tys_view(fs@) =~= Seq::<GTy>::empty());
        assert(wf_tys(Seq::<GTy>::empty()));
    }
    push_field(&mut fs, Ty::Str(32));  // name
    push_field(&mut fs, Ty::Str(22));  // xuid
    push_field(&mut fs, Ty::I32);  // level
    push_field(&mut fs, Ty::I32);  // gen
    push_field(&mut fs, Ty::I32);  // team
    push_field(&mut fs, array_of(Ty::I32, DAILY_CHALLENGE_COUNT));  // scores
    push_field(&mut fs, Ty::Bool);  // playingRanked
    push_field(&mut fs, Ty::I32);  // rank
    push_field(&mut fs, Ty::I32);  // callsignIconIndex
    push_field(&mut fs, Ty::F32);  // matchPerformance
    let t = Ty::Struct(fs);
    proof {
        assert(tys_view(fs@) =~= spec_post_game_player_fields());
        assert(t@ == spec_post_game_player_ty());
    }
    t
}

pub open spec fn spec_post_game_data_fields() -> Seq<GTy> {
    seq![
        GTy::I32,  // gameMode
        GTy::I32,  // map
        GTy::Str(22),  // myXuid
        GTy::I32,  // myTeam
        GTy::I32,  // maxTeamSize
        GTy::Enum(FACTION_VARIANTS),  // factionIMC
        GTy::Enum(FACTION_VARIANTS),  // factionMCOR
        GTy::I32,  // scoreIMC
        GTy::I32,  // scoreMCOR
        GTy::Bool,  // teams
        GTy::Bool,  // privateMatch
        GTy::Bool,  // ranked
        GTy::Bool,  // hadMatchLossProtection
        GTy::Array(Box::new(spec_recent_unlock_ty()), 6),  // challengeUnlocks
        GTy::Array(Box::new(spec_post_game_player_ty()), 16),  // players
    ]
}

pub open spec fn spec_post_game_data_ty() -> GTy {
    GTy::Struct(spec_post_game_data_fields())
}

fn ty_post_game_data() -> (t: Ty)
    ensures
        t@ == spec_post_game_data_ty(),
        wf_ty(t@),
{
    let mut fs: Vec<Ty> = Vec::new();
    proof {
        assert(tys_view(fs@) =~= Seq::<GTy>::empty());
        assert(wf_tys(Seq::<GTy>::empty()));
    }
    push_field(&mut fs, Ty::I32);  // gameMode
    push_field(&mut fs, Ty::I32);  // map
    push_field(&mut fs, Ty::Str(22));  // myXuid
    push_field(&mut fs, Ty::I32);  // myTeam
    push_field(&mut fs, Ty::I32);  // maxTeamSize
    push_field(&mut fs, Ty::Enum(FACTION_VARIANTS));  // factionIMC
    push_field(&mut fs, Ty::Enum(FACTION_VARIANTS));  // factionMCOR
    push_field(&mut fs, Ty::I32);  // scoreIMC
    push_field(&mut fs, Ty::I32);  // scoreMCOR
    push_field(&mut fs, Ty::Bool);  // teams
    push_field(&mut fs, Ty::Bool);  // privateMatch
    push_field(&mut fs, Ty::Bool);  // ranked
    push_field(&mut fs, Ty::Bool);  // hadMatchLossProtection
    push_field(&mut fs, array_of(ty_recent_unlock(), 6));  // challengeUnlocks
    push_field(&mut fs, array_of(ty_post_game_player(), 16));  // players
    let t = Ty::Struct(fs);
    proof {
        assert(tys_view(fs@) =~= spec_post_game_data_fields());
        assert(t@ == spec_post_game_data_ty());
    }
    t
}

pub open spec fn spec_fd_post_game_player_fields() -> Seq<GTy> {
    seq![
        GTy::Str(32),  // name
        GTy::Str(22),  // xuid
        GTy::I32,  // awardId
        GTy::F32,  // awardValue
        GTy::I32,  // suitIndex
    ]
}

pub open spec fn spec_fd_post_game_player_ty() -> GTy {
    GTy::Struct(spec_fd_post_game_player_fields())
}

fn ty_fd_post_game_player() -> (t: Ty)
    ensures
        t@ == spec_fd_post_game_player_ty(),
        wf_ty(t@),
{
    let mut fs: Vec<Ty> = Vec::new();
    proof {
        assert(tys_view(fs@) =~= Seq::<GTy>::empty());
        assert(wf_tys(Seq::<GTy>::empty()));
    }
    push_field(&mut fs, Ty::Str(32));  // name
    push_field(&mut fs, Ty::Str(22));  // xuid
    push_field(&mut fs, Ty::I32);  // awardId
    push_field(&mut fs, Ty::F32);  // awardValue
    push_field(&mut fs, Ty::I32);  // suitIndex
    let t = Ty::Struct(fs);
    proof {
        assert(tys_view(fs@) =~= spec_fd_post_game_player_fields());
        assert(t@ == spec_fd_post_game_player_ty());
    }
    t
}

pub open spec fn spec_fd_post_game_data_fields() -> Seq<GTy> {
    seq![
        GTy::I32,  // gameMode
        GTy::I32,  // map
        GTy::I32,  // myIndex
        GTy::I32,  // numPlayers
        GTy::Array(Box::new(spec_fd_post_game_player_ty()), DAILY_CHALLENGE_COUNT as nat),  // players
    ]
}

pub open spec fn spec_fd_post_game_data_ty() -> GTy {
    GTy::Struct(spec_fd_post_game_data_fields())
}

fn ty_fd_post_game_data() -> (t: Ty)
    ensures
        t@ == spec_fd_post_game_data_ty(),
        wf_ty(t@),
{
    let mut fs: Vec<Ty> = Vec::new();
    proof {
        assert(tys_view(fs@) =~= Seq::<GTy>::empty());
        assert(wf_tys(Seq::<GTy>::empty()));
    }
    push_field(&mut fs, Ty::I32);  // gameMode
    push_field(&mut fs, Ty::I32);  // map
    push_field(&mut fs, Ty::I32);  // myIndex
    push_field(&mut fs, Ty::I32);  // numPlayers
    push_field(&mut fs, array_of(ty_fd_post_game_player(), DAILY_CHALLENGE_COUNT));  // players
    let t = Ty::Struct(fs);
    proof {
        assert(tys_view(fs@) =~= spec_fd_post_game_data_fields());
        assert(t@ == spec_fd_post_game_data_ty());
    }
    t
}

pub open spec fn spec_ranked_fields() -> Seq<GTy> {
    seq![
        GTy::Bool,  // isPlayingRanked
        GTy::I32,  // currentRank
    ]
}

pub open spec fn spec_ranked_ty() -> GTy {
    GTy::Struct(spec_ranked_fields())
}

fn ty_ranked() -> (t: Ty)
    ensures
        t@ == spec_ranked_ty(),
        wf_ty(t@),
{
    let mut fs: Vec<Ty> = Vec::new();
    proof {
        assert(tys_view(fs@) =~= Seq::<GTy>::empty());
        assert(wf_tys(Seq::<GTy>::empty()));
    }
    push_field(&mut fs, Ty::Bool);  // isPlayingRanked
    push_field(&mut fs, Ty::I32);  // currentRank
    let t = Ty::Struct(fs);
    proof {
        assert(tys_view(fs@) =~= spec_ranked_fields());
        assert(t@ == spec_ranked_ty());
    }
    t
}

pub open spec fn spec_pd_part_a() -> Seq<GTy> {
    seq![
        GTy::I32,  // initializedVersion
        GTy::I32,  // announcementVersionSeen
        GTy::I32,  // xp
        GTy::I32,  // previousXP
        GTy::I32,  // credits
        GTy::Array(Box::new(GTy::I32), 20),  // xp_match
        GTy::Array(Box::new(GTy::I32), 20),  // xp_count
        GTy::I32,  // netWorth
        GTy::Bool,  // matchWin
        GTy::Bool,  // matchScoreEvent
        GTy::Bool,  // matchComplete
        GTy::Bool,  // matchSquadBonus
        GTy::Bool,  // showGameSummary
        GTy::Bool,  // regenShowNew
        GTy::Bool,  // spawnAsTitan
        GTy::Bool,  // haveSeenCustomCoop
        GTy::Bool,  // factionGiftsFixed
        GTy::Bool,  // isACheater
        GTy::Bool,  // spendDoubleColiseumTickets
        GTy::I32,  // privateMatchState
        GTy::I32,  // playlistShuffle_seed
        GTy::Bool,  // playlistShuffle_seedFlip
        GTy::I32,  // playlistShuffle_curIndex
        GTy::Str(16),  // lastFDTitanRef
        GTy::I32,  // lastFDDifficulty
        GTy::Bool,  // ultimateEdition
        GTy::I32,  // randomColiseumUnlocks
        GTy::I32,  // randomPlayerLevelUnlocks
        GTy::Array(Box::new(GTy::I32), TITAN_COUNT as nat),  // randomTitanLevelUnlocks
        GTy::Array(Box::new(GTy::I32), WEAPONS_ABILITIES_COUNT as nat),  // randomWeaponLevelUnlocks
        GTy::Array(Box::new(GTy::I32), TITAN_COUNT as nat),  // randomFactionLevelUnlocks
        GTy::I32,  // doubleXP
        GTy::I32,  // coliseumTickets
    ]
}

fn pd_part_a() -> (v: Vec<Ty>)
    ensures
        tys_view(v@) == spec_pd_part_a(),
        wf_tys(tys_view(v@)),
{
    let mut fs: Vec<Ty> = Vec::new();
    proof {
        assert(tys_view(fs@) =~= Seq::<GTy>::empty());
        assert(wf_tys(Seq::<GTy>::empty()));
    }
    push_field(&mut fs, Ty::I32);  // initializedVersion
    push_field(&mut fs, Ty::I32);  // announcementVersionSeen
    push_field(&mut fs, Ty::I32);  // xp
    push_field(&mut fs, Ty::I32);  // previousXP
    push_field(&mut fs, Ty::I32);  // credits
    push_field(&mut fs, array_of(Ty::I32, 20));  // xp_match
    push_field(&mut fs, array_of(Ty::I32, 20));  // xp_count
    push_field(&mut fs, Ty::I32);  // netWorth
    push_field(&mut fs, Ty::Bool);  // matchWin
    push_field(&mut fs, Ty::Bool);  // matchScoreEvent
    push_field(&mut fs, Ty::Bool);  // matchComplete
    push_field(&mut fs, Ty::Bool);  // matchSquadBonus
    push_field(&mut fs, Ty::Bool);  // showGameSummary
    push_field(&mut fs, Ty::Bool);  // regenShowNew
    push_field(&mut fs, Ty::Bool);  // spawnAsTitan
    push_field(&mut fs, Ty::Bool);  // haveSeenCustomCoop
    push_field(&mut fs, Ty::Bool);  // factionGiftsFixed
    push_field(&mut fs, Ty::Bool);  // isACheater
    push_field(&mut fs, Ty::Bool);  // spendDoubleColiseumTickets
    push_field(&mut fs, Ty::I32);  // privateMatchState
    push_field(&mut fs, Ty::I32);  // playlistShuffle_seed
    push_field(&mut fs, Ty::Bool);  // playlistShuffle_seedFlip
    push_field(&mut fs, Ty::I32);  // playlistShuffle_curIndex
    push_field(&mut fs, Ty::Str(16));  // lastFDTitanRef
    push_field(&mut fs, Ty::I32);  // lastFDDifficulty
    push_field(&mut fs, Ty::Bool);  // ultimateEdition
    push_field(&mut fs, Ty::I32);  // randomColiseumUnlocks
    push_field(&mut fs, Ty::I32);  // randomPlayerLevelUnlocks
    push_field(&mut fs, array_of(Ty::I32, TITAN_COUNT));  // randomTitanLevelUnlocks
    push_field(&mut fs, array_of(Ty::I32, WEAPONS_ABILITIES_COUNT));  // randomWeaponLevelUnlocks
    push_field(&mut fs, array_of(Ty::I32, TITAN_COUNT));  // randomFactionLevelUnlocks
    push_field(&mut fs, Ty::I32);  // doubleXP
    push_field(&mut fs, Ty::I32);  // coliseumTickets
    proof {
        assert(tys_view(fs@) =~= spec_pd_part_a());
    }
    fs
}

pub open spec fn spec_pd_part_b() -> Seq<GTy> {
    seq![
        GTy::I32,  // coliseumWinStreak
        GTy::I32,  // coliseumBestStreak
        GTy::I32,  // coliseumTotalWins
        GTy::I32,  // coliseumTotalLosses
        GTy::Array(Box::new(spec_recent_unlock_ty()), 10),  // reventUnlocks
        GTy::Bool,  // hasBeenIntroducedToComms
        GTy::I32,  // lastCommsUseDate
        GTy::I32,  // numTimesUsedComms
        GTy::Bool,  // custom_emoji_initialized
        GTy::Array(Box::new(GTy::I32), DAILY_CHALLENGE_COUNT as nat),  // custom_emoji
        GTy::I32,  // burnmeterSlot
        spec_pve_data_ty(),  // pve
        GTy::Enum(FACTION_VARIANTS),  // factionChoice
        GTy::Enum(FACTION_VARIANTS),  // enemyFaction
        GTy::Array(Box::new(GTy::Bool), 32),  // persistentRewards
        GTy::Array(Box::new(GTy::I32), 32),  // consumableRewards
        spec_spawn_loadout_ty(),  // pilotSpawnLoadout
        spec_spawn_loadout_ty(),  // titanSpawnLoadout
        spec_pilot_loadout_ty(),  // activePilotLoadout
        spec_titan_loadout_ty(),  // activeTitanLoadout
        GTy::I32,  // activeTitanLoadoutIndex
        GTy::Array(Box::new(spec_pilot_loadout_ty()), 10),  // pilotLoadouts
        GTy::Array(Box::new(spec_titan_loadout_ty()), 10),  // titanLoadouts
        GTy::Array(Box::new(GTy::Bool), 9),  // pinTrackedEntitlements
        GTy::Array(Box::new(GTy::Bool), 9),  // newPinTrackedEntitlements
        GTy::I32,  // activeBCID
        GTy::I32,  // activeCallingCardIndex
        GTy::I32,  // activeCallsignIconIndex
        GTy::I32,  // activeCallsignIconStyleIndex
        GTy::I32,  // gen
        GTy::Array(Box::new(GTy::I32), TITAN_COUNT as nat),  // factionXP
        GTy::Array(Box::new(GTy::I32), TITAN_COUNT as nat),  // previousFactionXP
        GTy::Array(Box::new(GTy::I32), TITAN_COUNT as nat),  // titanXP
    ]
}

fn pd_part_b() -> (v: Vec<Ty>)
    ensures
        tys_view(v@) == spec_pd_part_b(),
        wf_tys(tys_view(v@)),
{
    let mut fs: Vec<Ty> = Vec::new();
    proof {
        assert(tys_view(fs@) =~= Seq::<GTy>::empty());
        assert(wf_tys(Seq::<GTy>::empty()));
    }
    push_field(&mut fs, Ty::I32);  // coliseumWinStreak
    push_field(&mut fs, Ty::I32);  // coliseumBestStreak
    push_field(&mut fs, Ty::I32);  // coliseumTotalWins
    push_field(&mut fs, Ty::I32);  // coliseumTotalLosses
    push_field(&mut fs, array_of(ty_recent_unlock(), 10));  // reventUnlocks
    push_field(&mut fs, Ty::Bool);  // hasBeenIntroducedToComms
    push_field(&mut fs, Ty::I32);  // lastCommsUseDate
    push_field(&mut fs, Ty::I32);  // numTimesUsedComms
    push_field(&mut fs, Ty::Bool);  // custom_emoji_initialized
    push_field(&mut fs, array_of(Ty::I32, DAILY_CHALLENGE_COUNT));  // custom_emoji
    push_field(&mut fs, Ty::I32);  // burnmeterSlot
    push_field(&mut fs, ty_pve_data());  // pve
    push_field(&mut fs, Ty::Enum(FACTION_VARIANTS));  // factionChoice
    push_field(&mut fs, Ty::Enum(FACTION_VARIANTS));  // enemyFaction
    push_field(&mut fs, array_of(Ty::Bool, 32));  // persistentRewards
    push_field(&mut fs, array_of(Ty::I32, 32));  // consumableRewards
    push_field(&mut fs, ty_spawn_loadout());  // pilotSpawnLoadout
    push_field(&mut fs, ty_spawn_loadout());  // titanSpawnLoadout
    push_field(&mut fs, ty_pilot_loadout());  // activePilotLoadout
    push_field(&mut fs, ty_titan_loadout());  // activeTitanLoadout
    push_field(&mut fs, Ty::I32);  // activeTitanLoadoutIndex
    push_field(&mut fs, array_of(ty_pilot_loadout(), 10));  // pilotLoadouts
    push_field(&mut fs, array_of(ty_titan_loadout(), 10));  // titanLoadouts
    push_field(&mut fs, array_of(Ty::Bool, 9));  // pinTrackedEntitlements
    push_field(&mut fs, array_of(Ty::Bool, 9));  // newPinTrackedEntitlements
    push_field(&mut fs, Ty::I32);  // activeBCID
    push_field(&mut fs, Ty::I32);  // activeCallingCardIndex
    push_field(&mut fs, Ty::I32);  // activeCallsignIconIndex
    push_field(&mut fs, Ty::I32);  // activeCallsignIconStyleIndex
    push_field(&mut fs, Ty::I32);  // gen
    push_field(&mut fs, array_of(Ty::I32, TITAN_COUNT));  // factionXP
    push_field(&mut fs, array_of(Ty::I32, TITAN_COUNT));  // previousFactionXP
    push_field(&mut fs, array_of(Ty::I32, TITAN_COUNT));  // titanXP
    proof {
        assert(tys_view(fs@) =~= spec_pd_part_b());
    }
    fs
}

pub open spec fn spec_pd_part_c() -> Seq<GTy> {
    seq![
        GTy::Array(Box::new(GTy::I32), TITAN_COUNT as nat),  // previousTitanXP
        GTy::Array(Box::new(GTy::I32), TITAN_COUNT as nat),  // fdTitanXP
        GTy::Array(Box::new(GTy::I32), TITAN_COUNT as nat),  // fdPreviousTitanXP
        GTy::Array(Box::new(GTy::I32), TITAN_COUNT as nat),  // titanFDUnlockPoints
        GTy::Array(Box::new(GTy::I32), TITAN_COUNT as nat),  // previousFDUnlockPoints
        GTy::Array(Box::new(GTy::I32), 20),  // fd_match
        GTy::Array(Box::new(GTy::I32), 20),  // fd_count
        GTy::Array(Box::new(GTy::I32), TITAN_COUNT as nat),  // titanClassLockState
        GTy::I32,  // fdTutorialBits
        GTy::I32,  // fdPlaylistBits
        spec_game_stats_ty(),  // gameStats
        GTy::Array(Box::new(spec_map_stats_ty()), MAP_COUNT as nat),  // mapStats
        spec_hours_played_ty(),  // timeStats
        spec_miles_traveled_ty(),  // distanceStats
        GTy::Array(Box::new(spec_weapon_stats_ty()), WEAPONS_ABILITIES_COUNT as nat),  // weaponStats
        GTy::Array(Box::new(spec_weapon_kill_stats_ty()), WEAPONS_ABILITIES_COUNT as nat),  // weaponKillStats
        spec_kill_stats_ty(),  // killStats
        spec_death_stats_ty(),  // deathStats
        spec_misc_stats_ty(),  // miscStats
        spec_fd_stats_ty(),  // fdStats
        GTy::Array(Box::new(spec_titan_stats_ty()), TITAN_COUNT as nat),  // titanStats
        GTy::F32,  // kdratio_lifetime
        GTy::F32,  // kdratio_lifetime_pvp
        GTy::Array(Box::new(GTy::F32), 10),  // kdratio_match
        GTy::Array(Box::new(GTy::F32), 10),  // kdratiopvp_match
        GTy::I32,  // winStreak
        GTy::I32,  // highestWinStreakEver
        GTy::Bool,  // winStreakIsDraws
        GTy::Array(Box::new(GTy::I32), 10),  // winLossHistory
        GTy::I32,  // winLossHistorySize
        GTy::I32,  // mostProjectilesCollectedInVortex
        GTy::I32,  // blackMarketItemsBought
        GTy::Bool,  // respawnKillInfected
    ]
}

fn pd_part_c() -> (v: Vec<Ty>)
    ensures
        tys_view(v@) == spec_pd_part_c(),
        wf_tys(tys_view(v@)),
{
    let mut fs: Vec<Ty> = Vec::new();
    proof {
        assert(tys_view(fs@) =~= Seq::<GTy>::empty());
        assert(wf_tys(Seq::<GTy>::empty()));
    }
    push_field(&mut fs, array_of(Ty::I32, TITAN_COUNT));  // previousTitanXP
    push_field(&mut fs, array_of(Ty::I32, TITAN_COUNT));  // fdTitanXP
    push_field(&mut fs, array_of(Ty::I32, TITAN_COUNT));  // fdPreviousTitanXP
    push_field(&mut fs, array_of(Ty::I32, TITAN_COUNT));  // titanFDUnlockPoints
    push_field(&mut fs, array_of(Ty::I32, TITAN_COUNT));  // previousFDUnlockPoints
    push_field(&mut fs, array_of(Ty::I32, 20));  // fd_match
    push_field(&mut fs, array_of(Ty::I32, 20));  // fd_count
    push_field(&mut fs, array_of(Ty::I32, TITAN_COUNT));  // titanClassLockState
    push_field(&mut fs, Ty::I32);  // fdTutorialBits
    push_field(&mut fs, Ty::I32);  // fdPlaylistBits
    push_field(&mut fs, ty_game_stats());  // gameStats
    push_field(&mut fs, array_of(ty_map_stats(), MAP_COUNT));  // mapStats
    push_field(&mut fs, ty_hours_played());  // timeStats
    push_field(&mut fs, ty_miles_traveled());  // distanceStats
    push_field(&mut fs, array_of(ty_weapon_stats(), WEAPONS_ABILITIES_COUNT));  // weaponStats
    push_field(&mut fs, array_of(ty_weapon_kill_stats(), WEAPONS_ABILITIES_COUNT));  // weaponKillStats
    push_field(&mut fs, ty_kill_stats());  // killStats
    push_field(&mut fs, ty_death_stats());  // deathStats
    push_field(&mut fs, ty_misc_stats());  // miscStats
    push_field(&mut fs, ty_fd_stats());  // fdStats
    push_field(&mut fs, array_of(ty_titan_stats(), TITAN_COUNT));  // titanStats
    push_field(&mut fs, Ty::F32);  // kdratio_lifetime
    push_field(&mut fs, Ty::F32);  // kdratio_lifetime_pvp
    push_field(&mut fs, array_of(Ty::F32, 10));  // kdratio_match
    push_field(&mut fs, array_of(Ty::F32, 10));  // kdratiopvp_match
    push_field(&mut fs, Ty::I32);  // winStreak
    push_field(&mut fs, Ty::I32);  // highestWinStreakEver
    push_field(&mut fs, Ty::Bool);  // winStreakIsDraws
    push_field(&mut fs, array_of(Ty::I32, 10));  // winLossHistory
    push_field(&mut fs, Ty::I32);  // winLossHistorySize
    push_field(&mut fs, Ty::I32);  // mostProjectilesCollectedInVortex
    push_field(&mut fs, Ty::I32);  // blackMarketItemsBought
    push_field(&mut fs, Ty::Bool);  // respawnKillInfected
    proof {
        assert(tys_view(fs@) =~= spec_pd_part_c());
    }
    fs
}

pub open spec fn spec_pd_part_d() -> Seq<GTy> {
    seq![
        GTy::Array(Box::new(spec_weapon_main_ty()), 35),  // pilotWeapons
        GTy::Array(Box::new(spec_weapon_off_hand_ty()), 35),  // pilotOffhands
        GTy::Array(Box::new(spec_weapon_main_ty()), 15),  // titanWeapons
        GTy::Array(Box::new(spec_weapon_off_hand_ty()), 30),  // titanOffhands
        GTy::Array(Box::new(spec_titan_main_ty()), 12),  // titanChassis
        GTy::Bool,  // hasSeenStore
        GTy::Array(Box::new(GTy::I32), 5),  // newPilotSkins
        GTy::Array(Box::new(GTy::I32), 5),  // unlockedPilotSkins
        GTy::I32,  // newPrimePilotSkins
        GTy::I32,  // unlockedPrimePilotSkins
        GTy::Array(Box::new(GTy::I32), 2),  // newPilotWeapons
        GTy::Array(Box::new(GTy::I32), 2),  // unlockedPilotWeapons
        GTy::Array(Box::new(GTy::I32), 2),  // newPilotOffhands
        GTy::Array(Box::new(GTy::I32), 2),  // unlockedPilotOffhands
        GTy::I32,  // newPilotPassives
        GTy::I32,  // unlockedPilotPassives
        GTy::Array(Box::new(GTy::I32), 2),  // newTitanOffhands
        GTy::Array(Box::new(GTy::I32), 2),  // unlockedTitanOffhands
        GTy::I32,  // newTitanPassives
        GTy::I32,  // unlockedTitanPassives
        GTy::I32,  // newTitanChassis
        GTy::I32,  // unlockedTitanChassis
        GTy::I32,  // newPrimeTitans
        GTy::I32,  // unlockedPrimeTitans
        GTy::I32,  // newPilotSuits
        GTy::I32,  // unlockedPilotSuits
        GTy::I32,  // newPilotExecutions
        GTy::I32,  // unlockedPilotExecutions
        GTy::Array(Box::new(GTy::I32), 2),  // unlockedFeatures
        GTy::Array(Box::new(GTy::I32), 2),  // newFeatures
        GTy::I32,  // unlockedBoosts
        GTy::I32,  // newBoosts
        GTy::I32,  // unlockedFactions
    ]
}

fn pd_part_d() -> (v: Vec<Ty>)
    ensures
        tys_view(v@) == spec_pd_part_d(),
        wf_tys(tys_view(v@)),
{
    let mut fs: Vec<Ty> = Vec::new();
    proof {
        assert(tys_view(fs@) =~= Seq::<GTy>::empty());
        assert(wf_tys(Seq::<GTy>::empty()));
    }
    push_field(&mut fs, array_of(ty_weapon_main(), 35));  // pilotWeapons
    push_field(&mut fs, array_of(ty_weapon_off_hand(), 35));  // pilotOffhands
    push_field(&mut fs, array_of(ty_weapon_main(), 15));  // titanWeapons
    push_field(&mut fs, array_of(ty_weapon_off_hand(), 30));  // titanOffhands
    push_field(&mut fs, array_of(ty_titan_main(), 12));  // titanChassis
    push_field(&mut fs, Ty::Bool);  // hasSeenStore
    push_field(&mut fs, array_of(Ty::I32, 5));  // newPilotSkins
    push_field(&mut fs, array_of(Ty::I32, 5));  // unlockedPilotSkins
    push_field(&mut fs, Ty::I32);  // newPrimePilotSkins
    push_field(&mut fs, Ty::I32);  // unlockedPrimePilotSkins
    push_field(&mut fs, array_of(Ty::I32, 2));  // newPilotWeapons
    push_field(&mut fs, array_of(Ty::I32, 2));  // unlockedPilotWeapons
    push_field(&mut fs, array_of(Ty::I32, 2));  // newPilotOffhands
    push_field(&mut fs, array_of(Ty::I32, 2));  // unlockedPilotOffhands
    push_field(&mut fs, Ty::I32);  // newPilotPassives
    push_field(&mut fs, Ty::I32);  // unlockedPilotPassives
    push_field(&mut fs, array_of(Ty::I32, 2));  // newTitanOffhands
    push_field(&mut fs, array_of(Ty::I32, 2));  // unlockedTitanOffhands
    push_field(&mut fs, Ty::I32);  // newTitanPassives
    push_field(&mut fs, Ty::I32);  // unlockedTitanPassives
    push_field(&mut fs, Ty::I32);  // newTitanChassis
    push_field(&mut fs, Ty::I32);  // unlockedTitanChassis
    push_field(&mut fs, Ty::I32);  // newPrimeTitans
    push_field(&mut fs, Ty::I32);  // unlockedPrimeTitans
    push_field(&mut fs, Ty::I32);  // newPilotSuits
    push_field(&mut fs, Ty::I32);  // unlockedPilotSuits
    push_field(&mut fs, Ty::I32);  // newPilotExecutions
    push_field(&mut fs, Ty::I32);  // unlockedPilotExecutions
    push_field(&mut fs, array_of(Ty::I32, 2));  // unlockedFeatures
    push_field(&mut fs, array_of(Ty::I32, 2));  // newFeatures
    push_field(&mut fs, Ty::I32);  // unlockedBoosts
    push_field(&mut fs, Ty::I32);  // newBoosts
    push_field(&mut fs, Ty::I32);  // unlockedFactions
    proof {
        assert(tys_view(fs@) =~= spec_pd_part_d());
    }
    fs
}

pub open spec fn spec_pd_part_e() -> Seq<GTy> {
    seq![
        GTy::I32,  // newFactions
        GTy::Array(Box::new(GTy::I32), 16),  // unlockedCallingCards
        GTy::Array(Box::new(GTy::I32), 16),  // newCallingCards
        GTy::Array(Box::new(GTy::I32), TITAN_COUNT as nat),  // unlockedCallsignIcons
        GTy::Array(Box::new(GTy::I32), TITAN_COUNT as nat),  // newCallsignIcons
        GTy::Array(Box::new(GTy::I32), 5),  // unlockedCommsIcons
        GTy::Array(Box::new(GTy::I32), 5),  // newCommsIcons
        GTy::I32,  // newTitanExecutions
        GTy::I32,  // unlockedTitanExecutions
        GTy::Array(Box::new(spec_e_challenge_ty()), CHALLENGE_COUNT as nat),  // challenges
        GTy::Array(Box::new(spec_e_challenge_ty()), DAILY_CHALLENGE_COUNT as nat),  // dailychallenges
        GTy::Array(Box::new(spec_active_daily_challenge_ty()), 9),  // activeDailyChallenges
        GTy::Array(Box::new(GTy::I32), 3),  // trackedChallenges
        GTy::Array(Box::new(GTy::I32), 3),  // EOGTrackedChallenges
        GTy::Array(Box::new(GTy::Str(64)), 3),  // trackedChallengeRefs
        GTy::Array(Box::new(GTy::Str(64)), 3),  // EOGTrackedChallengeRefs
        GTy::I32,  // dailyChallengeDayIndex
        GTy::Bool,  // newDailyChallenges
        GTy::Bool,  // isPostGameScoreboardValid
        spec_post_game_data_ty(),  // postGameData
        GTy::Bool,  // isFDPostGameScoreboardValid
        spec_fd_post_game_data_ty(),  // postGameDataFD
        GTy::I32,  // previousGooserProgress
        GTy::Array(Box::new(GTy::I32), 24),  // mapHistory
        GTy::Array(Box::new(GTy::I32), 10),  // modeHistory
        GTy::Str(32),  // lastPlayList
        GTy::I32,  // lastDailyMatchVictory
        GTy::I32,  // lastTimePlayed
        GTy::I32,  // lastTimeLoggedIn
        GTy::Array(Box::new(GTy::I32), GAME_MODE_COUNT as nat),  // abandonCountForMode
        GTy::Enum(GAME_MODE_VARIANTS),  // lastAbandonedMode
        GTy::I32,  // lastAbandonTime
        spec_ranked_ty(),  // ranked
    ]
}

fn pd_part_e() -> (v: Vec<Ty>)
    ensures
        tys_view(v@) == spec_pd_part_e(),
        wf_tys(tys_view(v@)),
{
    let mut fs: Vec<Ty> = Vec::new();
    proof {
        assert(tys_view(fs@) =~= Seq::<GTy>::empty());
        assert(wf_tys(Seq::<GTy>::empty()));
    }
    push_field(&mut fs, Ty::I32);  // newFactions
    push_field(&mut fs, array_of(Ty::I32, 16));  // unlockedCallingCards
    push_field(&mut fs, array_of(Ty::I32, 16));  // newCallingCards
    push_field(&mut fs, array_of(Ty::I32, TITAN_COUNT));  // unlockedCallsignIcons
    push_field(&mut fs, array_of(Ty::I32, TITAN_COUNT));  // newCallsignIcons
    push_field(&mut fs, array_of(Ty::I32, 5));  // unlockedCommsIcons
    push_field(&mut fs, array_of(Ty::I32, 5));  // newCommsIcons
    push_field(&mut fs, Ty::I32);  // newTitanExecutions
    push_field(&mut fs, Ty::I32);  // unlockedTitanExecutions
    push_field(&mut fs, array_of(ty_e_challenge(), CHALLENGE_COUNT));  // challenges
    push_field(&mut fs, array_of(ty_e_challenge(), DAILY_CHALLENGE_COUNT));  // dailychallenges
    push_field(&mut fs, array_of(ty_active_daily_challenge(), 9));  // activeDailyChallenges
    push_field(&mut fs, array_of(Ty::I32, 3));  // trackedChallenges
    push_field(&mut fs, array_of(Ty::I32, 3));  // EOGTrackedChallenges
    push_field(&mut fs, array_of(Ty::Str(64), 3));  // trackedChallengeRefs
    push_field(&mut fs, array_of(Ty::Str(64), 3));  // EOGTrackedChallengeRefs
    push_field(&mut fs, Ty::I32);  // dailyChallengeDayIndex
    push_field(&mut fs, Ty::Bool);  // newDailyChallenges
    push_field(&mut fs, Ty::Bool);  // isPostGameScoreboardValid
    push_field(&mut fs, ty_post_game_data());  // postGameData
    push_field(&mut fs, Ty::Bool);  // isFDPostGameScoreboardValid
    push_field(&mut fs, ty_fd_post_game_data());  // postGameDataFD
    push_field(&mut fs, Ty::I32);  // previousGooserProgress
    push_field(&mut fs, array_of(Ty::I32, 24));  // mapHistory
    push_field(&mut fs, array_of(Ty::I32, 10));  // modeHistory
    push_field(&mut fs, Ty::Str(32));  // lastPlayList
    push_field(&mut fs, Ty::I32);  // lastDailyMatchVictory
    push_field(&mut fs, Ty::I32);  // lastTimePlayed
    push_field(&mut fs, Ty::I32);  // lastTimeLoggedIn
    push_field(&mut fs, array_of(Ty::I32, GAME_MODE_COUNT));  // abandonCountForMode
    push_field(&mut fs, Ty::Enum(GAME_MODE_VARIANTS));  // lastAbandonedMode
    push_field(&mut fs, Ty::I32);  // lastAbandonTime
    push_field(&mut fs, ty_ranked());  // ranked
    proof {
        assert(tys_view(fs@) =~= spec_pd_part_e());
    }
    fs
}

/// The top-level field list of the player progression record.
pub open spec fn spec_pd_fields() -> Seq<GTy> {
    spec_pd_part_a() + spec_pd_part_b() + spec_pd_part_c() + spec_pd_part_d() + spec_pd_part_e()
}

/// The schema of the whole player progression record.
pub open spec fn spec_player_data_ty() -> GTy {
    GTy::Struct(spec_pd_fields())
}

/// Builds the schema value of the player progression record.
pub fn player_data_schema() -> (t: Ty)
    ensures
        t@ == spec_player_data_ty(),
        wf_ty(t@),
{
    let mut fs = pd_part_a();
    let mut part_b = pd_part_b();
    proof {
        lemma_tys_view_concat(fs@, part_b@);
        lemma_wf_tys_concat(tys_view(fs@), tys_view(part_b@));
    }
    fs.append(&mut part_b);
    let mut part_c = pd_part_c();
    proof {
        lemma_tys_view_concat(fs@, part_c@);
        lemma_wf_tys_concat(tys_view(fs@), tys_view(part_c@));
    }
    fs.append(&mut part_c);
    let mut part_d = pd_part_d();
    proof {
        lemma_tys_view_concat(fs@, part_d@);
        lemma_wf_tys_concat(tys_view(fs@), tys_view(part_d@));
    }
    fs.append(&mut part_d);
    let mut part_e = pd_part_e();
    proof {
        lemma_tys_view_concat(fs@, part_e@);
        lemma_wf_tys_concat(tys_view(fs@), tys_view(part_e@));
    }
    fs.append(&mut part_e);
    let t = Ty::Struct(fs);
    proof {
        assert(t@ == spec_player_data_ty());
    }
    t
}

} // verus!
