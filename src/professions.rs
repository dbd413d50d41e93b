//! Professions, their training tracks and weapon sets.

use std::collections::HashMap;

use vstd::prelude::*;

use crate::endpoint::Schema;
use crate::items::WeaponType;
use crate::skills::{Attunement, SkillId, SkillType, Slot};
use crate::specializations::SpecializationId;
use crate::traits::TraitId;

verus! {

/// Identifier of a profession, its English name.
pub type ProfessionId = String;

/// Identifier of a training line.
pub type TrainingId = u32;

/// What a training line unlocks.
#[derive(Clone, Copy, Debug, PartialEq, Eq, Hash)]
pub enum TrainingCategory {
    Skills,
    Specializations,
    EliteSpecializations,
}

/// Whether a track step unlocks a trait or a skill.
#[derive(Clone, Copy, Debug, PartialEq, Eq, Hash)]
pub enum TrackType {
    Trait,
    Skill,
}

/// Flags of a profession.
#[derive(Clone, Copy, Debug, PartialEq, Eq, Hash)]
pub enum ProfessionFlag {
    NoRacialSkills,
    NoWeaponSwap,
}

/// How a profession may hold a weapon.
#[derive(Clone, Copy, Debug, PartialEq, Eq, Hash)]
pub enum ProfessionWeaponFlags {
    Mainhand,
    Offhand,
    TwoHand,
    Aquatic,
}

/// One step of a training line.
#[derive(Clone, Debug, PartialEq, Eq)]
pub struct Track {
    pub cost: u16,
    pub track_type: TrackType,
    pub skill_id: Option<SkillId>,
    pub trait_id: Option<TraitId>,
}

/// A training line of a profession.
#[derive(Clone, Debug, PartialEq, Eq)]
pub struct Training {
    pub id: TrainingId,
    pub category: TrainingCategory,
    pub name: String,
    pub track: Vec<Track>,
}

/// A skill as a profession's weapon set or palette lists it.
#[derive(Clone, Debug, PartialEq, Eq)]
pub struct ProfessionSkill {
    pub id: SkillId,
    pub slot: Slot,
    pub offhand: Option<WeaponType>,
    pub attunement: Option<Attunement>,
    pub source: Option<ProfessionId>,
    pub skill_type: Option<SkillType>,
}

/// What a profession can do with one weapon type.
#[derive(Clone, Debug, PartialEq, Eq)]
pub struct ProfessionWeaponDetails {
    pub specialization: Option<SpecializationId>,
    pub flags: Vec<ProfessionWeaponFlags>,
    pub skills: Vec<ProfessionSkill>,
}

/// A profession with its specializations, training and weapons.
#[derive(Clone, Debug, PartialEq, Eq)]
pub struct Profession {
    pub id: ProfessionId,
    pub name: String,
    pub code: Option<u32>,
    pub icon: String,
    pub icon_big: String,
    pub specializations: Vec<SpecializationId>,
    pub training: Vec<Training>,
    pub weapons: HashMap<WeaponType, ProfessionWeaponDetails>,
    pub flags: Vec<ProfessionFlag>,
    pub skills_by_palette: Option<Vec<(u32, SkillId)>>,
    pub skills: Vec<ProfessionSkill>,
}

impl Profession {
    /// The identifier that the record is cached and requested by.
    pub fn id(&self) -> (r: &ProfessionId)
        ensures
            *r == self.id,
    {
        &self.id
    }

    /// How professions are requested: by name, localized, without
    /// authentication, all at once with `ids=all`.
    pub fn schema() -> (r: Schema)
        ensures
            r.path@ == "v2/professions"@,
            r.version@ == "2022-07-22T00:00:00.000Z"@,
            !r.authenticated,
            r.locale,
            r.supports_all,
    {
        Schema {
            path: "v2/professions",
            version: "2022-07-22T00:00:00.000Z",
            authenticated: false,
            locale: true,
            supports_all: true,
        }
    }
}

} // verus!
