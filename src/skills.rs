//! Skills, their facts and the enumerations the skill records use.

use vstd::prelude::*;

use crate::endpoint::Schema;
use crate::items::{AttributeType, WeaponType};

verus! {

/// Identifier of a skill.
pub type SkillId = u32;

/// The kind of a skill.
#[derive(Clone, Copy, Debug, PartialEq, Eq, Hash)]
pub enum SkillType {
    Bundle,
    Elite,
    Heal,
    Profession,
    Utility,
    Weapon,
    Toolbelt,
    Monster,
    Pet,
}

/// The slot a skill sits in.
#[allow(non_camel_case_types)]
#[derive(Clone, Copy, Debug, PartialEq, Eq, Hash)]
pub enum Slot {
    Downed_1,
    Downed_2,
    Downed_3,
    Downed_4,
    Pet,
    Profession_1,
    Profession_2,
    Profession_3,
    Profession_4,
    Profession_5,
    Utility,
    Weapon_1,
    Weapon_2,
    Weapon_3,
    Weapon_4,
    Weapon_5,
    Heal,
    Elite,
    Toolbelt,
}

/// The kinds of fact a skill lists.
#[derive(Clone, Copy, Debug, PartialEq, Eq, Hash)]
pub enum FactType {
    AttributeAdjust,
    Buff,
    ComboField,
    ComboFinisher,
    Damage,
    Distance,
    Duration,
    Heal,
    HealingAdjust,
    NoData,
    Number,
    Percent,
    PrefixedBuff,
    Radius,
    Range,
    Recharge,
    StunBreak,
    Time,
    Unblockable,
    UnTyped,
}

/// Boons, conditions, control effects and named effects that a buff applies.
#[derive(Clone, Copy, Debug, PartialEq, Eq, Hash)]
pub enum Status {
    Aegis,
    Alacrity,
    Fury,
    Might,
    Protection,
    Quickness,
    Regeneration,
    Resistance,
    Resolution,
    Stability,
    Swiftness,
    Vigor,
    Resolve,
    Bleeding,
    Burning,
    Confusion,
    Poisoned,
    Torment,
    Blinded,
    Chilled,
    Crippled,
    Fear,
    Immobile,
    Slow,
    Taunt,
    Weakness,
    Vulnerability,
    Daze,
    Float,
    Knockback,
    Knockdown,
    Launch,
    Pull,
    Sink,
    Stun,
    SignetOfFire,
    SignetOfWater,
    SignetOfEarth,
    SignetOfAir,
    BaneSignet,
    SignetOfJudgment,
    SignetOfWrath,
    SignetOfMercy,
    SignetOfDomination,
    SignetOfMidnight,
    SignetOfTheLocust,
    SignetOfSpite,
    SignetOfTheWild,
    SignetOfStone,
    SignetOfRenewal,
    SignetOfTheHunt,
    AssassinsSignet,
    SignetOfAgility,
    SignetOfRage,
    HealingSignet,
    SignetOfMight,
    SignetOfFury,
    DolyakSignet,
    SignetOfStamina,
    Rampage,
    BalancedStance,
    EnduringPain,
    PositiveFlow,
    BerserkersStance,
    DefiantStance,
    Mirror,
    Distortion,
    IllusionOfLife,
    Blur,
    BindingBlade,
    ShieldOfWrath,
    ZealotsFlame,
    VirtueOfResolve,
    LitanyOfWrath,
    GrimSpecter,
    SpectralWalk,
    VampiricMark,
    StrengthOfThePack,
    CounterReady,
    AttackOfOpportunity,
    SharpeningStone,
    SicEm,
    FeedingFrenzy,
    SerpentsPreparation, // granted by Monarch's Leap, id: 12622
    Repeater,
    HookedSpear,
    SpiderVenom,
    SkaleVenom,
    BasiliskVenom,
    DevourerVenom,
    IceDrakeVenom,
    SkelkVenom,
    Plague,
    Aed,
    StoneHeart,
    ConjureFireAttributes,
    ConjureFlameAttributes,
    ConjureEarthAttributes,
    ConjureFrostAttributes,
    ConjureLightningAttributes,
    WaterArrow,
    ArcanePower,
    ArcaneShield,
    RockBarrier,
    TectonicShift,
    RenewalOfFire,
    Tornado,
    Whirlpool,
    Prowl,
    TakeRoot,
    ChaosAura,
    DarkAura,
    FireAura,
    FrostAura,
    LightAura,
    MagneticAura,
    ShockingAura,
    ComboFieldDark,
    ComboFieldLightning,
    ComboFieldLight,
    ComboFieldFire,
    ComboFieldWater,
    Agony,
    Barrier,
    Invulnerability,
    Revealed,
    Stealth,
    Superspeed,
    Unblockable,
    FiredUp,
    Afterburner,
    AquaticStance,
    BarrierSignet,
    BearStance,
    BerserkersPower,
    Blight,
    BreakrazorsBastion,
    BurstOfStrength,
    ChaosCorrosion,
    CoolingVapor,
    ConjuredBarrier,
    CrashingCourage,
    CrescentWind,
    DeathsAdvance,
    DefyPain,
    Disenchantment,
    DolyakStance,
    Echo,
    EnfeebledForce,
    FacetOfChaos,
    FacetOfDarkness,
    FacetOfElements,
    FacetOfLight,
    FacetOfNature,
    #[allow(non_camel_case_types)]
    FacetOfNature_Assassin,
    #[allow(non_camel_case_types)]
    FacetOfNature_Centaur,
    #[allow(non_camel_case_types)]
    FacetOfNature_Dwarf,
    #[allow(non_camel_case_types)]
    FacetOfNature_Dragon,
    #[allow(non_camel_case_types)]
    FacetOfNature_Demon,
    FacetOfStrength,
    FlameWheel,
    FlowingResolve,
    ForceSignet,
    ForcedEngagement,
    ForerunnerOfDeath,
    ForestsFortification,
    Fractured,
    GriffonStance,
    GrindingStones,
    IcyCoil,
    IgnitingBrand,
    ImperialGuard,
    ImpossibleOdds,
    ImprovedKallasFervor,
    IncomingConditionsAreIgnored,
    InfuseLight,
    Justice,
    KallasFervor,
    KineticAbundance,
    MirageCloak,
    MoaStance,
    MoltenArmor,
    Morphed,
    OneWolfPack,
    OverchargedCartridges,
    PalmStrike,
    PerfectWeave,
    PerilousGift,
    PhotonForge,
    PrimordialStance,
    PulmonaryImpact,
    RadiantBlindness,
    RazorclawsRage,
    Rebound,
    Repose,
    ReversalOfFortune,
    RiteOfTheGreatDwarf,
    RockGuard,
    RockyLoop,
    SaintOfZuHeltzer,
    SharpenSpines,
    SightBeyondSight,
    SoulcleavesSummit,
    SpectrumShield,
    StaticCharge,
    StimState,
    StoneResonance,
    SuperconductingSignet,
    TacticalReload,
    TimeEcho,
    TomeOfResolve,
    Tranquil,
    TrueNature,
    UnbridledChaos,
    UnbridledFear,
    UnflinchingFortitude,
    Unravel,
    UrnOfSaintViktor,
    VampiricInfection,
    VengefulHammers,
    ViolentCurrents,
    VirtueOfCourage,
    VultureStance,
    WatchfulEye,
    Waterlogged,
    WeaveSelf,
    WovenEarth,
    WovenAir,
    WovenFire,
    WovenWater,
    YoDoNotLoseHealthFromBeingDowned,
}

/// The kinds of combo field.
#[derive(Clone, Copy, Debug, PartialEq, Eq, Hash)]
pub enum FieldType {
    Dark,
    Ethereal,
    Fire,
    Ice,
    Light,
    Lightning,
    Poison,
    Smoke,
    Water,
}

/// The kinds of combo finisher.
#[derive(Clone, Copy, Debug, PartialEq, Eq, Hash)]
pub enum FinisherType {
    Blast,
    Leap,
    Projectile,
    Whirl,
}

/// Skill categories.
#[derive(Clone, Copy, Debug, PartialEq, Eq, Hash)]
pub enum Category {
    Cantrip,
    Deception,
    Elixir,
    Glyph,
    Mantra,
    Meditation,
    Physical,
    Shout,
    Signet,
    Stance,
    Trap,
    Well,
    Consecration,
    SpiritWeapon,
    Symbol,
    Tome,
    Virtue,
    Ward,
    CitadelOrder,
    Consume,
    Facet,
    Legend,
    LegendaryAlliance,
    LegendaryAssassin,
    LegendaryCentaur,
    LegendaryDemon,
    LegendaryDragon,
    LegendaryDwarf,
    LegendaryRenegade,
    Armament,
    Banner,
    Burst,
    PrimalBurst,
    Rage,
    EngineeringKit,
    Exceed,
    Gadget,
    PhotonForge,
    Turret,
    Beast,
    CelestialAvatar,
    Pet,
    Command,
    Spirit,
    Survival,
    UnleashedAmbush,
    DualWield,
    Kneel,
    Preparation,
    StealthAttack,
    Stolenskill,
    Trick,
    Venom,
    Arcane,
    Attunement,
    Augment,
    Conjure,
    DualAttack,
    Overload,
    Ambush,
    Bladesong,
    _Clone, // Did this need to be changed?
    Glamour,
    Manipulation,
    Phantasm,
    Psionic,
    Shatter,
    Corruption,
    Mark,
    Minion,
    Punishment,
    Shade,
    Spectral,
}

/// Elementalist attunements.
#[derive(Clone, Copy, Debug, PartialEq, Eq, Hash)]
pub enum Attunement {
    Fire,
    Water,
    Air,
    Earth,
}

/// Flags of a skill.
#[derive(Clone, Copy, Debug, PartialEq, Eq, Hash)]
pub enum SkillFlag {
    GroundTargeted,
    NoUnderwater,
}

/// A prefix shown before a buff fact.
#[derive(Clone, Debug, PartialEq, Eq)]
pub struct Prefix {
    pub text: String,
    pub icon: String,
    pub status: Option<String>,
    pub description: Option<String>,
}

/// A fact that adjusts an attribute.
#[derive(Clone, Debug, PartialEq, Eq)]
pub struct AttributeAdjustFact {
    pub text: Option<String>,
    pub icon: String,
    pub value: Option<u16>,
    pub target: AttributeType,
}

/// A fact that applies a boon, condition or effect.
#[derive(Clone, Debug, PartialEq, Eq)]
pub struct BuffFact {
    pub text: String,
    pub icon: String,
    pub status: Status,
    pub description: Option<String>,
    pub duration: Option<u8>,
    pub apply_count: Option<u8>,
}

/// A fact that creates a combo field.
#[derive(Clone, Debug, PartialEq, Eq)]
pub struct ComboFieldFact {
    pub text: String,
    pub icon: String,
    pub field_type: FieldType,
}

/// A fact that states a distance.
#[derive(Clone, Debug, PartialEq, Eq)]
pub struct DistanceFact {
    pub text: String,
    pub icon: String,
    pub distance: u16,
}

/// A fact that states a duration in seconds.
#[derive(Clone, Debug, PartialEq, Eq)]
pub struct DurationFact {
    pub text: String,
    pub icon: String,
    pub duration: u8,
}

/// A fact that heals a number of times.
#[derive(Clone, Debug, PartialEq, Eq)]
pub struct HealFact {
    pub text: String,
    pub icon: String,
    pub hit_count: u8,
}

/// A fact that adjusts healing a number of times.
#[derive(Clone, Debug, PartialEq, Eq)]
pub struct HealingAdjustFact {
    pub text: String,
    pub icon: String,
    pub hit_count: u8,
}

/// A fact with a text and an icon only.
#[derive(Clone, Debug, PartialEq, Eq)]
pub struct NoDataFact {
    pub text: String,
    pub icon: String,
}

/// A fact that states a number.
#[derive(Clone, Debug, PartialEq, Eq)]
pub struct NumberFact {
    pub text: Option<String>,
    pub icon: String,
    pub value: u16,
}

/// A buff fact shown with a prefix.
#[derive(Clone, Debug, PartialEq, Eq)]
pub struct PrefixedBuffFact {
    pub text: String,
    pub icon: String,
    pub duration: u8,
    pub status: Status,
    pub description: Option<String>,
    pub apply_count: u8,
    pub prefix: Prefix,
}

/// A fact that states a radius.
#[derive(Clone, Debug, PartialEq, Eq)]
pub struct RadiusFact {
    pub text: String,
    pub icon: String,
    pub distance: u16,
}

/// A fact that states a range.
#[derive(Clone, Debug, PartialEq, Eq)]
pub struct RangeFact {
    pub text: String,
    pub icon: String,
    pub value: u32,
}

/// A fact that says whether the skill breaks stuns.
#[derive(Clone, Debug, PartialEq, Eq)]
pub struct StunBreakFact {
    pub text: String,
    pub icon: String,
    pub value: bool,
}

/// A fact that states a time.
#[derive(Clone, Debug, PartialEq, Eq)]
pub struct TimeFact {
    pub text: String,
    pub icon: String,
    pub duration: u16,
}

/// A fact that says whether the skill is unblockable.
#[derive(Clone, Debug, PartialEq, Eq)]
pub struct UnblockableFact {
    pub text: String,
    pub icon: String,
    pub value: bool,
}

/// A fact that the service sends without a `type` key.
#[derive(Clone, Debug, PartialEq, Eq)]
pub struct UnTypedFact {
    pub text: String,
    pub icon: String,
    pub percent: u16,
}

/// How skills are requested: by id, localized, without authentication.
pub fn skill_schema() -> (r: Schema)
    ensures
        r.path@ == "v2/skills"@,
        r.version@ == "2022-07-22T00:00:00.000Z"@,
        !r.authenticated,
        r.locale,
        r.supports_all,
{
    Schema {
        path: "v2/skills",
        version: "2022-07-22T00:00:00.000Z",
        authenticated: false,
        locale: true,
        supports_all: true,
    }
}

} // verus!
