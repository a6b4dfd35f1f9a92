use vstd::prelude::*;
use crate::hashing::{hash40_of, hash40_str};

verus! {

/// One percent of damage in the fixed-point unit used throughout (thousandths of a percent).
pub const PERCENT: i32 = 1000;

/// Damage Gastly must take during its stage before it may evolve (35%).
pub const GASTLY_EVO_DMG_RECEIVED_THRESHOLD: i32 = 35000;
/// Damage Haunter must take during its stage before it may evolve (50%).
pub const HAUNTER_EVO_DMG_RECEIVED_THRESHOLD: i32 = 50000;
/// Hits Gastly must land before it may evolve.
pub const GASTLY_EVO_HITS_THRESHOLD: i32 = 10;
/// Hits Haunter must land before it may evolve.
pub const HAUNTER_EVO_HITS_THRESHOLD: i32 = 15;
/// Length of the evolution animation in frames (a 4 second window).
pub const EVOLUTION_ANIMATION_TOTAL_FRAMES: i32 = 240;
/// Extra damage requirement added by each cancelled evolution (15%).
pub const EVO_CANCEL_DAMAGE_PENALTY: i32 = 15000;
/// Frames within which two presses count as a double press.
pub const DOUBLE_PRESS_WINDOW: i32 = 30;
/// Frames within which two down taunts cancel an evolution.
pub const EVO_CANCEL_DOWN_TAUNT_WINDOW: i32 = 60;
/// Frames of the pop-in animation that every item icon shows.
pub const ICON_ANIMATION_DURATION: i32 = 40;
pub const LINKING_CORD_VISUAL_ICON_DURATION: i32 = 150 + ICON_ANIMATION_DURATION;
pub const MANUAL_EVO_HAUNTER_ICON_DURATION: i32 = 120 + ICON_ANIMATION_DURATION;
pub const EVERSTONE_ICON_DURATION: i32 = 150 + ICON_ANIMATION_DURATION;
pub const EVERSTONE_X_ICON_DURATION: i32 = 150 + ICON_ANIMATION_DURATION;
pub const FS_MODE_ICON_DURATION: i32 = 120 + ICON_ANIMATION_DURATION;
/// Frames each evolution readiness icon stays up.
pub const READINESS_ICON_DURATION: i32 = 70;
pub const DEBUG_TAUNT_COOLDOWN: i32 = 30;
/// Shortest and longest time the eyes stay open between two blinks.
pub const BLINK_OPEN_MIN: i32 = 120;
pub const BLINK_OPEN_MAX: i32 = 300;
/// Frame of the evolution animation at which the transform effect appears.
pub const EVOLUTION_TRANSFORM_EFFECT_FRAME: i32 = 180;

/// The three forms of the fighter.
#[derive(Debug, Clone, Copy, PartialEq, Eq, Structural)]
pub enum EvolutionStage {
    Gastly,
    Haunter,
    Gengar,
}

/// The phases of one blink of the eyes.
#[derive(Debug, Clone, Copy, PartialEq, Eq, Structural)]
pub enum BlinkPhase {
    Open,
    HalfClose,
    FullClose,
    HalfOpen,
}

/// Which attack-module query last reported an active hitbox.
#[derive(Debug, Clone, Copy, PartialEq, Eq, Structural)]
pub enum HitboxDetectionMethod {
    NotDetected,
    AttackModuleInfliction,
    AttackModuleOccur,
    AttackModuleSpecificId(i32),
    FrameBased,
}

/// The eight eye expressions every stage (and the vanilla model) has.
#[derive(Debug, Clone, Copy, PartialEq, Eq, Structural)]
pub enum ExpressionType {
    Normal,
    Blink,
    HalfBlink,
    Attack,
    Capture,
    Ouch,
    Down,
    HeavyAttack,
}

/// The stage an evolution from `s` leads to, if any.
pub open spec fn spec_next_stage(s: EvolutionStage) -> Option<EvolutionStage> {
    match s {
        EvolutionStage::Gastly => Some(EvolutionStage::Haunter),
        EvolutionStage::Haunter => Some(EvolutionStage::Gengar),
        EvolutionStage::Gengar => None,
    }
}

/// The stage an automatic evolution from `s` targets (Gengar evolves no further).
pub fn next_stage(s: EvolutionStage) -> (r: Option<EvolutionStage>)
    ensures
        r == spec_next_stage(s),
{
    match s {
        EvolutionStage::Gastly => Some(EvolutionStage::Haunter),
        EvolutionStage::Haunter => Some(EvolutionStage::Gengar),
        EvolutionStage::Gengar => None,
    }
}

/// The base damage requirement of a stage, if it can evolve.
pub open spec fn base_damage_threshold(s: EvolutionStage) -> Option<int> {
    match s {
        EvolutionStage::Gastly => Some(GASTLY_EVO_DMG_RECEIVED_THRESHOLD as int),
        EvolutionStage::Haunter => Some(HAUNTER_EVO_DMG_RECEIVED_THRESHOLD as int),
        EvolutionStage::Gengar => None,
    }
}

/// The base hit requirement of a stage, if it can evolve.
pub open spec fn base_hits_threshold(s: EvolutionStage) -> Option<int> {
    match s {
        EvolutionStage::Gastly => Some(GASTLY_EVO_HITS_THRESHOLD as int),
        EvolutionStage::Haunter => Some(HAUNTER_EVO_HITS_THRESHOLD as int),
        EvolutionStage::Gengar => None,
    }
}

/// Every mesh of the model that the evolution logic shows or hides.
#[derive(Debug, Clone, Copy, PartialEq, Eq, Structural)]
pub enum Mesh {
    /// The eye mesh of a stage for an expression.
    Eye(EvolutionStage, ExpressionType),
    /// The eye mesh of the unmodified model for an expression.
    VanillaEye(ExpressionType),
    GastlyBody,
    GastlyTongue,
    HaunterBody,
    HaunterHands,
    HaunterIris,
    GengarBody,
    GengarTongueLong,
    GengarTongueNormal,
    GengarIris,
    MegaGengarBody,
    GigaGengarBody,
    GastlyEvolving,
    GastlyEvolvingFloorShadow,
    GastlyEvolvingShadowball,
    GastlyEvolvingTongue,
    HaunterEvolving,
    HaunterEvolvingFloorShadow,
    HaunterEvolvingShadowball,
    FloorShadow(EvolutionStage),
    Shadowball(EvolutionStage),
    TauntGhost,
    GengarRun,
    LinkingCordIcon,
    EverstoneIcon,
    EverstoneXIcon,
    GengariteIcon,
    DynamaxIcon,
    DamageTakenIcon,
    HitsLandedIcon,
    EvolveReadyIcon,
    EvolveStartIcon,
}

/// The name of the eye mesh of `stage` for `e`.
pub open spec fn eye_mesh_name(stage: EvolutionStage, e: ExpressionType) -> Seq<char> {
    match stage {
        EvolutionStage::Gastly => match e {
            ExpressionType::Normal => "gastly_eyen"@,
            ExpressionType::Blink => "gastly_eye_blink"@,
            ExpressionType::HalfBlink => "gastly_eye_halfblink1"@,
            ExpressionType::Attack => "gastly_eye_attack"@,
            ExpressionType::Capture => "gastly_eye_capture"@,
            ExpressionType::Ouch => "gastly_eye_ouch"@,
            ExpressionType::Down => "gastly_eye_down"@,
            ExpressionType::HeavyAttack => "gastly_eye_heavyattack"@,
        },
        EvolutionStage::Haunter => match e {
            ExpressionType::Normal => "haunter_eyen"@,
            ExpressionType::Blink => "haunter_eye_blink"@,
            ExpressionType::HalfBlink => "haunter_eye_halfblink1"@,
            ExpressionType::Attack => "haunter_eye_attack"@,
            ExpressionType::Capture => "haunter_eye_capture"@,
            ExpressionType::Ouch => "haunter_eye_ouch"@,
            ExpressionType::Down => "haunter_eye_down"@,
            ExpressionType::HeavyAttack => "haunter_eye_heavyattack"@,
        },
        EvolutionStage::Gengar => match e {
            ExpressionType::Normal => "gengar_eyen"@,
            ExpressionType::Blink => "gengar_eye_blink"@,
            ExpressionType::HalfBlink => "gengar_eye_halfblink1"@,
            ExpressionType::Attack => "gengar_eye_attack"@,
            ExpressionType::Capture => "gengar_eye_capture"@,
            ExpressionType::Ouch => "gengar_eye_ouch"@,
            ExpressionType::Down => "gengar_eye_down"@,
            ExpressionType::HeavyAttack => "gengar_eye_heavyattack"@,
        },
    }
}

/// The name of the vanilla eye mesh for `e`.
pub open spec fn vanilla_eye_name(e: ExpressionType) -> Seq<char> {
    match e {
        ExpressionType::Normal => "purin_eyen"@,
        ExpressionType::Blink => "purin_eye_blink"@,
        ExpressionType::HalfBlink => "purin_eye_halfblink1"@,
        ExpressionType::Attack => "purin_eye_attack"@,
        ExpressionType::Capture => "purin_eye_capture"@,
        ExpressionType::Ouch => "purin_eye_ouch"@,
        ExpressionType::Down => "purin_eye_down"@,
        ExpressionType::HeavyAttack => "purin_eye_heavyattack"@,
    }
}

/// The model name of every mesh.
pub open spec fn spec_mesh_name(m: Mesh) -> Seq<char> {
    match m {
        Mesh::Eye(s, e) => eye_mesh_name(s, e),
        Mesh::VanillaEye(e) => vanilla_eye_name(e),
        Mesh::GastlyBody => "gastly_body"@,
        Mesh::GastlyTongue => "gastly_tongue"@,
        Mesh::HaunterBody => "haunter_body"@,
        Mesh::HaunterHands => "haunter_hands"@,
        Mesh::HaunterIris => "haunter_eyes"@,
        Mesh::GengarBody => "gengar_body"@,
        Mesh::GengarTongueLong => "gengar_tongue_long"@,
        Mesh::GengarTongueNormal => "gengar_tongue_normal"@,
        Mesh::GengarIris => "gengar_eyes"@,
        Mesh::MegaGengarBody => "mega_gengar"@,
        Mesh::GigaGengarBody => "giga_gengar"@,
        Mesh::GastlyEvolving => "gastly_evolving"@,
        Mesh::GastlyEvolvingFloorShadow => "gastly_evolvingfloorshadow"@,
        Mesh::GastlyEvolvingShadowball => "gastly_evolvingshadowball"@,
        Mesh::GastlyEvolvingTongue => "gastly_evolvingtongue"@,
        Mesh::HaunterEvolving => "haunter_evolving"@,
        Mesh::HaunterEvolvingFloorShadow => "haunter_evolvingfloorshadow"@,
        Mesh::HaunterEvolvingShadowball => "haunter_evolvingshadowball"@,
        Mesh::FloorShadow(s) => match s {
            EvolutionStage::Gastly => "gastly_floorshadow"@,
            EvolutionStage::Haunter => "haunter_floorshadow"@,
            EvolutionStage::Gengar => "gengar_floorshadow"@,
        },
        Mesh::Shadowball(s) => match s {
            EvolutionStage::Gastly => "gastly_shadowball"@,
            EvolutionStage::Haunter => "haunter_shadowball"@,
            EvolutionStage::Gengar => "gengar_shadowball"@,
        },
        Mesh::TauntGhost => "ghost"@,
        Mesh::GengarRun => "gengar_run"@,
        Mesh::LinkingCordIcon => "linking_cord"@,
        Mesh::EverstoneIcon => "everstone"@,
        Mesh::EverstoneXIcon => "everstone_x"@,
        Mesh::GengariteIcon => "gengarite"@,
        Mesh::DynamaxIcon => "dynamax"@,
        Mesh::DamageTakenIcon => "stg1_dmg_t"@,
        Mesh::HitsLandedIcon => "stg1_dmg_d"@,
        Mesh::EvolveReadyIcon => "stg2_dmg_ss"@,
        Mesh::EvolveStartIcon => "stg2_dmg_se"@,
    }
}

/// The model name of the eye mesh of `stage` for `e`.
pub fn eye_name(stage: EvolutionStage, e: ExpressionType) -> (r: &'static str)
    ensures
        r@ == eye_mesh_name(stage, e),
{
    match stage {
        EvolutionStage::Gastly => match e {
            ExpressionType::Normal => "gastly_eyen",
            ExpressionType::Blink => "gastly_eye_blink",
            ExpressionType::HalfBlink => "gastly_eye_halfblink1",
            ExpressionType::Attack => "gastly_eye_attack",
            ExpressionType::Capture => "gastly_eye_capture",
            ExpressionType::Ouch => "gastly_eye_ouch",
            ExpressionType::Down => "gastly_eye_down",
            ExpressionType::HeavyAttack => "gastly_eye_heavyattack",
        },
        EvolutionStage::Haunter => match e {
            ExpressionType::Normal => "haunter_eyen",
            ExpressionType::Blink => "haunter_eye_blink",
            ExpressionType::HalfBlink => "haunter_eye_halfblink1",
            ExpressionType::Attack => "haunter_eye_attack",
            ExpressionType::Capture => "haunter_eye_capture",
            ExpressionType::Ouch => "haunter_eye_ouch",
            ExpressionType::Down => "haunter_eye_down",
            ExpressionType::HeavyAttack => "haunter_eye_heavyattack",
        },
        EvolutionStage::Gengar => match e {
            ExpressionType::Normal => "gengar_eyen",
            ExpressionType::Blink => "gengar_eye_blink",
            ExpressionType::HalfBlink => "gengar_eye_halfblink1",
            ExpressionType::Attack => "gengar_eye_attack",
            ExpressionType::Capture => "gengar_eye_capture",
            ExpressionType::Ouch => "gengar_eye_ouch",
            ExpressionType::Down => "gengar_eye_down",
            ExpressionType::HeavyAttack => "gengar_eye_heavyattack",
        },
    }
}

/// The model name of the vanilla eye mesh for `e`.
pub fn vanilla_eye_mesh_name(e: ExpressionType) -> (r: &'static str)
    ensures
        r@ == vanilla_eye_name(e),
{
    match e {
        ExpressionType::Normal => "purin_eyen",
        ExpressionType::Blink => "purin_eye_blink",
        ExpressionType::HalfBlink => "purin_eye_halfblink1",
        ExpressionType::Attack => "purin_eye_attack",
        ExpressionType::Capture => "purin_eye_capture",
        ExpressionType::Ouch => "purin_eye_ouch",
        ExpressionType::Down => "purin_eye_down",
        ExpressionType::HeavyAttack => "purin_eye_heavyattack",
    }
}

/// The model name of `m`.
pub fn mesh_name(m: Mesh) -> (r: &'static str)
    ensures
        r@ == spec_mesh_name(m),
{
    match m {
        Mesh::Eye(s, e) => eye_name(s, e),
        Mesh::VanillaEye(e) => vanilla_eye_mesh_name(e),
        Mesh::GastlyBody => "gastly_body",
        Mesh::GastlyTongue => "gastly_tongue",
        Mesh::HaunterBody => "haunter_body",
        Mesh::HaunterHands => "haunter_hands",
        Mesh::HaunterIris => "haunter_eyes",
        Mesh::GengarBody => "gengar_body",
        Mesh::GengarTongueLong => "gengar_tongue_long",
        Mesh::GengarTongueNormal => "gengar_tongue_normal",
        Mesh::GengarIris => "gengar_eyes",
        Mesh::MegaGengarBody => "mega_gengar",
        Mesh::GigaGengarBody => "giga_gengar",
        Mesh::GastlyEvolving => "gastly_evolving",
        Mesh::GastlyEvolvingFloorShadow => "gastly_evolvingfloorshadow",
        Mesh::GastlyEvolvingShadowball => "gastly_evolvingshadowball",
        Mesh::GastlyEvolvingTongue => "gastly_evolvingtongue",
        Mesh::HaunterEvolving => "haunter_evolving",
        Mesh::HaunterEvolvingFloorShadow => "haunter_evolvingfloorshadow",
        Mesh::HaunterEvolvingShadowball => "haunter_evolvingshadowball",
        Mesh::FloorShadow(s) => match s {
            EvolutionStage::Gastly => "gastly_floorshadow",
            EvolutionStage::Haunter => "haunter_floorshadow",
            EvolutionStage::Gengar => "gengar_floorshadow",
        },
        Mesh::Shadowball(s) => match s {
            EvolutionStage::Gastly => "gastly_shadowball",
            EvolutionStage::Haunter => "haunter_shadowball",
            EvolutionStage::Gengar => "gengar_shadowball",
        },
        Mesh::TauntGhost => "ghost",
        Mesh::GengarRun => "gengar_run",
        Mesh::LinkingCordIcon => "linking_cord",
        Mesh::EverstoneIcon => "everstone",
        Mesh::EverstoneXIcon => "everstone_x",
        Mesh::GengariteIcon => "gengarite",
        Mesh::DynamaxIcon => "dynamax",
        Mesh::DamageTakenIcon => "stg1_dmg_t",
        Mesh::HitsLandedIcon => "stg1_dmg_d",
        Mesh::EvolveReadyIcon => "stg2_dmg_ss",
        Mesh::EvolveStartIcon => "stg2_dmg_se",
    }
}

/// The hash40 value under which the game knows mesh `m`.
pub fn mesh_hash(m: Mesh) -> (h: u64)
    ensures
        h == hash40_of(spec_mesh_name(m)),
{
    hash40_str(mesh_name(m))
}

} // verus!
