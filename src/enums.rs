//! Tables of the game's enumerations, as stored in its memory.
use vstd::prelude::*;

verus! {

#[derive(Debug, Clone, Copy, PartialEq, Eq, Structural)]
pub enum HangingDisposition {
    Both,
    Beneficial,
    Harmful,
}

#[derive(Debug, Clone, Copy, PartialEq, Eq, Structural)]
pub enum DuelPhase {
    Starting,
    PrePlanning,
    Planning,
    PreExecution,
    Execution,
    Resolution,
    Victory,
    Ended,
    Max,
}

impl DuelPhase {
    /// The number that stands for this value in the game's memory.
    pub fn value(&self) -> (r: i32)
        ensures
            r == self.spec_value(),
    {
        match self {
            DuelPhase::Starting => 0,
            DuelPhase::PrePlanning => 1,
            DuelPhase::Planning => 2,
            DuelPhase::PreExecution => 3,
            DuelPhase::Execution => 4,
            DuelPhase::Resolution => 5,
            DuelPhase::Victory => 6,
            DuelPhase::Ended => 7,
            DuelPhase::Max => 10,
        }
    }

    /// The number that stands for this value in the game's memory.
    pub open spec fn spec_value(&self) -> i32 {
        match self {
            DuelPhase::Starting => 0,
            DuelPhase::PrePlanning => 1,
            DuelPhase::Planning => 2,
            DuelPhase::PreExecution => 3,
            DuelPhase::Execution => 4,
            DuelPhase::Resolution => 5,
            DuelPhase::Victory => 6,
            DuelPhase::Ended => 7,
            DuelPhase::Max => 10,
        }
    }
}

#[derive(Debug, Clone, Copy, PartialEq, Eq, Structural)]
pub enum SigilInitiativeSwitchMode {
    NoSwitch,
    Reroll,
    Switch,
}

#[derive(Debug, Clone, Copy, PartialEq, Eq, Structural)]
pub enum DuelExecutionOrder {
    Sequential,
    Alternating,
}

#[derive(Debug, Clone, Copy, PartialEq, Eq, Structural)]
pub enum PipAcquiredByEnum {
    Unknown,
    Normal,
    Power,
    NormalToPowerConversion,
    ImpedePips,
}

impl PipAcquiredByEnum {
    /// The number that stands for this value in the game's memory.
    pub fn value(&self) -> (r: i32)
        ensures
            r == self.spec_value(),
    {
        match self {
            PipAcquiredByEnum::Unknown => 0,
            PipAcquiredByEnum::Normal => 1,
            PipAcquiredByEnum::Power => 2,
            PipAcquiredByEnum::NormalToPowerConversion => 4,
            PipAcquiredByEnum::ImpedePips => 5,
        }
    }

    /// The number that stands for this value in the game's memory.
    pub open spec fn spec_value(&self) -> i32 {
        match self {
            PipAcquiredByEnum::Unknown => 0,
            PipAcquiredByEnum::Normal => 1,
            PipAcquiredByEnum::Power => 2,
            PipAcquiredByEnum::NormalToPowerConversion => 4,
            PipAcquiredByEnum::ImpedePips => 5,
        }
    }
}

#[derive(Debug, Clone, Copy, PartialEq, Eq, Structural)]
pub enum DelayOrder {
    AnyOrder,
    First,
    Second,
}

#[derive(Debug, Clone, Copy, PartialEq, Eq, Structural)]
pub enum SpellSourceType {
    Caster,
    Pet,
    ShadowCreature,
    Weapon,
    Equipment,
}

#[derive(Debug, Clone, Copy, PartialEq, Eq, Structural)]
pub enum SpellEffects {
    InvalidSpellEffect,
    Damage,
    DamageNoCrit,
    Heal,
    HealPercent,
    SetHealPercent,
    StealHealth,
    ReduceOverTime,
    DetonateOverTime,
    PushCharm,
    StealCharm,
    PushWard,
    StealWard,
    PushOverTime,
    StealOverTime,
    RemoveCharm,
    RemoveWard,
    RemoveOverTime,
    RemoveAura,
    SwapAll,
    SwapCharm,
    SwapWard,
    SwapOverTime,
    ModifyIncomingDamage,
    ModifyIncomingDamageFlat,
    MaximumIncomingDamage,
    ModifyIncomingHeal,
    ModifyIncomingHealFlat,
    ModifyIncomingDamageType,
    ModifyIncomingArmorPiercing,
    ModifyOutgoingDamage,
    ModifyOutgoingDamageFlat,
    ModifyOutgoingHeal,
    ModifyOutgoingHealFlat,
    ModifyOutgoingDamageType,
    ModifyOutgoingArmorPiercing,
    ModifyOutgoingStealHealth,
    ModifyIncomingStealHealth,
    BounceNext,
    BouncePrevious,
    BounceBack,
    BounceAll,
    AbsorbDamage,
    AbsorbHeal,
    ModifyAccuracy,
    Dispel,
    Confusion,
    CloakedCharm,
    CloakedWard,
    StunResist,
    Clue,
    PipConversion,
    CritBoost,
    CritBlock,
    Polymorph,
    DelayCast,
    ModifyCardCloak,
    ModifyCardDamage,
    ModifyCardAccuracy,
    ModifyCardMutation,
    ModifyCardRank,
    ModifyCardArmorPiercing,
    SummonCreature,
    TeleportPlayer,
    Stun,
    Dampen,
    Reshuffle,
    MindControl,
    ModifyPips,
    ModifyPowerPips,
    ModifyShadowPips,
    ModifyHate,
    DamageOverTime,
    HealOverTime,
    ModifyPowerPipChance,
    ModifyRank,
    StunBlock,
    RevealCloak,
    InstantKill,
    Afterlife,
    DeferredDamage,
    DamagePerTotalPipPower,
    ModifyCardHeal,
    ModifyCardCharm,
    ModifyCardWard,
    ModifyCardOutgoingDamage,
    ModifyCardOutgoingAccuracy,
    ModifyCardOutgoingHeal,
    ModifyCardOutgoingArmorPiercing,
    ModifyCardIncomingDamage,
    ModifyCardAbsorbDamage,
    CloakedWardNoRemove,
    AddCombatTriggerList,
    RemoveCombatTriggerList,
    BacklashDamage,
    ModifyBacklash,
    Intercept,
    ShadowSelf,
    ShadowCreature,
    ModifyShadowCreatureLevel,
    SelectShadowCreatureAttackTarget,
    ShadowDecrementTurn,
    CritBoostSchoolSpecific,
    SpawnCreature,
    UnPolymorph,
    PowerPipConversion,
    ProtectCardBeneficial,
    ProtectCardHarmful,
    ProtectBeneficial,
    ProtectHarmful,
    DivideDamage,
    CollectEssence,
    KillCreature,
    DispelBlock,
    ConfusionBlock,
    ModifyPipRoundRate,
    MaxHealthDamage,
    Untargetable,
    MakeTargetable,
    ForceTargetable,
    RemoveStunBlock,
    ExitCombat,
    SuspendPips,
    ResumePips,
    AutoPass,
    StopAutoPass,
    Vanish,
    StopVanish,
    MaxHealthHeal,
    HealByWard,
    Taunt,
    Pacify,
    RemoveTargetRestriction,
    ConvertHangingEffect,
    AddSpellToDeck,
    AddSpellToHand,
    ModifyIncomingDamageOverTime,
    ModifyIncomingHealOverTime,
    ModifyCardDamageByRank,
    PushConvertedCharm,
    StealConvertedCharm,
    PushConvertedWard,
    StealConvertedWard,
    PushConvertedOverTime,
    StealConvertedOverTime,
    RemoveConvertedCharm,
    RemoveConvertedWard,
    RemoveConvertedOverTime,
    ModifyOverTimeDuration,
    ModifySchoolPips,
}

impl SpellEffects {
    /// The number that stands for this value in the game's memory.
    pub fn value(&self) -> (r: i32)
        ensures
            r == self.spec_value(),
    {
        match self {
            SpellEffects::InvalidSpellEffect => 0,
            SpellEffects::Damage => 1,
            SpellEffects::DamageNoCrit => 2,
            SpellEffects::Heal => 3,
            SpellEffects::HealPercent => 4,
            SpellEffects::SetHealPercent => 113,
            SpellEffects::StealHealth => 5,
            SpellEffects::ReduceOverTime => 6,
            SpellEffects::DetonateOverTime => 7,
            SpellEffects::PushCharm => 8,
            SpellEffects::StealCharm => 9,
            SpellEffects::PushWard => 10,
            SpellEffects::StealWard => 11,
            SpellEffects::PushOverTime => 12,
            SpellEffects::StealOverTime => 13,
            SpellEffects::RemoveCharm => 14,
            SpellEffects::RemoveWard => 15,
            SpellEffects::RemoveOverTime => 16,
            SpellEffects::RemoveAura => 17,
            SpellEffects::SwapAll => 18,
            SpellEffects::SwapCharm => 19,
            SpellEffects::SwapWard => 20,
            SpellEffects::SwapOverTime => 21,
            SpellEffects::ModifyIncomingDamage => 22,
            SpellEffects::ModifyIncomingDamageFlat => 119,
            SpellEffects::MaximumIncomingDamage => 23,
            SpellEffects::ModifyIncomingHeal => 24,
            SpellEffects::ModifyIncomingHealFlat => 118,
            SpellEffects::ModifyIncomingDamageType => 25,
            SpellEffects::ModifyIncomingArmorPiercing => 26,
            SpellEffects::ModifyOutgoingDamage => 27,
            SpellEffects::ModifyOutgoingDamageFlat => 121,
            SpellEffects::ModifyOutgoingHeal => 28,
            SpellEffects::ModifyOutgoingHealFlat => 120,
            SpellEffects::ModifyOutgoingDamageType => 29,
            SpellEffects::ModifyOutgoingArmorPiercing => 30,
            SpellEffects::ModifyOutgoingStealHealth => 31,
            SpellEffects::ModifyIncomingStealHealth => 32,
            SpellEffects::BounceNext => 33,
            SpellEffects::BouncePrevious => 34,
            SpellEffects::BounceBack => 35,
            SpellEffects::BounceAll => 36,
            SpellEffects::AbsorbDamage => 37,
            SpellEffects::AbsorbHeal => 38,
            SpellEffects::ModifyAccuracy => 39,
            SpellEffects::Dispel => 40,
            SpellEffects::Confusion => 41,
            SpellEffects::CloakedCharm => 42,
            SpellEffects::CloakedWard => 43,
            SpellEffects::StunResist => 44,
            SpellEffects::Clue => 111,
            SpellEffects::PipConversion => 45,
            SpellEffects::CritBoost => 46,
            SpellEffects::CritBlock => 47,
            SpellEffects::Polymorph => 48,
            SpellEffects::DelayCast => 49,
            SpellEffects::ModifyCardCloak => 50,
            SpellEffects::ModifyCardDamage => 51,
            SpellEffects::ModifyCardAccuracy => 53,
            SpellEffects::ModifyCardMutation => 54,
            SpellEffects::ModifyCardRank => 55,
            SpellEffects::ModifyCardArmorPiercing => 56,
            SpellEffects::SummonCreature => 65,
            SpellEffects::TeleportPlayer => 66,
            SpellEffects::Stun => 67,
            SpellEffects::Dampen => 68,
            SpellEffects::Reshuffle => 69,
            SpellEffects::MindControl => 70,
            SpellEffects::ModifyPips => 71,
            SpellEffects::ModifyPowerPips => 72,
            SpellEffects::ModifyShadowPips => 73,
            SpellEffects::ModifyHate => 74,
            SpellEffects::DamageOverTime => 75,
            SpellEffects::HealOverTime => 76,
            SpellEffects::ModifyPowerPipChance => 77,
            SpellEffects::ModifyRank => 78,
            SpellEffects::StunBlock => 79,
            SpellEffects::RevealCloak => 80,
            SpellEffects::InstantKill => 81,
            SpellEffects::Afterlife => 82,
            SpellEffects::DeferredDamage => 83,
            SpellEffects::DamagePerTotalPipPower => 84,
            SpellEffects::ModifyCardHeal => 52,
            SpellEffects::ModifyCardCharm => 57,
            SpellEffects::ModifyCardWard => 58,
            SpellEffects::ModifyCardOutgoingDamage => 59,
            SpellEffects::ModifyCardOutgoingAccuracy => 60,
            SpellEffects::ModifyCardOutgoingHeal => 61,
            SpellEffects::ModifyCardOutgoingArmorPiercing => 62,
            SpellEffects::ModifyCardIncomingDamage => 63,
            SpellEffects::ModifyCardAbsorbDamage => 64,
            SpellEffects::CloakedWardNoRemove => 86,
            SpellEffects::AddCombatTriggerList => 87,
            SpellEffects::RemoveCombatTriggerList => 88,
            SpellEffects::BacklashDamage => 89,
            SpellEffects::ModifyBacklash => 90,
            SpellEffects::Intercept => 91,
            SpellEffects::ShadowSelf => 92,
            SpellEffects::ShadowCreature => 93,
            SpellEffects::ModifyShadowCreatureLevel => 94,
            SpellEffects::SelectShadowCreatureAttackTarget => 95,
            SpellEffects::ShadowDecrementTurn => 96,
            SpellEffects::CritBoostSchoolSpecific => 97,
            SpellEffects::SpawnCreature => 98,
            SpellEffects::UnPolymorph => 99,
            SpellEffects::PowerPipConversion => 100,
            SpellEffects::ProtectCardBeneficial => 101,
            SpellEffects::ProtectCardHarmful => 102,
            SpellEffects::ProtectBeneficial => 103,
            SpellEffects::ProtectHarmful => 104,
            SpellEffects::DivideDamage => 105,
            SpellEffects::CollectEssence => 106,
            SpellEffects::KillCreature => 107,
            SpellEffects::DispelBlock => 108,
            SpellEffects::ConfusionBlock => 109,
            SpellEffects::ModifyPipRoundRate => 110,
            SpellEffects::MaxHealthDamage => 112,
            SpellEffects::Untargetable => 114,
            SpellEffects::MakeTargetable => 115,
            SpellEffects::ForceTargetable => 116,
            SpellEffects::RemoveStunBlock => 117,
            SpellEffects::ExitCombat => 122,
            SpellEffects::SuspendPips => 123,
            SpellEffects::ResumePips => 124,
            SpellEffects::AutoPass => 125,
            SpellEffects::StopAutoPass => 126,
            SpellEffects::Vanish => 127,
            SpellEffects::StopVanish => 128,
            SpellEffects::MaxHealthHeal => 129,
            SpellEffects::HealByWard => 130,
            SpellEffects::Taunt => 131,
            SpellEffects::Pacify => 132,
            SpellEffects::RemoveTargetRestriction => 133,
            SpellEffects::ConvertHangingEffect => 134,
            SpellEffects::AddSpellToDeck => 135,
            SpellEffects::AddSpellToHand => 136,
            SpellEffects::ModifyIncomingDamageOverTime => 137,
            SpellEffects::ModifyIncomingHealOverTime => 138,
            SpellEffects::ModifyCardDamageByRank => 139,
            SpellEffects::PushConvertedCharm => 140,
            SpellEffects::StealConvertedCharm => 141,
            SpellEffects::PushConvertedWard => 142,
            SpellEffects::StealConvertedWard => 143,
            SpellEffects::PushConvertedOverTime => 144,
            SpellEffects::StealConvertedOverTime => 145,
            SpellEffects::RemoveConvertedCharm => 146,
            SpellEffects::RemoveConvertedWard => 147,
            SpellEffects::RemoveConvertedOverTime => 148,
            SpellEffects::ModifyOverTimeDuration => 149,
            SpellEffects::ModifySchoolPips => 150,
        }
    }

    /// The number that stands for this value in the game's memory.
    pub open spec fn spec_value(&self) -> i32 {
        match self {
            SpellEffects::InvalidSpellEffect => 0,
            SpellEffects::Damage => 1,
            SpellEffects::DamageNoCrit => 2,
            SpellEffects::Heal => 3,
            SpellEffects::HealPercent => 4,
            SpellEffects::SetHealPercent => 113,
            SpellEffects::StealHealth => 5,
            SpellEffects::ReduceOverTime => 6,
            SpellEffects::DetonateOverTime => 7,
            SpellEffects::PushCharm => 8,
            SpellEffects::StealCharm => 9,
            SpellEffects::PushWard => 10,
            SpellEffects::StealWard => 11,
            SpellEffects::PushOverTime => 12,
            SpellEffects::StealOverTime => 13,
            SpellEffects::RemoveCharm => 14,
            SpellEffects::RemoveWard => 15,
            SpellEffects::RemoveOverTime => 16,
            SpellEffects::RemoveAura => 17,
            SpellEffects::SwapAll => 18,
            SpellEffects::SwapCharm => 19,
            SpellEffects::SwapWard => 20,
            SpellEffects::SwapOverTime => 21,
            SpellEffects::ModifyIncomingDamage => 22,
            SpellEffects::ModifyIncomingDamageFlat => 119,
            SpellEffects::MaximumIncomingDamage => 23,
            SpellEffects::ModifyIncomingHeal => 24,
            SpellEffects::ModifyIncomingHealFlat => 118,
            SpellEffects::ModifyIncomingDamageType => 25,
            SpellEffects::ModifyIncomingArmorPiercing => 26,
            SpellEffects::ModifyOutgoingDamage => 27,
            SpellEffects::ModifyOutgoingDamageFlat => 121,
            SpellEffects::ModifyOutgoingHeal => 28,
            SpellEffects::ModifyOutgoingHealFlat => 120,
            SpellEffects::ModifyOutgoingDamageType => 29,
            SpellEffects::ModifyOutgoingArmorPiercing => 30,
            SpellEffects::ModifyOutgoingStealHealth => 31,
            SpellEffects::ModifyIncomingStealHealth => 32,
            SpellEffects::BounceNext => 33,
            SpellEffects::BouncePrevious => 34,
            SpellEffects::BounceBack => 35,
            SpellEffects::BounceAll => 36,
            SpellEffects::AbsorbDamage => 37,
            SpellEffects::AbsorbHeal => 38,
            SpellEffects::ModifyAccuracy => 39,
            SpellEffects::Dispel => 40,
            SpellEffects::Confusion => 41,
            SpellEffects::CloakedCharm => 42,
            SpellEffects::CloakedWard => 43,
            SpellEffects::StunResist => 44,
            SpellEffects::Clue => 111,
            SpellEffects::PipConversion => 45,
            SpellEffects::CritBoost => 46,
            SpellEffects::CritBlock => 47,
            SpellEffects::Polymorph => 48,
            SpellEffects::DelayCast => 49,
            SpellEffects::ModifyCardCloak => 50,
            SpellEffects::ModifyCardDamage => 51,
            SpellEffects::ModifyCardAccuracy => 53,
            SpellEffects::ModifyCardMutation => 54,
            SpellEffects::ModifyCardRank => 55,
            SpellEffects::ModifyCardArmorPiercing => 56,
            SpellEffects::SummonCreature => 65,
            SpellEffects::TeleportPlayer => 66,
            SpellEffects::Stun => 67,
            SpellEffects::Dampen => 68,
            SpellEffects::Reshuffle => 69,
            SpellEffects::MindControl => 70,
            SpellEffects::ModifyPips => 71,
            SpellEffects::ModifyPowerPips => 72,
            SpellEffects::ModifyShadowPips => 73,
            SpellEffects::ModifyHate => 74,
            SpellEffects::DamageOverTime => 75,
            SpellEffects::HealOverTime => 76,
            SpellEffects::ModifyPowerPipChance => 77,
            SpellEffects::ModifyRank => 78,
            SpellEffects::StunBlock => 79,
            SpellEffects::RevealCloak => 80,
            SpellEffects::InstantKill => 81,
            SpellEffects::Afterlife => 82,
            SpellEffects::DeferredDamage => 83,
            SpellEffects::DamagePerTotalPipPower => 84,
            SpellEffects::ModifyCardHeal => 52,
            SpellEffects::ModifyCardCharm => 57,
            SpellEffects::ModifyCardWard => 58,
            SpellEffects::ModifyCardOutgoingDamage => 59,
            SpellEffects::ModifyCardOutgoingAccuracy => 60,
            SpellEffects::ModifyCardOutgoingHeal => 61,
            SpellEffects::ModifyCardOutgoingArmorPiercing => 62,
            SpellEffects::ModifyCardIncomingDamage => 63,
            SpellEffects::ModifyCardAbsorbDamage => 64,
            SpellEffects::CloakedWardNoRemove => 86,
            SpellEffects::AddCombatTriggerList => 87,
            SpellEffects::RemoveCombatTriggerList => 88,
            SpellEffects::BacklashDamage => 89,
            SpellEffects::ModifyBacklash => 90,
            SpellEffects::Intercept => 91,
            SpellEffects::ShadowSelf => 92,
            SpellEffects::ShadowCreature => 93,
            SpellEffects::ModifyShadowCreatureLevel => 94,
            SpellEffects::SelectShadowCreatureAttackTarget => 95,
            SpellEffects::ShadowDecrementTurn => 96,
            SpellEffects::CritBoostSchoolSpecific => 97,
            SpellEffects::SpawnCreature => 98,
            SpellEffects::UnPolymorph => 99,
            SpellEffects::PowerPipConversion => 100,
            SpellEffects::ProtectCardBeneficial => 101,
            SpellEffects::ProtectCardHarmful => 102,
            SpellEffects::ProtectBeneficial => 103,
            SpellEffects::ProtectHarmful => 104,
            SpellEffects::DivideDamage => 105,
            SpellEffects::CollectEssence => 106,
            SpellEffects::KillCreature => 107,
            SpellEffects::DispelBlock => 108,
            SpellEffects::ConfusionBlock => 109,
            SpellEffects::ModifyPipRoundRate => 110,
            SpellEffects::MaxHealthDamage => 112,
            SpellEffects::Untargetable => 114,
            SpellEffects::MakeTargetable => 115,
            SpellEffects::ForceTargetable => 116,
            SpellEffects::RemoveStunBlock => 117,
            SpellEffects::ExitCombat => 122,
            SpellEffects::SuspendPips => 123,
            SpellEffects::ResumePips => 124,
            SpellEffects::AutoPass => 125,
            SpellEffects::StopAutoPass => 126,
            SpellEffects::Vanish => 127,
            SpellEffects::StopVanish => 128,
            SpellEffects::MaxHealthHeal => 129,
            SpellEffects::HealByWard => 130,
            SpellEffects::Taunt => 131,
            SpellEffects::Pacify => 132,
            SpellEffects::RemoveTargetRestriction => 133,
            SpellEffects::ConvertHangingEffect => 134,
            SpellEffects::AddSpellToDeck => 135,
            SpellEffects::AddSpellToHand => 136,
            SpellEffects::ModifyIncomingDamageOverTime => 137,
            SpellEffects::ModifyIncomingHealOverTime => 138,
            SpellEffects::ModifyCardDamageByRank => 139,
            SpellEffects::PushConvertedCharm => 140,
            SpellEffects::StealConvertedCharm => 141,
            SpellEffects::PushConvertedWard => 142,
            SpellEffects::StealConvertedWard => 143,
            SpellEffects::PushConvertedOverTime => 144,
            SpellEffects::StealConvertedOverTime => 145,
            SpellEffects::RemoveConvertedCharm => 146,
            SpellEffects::RemoveConvertedWard => 147,
            SpellEffects::RemoveConvertedOverTime => 148,
            SpellEffects::ModifyOverTimeDuration => 149,
            SpellEffects::ModifySchoolPips => 150,
        }
    }
}

#[derive(Debug, Clone, Copy, PartialEq, Eq, Structural)]
pub enum EffectTarget {
    InvalidTarget,
    Spell,
    SpecificSpells,
    TargetGlobal,
    EnemyTeam,
    EnemyTeamAllAtOnce,
    FriendlyTeam,
    FriendlyTeamAllAtOnce,
    EnemySingle,
    FriendlySingle,
    Minion,
    FriendlyMinion,
    SelfTarget,
    AtLeastOneEnemy,
    PreselectedEnemySingle,
    MultiTargetEnemy,
    MultiTargetFriendly,
    FriendlySingleNotMe,
}

impl EffectTarget {
    /// The number that stands for this value in the game's memory.
    pub fn value(&self) -> (r: i32)
        ensures
            r == self.spec_value(),
    {
        match self {
            EffectTarget::InvalidTarget => 0,
            EffectTarget::Spell => 1,
            EffectTarget::SpecificSpells => 2,
            EffectTarget::TargetGlobal => 3,
            EffectTarget::EnemyTeam => 4,
            EffectTarget::EnemyTeamAllAtOnce => 5,
            EffectTarget::FriendlyTeam => 6,
            EffectTarget::FriendlyTeamAllAtOnce => 7,
            EffectTarget::EnemySingle => 8,
            EffectTarget::FriendlySingle => 9,
            EffectTarget::Minion => 10,
            EffectTarget::FriendlyMinion => 17,
            EffectTarget::SelfTarget => 11,
            EffectTarget::AtLeastOneEnemy => 13,
            EffectTarget::PreselectedEnemySingle => 12,
            EffectTarget::MultiTargetEnemy => 14,
            EffectTarget::MultiTargetFriendly => 15,
            EffectTarget::FriendlySingleNotMe => 16,
        }
    }

    /// The number that stands for this value in the game's memory.
    pub open spec fn spec_value(&self) -> i32 {
        match self {
            EffectTarget::InvalidTarget => 0,
            EffectTarget::Spell => 1,
            EffectTarget::SpecificSpells => 2,
            EffectTarget::TargetGlobal => 3,
            EffectTarget::EnemyTeam => 4,
            EffectTarget::EnemyTeamAllAtOnce => 5,
            EffectTarget::FriendlyTeam => 6,
            EffectTarget::FriendlyTeamAllAtOnce => 7,
            EffectTarget::EnemySingle => 8,
            EffectTarget::FriendlySingle => 9,
            EffectTarget::Minion => 10,
            EffectTarget::FriendlyMinion => 17,
            EffectTarget::SelfTarget => 11,
            EffectTarget::AtLeastOneEnemy => 13,
            EffectTarget::PreselectedEnemySingle => 12,
            EffectTarget::MultiTargetEnemy => 14,
            EffectTarget::MultiTargetFriendly => 15,
            EffectTarget::FriendlySingleNotMe => 16,
        }
    }
}

#[derive(Debug, Clone, Copy, PartialEq, Eq, Structural)]
pub enum ObjectType {
    Undefined,
    Player,
    Npc,
    Prop,
    Object,
    House,
    Key,
    OldKey,
    Deed,
    Mail,
    Recipe,
    EquipHead,
    EquipChest,
    EquipLegs,
    EquipHands,
    EquipFinger,
    EquipFeet,
    EquipEar,
    BuildingBlock,
    BuildingBlockSolid,
    Golf,
    Door,
    Pet,
    Fabric,
    Window,
    Roof,
    Horse,
    Structure,
    HousingTexture,
    Plant,
}

impl ObjectType {
    /// The number that stands for this value in the game's memory.
    pub fn value(&self) -> (r: i32)
        ensures
            r == self.spec_value(),
    {
        match self {
            ObjectType::Undefined => 0,
            ObjectType::Player => 1,
            ObjectType::Npc => 2,
            ObjectType::Prop => 3,
            ObjectType::Object => 4,
            ObjectType::House => 5,
            ObjectType::Key => 6,
            ObjectType::OldKey => 7,
            ObjectType::Deed => 8,
            ObjectType::Mail => 9,
            ObjectType::Recipe => 17,
            ObjectType::EquipHead => 10,
            ObjectType::EquipChest => 11,
            ObjectType::EquipLegs => 12,
            ObjectType::EquipHands => 13,
            ObjectType::EquipFinger => 14,
            ObjectType::EquipFeet => 15,
            ObjectType::EquipEar => 16,
            ObjectType::BuildingBlock => 18,
            ObjectType::BuildingBlockSolid => 19,
            ObjectType::Golf => 20,
            ObjectType::Door => 21,
            ObjectType::Pet => 22,
            ObjectType::Fabric => 23,
            ObjectType::Window => 24,
            ObjectType::Roof => 25,
            ObjectType::Horse => 26,
            ObjectType::Structure => 27,
            ObjectType::HousingTexture => 28,
            ObjectType::Plant => 29,
        }
    }

    /// The number that stands for this value in the game's memory.
    pub open spec fn spec_value(&self) -> i32 {
        match self {
            ObjectType::Undefined => 0,
            ObjectType::Player => 1,
            ObjectType::Npc => 2,
            ObjectType::Prop => 3,
            ObjectType::Object => 4,
            ObjectType::House => 5,
            ObjectType::Key => 6,
            ObjectType::OldKey => 7,
            ObjectType::Deed => 8,
            ObjectType::Mail => 9,
            ObjectType::Recipe => 17,
            ObjectType::EquipHead => 10,
            ObjectType::EquipChest => 11,
            ObjectType::EquipLegs => 12,
            ObjectType::EquipHands => 13,
            ObjectType::EquipFinger => 14,
            ObjectType::EquipFeet => 15,
            ObjectType::EquipEar => 16,
            ObjectType::BuildingBlock => 18,
            ObjectType::BuildingBlockSolid => 19,
            ObjectType::Golf => 20,
            ObjectType::Door => 21,
            ObjectType::Pet => 22,
            ObjectType::Fabric => 23,
            ObjectType::Window => 24,
            ObjectType::Roof => 25,
            ObjectType::Horse => 26,
            ObjectType::Structure => 27,
            ObjectType::HousingTexture => 28,
            ObjectType::Plant => 29,
        }
    }
}

#[derive(Debug, Clone, Copy, PartialEq, Eq, Structural)]
pub enum MagicSchool {
    Ice,
    Sun,
    Life,
    Fire,
    Star,
    Myth,
    Moon,
    Death,
    Storm,
    Gardening,
    CastleMagic,
    WhirlyBurly,
    Balance,
    Shadow,
    Fishing,
    Cantrips,
}

impl MagicSchool {
    /// The number that stands for this value in the game's memory.
    pub fn value(&self) -> (r: i32)
        ensures
            r == self.spec_value(),
    {
        match self {
            MagicSchool::Ice => 72777,
            MagicSchool::Sun => 78483,
            MagicSchool::Life => 2330892,
            MagicSchool::Fire => 2343174,
            MagicSchool::Star => 2625203,
            MagicSchool::Myth => 2448141,
            MagicSchool::Moon => 2504141,
            MagicSchool::Death => 78318724,
            MagicSchool::Storm => 83375795,
            MagicSchool::Gardening => 663550619,
            MagicSchool::CastleMagic => 806477568,
            MagicSchool::WhirlyBurly => 931528087,
            MagicSchool::Balance => 1027491821,
            MagicSchool::Shadow => 1429009101,
            MagicSchool::Fishing => 1488274711,
            MagicSchool::Cantrips => 1760873841,
        }
    }

    /// The number that stands for this value in the game's memory.
    pub open spec fn spec_value(&self) -> i32 {
        match self {
            MagicSchool::Ice => 72777,
            MagicSchool::Sun => 78483,
            MagicSchool::Life => 2330892,
            MagicSchool::Fire => 2343174,
            MagicSchool::Star => 2625203,
            MagicSchool::Myth => 2448141,
            MagicSchool::Moon => 2504141,
            MagicSchool::Death => 78318724,
            MagicSchool::Storm => 83375795,
            MagicSchool::Gardening => 663550619,
            MagicSchool::CastleMagic => 806477568,
            MagicSchool::WhirlyBurly => 931528087,
            MagicSchool::Balance => 1027491821,
            MagicSchool::Shadow => 1429009101,
            MagicSchool::Fishing => 1488274711,
            MagicSchool::Cantrips => 1760873841,
        }
    }
}

#[derive(Debug, Clone, Copy, PartialEq, Eq, Structural)]
pub enum HangingEffectType {
    Any,
    Ward,
    Charm,
    OverTime,
    Specific,
}

#[derive(Debug, Clone, Copy, PartialEq, Eq, Structural)]
pub enum OutputEffectSelector {
    All,
    MatchedSelectRank,
}

#[derive(Debug, Clone, Copy, PartialEq, Eq, Structural)]
pub enum CountBasedType {
    SpellKills,
    SpellCrits,
}

#[derive(Debug, Clone, Copy, PartialEq, Eq, Structural)]
pub enum Operator {
    AND,
    OR,
}

#[derive(Debug, Clone, Copy, PartialEq, Eq, Structural)]
pub enum RequirementTarget {
    IsMinion,
    HasMinion,
    OnTeam,
    OnOtherTeam,
    OnAnyTeam,
}

#[derive(Debug, Clone, Copy, PartialEq, Eq, Structural)]
pub enum StatusEffect {
    Stunned,
    Confused,
}

} // verus!
