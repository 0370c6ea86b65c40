//! The weapon type catalog: the closed sets of bullet, firearm, missile,
//! shell and torpedo classifications, each decodable from the integer code
//! the data files carry.
use vstd::prelude::*;

verus! {

// ======================= Bullets =======================

/// The kinds of bullets.
#[derive(Debug, Clone, Copy, PartialEq, Eq, Structural)]
pub enum BulletType {
    /// Full metal jacket: encased for penetration and less barrel fouling.
    Ordinary,
    /// Hollow point: deforms on impact.
    Expansible,
    /// Armor-piercing: reinforced to penetrate light armor.
    ArmorPiercing,
    /// Frangible: reduces the risk of over-penetration.
    Frangible,
    /// Tracing: leaves a visible light trail.
    Tracing,
    /// Armor-piercing incendiary: a perforating point plus flammable
    /// material.
    ArmorPiercingIncendiary,
    /// Saboted light armor penetrator: a small bullet whose sabot detaches
    /// after the shot.
    SabotedLightArmorPenetrator,
    /// Fragmentation: fragments on impact.
    Fragmentation,
}

impl BulletType {
    /// The bullet kind with the given integer code.
    pub open spec fn spec_from_i64(value: i64) -> Option<BulletType> {
        if value == 0 {
            Some(BulletType::Ordinary)
        } else if value == 1 {
            Some(BulletType::Expansible)
        } else if value == 2 {
            Some(BulletType::ArmorPiercing)
        } else if value == 3 {
            Some(BulletType::Frangible)
        } else if value == 4 {
            Some(BulletType::Tracing)
        } else if value == 5 {
            Some(BulletType::ArmorPiercingIncendiary)
        } else if value == 6 {
            Some(BulletType::SabotedLightArmorPenetrator)
        } else if value == 7 {
            Some(BulletType::Fragmentation)
        } else {
            None
        }
    }

    /// Decode a bullet kind from its integer code; unknown codes fail.
    pub fn from_i64(value: i64) -> (r: Option<BulletType>)
        ensures
            r == BulletType::spec_from_i64(value),
    {
        match value {
            0 => Some(BulletType::Ordinary),
            1 => Some(BulletType::Expansible),
            2 => Some(BulletType::ArmorPiercing),
            3 => Some(BulletType::Frangible),
            4 => Some(BulletType::Tracing),
            5 => Some(BulletType::ArmorPiercingIncendiary),
            6 => Some(BulletType::SabotedLightArmorPenetrator),
            7 => Some(BulletType::Fragmentation),
            _ => None,
        }
    }
}

// ======================= Firearms =======================

/// The kinds of firearms.
#[derive(Debug, Clone, Copy, PartialEq, Eq, PartialOrd, Ord, Hash, Structural)]
pub enum FireArmType {
    /// Hand-held, typically operated with one hand.
    Gun,
    /// Long-barreled, held against the shoulder.
    Rifle,
    /// Fires bursts of bullets.
    SubMachineGun,
    /// Selective fire, semi-automatic or automatic.
    Assault,
    /// Fires a continuous stream of bullets.
    MachineGun,
    /// Accurate at long distances.
    PrecisionRifle,
}

impl FireArmType {
    /// The firearm kind with the given integer code.
    pub open spec fn spec_from_i64(value: i64) -> Option<FireArmType> {
        if value == 0 {
            Some(FireArmType::Gun)
        } else if value == 1 {
            Some(FireArmType::Rifle)
        } else if value == 2 {
            Some(FireArmType::SubMachineGun)
        } else if value == 3 {
            Some(FireArmType::Assault)
        } else if value == 4 {
            Some(FireArmType::MachineGun)
        } else if value == 5 {
            Some(FireArmType::PrecisionRifle)
        } else {
            None
        }
    }

    /// Decode a firearm kind from its integer code; unknown codes fail.
    pub fn from_i64(value: i64) -> (r: Option<FireArmType>)
        ensures
            r == FireArmType::spec_from_i64(value),
    {
        match value {
            0 => Some(FireArmType::Gun),
            1 => Some(FireArmType::Rifle),
            2 => Some(FireArmType::SubMachineGun),
            3 => Some(FireArmType::Assault),
            4 => Some(FireArmType::MachineGun),
            5 => Some(FireArmType::PrecisionRifle),
            _ => None,
        }
    }
}

// ======================= Missiles =======================

/// The trajectory a missile flies.
#[derive(Debug, Clone, Copy, PartialEq, Eq, Structural)]
pub enum ProjectileType {
    /// Able to change trajectory after launch; flies low.
    Cruise,
    /// A parabola up to high altitude, fixed after launch.
    Ballistic,
}

impl ProjectileType {
    /// The projectile kind with the given integer code.
    pub open spec fn spec_from_i64(value: i64) -> Option<ProjectileType> {
        if value == 0 {
            Some(ProjectileType::Cruise)
        } else if value == 1 {
            Some(ProjectileType::Ballistic)
        } else {
            None
        }
    }

    /// Decode a projectile kind from its integer code; unknown codes fail.
    pub fn from_i64(value: i64) -> (r: Option<ProjectileType>)
        ensures
            r == ProjectileType::spec_from_i64(value),
    {
        match value {
            0 => Some(ProjectileType::Cruise),
            1 => Some(ProjectileType::Ballistic),
            _ => None,
        }
    }
}

/// How a missile is guided to its target.
#[derive(Debug, Clone, Copy, PartialEq, Eq, Structural)]
pub enum MissileGuidanceType {
    /// Guided by a laser designator.
    Laser,
    /// Guided by a radar.
    Radar,
    /// Guided by a heat source.
    Heat,
    /// Guided by a satellite position signal.
    Gps,
    /// Guided by a radio signal.
    Radio,
}

impl MissileGuidanceType {
    /// The guidance kind with the given integer code.
    pub open spec fn spec_from_i64(value: i64) -> Option<MissileGuidanceType> {
        if value == 0 {
            Some(MissileGuidanceType::Laser)
        } else if value == 1 {
            Some(MissileGuidanceType::Radar)
        } else if value == 2 {
            Some(MissileGuidanceType::Heat)
        } else if value == 3 {
            Some(MissileGuidanceType::Gps)
        } else if value == 4 {
            Some(MissileGuidanceType::Radio)
        } else {
            None
        }
    }

    /// Decode a guidance kind from its integer code; unknown codes fail.
    pub fn from_i64(value: i64) -> (r: Option<MissileGuidanceType>)
        ensures
            r == MissileGuidanceType::spec_from_i64(value),
    {
        match value {
            0 => Some(MissileGuidanceType::Laser),
            1 => Some(MissileGuidanceType::Radar),
            2 => Some(MissileGuidanceType::Heat),
            3 => Some(MissileGuidanceType::Gps),
            4 => Some(MissileGuidanceType::Radio),
            _ => None,
        }
    }
}

/// The role a missile's warhead is built for.
#[derive(Debug, Clone, Copy, PartialEq, Eq, Structural)]
pub enum WarheadType {
    /// Cruise missile.
    Cruise,
    /// Anti-ship missile.
    AntiShip,
    /// Anti-aircraft missile.
    AntiAircraft,
    /// Anti-ballistic missile.
    Abm,
    /// Short-range ballistic missile.
    Srbm,
    /// Medium-range ballistic missile.
    Mrbm,
    /// Intercontinental ballistic missile.
    Icbm,
    /// Electromagnetic pulse missile; useful only with a nuclear charge.
    Emp,
}

impl WarheadType {
    /// The warhead kind with the given integer code.
    pub open spec fn spec_from_i64(value: i64) -> Option<WarheadType> {
        if value == 0 {
            Some(WarheadType::Cruise)
        } else if value == 1 {
            Some(WarheadType::AntiShip)
        } else if value == 2 {
            Some(WarheadType::AntiAircraft)
        } else if value == 3 {
            Some(WarheadType::Abm)
        } else if value == 4 {
            Some(WarheadType::Srbm)
        } else if value == 5 {
            Some(WarheadType::Mrbm)
        } else if value == 6 {
            Some(WarheadType::Icbm)
        } else if value == 7 {
            Some(WarheadType::Emp)
        } else {
            None
        }
    }

    /// Decode a warhead kind from its integer code; unknown codes fail.
    pub fn from_i64(value: i64) -> (r: Option<WarheadType>)
        ensures
            r == WarheadType::spec_from_i64(value),
    {
        match value {
            0 => Some(WarheadType::Cruise),
            1 => Some(WarheadType::AntiShip),
            2 => Some(WarheadType::AntiAircraft),
            3 => Some(WarheadType::Abm),
            4 => Some(WarheadType::Srbm),
            5 => Some(WarheadType::Mrbm),
            6 => Some(WarheadType::Icbm),
            7 => Some(WarheadType::Emp),
            _ => None,
        }
    }
}

/// The explosive charge a warhead carries.
#[derive(Debug, Clone, Copy, PartialEq, Eq, Structural)]
pub enum WarheadCharge {
    /// A standard explosive charge.
    Standard,
    /// A chemical charge releasing a cloud of toxic gas.
    Chemical,
    /// A nuclear charge.
    Nuclear,
    /// A biological charge releasing a deadly virus or bacteria.
    Biological,
}

impl WarheadCharge {
    /// The charge kind with the given integer code.
    pub open spec fn spec_from_i64(value: i64) -> Option<WarheadCharge> {
        if value == 0 {
            Some(WarheadCharge::Standard)
        } else if value == 1 {
            Some(WarheadCharge::Chemical)
        } else if value == 2 {
            Some(WarheadCharge::Nuclear)
        } else if value == 3 {
            Some(WarheadCharge::Biological)
        } else {
            None
        }
    }

    /// Decode a charge kind from its integer code; unknown codes fail.
    pub fn from_i64(value: i64) -> (r: Option<WarheadCharge>)
        ensures
            r == WarheadCharge::spec_from_i64(value),
    {
        match value {
            0 => Some(WarheadCharge::Standard),
            1 => Some(WarheadCharge::Chemical),
            2 => Some(WarheadCharge::Nuclear),
            3 => Some(WarheadCharge::Biological),
            _ => None,
        }
    }
}

impl Default for WarheadCharge {
    /// The standard charge.
    fn default() -> (r: Self)
        ensures
            r == WarheadCharge::Standard,
    {
        WarheadCharge::Standard
    }
}

/// The number of warheads a missile carries.
pub type WarheadCount = u32;

// ======================= Shells =======================

/// The kinds of shells fired by tanks and armored vehicles.
#[derive(Debug, Clone, Copy, PartialEq, Eq, Structural)]
pub enum ShellType {
    /// Penetrates armor and explodes inside the target.
    ArmorPiercing,
    /// Explodes on impact.
    HighExplosive,
    /// Explodes on impact, spreading shrapnel.
    Fragmentation,
    /// Concentrates the explosion on a small area to penetrate armor.
    HighExplosiveAntiTank,
    /// A sabot accelerates the projectile, then detaches.
    ArmorPiecingDiscardingSabot,
    /// A fin-stabilized dart for maximum penetration.
    ArmorPiercingFinStabilizedDiscardingSabot,
    /// Two successive charges: one against reactive armor, one to penetrate.
    TandemCharge,
    /// Explodes in the air, spreading shrapnel.
    Mortar,
}

impl ShellType {
    /// The shell kind with the given integer code.
    pub open spec fn spec_from_i64(value: i64) -> Option<ShellType> {
        if value == 0 {
            Some(ShellType::ArmorPiercing)
        } else if value == 1 {
            Some(ShellType::HighExplosive)
        } else if value == 2 {
            Some(ShellType::Fragmentation)
        } else if value == 3 {
            Some(ShellType::HighExplosiveAntiTank)
        } else if value == 4 {
            Some(ShellType::ArmorPiecingDiscardingSabot)
        } else if value == 5 {
            Some(ShellType::ArmorPiercingFinStabilizedDiscardingSabot)
        } else if value == 6 {
            Some(ShellType::TandemCharge)
        } else if value == 7 {
            Some(ShellType::Mortar)
        } else {
            None
        }
    }

    /// Decode a shell kind from its integer code; unknown codes fail.
    pub fn from_i64(value: i64) -> (r: Option<ShellType>)
        ensures
            r == ShellType::spec_from_i64(value),
    {
        match value {
            0 => Some(ShellType::ArmorPiercing),
            1 => Some(ShellType::HighExplosive),
            2 => Some(ShellType::Fragmentation),
            3 => Some(ShellType::HighExplosiveAntiTank),
            4 => Some(ShellType::ArmorPiecingDiscardingSabot),
            5 => Some(ShellType::ArmorPiercingFinStabilizedDiscardingSabot),
            6 => Some(ShellType::TandemCharge),
            7 => Some(ShellType::Mortar),
            _ => None,
        }
    }
}

// ======================= Torpedoes =======================

/// How a torpedo is propelled.
#[derive(Debug, Clone, Copy, PartialEq, Eq, Structural)]
pub enum PropulsionType {
    /// Standard propulsion.
    Standard,
    /// Stealthy propulsion for silent operations.
    Sneaky,
    /// Extremely quiet propulsion for covert missions.
    FuckingSilent,
}

impl PropulsionType {
    /// The propulsion kind with the given integer code.
    pub open spec fn spec_from_i64(value: i64) -> Option<PropulsionType> {
        if value == 0 {
            Some(PropulsionType::Standard)
        } else if value == 1 {
            Some(PropulsionType::Sneaky)
        } else if value == 2 {
            Some(PropulsionType::FuckingSilent)
        } else {
            None
        }
    }

    /// Decode a propulsion kind from its integer code; unknown codes fail.
    pub fn from_i64(value: i64) -> (r: Option<PropulsionType>)
        ensures
            r == PropulsionType::spec_from_i64(value),
    {
        match value {
            0 => Some(PropulsionType::Standard),
            1 => Some(PropulsionType::Sneaky),
            2 => Some(PropulsionType::FuckingSilent),
            _ => None,
        }
    }
}

/// How a torpedo finds its target.
#[derive(Debug, Clone, Copy, PartialEq, Eq, Structural)]
pub enum GuidanceType {
    /// No sonar; a straight run.
    Simple,
    /// Activates after a delay, then searches with sonar.
    Sonar,
    /// Like Sonar, with a guiding cable.
    Guided,
    /// Carried by a missile first, then dropped as a torpedo.
    AirSea,
}

impl GuidanceType {
    /// The guidance kind with the given integer code.
    pub open spec fn spec_from_i64(value: i64) -> Option<GuidanceType> {
        if value == 0 {
            Some(GuidanceType::Simple)
        } else if value == 1 {
            Some(GuidanceType::Sonar)
        } else if value == 2 {
            Some(GuidanceType::Guided)
        } else if value == 3 {
            Some(GuidanceType::AirSea)
        } else {
            None
        }
    }

    /// Decode a guidance kind from its integer code; unknown codes fail.
    pub fn from_i64(value: i64) -> (r: Option<GuidanceType>)
        ensures
            r == GuidanceType::spec_from_i64(value),
    {
        match value {
            0 => Some(GuidanceType::Simple),
            1 => Some(GuidanceType::Sonar),
            2 => Some(GuidanceType::Guided),
            3 => Some(GuidanceType::AirSea),
            _ => None,
        }
    }
}

} // verus!
