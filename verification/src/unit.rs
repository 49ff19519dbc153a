//! Combatant units: the twelve unit types with their fixed base stats and
//! default special abilities, and the standalone unit record mirrored by a
//! grid cell entry inside its zone.

use vstd::prelude::*;

verus! {

#[derive(Clone, Copy, Debug, PartialEq, Eq, Structural)]
pub enum UnitType {
    TCell,
    BCell,
    Macrophage,
    NeutrophilCell,
    DendriticCell,
    NaturalKillerCell,
    Virus,
    Bacteria,
    Fungus,
    Parasite,
    CancerCell,
    Toxin,
}

#[derive(Clone, Copy, Debug, PartialEq, Eq, Structural)]
pub enum SpecialAbility {
    AntibodyProduction,
    Phagocytosis,
    CytokineRelease,
    MemoryResponse,
    Infiltration,
    ZoneHealing,
    Replication,
    Mutation,
    ToxinRelease,
    ImmuneEvasion,
    Metastasis,
    ResourceDrain,
}

/// One placed combatant. Its position `(zone_id, x, y)` mirrors exactly one
/// non-empty cell of the owning zone's grid.
#[derive(Clone, Debug, PartialEq)]
pub struct Unit {
    pub unit_id: u32,
    pub unit_type: UnitType,
    pub zone_id: u32,
    pub x: u8,
    pub y: u8,
    pub health: u16,
    pub max_health: u16,
    pub attack: u16,
    pub defense: u16,
    pub movement_range: u8,
    pub owner: Option<u64>,
    /// Up to 3 ability slots.
    pub special_abilities: Vec<Option<SpecialAbility>>,
    pub is_active: bool,
    pub energy_cost: u16,
}

impl UnitType {
    /// Base stats as `(health, attack, defense, movement_range, energy_cost)`.
    pub open spec fn spec_base_stats(self) -> (u16, u16, u16, u8, u16) {
        match self {
            UnitType::TCell => (80u16, 15u16, 10u16, 3u8, 20u16),
            UnitType::BCell => (60u16, 8u16, 8u16, 2u8, 25u16),
            UnitType::Macrophage => (120u16, 20u16, 15u16, 2u8, 30u16),
            UnitType::NeutrophilCell => (70u16, 18u16, 8u16, 4u8, 15u16),
            UnitType::DendriticCell => (50u16, 5u16, 12u16, 3u8, 35u16),
            UnitType::NaturalKillerCell => (90u16, 25u16, 10u16, 3u8, 40u16),
            UnitType::Virus => (40u16, 12u16, 5u16, 4u8, 10u16),
            UnitType::Bacteria => (60u16, 15u16, 8u16, 2u8, 15u16),
            UnitType::Fungus => (80u16, 10u16, 12u16, 1u8, 20u16),
            UnitType::Parasite => (70u16, 18u16, 6u16, 3u8, 25u16),
            UnitType::CancerCell => (100u16, 20u16, 10u16, 2u8, 30u16),
            UnitType::Toxin => (30u16, 30u16, 2u16, 5u8, 5u16),
        }
    }

    /// Base stats as `(health, attack, defense, movement_range, energy_cost)`.
    pub fn get_base_stats(&self) -> (r: (u16, u16, u16, u8, u16))
        ensures
            r == self.spec_base_stats(),
    {
        match self {
            UnitType::TCell => (80, 15, 10, 3, 20),
            UnitType::BCell => (60, 8, 8, 2, 25),
            UnitType::Macrophage => (120, 20, 15, 2, 30),
            UnitType::NeutrophilCell => (70, 18, 8, 4, 15),
            UnitType::DendriticCell => (50, 5, 12, 3, 35),
            UnitType::NaturalKillerCell => (90, 25, 10, 3, 40),
            UnitType::Virus => (40, 12, 5, 4, 10),
            UnitType::Bacteria => (60, 15, 8, 2, 15),
            UnitType::Fungus => (80, 10, 12, 1, 20),
            UnitType::Parasite => (70, 18, 6, 3, 25),
            UnitType::CancerCell => (100, 20, 10, 2, 30),
            UnitType::Toxin => (30, 30, 2, 5, 5),
        }
    }

    /// The two default abilities of each unit type; the third slot is free.
    pub open spec fn spec_default_abilities(self) -> Seq<Option<SpecialAbility>> {
        match self {
            UnitType::TCell => seq![
                Some(SpecialAbility::CytokineRelease),
                Some(SpecialAbility::MemoryResponse),
                None,
            ],
            UnitType::BCell => seq![
                Some(SpecialAbility::AntibodyProduction),
                Some(SpecialAbility::MemoryResponse),
                None,
            ],
            UnitType::Macrophage => seq![
                Some(SpecialAbility::Phagocytosis),
                Some(SpecialAbility::CytokineRelease),
                None,
            ],
            UnitType::NeutrophilCell => seq![
                Some(SpecialAbility::Phagocytosis),
                Some(SpecialAbility::Infiltration),
                None,
            ],
            UnitType::DendriticCell => seq![
                Some(SpecialAbility::CytokineRelease),
                Some(SpecialAbility::Infiltration),
                None,
            ],
            UnitType::NaturalKillerCell => seq![
                Some(SpecialAbility::CytokineRelease),
                Some(SpecialAbility::ZoneHealing),
                None,
            ],
            UnitType::Virus => seq![
                Some(SpecialAbility::Replication),
                Some(SpecialAbility::ImmuneEvasion),
                None,
            ],
            UnitType::Bacteria => seq![
                Some(SpecialAbility::Replication),
                Some(SpecialAbility::ToxinRelease),
                None,
            ],
            UnitType::Fungus => seq![
                Some(SpecialAbility::Replication),
                Some(SpecialAbility::ResourceDrain),
                None,
            ],
            UnitType::Parasite => seq![
                Some(SpecialAbility::ImmuneEvasion),
                Some(SpecialAbility::ResourceDrain),
                None,
            ],
            UnitType::CancerCell => seq![
                Some(SpecialAbility::Replication),
                Some(SpecialAbility::Metastasis),
                None,
            ],
            UnitType::Toxin => seq![
                Some(SpecialAbility::ToxinRelease),
                Some(SpecialAbility::ResourceDrain),
                None,
            ],
        }
    }

    /// The default ability slots of this unit type, always 3 entries.
    pub fn get_default_abilities(&self) -> (r: Vec<Option<SpecialAbility>>)
        ensures
            r@ == self.spec_default_abilities(),
            r@.len() == 3,
    {
        let (a, b): (Option<SpecialAbility>, Option<SpecialAbility>) = match self {
            UnitType::TCell => (Some(SpecialAbility::CytokineRelease), Some(SpecialAbility::MemoryResponse)),
            UnitType::BCell => (Some(SpecialAbility::AntibodyProduction), Some(SpecialAbility::MemoryResponse)),
            UnitType::Macrophage => (Some(SpecialAbility::Phagocytosis), Some(SpecialAbility::CytokineRelease)),
            UnitType::NeutrophilCell => (Some(SpecialAbility::Phagocytosis), Some(SpecialAbility::Infiltration)),
            UnitType::DendriticCell => (Some(SpecialAbility::CytokineRelease), Some(SpecialAbility::Infiltration)),
            UnitType::NaturalKillerCell => (Some(SpecialAbility::CytokineRelease), Some(SpecialAbility::ZoneHealing)),
            UnitType::Virus => (Some(SpecialAbility::Replication), Some(SpecialAbility::ImmuneEvasion)),
            UnitType::Bacteria => (Some(SpecialAbility::Replication), Some(SpecialAbility::ToxinRelease)),
            UnitType::Fungus => (Some(SpecialAbility::Replication), Some(SpecialAbility::ResourceDrain)),
            UnitType::Parasite => (Some(SpecialAbility::ImmuneEvasion), Some(SpecialAbility::ResourceDrain)),
            UnitType::CancerCell => (Some(SpecialAbility::Replication), Some(SpecialAbility::Metastasis)),
            UnitType::Toxin => (Some(SpecialAbility::ToxinRelease), Some(SpecialAbility::ResourceDrain)),
        };
        let mut r: Vec<Option<SpecialAbility>> = Vec::new();
        r.push(a);
        r.push(b);
        r.push(None);
        proof {
            assert(r@ =~= self.spec_default_abilities());
        }
        r
    }

    pub open spec fn spec_is_immune_cell(self) -> bool {
        match self {
            UnitType::TCell | UnitType::BCell | UnitType::Macrophage | UnitType::NeutrophilCell
                | UnitType::DendriticCell | UnitType::NaturalKillerCell => true,
            _ => false,
        }
    }

    /// Whether the type belongs to the immune-cell roster.
    pub fn is_immune_cell(&self) -> (r: bool)
        ensures
            r == self.spec_is_immune_cell(),
    {
        match self {
            UnitType::TCell | UnitType::BCell | UnitType::Macrophage | UnitType::NeutrophilCell
                | UnitType::DendriticCell | UnitType::NaturalKillerCell => true,
            _ => false,
        }
    }

    /// Whether the type belongs to the pathogen roster: exactly the types that
    /// are not immune cells.
    pub fn is_pathogen(&self) -> (r: bool)
        ensures
            r == !self.spec_is_immune_cell(),
    {
        !self.is_immune_cell()
    }
}

impl Unit {
    /// Well-formedness: health never exceeds the maximum, the position lies
    /// inside the 16x16 zone grid it mirrors, and the ability table has its
    /// fixed size.
    pub open spec fn wf(self) -> bool {
        &&& self.health <= self.max_health
        &&& self.x < 16
        &&& self.y < 16
        &&& self.special_abilities@.len() == 3
    }

    /// What a fresh unplaced unit record looks like: an unowned T-cell at
    /// full health with its default abilities.
    pub open spec fn spec_is_default_unit(r: Unit) -> bool {
        &&& r.unit_id == 0
        &&& r.unit_type == UnitType::TCell
        &&& r.zone_id == 0
        &&& r.x == 0 && r.y == 0
        &&& r.health == 80 && r.max_health == 80
        &&& r.attack == 15
        &&& r.defense == 10
        &&& r.movement_range == 3
        &&& r.owner is None
        &&& r.special_abilities@ == UnitType::TCell.spec_default_abilities()
        &&& r.is_active
        &&& r.energy_cost == 20
    }

    /// A fresh unplaced T-cell at full health with its default abilities.
    pub fn default_unit() -> (r: Unit)
        ensures
            r.wf(),
            Unit::spec_is_default_unit(r),
    {
        let unit_type = UnitType::TCell;
        let (health, attack, defense, movement_range, energy_cost) = unit_type.get_base_stats();
        let special_abilities = unit_type.get_default_abilities();
        Unit {
            unit_id: 0,
            unit_type,
            zone_id: 0,
            x: 0,
            y: 0,
            health,
            max_health: health,
            attack,
            defense,
            movement_range,
            owner: None,
            special_abilities,
            is_active: true,
            energy_cost,
        }
    }
}

impl Default for Unit {
    fn default() -> (r: Unit)
        ensures
            r.wf(),
            Unit::spec_is_default_unit(r),
    {
        Unit::default_unit()
    }
}

} // verus!
