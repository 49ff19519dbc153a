//! Player seats: the four-resource economy, faction, unit unlock table and
//! progress counters.

use vstd::prelude::*;
use crate::arith::{sat_add64, spec_sat_add64};

verus! {

/// Number of entries in the unit unlock table, one per unit type.
pub const UNLOCK_TABLE_LEN: usize = 12;

#[derive(Clone, Copy, Debug, PartialEq, Eq, Structural)]
pub enum Faction {
    ImmuneSystem,
    Pathogen,
}

#[derive(Clone, Copy, Debug, PartialEq, Eq, Structural)]
pub enum SpecialBonus {
    IncreasedProduction,
    FasterMovement,
    StrongerUnits,
    BetterDefense,
    ResourceEfficiency,
    ZoneControl,
}

/// One seat of a match. Resource reserves are unsigned and only ever grow by
/// saturating addition; every spend is preceded by an afford check, so they
/// never go negative.
#[derive(Clone, Debug, PartialEq)]
pub struct Player {
    /// 1 or 2.
    pub player_id: u8,
    pub player_key: Option<u64>,
    pub energy_reserves: u64,
    pub antibody_reserves: u64,
    pub stem_cell_reserves: u64,
    pub nutrient_reserves: u64,
    pub controlled_zones: u16,
    pub total_units: u16,
    pub research_points: u32,
    pub faction: Faction,
    /// Fixed table of `UNLOCK_TABLE_LEN` flags, one per unit type index.
    pub unlocked_units: Vec<bool>,
    /// Up to 3 optional bonuses.
    pub special_bonuses: Vec<Option<SpecialBonus>>,
}

impl Player {
    /// Well-formedness: the unlock table and bonus slots have their fixed
    /// sizes.
    pub open spec fn wf(self) -> bool {
        &&& self.unlocked_units@.len() == 12
        &&& self.special_bonuses@.len() == 3
    }

    pub open spec fn spec_can_afford(self, energy: u64, antibodies: u64, stem_cells: u64, nutrients: u64) -> bool {
        &&& self.energy_reserves >= energy
        &&& self.antibody_reserves >= antibodies
        &&& self.stem_cell_reserves >= stem_cells
        &&& self.nutrient_reserves >= nutrients
    }

    /// Whether every reserve covers the corresponding amount.
    pub fn can_afford(&self, energy: u64, antibodies: u64, stem_cells: u64, nutrients: u64) -> (r: bool)
        ensures
            r == self.spec_can_afford(energy, antibodies, stem_cells, nutrients),
    {
        self.energy_reserves >= energy && self.antibody_reserves >= antibodies
            && self.stem_cell_reserves >= stem_cells && self.nutrient_reserves >= nutrients
    }

    pub open spec fn spec_spend(self, energy: u64, antibodies: u64, stem_cells: u64, nutrients: u64) -> Player {
        Player {
            energy_reserves: (self.energy_reserves - energy) as u64,
            antibody_reserves: (self.antibody_reserves - antibodies) as u64,
            stem_cell_reserves: (self.stem_cell_reserves - stem_cells) as u64,
            nutrient_reserves: (self.nutrient_reserves - nutrients) as u64,
            ..self
        }
    }

    /// Deducts the amounts if every reserve covers them and reports whether it
    /// did; an unaffordable spend changes nothing.
    pub fn spend_resources(&mut self, energy: u64, antibodies: u64, stem_cells: u64, nutrients: u64) -> (r: bool)
        ensures
            r == old(self).spec_can_afford(energy, antibodies, stem_cells, nutrients),
            r ==> *final(self) == old(self).spec_spend(energy, antibodies, stem_cells, nutrients),
            !r ==> *final(self) == *old(self),
    {
        if self.can_afford(energy, antibodies, stem_cells, nutrients) {
            self.energy_reserves = self.energy_reserves - energy;
            self.antibody_reserves = self.antibody_reserves - antibodies;
            self.stem_cell_reserves = self.stem_cell_reserves - stem_cells;
            self.nutrient_reserves = self.nutrient_reserves - nutrients;
            true
        } else {
            false
        }
    }

    pub open spec fn spec_add_resources(self, energy: u64, antibodies: u64, stem_cells: u64, nutrients: u64) -> Player {
        Player {
            energy_reserves: spec_sat_add64(self.energy_reserves, energy),
            antibody_reserves: spec_sat_add64(self.antibody_reserves, antibodies),
            stem_cell_reserves: spec_sat_add64(self.stem_cell_reserves, stem_cells),
            nutrient_reserves: spec_sat_add64(self.nutrient_reserves, nutrients),
            ..self
        }
    }

    /// Adds to every reserve, saturating at the representable maximum.
    pub fn add_resources(&mut self, energy: u64, antibodies: u64, stem_cells: u64, nutrients: u64)
        ensures
            *final(self) == old(self).spec_add_resources(energy, antibodies, stem_cells, nutrients),
    {
        self.energy_reserves = sat_add64(self.energy_reserves, energy);
        self.antibody_reserves = sat_add64(self.antibody_reserves, antibodies);
        self.stem_cell_reserves = sat_add64(self.stem_cell_reserves, stem_cells);
        self.nutrient_reserves = sat_add64(self.nutrient_reserves, nutrients);
    }

    pub open spec fn spec_faction_bonus(self) -> (u16, u16, u16) {
        match self.faction {
            Faction::ImmuneSystem => (2u16, 3u16, 0u16),
            Faction::Pathogen => (3u16, 0u16, 1u16),
        }
    }

    /// Faction-wide combat modifiers as `(attack, defense, movement)`.
    pub fn get_faction_bonus(&self) -> (r: (u16, u16, u16))
        ensures
            r == self.spec_faction_bonus(),
    {
        match self.faction {
            Faction::ImmuneSystem => (2, 3, 0),
            Faction::Pathogen => (3, 0, 1),
        }
    }

    pub open spec fn spec_is_unit_unlocked(self, unit_type_index: int) -> bool {
        0 <= unit_type_index < self.unlocked_units@.len() && self.unlocked_units@[unit_type_index]
    }

    /// Whether the unit type at `unit_type_index` is unlocked; an index past
    /// the table is simply locked.
    pub fn is_unit_unlocked(&self, unit_type_index: usize) -> (r: bool)
        ensures
            r == self.spec_is_unit_unlocked(unit_type_index as int),
    {
        if unit_type_index < self.unlocked_units.len() {
            self.unlocked_units[unit_type_index]
        } else {
            false
        }
    }

    /// Marks the unit type at `unit_type_index` unlocked; an index past the
    /// table changes nothing.
    pub fn unlock_unit(&mut self, unit_type_index: usize)
        ensures
            unit_type_index < old(self).unlocked_units@.len() ==> final(self).unlocked_units@
                == old(self).unlocked_units@.update(unit_type_index as int, true),
            unit_type_index >= old(self).unlocked_units@.len() ==> final(self).unlocked_units@
                == old(self).unlocked_units@,
            *final(self) == (Player { unlocked_units: final(self).unlocked_units, ..*old(self) }),
    {
        if unit_type_index < self.unlocked_units.len() {
            let slot = &mut self.unlocked_units[unit_type_index];
            *slot = true;
        }
    }

    /// What a fresh seat looks like before any join: immune-system faction,
    /// the stock starting reserves, and only the two basic unit types (the
    /// T-cell and the virus) unlocked.
    pub open spec fn spec_is_default_player(r: Player) -> bool {
        &&& r.player_id == 1
        &&& r.player_key is None
        &&& r.energy_reserves == 1000
        &&& r.antibody_reserves == 500
        &&& r.stem_cell_reserves == 100
        &&& r.nutrient_reserves == 750
        &&& r.controlled_zones == 0
        &&& r.total_units == 0
        &&& r.research_points == 0
        &&& r.faction == Faction::ImmuneSystem
        &&& r.unlocked_units@.len() == 12
        &&& (forall|i: int| 0 <= i < 12 ==> (r.unlocked_units@[i] == (i == 0 || i == 6)))
        &&& r.special_bonuses@.len() == 3
        &&& (forall|i: int| 0 <= i < 3 ==> r.special_bonuses@[i] is None)
    }

    /// A fresh seat before any join: immune-system faction, the stock starting
    /// reserves, and only the two basic unit types unlocked.
    pub fn default_player() -> (r: Player)
        ensures
            r.wf(),
            Player::spec_is_default_player(r),
    {
        let mut unlocked_units: Vec<bool> = Vec::new();
        while unlocked_units.len() < 12
            invariant
                unlocked_units.len() <= 12,
                forall|i: int| 0 <= i < unlocked_units.len() ==> !unlocked_units@[i],
            decreases 12 - unlocked_units.len(),
        {
            unlocked_units.push(false);
        }
        let slot0 = &mut unlocked_units[0];
        *slot0 = true;
        let slot6 = &mut unlocked_units[6];
        *slot6 = true;
        let mut special_bonuses: Vec<Option<SpecialBonus>> = Vec::new();
        special_bonuses.push(None);
        special_bonuses.push(None);
        special_bonuses.push(None);
        Player {
            player_id: 1,
            player_key: None,
            energy_reserves: 1000,
            antibody_reserves: 500,
            stem_cell_reserves: 100,
            nutrient_reserves: 750,
            controlled_zones: 0,
            total_units: 0,
            research_points: 0,
            faction: Faction::ImmuneSystem,
            unlocked_units,
            special_bonuses,
        }
    }
}

impl Default for Player {
    fn default() -> (r: Player)
        ensures
            r.wf(),
            Player::spec_is_default_player(r),
    {
        Player::default_player()
    }
}

} // verus!
