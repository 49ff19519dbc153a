//! The tactical action protocol: the five in-zone actions (spawn, move,
//! attack, special ability, end-turn) and the win evaluator that runs after
//! every successful action.
//!
//! Every action validates all its preconditions before mutating anything, so
//! a failure leaves every entity untouched.

use vstd::prelude::*;
use crate::arith::{
    cap_add16, cap_add32, opt_key_eq, sat_sub16, spec_cap_add16, spec_cap_add32, spec_sat_sub16,
};
use crate::expand_zone::spec_manhattan;
use crate::game::{Game, GameWinner};
use crate::grid::{spec_cell_index, CellContent, Zone, ZoneType};
use crate::players::Player;
use crate::unit::{SpecialAbility, Unit, UnitType};

verus! {

#[derive(Clone, Copy, Debug, PartialEq, Eq, Structural)]
pub enum BioCommanderError {
    NotInGame,
    NotActive,
    PositionOutOfBounds,
    PositionOccupied,
    NotPlayersTurn,
    InsufficientResources,
    UnitNotFound,
    InvalidMove,
    UnitTypeNotUnlocked,
    ZoneNotControlled,
    InvalidAction,
}

#[derive(Clone, Copy, Debug, PartialEq, Eq, Structural)]
pub enum ActionType {
    SpawnUnit,
    MoveUnit,
    AttackPosition,
    UseSpecialAbility,
    EndTurn,
}

/// The entity bundle one tactical action acts on. The unit record is needed
/// only by the move, attack and ability actions; an action that needs it and
/// is given none simply does nothing before the win check runs.
#[derive(Clone, Debug, PartialEq)]
pub struct Components {
    pub game: Game,
    pub player: Player,
    pub zone: Zone,
    pub unit: Option<Unit>,
}

// ---------------------------------------------------------------------------
// Unit type selection and spawn cost
// ---------------------------------------------------------------------------

/// The unit type selected by a spawn request; any index past the twelve
/// types is invalid.
pub open spec fn spec_unit_type_from_index(unit_type_index: u8) -> Option<UnitType> {
    if unit_type_index == 0 {
        Some(UnitType::TCell)
    } else if unit_type_index == 1 {
        Some(UnitType::BCell)
    } else if unit_type_index == 2 {
        Some(UnitType::Macrophage)
    } else if unit_type_index == 3 {
        Some(UnitType::NeutrophilCell)
    } else if unit_type_index == 4 {
        Some(UnitType::DendriticCell)
    } else if unit_type_index == 5 {
        Some(UnitType::NaturalKillerCell)
    } else if unit_type_index == 6 {
        Some(UnitType::Virus)
    } else if unit_type_index == 7 {
        Some(UnitType::Bacteria)
    } else if unit_type_index == 8 {
        Some(UnitType::Fungus)
    } else if unit_type_index == 9 {
        Some(UnitType::Parasite)
    } else if unit_type_index == 10 {
        Some(UnitType::CancerCell)
    } else if unit_type_index == 11 {
        Some(UnitType::Toxin)
    } else {
        None
    }
}

pub fn unit_type_from_index(unit_type_index: u8) -> (r: Option<UnitType>)
    ensures
        r == spec_unit_type_from_index(unit_type_index),
{
    match unit_type_index {
        0 => Some(UnitType::TCell),
        1 => Some(UnitType::BCell),
        2 => Some(UnitType::Macrophage),
        3 => Some(UnitType::NeutrophilCell),
        4 => Some(UnitType::DendriticCell),
        5 => Some(UnitType::NaturalKillerCell),
        6 => Some(UnitType::Virus),
        7 => Some(UnitType::Bacteria),
        8 => Some(UnitType::Fungus),
        9 => Some(UnitType::Parasite),
        10 => Some(UnitType::CancerCell),
        11 => Some(UnitType::Toxin),
        _ => None,
    }
}

/// Cost of spawning a unit in a zone, as
/// `(energy, antibodies, stem_cells, nutrients)`: the type's base energy cost
/// scaled by the zone multiplier (Lymphatic four fifths, Barrier three
/// halves, else unchanged, truncating), then split `(c, c/2, c/10, c/3)` for
/// immune cells and `(2c, 0, 0, c)` for pathogens.
pub open spec fn spec_spawn_cost(unit_type: UnitType, zone_type: ZoneType) -> (u64, u64, u64, u64) {
    let base = unit_type.spec_base_stats().4 as int;
    let adjusted = match zone_type {
        ZoneType::Lymphatic => base * 4 / 5,
        ZoneType::Barrier => base * 3 / 2,
        _ => base,
    };
    if unit_type.spec_is_immune_cell() {
        (adjusted as u64, (adjusted / 2) as u64, (adjusted / 10) as u64, (adjusted / 3) as u64)
    } else {
        ((adjusted * 2) as u64, 0u64, 0u64, adjusted as u64)
    }
}

pub fn calculate_spawn_cost(unit_type: &UnitType, zone_type: &ZoneType) -> (r: (u64, u64, u64, u64))
    ensures
        r == spec_spawn_cost(*unit_type, *zone_type),
{
    let (_health, _attack, _defense, _movement_range, base_cost) = unit_type.get_base_stats();
    let base: u64 = base_cost as u64;
    let adjusted_cost: u64 = match zone_type {
        ZoneType::Lymphatic => base * 4 / 5,
        ZoneType::Barrier => base * 3 / 2,
        _ => base,
    };
    if unit_type.is_immune_cell() {
        (adjusted_cost, adjusted_cost / 2, adjusted_cost / 10, adjusted_cost / 3)
    } else {
        (adjusted_cost * 2, 0, 0, adjusted_cost)
    }
}

// ---------------------------------------------------------------------------
// Spawn
// ---------------------------------------------------------------------------

/// First failing validation of a spawn, in the order the rules check them, or
/// the selected unit type when the spawn may proceed.
pub open spec fn spec_spawn_check(p: Player, z: Zone, unit_type_index: u8, x: u8, y: u8) -> Result<UnitType, BioCommanderError> {
    if !(x < 16 && y < 16) {
        Err(BioCommanderError::PositionOutOfBounds)
    } else if !(z.spec_cell(x as int, y as int) is None) {
        Err(BioCommanderError::PositionOccupied)
    } else if z.owner != p.player_key {
        Err(BioCommanderError::ZoneNotControlled)
    } else if !p.spec_is_unit_unlocked(unit_type_index as int) {
        Err(BioCommanderError::UnitTypeNotUnlocked)
    } else {
        match spec_unit_type_from_index(unit_type_index) {
            None => Err(BioCommanderError::InvalidAction),
            Some(unit_type) => {
                let cost = spec_spawn_cost(unit_type, z.zone_type);
                if !p.spec_can_afford(cost.0, cost.1, cost.2, cost.3) {
                    Err(BioCommanderError::InsufficientResources)
                } else {
                    Ok(unit_type)
                }
            }
        }
    }
}

/// The cell entry a successful spawn writes: the faction class of the unit
/// type, a unit id derived from the zone's counter and id, and the type's
/// base health.
pub open spec fn spec_spawned_content(unit_type: UnitType, z: Zone) -> CellContent {
    let unit_id = (z.unit_count + z.zone_id * 1000) as u32;
    let health = unit_type.spec_base_stats().0;
    if unit_type.spec_is_immune_cell() {
        CellContent::ImmuneCell { unit_id, health }
    } else {
        CellContent::Pathogen { unit_id, health }
    }
}

/// State after a successful spawn: the cost is paid, the cell is written, and
/// both unit counters rise by one.
pub open spec fn spec_spawn_post(p0: Player, z0: Zone, unit_type: UnitType, x: u8, y: u8, p1: Player, z1: Zone) -> bool {
    let cost = spec_spawn_cost(unit_type, z0.zone_type);
    &&& p1 == (Player {
        total_units: (p0.total_units + 1) as u16,
        ..p0.spec_spend(cost.0, cost.1, cost.2, cost.3)
    })
    &&& z1.grid@ == z0.grid@.update(
        spec_cell_index(x as int, y as int),
        Some(spec_spawned_content(unit_type, z0)),
    )
    &&& z1 == (Zone { grid: z1.grid, unit_count: (z0.unit_count + 1) as u16, ..z0 })
}

/// Full behaviour of one spawn over the old and new entity values.
pub open spec fn spec_spawn_outcome(
    p0: Player, z0: Zone, unit_type_index: u8, x: u8, y: u8,
    p1: Player, z1: Zone,
    r: Result<(), BioCommanderError>,
) -> bool {
    match spec_spawn_check(p0, z0, unit_type_index, x, y) {
        Err(e) => r == Err::<(), BioCommanderError>(e) && p1 == p0 && z1 == z0,
        Ok(unit_type) => r == Ok::<(), BioCommanderError>(())
            && spec_spawn_post(p0, z0, unit_type, x, y, p1, z1),
    }
}

/// Places a new unit of an unlocked type on an empty cell of a zone the
/// player owns. Either every validation passes and the whole effect is
/// applied, or the first failure is returned and nothing changes.
pub fn spawn_unit(player: &mut Player, zone: &mut Zone, unit_type_index: u8, x: u8, y: u8) -> (r: Result<(), BioCommanderError>)
    requires
        old(zone).wf(),
        old(zone).unit_count < u16::MAX,
        old(player).total_units < u16::MAX,
    ensures
        final(zone).wf(),
        spec_spawn_outcome(*old(player), *old(zone), unit_type_index, x, y, *final(player), *final(zone), r),
{
    if !(x < 16 && y < 16) {
        return Err(BioCommanderError::PositionOutOfBounds);
    }
    if zone.cell(x, y).is_some() {
        return Err(BioCommanderError::PositionOccupied);
    }
    if !opt_key_eq(zone.owner, player.player_key) {
        return Err(BioCommanderError::ZoneNotControlled);
    }
    if !player.is_unit_unlocked(unit_type_index as usize) {
        return Err(BioCommanderError::UnitTypeNotUnlocked);
    }
    let unit_type = match unit_type_from_index(unit_type_index) {
        Some(unit_type) => unit_type,
        None => {
            return Err(BioCommanderError::InvalidAction);
        }
    };
    let (health, _attack, _defense, _movement_range, _energy_cost) = unit_type.get_base_stats();
    let spawn_cost = calculate_spawn_cost(&unit_type, &zone.zone_type);
    if !player.can_afford(spawn_cost.0, spawn_cost.1, spawn_cost.2, spawn_cost.3) {
        return Err(BioCommanderError::InsufficientResources);
    }
    let _ = player.spend_resources(spawn_cost.0, spawn_cost.1, spawn_cost.2, spawn_cost.3);
    let unit_id: u32 = zone.unit_count as u32 + zone.zone_id * 1000;
    let content = if unit_type.is_immune_cell() {
        CellContent::ImmuneCell { unit_id, health }
    } else {
        CellContent::Pathogen { unit_id, health }
    };
    zone.set_cell(x, y, Some(content));
    zone.unit_count = zone.unit_count + 1;
    player.total_units = player.total_units + 1;
    Ok(())
}

// ---------------------------------------------------------------------------
// Move
// ---------------------------------------------------------------------------

/// First failing validation of a move, in the order the rules check them:
/// destination in bounds, destination empty, and Manhattan distance within
/// the unit's movement range.
pub open spec fn spec_move_check(u: Unit, z: Zone, new_x: u8, new_y: u8) -> Result<(), BioCommanderError> {
    if !(new_x < 16 && new_y < 16) {
        Err(BioCommanderError::PositionOutOfBounds)
    } else if !(z.spec_cell(new_x as int, new_y as int) is None) {
        Err(BioCommanderError::PositionOccupied)
    } else if spec_manhattan(u.x, u.y, new_x, new_y) > u.movement_range {
        Err(BioCommanderError::InvalidMove)
    } else {
        Ok(())
    }
}

/// The cell entry a unit occupies: its faction class carrying its id and
/// current health.
pub open spec fn spec_moved_content(u: Unit) -> CellContent {
    if u.unit_type.spec_is_immune_cell() {
        CellContent::ImmuneCell { unit_id: u.unit_id, health: u.health }
    } else {
        CellContent::Pathogen { unit_id: u.unit_id, health: u.health }
    }
}

/// State after a successful move: the source cell is cleared, the destination
/// receives the unit's entry, and the unit record's position follows.
pub open spec fn spec_move_post(u0: Unit, z0: Zone, new_x: u8, new_y: u8, u1: Unit, z1: Zone) -> bool {
    &&& z1.grid@ == z0.grid@
        .update(spec_cell_index(u0.x as int, u0.y as int), None)
        .update(spec_cell_index(new_x as int, new_y as int), Some(spec_moved_content(u0)))
    &&& z1 == (Zone { grid: z1.grid, ..z0 })
    &&& u1 == (Unit { x: new_x, y: new_y, ..u0 })
}

/// Full behaviour of one move over the old and new entity values.
pub open spec fn spec_move_outcome(
    u0: Unit, z0: Zone, new_x: u8, new_y: u8,
    u1: Unit, z1: Zone,
    r: Result<(), BioCommanderError>,
) -> bool {
    match spec_move_check(u0, z0, new_x, new_y) {
        Err(e) => r == Err::<(), BioCommanderError>(e) && u1 == u0 && z1 == z0,
        Ok(()) => r == Ok::<(), BioCommanderError>(())
            && spec_move_post(u0, z0, new_x, new_y, u1, z1),
    }
}

/// Moves a unit to an empty in-range cell of its zone. Either every
/// validation passes and the whole effect is applied, or the first failure is
/// returned and nothing changes.
pub fn move_unit(unit: &mut Unit, zone: &mut Zone, new_x: u8, new_y: u8) -> (r: Result<(), BioCommanderError>)
    requires
        old(zone).wf(),
        old(unit).wf(),
    ensures
        final(zone).wf(),
        final(unit).wf(),
        spec_move_outcome(*old(unit), *old(zone), new_x, new_y, *final(unit), *final(zone), r),
{
    if !(new_x < 16 && new_y < 16) {
        return Err(BioCommanderError::PositionOutOfBounds);
    }
    if zone.cell(new_x, new_y).is_some() {
        return Err(BioCommanderError::PositionOccupied);
    }
    let dx: u8 = if new_x >= unit.x { new_x - unit.x } else { unit.x - new_x };
    let dy: u8 = if new_y >= unit.y { new_y - unit.y } else { unit.y - new_y };
    let distance: u8 = dx + dy;
    if distance > unit.movement_range {
        return Err(BioCommanderError::InvalidMove);
    }
    zone.set_cell(unit.x, unit.y, None);
    let cell_content = if unit.unit_type.is_immune_cell() {
        CellContent::ImmuneCell { unit_id: unit.unit_id, health: unit.health }
    } else {
        CellContent::Pathogen { unit_id: unit.unit_id, health: unit.health }
    };
    zone.set_cell(new_x, new_y, Some(cell_content));
    unit.x = new_x;
    unit.y = new_y;
    Ok(())
}

/// Law: moving a unit away and straight back restores its original position
/// and the zone's original grid, provided the unit's cell matched its record
/// and the destination really was free.
pub proof fn lemma_move_round_trip(
    u0: Unit, z0: Zone, new_x: u8, new_y: u8,
    u1: Unit, z1: Zone, u2: Unit, z2: Zone,
)
    requires
        z0.wf(),
        u0.wf(),
        !(new_x == u0.x && new_y == u0.y),
        z0.spec_cell(u0.x as int, u0.y as int) == Some(spec_moved_content(u0)),
        spec_move_check(u0, z0, new_x, new_y) == Ok::<(), BioCommanderError>(()),
        spec_move_post(u0, z0, new_x, new_y, u1, z1),
        spec_move_post(u1, z1, u0.x, u0.y, u2, z2),
    ensures
        spec_move_check(u1, z1, u0.x, u0.y) == Ok::<(), BioCommanderError>(()),
        u2 == u0,
        z2.grid@ == z0.grid@,
        z2 == (Zone { grid: z2.grid, ..z0 }),
{
    let from = spec_cell_index(u0.x as int, u0.y as int);
    let to = spec_cell_index(new_x as int, new_y as int);
    assert(from != to);
    assert(spec_moved_content(u1) == spec_moved_content(u0));
    assert(z2.grid@ =~= z0.grid@);
}

// ---------------------------------------------------------------------------
// Attack
// ---------------------------------------------------------------------------

/// Full behaviour of one attack over the old and new zone values. Damage is
/// the attacker's attack stat minus the zone's defense bonus, saturating at
/// zero; the occupant's health saturates at zero and a kill clears the cell
/// and decrements the zone's unit counter. Attacking an empty cell does
/// nothing; attacking a resource or obstacle is an invalid action.
pub open spec fn spec_attack_outcome(
    u: Unit, z0: Zone, target_x: u8, target_y: u8,
    z1: Zone,
    r: Result<(), BioCommanderError>,
) -> bool {
    if !(target_x < 16 && target_y < 16) {
        r == Err::<(), BioCommanderError>(BioCommanderError::PositionOutOfBounds) && z1 == z0
    } else {
        let idx = spec_cell_index(target_x as int, target_y as int);
        let damage = spec_sat_sub16(u.attack, z0.zone_type.spec_defense_bonus());
        match z0.grid@[idx] {
            Some(CellContent::ImmuneCell { unit_id, health }) => {
                let new_health = spec_sat_sub16(health, damage);
                if new_health == 0 {
                    &&& r == Ok::<(), BioCommanderError>(())
                    &&& z1.grid@ == z0.grid@.update(idx, None)
                    &&& z1 == (Zone { grid: z1.grid, unit_count: spec_sat_sub16(z0.unit_count, 1), ..z0 })
                } else {
                    &&& r == Ok::<(), BioCommanderError>(())
                    &&& z1.grid@ == z0.grid@.update(idx, Some(CellContent::ImmuneCell { unit_id, health: new_health }))
                    &&& z1 == (Zone { grid: z1.grid, ..z0 })
                }
            }
            Some(CellContent::Pathogen { unit_id, health }) => {
                let new_health = spec_sat_sub16(health, damage);
                if new_health == 0 {
                    &&& r == Ok::<(), BioCommanderError>(())
                    &&& z1.grid@ == z0.grid@.update(idx, None)
                    &&& z1 == (Zone { grid: z1.grid, unit_count: spec_sat_sub16(z0.unit_count, 1), ..z0 })
                } else {
                    &&& r == Ok::<(), BioCommanderError>(())
                    &&& z1.grid@ == z0.grid@.update(idx, Some(CellContent::Pathogen { unit_id, health: new_health }))
                    &&& z1 == (Zone { grid: z1.grid, ..z0 })
                }
            }
            Some(CellContent::Resource { .. }) | Some(CellContent::Obstacle) => {
                r == Err::<(), BioCommanderError>(BioCommanderError::InvalidAction) && z1 == z0
            }
            None => r == Ok::<(), BioCommanderError>(()) && z1 == z0,
        }
    }
}

/// Attacks the cell at the target position with the given unit. Combat
/// damage saturates at zero: a defense bonus at or above the attack stat
/// leaves the occupant untouched, and health never goes below zero.
pub fn attack_position(unit: &Unit, zone: &mut Zone, target_x: u8, target_y: u8) -> (r: Result<(), BioCommanderError>)
    requires
        old(zone).wf(),
    ensures
        final(zone).wf(),
        spec_attack_outcome(*unit, *old(zone), target_x, target_y, *final(zone), r),
{
    if !(target_x < 16 && target_y < 16) {
        return Err(BioCommanderError::PositionOutOfBounds);
    }
    match zone.cell(target_x, target_y) {
        Some(CellContent::ImmuneCell { unit_id, health }) => {
            let damage = sat_sub16(unit.attack, zone.zone_type.get_defense_bonus());
            let new_health = sat_sub16(health, damage);
            if new_health == 0 {
                zone.set_cell(target_x, target_y, None);
                zone.unit_count = sat_sub16(zone.unit_count, 1);
            } else {
                zone.set_cell(target_x, target_y, Some(CellContent::ImmuneCell { unit_id, health: new_health }));
            }
            Ok(())
        }
        Some(CellContent::Pathogen { unit_id, health }) => {
            let damage = sat_sub16(unit.attack, zone.zone_type.get_defense_bonus());
            let new_health = sat_sub16(health, damage);
            if new_health == 0 {
                zone.set_cell(target_x, target_y, None);
                zone.unit_count = sat_sub16(zone.unit_count, 1);
            } else {
                zone.set_cell(target_x, target_y, Some(CellContent::Pathogen { unit_id, health: new_health }));
            }
            Ok(())
        }
        Some(_) => Err(BioCommanderError::InvalidAction),
        None => Ok(()),
    }
}

/// Law: a combatant behind a defense bonus at or above the attacker's attack
/// stat takes no damage at all: the grid and the unit counter are unchanged.
pub proof fn lemma_attack_fully_absorbed(
    u: Unit, z0: Zone, target_x: u8, target_y: u8,
    z1: Zone,
    r: Result<(), BioCommanderError>,
)
    requires
        z0.wf(),
        target_x < 16,
        target_y < 16,
        u.attack <= z0.zone_type.spec_defense_bonus(),
        ({
            let idx = spec_cell_index(target_x as int, target_y as int);
            (z0.grid@[idx] matches Some(CellContent::ImmuneCell { unit_id, health }) && health > 0)
            || (z0.grid@[idx] matches Some(CellContent::Pathogen { unit_id, health }) && health > 0)
        }),
        spec_attack_outcome(u, z0, target_x, target_y, z1, r),
    ensures
        r == Ok::<(), BioCommanderError>(()),
        z1.grid@ == z0.grid@,
        z1 == (Zone { grid: z1.grid, ..z0 }),
{
    let idx = spec_cell_index(target_x as int, target_y as int);
    assert(spec_sat_sub16(u.attack, z0.zone_type.spec_defense_bonus()) == 0);
    match z0.grid@[idx] {
        Some(CellContent::ImmuneCell { unit_id, health }) => {
            assert(z1.grid@ =~= z0.grid@);
        }
        Some(CellContent::Pathogen { unit_id, health }) => {
            assert(z1.grid@ =~= z0.grid@);
        }
        _ => {}
    }
}

// ---------------------------------------------------------------------------
// Special abilities
// ---------------------------------------------------------------------------

/// The ability in the selected slot, if the slot exists and is filled.
pub open spec fn spec_ability_at(u: Unit, ability_index: u8) -> Option<SpecialAbility> {
    if ability_index < u.special_abilities@.len() {
        u.special_abilities@[ability_index as int]
    } else {
        None
    }
}

/// State after using an ability. Only four abilities have an implemented
/// effect: antibody production grants the player antibodies, phagocytosis
/// heals the unit up to its maximum and grants small resources, replication
/// raises both unit counters without a concrete new cell, and zone healing
/// restores zone energy and nutrients up to the cap. Every other ability,
/// and an empty or out-of-range slot, is accepted and does nothing.
pub open spec fn spec_ability_effect(u0: Unit, p0: Player, z0: Zone, ability_index: u8) -> (Unit, Player, Zone) {
    match spec_ability_at(u0, ability_index) {
        Some(SpecialAbility::AntibodyProduction) => (u0, p0.spec_add_resources(0, 50, 0, 0), z0),
        Some(SpecialAbility::Phagocytosis) => (
            Unit { health: spec_cap_add16(u0.health, 20, u0.max_health), ..u0 },
            p0.spec_add_resources(10, 0, 0, 5),
            z0,
        ),
        Some(SpecialAbility::Replication) => (
            u0,
            Player { total_units: (p0.total_units + 1) as u16, ..p0 },
            Zone { unit_count: (z0.unit_count + 1) as u16, ..z0 },
        ),
        Some(SpecialAbility::ZoneHealing) => (
            u0,
            p0,
            Zone {
                energy: spec_cap_add32(z0.energy, 50, 1000),
                nutrients: spec_cap_add32(z0.nutrients, 30, 1000),
                ..z0
            },
        ),
        _ => (u0, p0, z0),
    }
}

/// Uses one of the unit's ability slots. Never fails; abilities without an
/// implemented effect are accepted as no-ops.
pub fn use_special_ability(unit: &mut Unit, player: &mut Player, zone: &mut Zone, ability_index: u8) -> (r: Result<(), BioCommanderError>)
    requires
        old(zone).unit_count < u16::MAX,
        old(player).total_units < u16::MAX,
    ensures
        r == Ok::<(), BioCommanderError>(()),
        (*final(unit), *final(player), *final(zone))
            == spec_ability_effect(*old(unit), *old(player), *old(zone), ability_index),
{
    let idx = ability_index as usize;
    let ability_opt: Option<SpecialAbility> = if idx < unit.special_abilities.len() {
        unit.special_abilities[idx]
    } else {
        None
    };
    match ability_opt {
        Some(SpecialAbility::AntibodyProduction) => {
            player.add_resources(0, 50, 0, 0);
        }
        Some(SpecialAbility::Phagocytosis) => {
            unit.health = cap_add16(unit.health, 20, unit.max_health);
            player.add_resources(10, 0, 0, 5);
        }
        Some(SpecialAbility::Replication) => {
            zone.unit_count = zone.unit_count + 1;
            player.total_units = player.total_units + 1;
        }
        Some(SpecialAbility::ZoneHealing) => {
            zone.energy = cap_add32(zone.energy, 50, 1000);
            zone.nutrients = cap_add32(zone.nutrients, 30, 1000);
        }
        _ => {}
    }
    Ok(())
}

// ---------------------------------------------------------------------------
// End turn
// ---------------------------------------------------------------------------

/// State after ending a turn: a zone owned by the acting player yields its
/// type's per-turn resources to the player (saturating) and to its own
/// counters (capped at 1000, stem cells at 100); any other zone yields
/// nothing. Either way the turn switches to the other seat.
pub open spec fn spec_end_turn_effect(g0: Game, p0: Player, z0: Zone) -> (Game, Player, Zone) {
    let gen = z0.zone_type.spec_resource_generation();
    if z0.owner == p0.player_key {
        let p1 = p0.spec_add_resources(gen.0 as u64, gen.1 as u64, gen.2 as u64, gen.3 as u64);
        let z1 = Zone {
            energy: spec_cap_add32(z0.energy, gen.0, 1000),
            antibodies: spec_cap_add32(z0.antibodies, gen.1, 1000),
            stem_cells: spec_cap_add32(z0.stem_cells, gen.2, 100),
            nutrients: spec_cap_add32(z0.nutrients, gen.3, 1000),
            ..z0
        };
        (g0.spec_switch_turn(), p1, z1)
    } else {
        (g0.spec_switch_turn(), p0, z0)
    }
}

/// Ends the acting player's turn: produces the zone's resources if the
/// player owns it, then switches the turn. Never fails.
pub fn end_turn(game: &mut Game, player: &mut Player, zone: &mut Zone) -> (r: Result<(), BioCommanderError>)
    requires
        old(game).turn_number < u32::MAX,
    ensures
        r == Ok::<(), BioCommanderError>(()),
        (*final(game), *final(player), *final(zone))
            == spec_end_turn_effect(*old(game), *old(player), *old(zone)),
{
    let (energy_gen, antibody_gen, stem_gen, nutrient_gen) = zone.zone_type.get_resource_generation();
    if opt_key_eq(zone.owner, player.player_key) {
        player.add_resources(
            energy_gen as u64,
            antibody_gen as u64,
            stem_gen as u64,
            nutrient_gen as u64,
        );
        zone.energy = cap_add32(zone.energy, energy_gen, 1000);
        zone.antibodies = cap_add32(zone.antibodies, antibody_gen, 1000);
        zone.stem_cells = cap_add32(zone.stem_cells, stem_gen, 100);
        zone.nutrients = cap_add32(zone.nutrients, nutrient_gen, 1000);
    }
    game.switch_turn();
    Ok(())
}

/// Law: ending the turn over a zone the acting player does not own leaves
/// that zone and the player untouched, yet still flips the seat and advances
/// the turn counter by one.
pub proof fn lemma_end_turn_unowned_zone(g: Game, p: Player, z: Zone)
    requires
        z.owner != p.player_key,
        g.turn_number < u32::MAX,
    ensures
        spec_end_turn_effect(g, p, z) == (g.spec_switch_turn(), p, z),
        spec_end_turn_effect(g, p, z).0.turn_number == g.turn_number + 1,
        spec_end_turn_effect(g, p, z).0.current_turn == (if g.current_turn == 1 { 2int } else { 1int }),
{
}

// ---------------------------------------------------------------------------
// Win evaluator
// ---------------------------------------------------------------------------

/// The winner declared for a seat number: seat 1 or 2 by name, anything else
/// a draw.
pub open spec fn spec_winner_for_seat(player_id: u8) -> GameWinner {
    if player_id == 1 {
        GameWinner::Player1
    } else if player_id == 2 {
        GameWinner::Player2
    } else {
        GameWinner::Draw
    }
}

/// The match record after the win evaluator runs: finished with the acting
/// player declared winner as soon as that player controls at least three
/// quarters (rounded down) of all created zones, unchanged otherwise.
pub open spec fn spec_check_win(g0: Game, p: Player) -> Game {
    if p.controlled_zones >= g0.total_zones * 3 / 4 {
        g0.spec_end_game(spec_winner_for_seat(p.player_id))
    } else {
        g0
    }
}

/// Evaluates the controlled-zone win condition for the acting player and
/// ends the match when it is met. Never fails.
pub fn check_win_conditions(game: &mut Game, player: &Player) -> (r: Result<(), BioCommanderError>)
    requires
        old(game).wf(),
    ensures
        r == Ok::<(), BioCommanderError>(()),
        *final(game) == spec_check_win(*old(game), *player),
{
    let threshold: u32 = game.total_zones * 3 / 4;
    if player.controlled_zones >= threshold as u16 {
        let winner = if player.player_id == 1 {
            GameWinner::Player1
        } else if player.player_id == 2 {
            GameWinner::Player2
        } else {
            GameWinner::Draw
        };
        game.end_game(winner);
    }
    Ok(())
}

/// Law: the win threshold is exact. A player at or above three quarters
/// (rounded down) of the created zones ends the match as the declared
/// winner; one zone short leaves the match untouched.
pub proof fn lemma_win_threshold(g: Game, p: Player)
    ensures
        p.controlled_zones >= g.total_zones * 3 / 4 ==> spec_check_win(g, p)
            == g.spec_end_game(spec_winner_for_seat(p.player_id)),
        p.controlled_zones < g.total_zones * 3 / 4 ==> spec_check_win(g, p) == g,
{
}

// ---------------------------------------------------------------------------
// Entry point
// ---------------------------------------------------------------------------

/// First failing authorization check for a tactical action, in the order the
/// turn controller applies them.
pub open spec fn spec_play_auth_check(g: Game, p: Player, authority: u64) -> Result<(), BioCommanderError> {
    if !g.spec_is_player_turn(authority) {
        Err(BioCommanderError::NotPlayersTurn)
    } else if !(g.game_state is Active) {
        Err(BioCommanderError::NotActive)
    } else if p.player_key != Some(authority) {
        Err(BioCommanderError::NotInGame)
    } else {
        Ok(())
    }
}

/// Runs one tactical action for the acting identity: authorizes the turn,
/// dispatches on the action type, and on success runs the win evaluator.
/// A failure anywhere leaves every entity exactly as it was. An action that
/// needs the optional unit record and is given none skips its effect but
/// still runs the win evaluator.
pub fn execute(
    c: &mut Components,
    authority: u64,
    action: ActionType,
    x: u8,
    y: u8,
    unit_type: u8,
    ability_index: u8,
) -> (r: Result<(), BioCommanderError>)
    requires
        old(c).game.wf(),
        old(c).game.turn_number < u32::MAX,
        old(c).zone.wf(),
        old(c).zone.unit_count < u16::MAX,
        old(c).player.total_units < u16::MAX,
        match old(c).unit {
            Some(u) => u.wf(),
            None => true,
        },
    ensures
        final(c).zone.wf(),
        final(c).game.wf(),
        old(c).player.wf() ==> final(c).player.wf(),
        final(c).unit is Some <==> old(c).unit is Some,
        match final(c).unit {
            Some(u1) => u1.wf(),
            None => true,
        },
        r is Err ==> *final(c) == *old(c),
        match spec_play_auth_check(old(c).game, old(c).player, authority) {
            Err(e) => r == Err::<(), BioCommanderError>(e) && *final(c) == *old(c),
            Ok(()) => match action {
                ActionType::SpawnUnit => {
                    &&& spec_spawn_outcome(old(c).player, old(c).zone, unit_type, x, y, final(c).player, final(c).zone, r)
                    &&& final(c).unit == old(c).unit
                    &&& (r is Ok ==> final(c).game == spec_check_win(old(c).game, final(c).player))
                    &&& (r is Err ==> final(c).game == old(c).game)
                }
                ActionType::MoveUnit => match old(c).unit {
                    None => {
                        &&& r == Ok::<(), BioCommanderError>(())
                        &&& final(c).unit == old(c).unit
                        &&& final(c).player == old(c).player
                        &&& final(c).zone == old(c).zone
                        &&& final(c).game == spec_check_win(old(c).game, old(c).player)
                    }
                    Some(u0) => {
                        &&& match final(c).unit {
                            Some(u1) => spec_move_outcome(u0, old(c).zone, x, y, u1, final(c).zone, r),
                            None => false,
                        }
                        &&& final(c).player == old(c).player
                        &&& (r is Ok ==> final(c).game == spec_check_win(old(c).game, old(c).player))
                        &&& (r is Err ==> final(c).game == old(c).game)
                    }
                },
                ActionType::AttackPosition => match old(c).unit {
                    None => {
                        &&& r == Ok::<(), BioCommanderError>(())
                        &&& final(c).unit == old(c).unit
                        &&& final(c).player == old(c).player
                        &&& final(c).zone == old(c).zone
                        &&& final(c).game == spec_check_win(old(c).game, old(c).player)
                    }
                    Some(u0) => {
                        &&& spec_attack_outcome(u0, old(c).zone, x, y, final(c).zone, r)
                        &&& final(c).unit == old(c).unit
                        &&& final(c).player == old(c).player
                        &&& (r is Ok ==> final(c).game == spec_check_win(old(c).game, old(c).player))
                        &&& (r is Err ==> final(c).game == old(c).game)
                    }
                },
                ActionType::UseSpecialAbility => match old(c).unit {
                    None => {
                        &&& r == Ok::<(), BioCommanderError>(())
                        &&& final(c).unit == old(c).unit
                        &&& final(c).player == old(c).player
                        &&& final(c).zone == old(c).zone
                        &&& final(c).game == spec_check_win(old(c).game, old(c).player)
                    }
                    Some(u0) => {
                        let (u1, p1, z1) = spec_ability_effect(u0, old(c).player, old(c).zone, ability_index);
                        &&& r == Ok::<(), BioCommanderError>(())
                        &&& final(c).unit == Some(u1)
                        &&& final(c).player == p1
                        &&& final(c).zone == z1
                        &&& final(c).game == spec_check_win(old(c).game, p1)
                    }
                },
                ActionType::EndTurn => {
                    let (g1, p1, z1) = spec_end_turn_effect(old(c).game, old(c).player, old(c).zone);
                    &&& r == Ok::<(), BioCommanderError>(())
                    &&& final(c).unit == old(c).unit
                    &&& final(c).player == p1
                    &&& final(c).zone == z1
                    &&& final(c).game == spec_check_win(g1, p1)
                }
            },
        },
{
    if !c.game.is_player_turn(authority) {
        return Err(BioCommanderError::NotPlayersTurn);
    }
    if !c.game.is_game_active() {
        return Err(BioCommanderError::NotActive);
    }
    if !opt_key_eq(c.player.player_key, Some(authority)) {
        return Err(BioCommanderError::NotInGame);
    }

    match action {
        ActionType::SpawnUnit => {
            spawn_unit(&mut c.player, &mut c.zone, unit_type, x, y)?;
        }
        ActionType::MoveUnit => {
            match &mut c.unit {
                Some(unit) => {
                    move_unit(unit, &mut c.zone, x, y)?;
                }
                None => {}
            }
        }
        ActionType::AttackPosition => {
            match &c.unit {
                Some(unit) => {
                    attack_position(unit, &mut c.zone, x, y)?;
                }
                None => {}
            }
        }
        ActionType::UseSpecialAbility => {
            match &mut c.unit {
                Some(unit) => {
                    use_special_ability(unit, &mut c.player, &mut c.zone, ability_index)?;
                }
                None => {}
            }
        }
        ActionType::EndTurn => {
            end_turn(&mut c.game, &mut c.player, &mut c.zone)?;
        }
    }

    check_win_conditions(&mut c.game, &c.player)?;
    Ok(())
}

} // verus!
