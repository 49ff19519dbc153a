//! The zone-expansion protocol: four mutually exclusive operations that create
//! or transfer zone ownership. Every operation validates all its preconditions
//! before mutating anything, so a failure leaves every entity untouched.

use vstd::prelude::*;
use crate::arith::{cap_add32, opt_key_eq, sat_sub32, spec_cap_add32, spec_sat_sub32};
use crate::game::Game;
use crate::grid::{Zone, ZoneType};
use crate::players::{Faction, Player};

verus! {

#[derive(Clone, Copy, Debug, PartialEq, Eq, Structural)]
pub enum ExpandZoneError {
    NotInGame,
    NotActive,
    NotPlayersTurn,
    InsufficientResources,
    ZoneAlreadyControlled,
    ZoneNotAdjacent,
    InvalidZoneType,
    ExpansionNotPossible,
    MaxZonesReached,
}

#[derive(Clone, Copy, Debug, PartialEq, Eq, Structural)]
pub enum ExpansionType {
    /// Pathogens spreading to adjacent zones.
    InfectionSpread,
    /// The immune system establishing staging areas.
    ImmuneResponse,
    /// Player-initiated zone creation.
    CreateNewZone,
    /// Taking control of an enemy zone.
    ConquerZone,
}

/// The entity bundle one expansion acts on.
#[derive(Clone, Debug, PartialEq)]
pub struct Components {
    pub game: Game,
    pub player: Player,
    pub source_zone: Zone,
    pub target_zone: Zone,
}

// ---------------------------------------------------------------------------
// Adjacency
// ---------------------------------------------------------------------------

pub open spec fn spec_abs_diff(a: u8, b: u8) -> int {
    if a >= b {
        a - b
    } else {
        b - a
    }
}

/// Manhattan distance between two zone coordinates.
pub open spec fn spec_manhattan(x1: u8, y1: u8, x2: u8, y2: u8) -> int {
    spec_abs_diff(x1, x2) + spec_abs_diff(y1, y2)
}

/// Two zones are adjacent exactly when their map coordinates are at Manhattan
/// distance 1.
pub open spec fn spec_adjacent(x1: u8, y1: u8, x2: u8, y2: u8) -> bool {
    spec_manhattan(x1, y1, x2, y2) == 1
}

pub fn is_adjacent_zone(zone1: &Zone, zone2: &Zone) -> (r: bool)
    ensures
        r == spec_adjacent(zone1.x, zone1.y, zone2.x, zone2.y),
{
    let dx: i16 = if zone1.x >= zone2.x {
        (zone1.x - zone2.x) as i16
    } else {
        (zone2.x - zone1.x) as i16
    };
    let dy: i16 = if zone1.y >= zone2.y {
        (zone1.y - zone2.y) as i16
    } else {
        (zone2.y - zone1.y) as i16
    };
    (dx == 1 && dy == 0) || (dx == 0 && dy == 1)
}

/// Law: adjacency is symmetric in its two coordinates.
pub proof fn lemma_adjacency_symmetric(x1: u8, y1: u8, x2: u8, y2: u8)
    ensures
        spec_adjacent(x1, y1, x2, y2) == spec_adjacent(x2, y2, x1, y1),
{
}

// ---------------------------------------------------------------------------
// Cost tables
// ---------------------------------------------------------------------------

/// Cost of spreading infection into a zone of the given type, as
/// `(energy, antibodies, stem_cells, nutrients)`: base 100 scaled by the
/// target's resistance (Barrier x3, Lymphatic x2, else x1), paid twice over
/// in energy and once in nutrients.
pub open spec fn spec_infection_spread_cost(target_type: ZoneType) -> (u64, u64, u64, u64) {
    match target_type {
        ZoneType::Barrier => (600u64, 0u64, 0u64, 300u64),
        ZoneType::Lymphatic => (400u64, 0u64, 0u64, 200u64),
        _ => (200u64, 0u64, 0u64, 100u64),
    }
}

pub fn calculate_infection_spread_cost(source: &Zone, target: &Zone) -> (r: (u64, u64, u64, u64))
    ensures
        r == spec_infection_spread_cost(target.zone_type),
{
    let base_cost: u64 = 100;
    let zone_resistance: u64 = match target.zone_type {
        ZoneType::Barrier => 3,
        ZoneType::Lymphatic => 2,
        _ => 1,
    };
    let adjusted_cost = base_cost * zone_resistance;
    (adjusted_cost * 2, 0, 0, adjusted_cost)
}

/// Cost of establishing an immune staging area in a zone of the given type:
/// base 80 scaled by the target's difficulty (Organ x3, Tissue x2, else x1),
/// split `(d, 2d, d/4, d/2)`.
pub open spec fn spec_immune_response_cost(target_type: ZoneType) -> (u64, u64, u64, u64) {
    match target_type {
        ZoneType::Organ => (240u64, 480u64, 60u64, 120u64),
        ZoneType::Tissue => (160u64, 320u64, 40u64, 80u64),
        _ => (80u64, 160u64, 20u64, 40u64),
    }
}

pub fn calculate_immune_response_cost(source: &Zone, target: &Zone) -> (r: (u64, u64, u64, u64))
    ensures
        r == spec_immune_response_cost(target.zone_type),
{
    let base_cost: u64 = 80;
    let zone_difficulty: u64 = match target.zone_type {
        ZoneType::Tissue => 2,
        ZoneType::Organ => 3,
        _ => 1,
    };
    let adjusted_cost = base_cost * zone_difficulty;
    (adjusted_cost, adjusted_cost * 2, adjusted_cost / 4, adjusted_cost / 2)
}

pub open spec fn spec_zone_creation_base(zone_type: ZoneType) -> u64 {
    match zone_type {
        ZoneType::Circulatory => 200,
        ZoneType::Tissue => 150,
        ZoneType::Lymphatic => 300,
        ZoneType::Barrier => 400,
        ZoneType::Organ => 500,
    }
}

/// Cost of creating a zone of the given type: the base table scaled by a
/// faction modifier (pathogens pay a one-fifth surcharge), split
/// `(c, c/2, c/10, c/3)` with truncating division.
pub open spec fn spec_zone_creation_cost(zone_type: ZoneType, faction: Faction) -> (u64, u64, u64, u64) {
    let base = spec_zone_creation_base(zone_type);
    let adjusted = match faction {
        Faction::ImmuneSystem => base as int,
        Faction::Pathogen => base * 6 / 5,
    };
    (adjusted as u64, (adjusted / 2) as u64, (adjusted / 10) as u64, (adjusted / 3) as u64)
}

pub fn calculate_zone_creation_cost(zone_type: &ZoneType, faction: Faction) -> (r: (u64, u64, u64, u64))
    ensures
        r == spec_zone_creation_cost(*zone_type, faction),
{
    let base_cost: u64 = match zone_type {
        ZoneType::Circulatory => 200,
        ZoneType::Tissue => 150,
        ZoneType::Lymphatic => 300,
        ZoneType::Barrier => 400,
        ZoneType::Organ => 500,
    };
    let adjusted_cost: u64 = match faction {
        Faction::ImmuneSystem => base_cost,
        Faction::Pathogen => base_cost * 6 / 5,
    };
    (adjusted_cost, adjusted_cost / 2, adjusted_cost / 10, adjusted_cost / 3)
}

/// Cost of conquering a zone of the given type: base 250 scaled by the
/// defense multiplier (Organ x3, Barrier and Lymphatic x2, else x1), split
/// `(3c, c, c/5, 2c)`.
pub open spec fn spec_conquest_cost(target_type: ZoneType) -> (u64, u64, u64, u64) {
    match target_type {
        ZoneType::Organ => (2250u64, 750u64, 150u64, 1500u64),
        ZoneType::Barrier => (1500u64, 500u64, 100u64, 1000u64),
        ZoneType::Lymphatic => (1500u64, 500u64, 100u64, 1000u64),
        _ => (750u64, 250u64, 50u64, 500u64),
    }
}

pub fn calculate_conquest_cost(source: &Zone, target: &Zone) -> (r: (u64, u64, u64, u64))
    ensures
        r == spec_conquest_cost(target.zone_type),
{
    let base_cost: u64 = 250;
    let defense_multiplier: u64 = match target.zone_type {
        ZoneType::Barrier => 2,
        ZoneType::Organ => 3,
        ZoneType::Lymphatic => 2,
        _ => 1,
    };
    let adjusted_cost = base_cost * defense_multiplier;
    (adjusted_cost * 3, adjusted_cost, adjusted_cost / 5, adjusted_cost * 2)
}

/// The zone type selected by a creation request; any index past the five
/// types is invalid.
pub open spec fn spec_zone_type_from_index(zone_type_index: u8) -> Option<ZoneType> {
    if zone_type_index == 0 {
        Some(ZoneType::Circulatory)
    } else if zone_type_index == 1 {
        Some(ZoneType::Tissue)
    } else if zone_type_index == 2 {
        Some(ZoneType::Lymphatic)
    } else if zone_type_index == 3 {
        Some(ZoneType::Barrier)
    } else if zone_type_index == 4 {
        Some(ZoneType::Organ)
    } else {
        None
    }
}

pub fn zone_type_from_index(zone_type_index: u8) -> (r: Option<ZoneType>)
    ensures
        r == spec_zone_type_from_index(zone_type_index),
{
    match zone_type_index {
        0 => Some(ZoneType::Circulatory),
        1 => Some(ZoneType::Tissue),
        2 => Some(ZoneType::Lymphatic),
        3 => Some(ZoneType::Barrier),
        4 => Some(ZoneType::Organ),
        _ => None,
    }
}

// ---------------------------------------------------------------------------
// Infection spread
// ---------------------------------------------------------------------------

/// First failing validation of an infection spread, in the order the rules
/// check them, or `Ok` when the spread may proceed.
pub open spec fn spec_infection_spread_check(p: Player, s: Zone, t: Zone) -> Result<(), ExpandZoneError> {
    let cost = spec_infection_spread_cost(t.zone_type);
    if !(p.faction is Pathogen) {
        Err(ExpandZoneError::ExpansionNotPossible)
    } else if s.owner != p.player_key {
        Err(ExpandZoneError::NotInGame)
    } else if !spec_adjacent(s.x, s.y, t.x, t.y) {
        Err(ExpandZoneError::ZoneNotAdjacent)
    } else if !p.spec_can_afford(cost.0, cost.1, cost.2, cost.3) {
        Err(ExpandZoneError::InsufficientResources)
    } else {
        Ok(())
    }
}

/// State after a successful infection spread: the cost is paid; an unclaimed
/// target becomes the player's infected tissue, an owned target instead loses
/// energy and nutrients; the infection gauge rises by 5.
pub open spec fn spec_infection_spread_effect(g0: Game, p0: Player, s: Zone, t0: Zone) -> (Game, Player, Zone) {
    let cost = spec_infection_spread_cost(t0.zone_type);
    let p_spent = p0.spec_spend(cost.0, cost.1, cost.2, cost.3);
    let p1 = if t0.owner is None {
        Player { controlled_zones: (p_spent.controlled_zones + 1) as u16, ..p_spent }
    } else {
        p_spent
    };
    let t1 = if t0.owner is None {
        Zone { owner: p0.player_key, is_controlled: true, zone_type: ZoneType::Tissue, ..t0 }
    } else {
        Zone {
            energy: spec_sat_sub32(t0.energy, 50),
            nutrients: spec_sat_sub32(t0.nutrients, 30),
            ..t0
        }
    };
    (g0.spec_update_infection_level(5), p1, t1)
}

/// Full behaviour of one infection spread over the old and new entity values.
pub open spec fn spec_infection_spread_outcome(
    g0: Game, p0: Player, s: Zone, t0: Zone,
    g1: Game, p1: Player, t1: Zone,
    r: Result<(), ExpandZoneError>,
) -> bool {
    match spec_infection_spread_check(p0, s, t0) {
        Err(e) => r == Err::<(), ExpandZoneError>(e) && g1 == g0 && p1 == p0 && t1 == t0,
        Ok(()) => r == Ok::<(), ExpandZoneError>(())
            && (g1, p1, t1) == spec_infection_spread_effect(g0, p0, s, t0),
    }
}

/// Pathogen-only expansion into an adjacent zone. Either every validation
/// passes and the whole effect is applied, or the first failure is returned
/// and nothing changes.
pub fn infection_spread_expansion(
    game: &mut Game,
    player: &mut Player,
    source_zone: &Zone,
    target_zone: &mut Zone,
) -> (r: Result<(), ExpandZoneError>)
    requires
        old(player).controlled_zones < u16::MAX,
    ensures
        spec_infection_spread_outcome(
            *old(game), *old(player), *source_zone, *old(target_zone),
            *final(game), *final(player), *final(target_zone),
            r,
        ),
{
    match player.faction {
        Faction::Pathogen => {}
        _ => {
            return Err(ExpandZoneError::ExpansionNotPossible);
        }
    }
    if !opt_key_eq(source_zone.owner, player.player_key) {
        return Err(ExpandZoneError::NotInGame);
    }
    if !is_adjacent_zone(source_zone, target_zone) {
        return Err(ExpandZoneError::ZoneNotAdjacent);
    }
    let expansion_cost = calculate_infection_spread_cost(source_zone, target_zone);
    if !player.can_afford(expansion_cost.0, expansion_cost.1, expansion_cost.2, expansion_cost.3) {
        return Err(ExpandZoneError::InsufficientResources);
    }
    let _ = player.spend_resources(expansion_cost.0, expansion_cost.1, expansion_cost.2, expansion_cost.3);
    if target_zone.owner.is_none() {
        target_zone.owner = player.player_key;
        target_zone.is_controlled = true;
        target_zone.zone_type = ZoneType::Tissue;
        player.controlled_zones = player.controlled_zones + 1;
    } else {
        target_zone.energy = sat_sub32(target_zone.energy, 50);
        target_zone.nutrients = sat_sub32(target_zone.nutrients, 30);
    }
    game.update_infection_level(5);
    Ok(())
}

// ---------------------------------------------------------------------------
// Immune response
// ---------------------------------------------------------------------------

/// First failing validation of an immune response, in the order the rules
/// check them, or `Ok` when the response may proceed.
pub open spec fn spec_immune_response_check(p: Player, s: Zone, t: Zone) -> Result<(), ExpandZoneError> {
    let cost = spec_immune_response_cost(t.zone_type);
    if !(p.faction is ImmuneSystem) {
        Err(ExpandZoneError::ExpansionNotPossible)
    } else if s.owner != p.player_key {
        Err(ExpandZoneError::NotInGame)
    } else if !spec_adjacent(s.x, s.y, t.x, t.y) {
        Err(ExpandZoneError::ZoneNotAdjacent)
    } else if !p.spec_can_afford(cost.0, cost.1, cost.2, cost.3) {
        Err(ExpandZoneError::InsufficientResources)
    } else {
        Ok(())
    }
}

/// State after a successful immune response: the cost is paid; an unclaimed
/// target becomes the player's lymphatic staging area, an owned target
/// instead gains antibodies and energy capped at 1000; the immune-response
/// gauge rises by 5.
pub open spec fn spec_immune_response_effect(g0: Game, p0: Player, s: Zone, t0: Zone) -> (Game, Player, Zone) {
    let cost = spec_immune_response_cost(t0.zone_type);
    let p_spent = p0.spec_spend(cost.0, cost.1, cost.2, cost.3);
    let p1 = if t0.owner is None {
        Player { controlled_zones: (p_spent.controlled_zones + 1) as u16, ..p_spent }
    } else {
        p_spent
    };
    let t1 = if t0.owner is None {
        Zone { owner: p0.player_key, is_controlled: true, zone_type: ZoneType::Lymphatic, ..t0 }
    } else {
        Zone {
            antibodies: spec_cap_add32(t0.antibodies, 100, 1000),
            energy: spec_cap_add32(t0.energy, 50, 1000),
            ..t0
        }
    };
    (g0.spec_update_immune_response_level(5), p1, t1)
}

/// Full behaviour of one immune response over the old and new entity values.
pub open spec fn spec_immune_response_outcome(
    g0: Game, p0: Player, s: Zone, t0: Zone,
    g1: Game, p1: Player, t1: Zone,
    r: Result<(), ExpandZoneError>,
) -> bool {
    match spec_immune_response_check(p0, s, t0) {
        Err(e) => r == Err::<(), ExpandZoneError>(e) && g1 == g0 && p1 == p0 && t1 == t0,
        Ok(()) => r == Ok::<(), ExpandZoneError>(())
            && (g1, p1, t1) == spec_immune_response_effect(g0, p0, s, t0),
    }
}

/// Immune-system-only expansion into an adjacent zone. Either every
/// validation passes and the whole effect is applied, or the first failure is
/// returned and nothing changes.
pub fn immune_response_expansion(
    game: &mut Game,
    player: &mut Player,
    source_zone: &Zone,
    target_zone: &mut Zone,
) -> (r: Result<(), ExpandZoneError>)
    requires
        old(player).controlled_zones < u16::MAX,
    ensures
        spec_immune_response_outcome(
            *old(game), *old(player), *source_zone, *old(target_zone),
            *final(game), *final(player), *final(target_zone),
            r,
        ),
{
    match player.faction {
        Faction::ImmuneSystem => {}
        _ => {
            return Err(ExpandZoneError::ExpansionNotPossible);
        }
    }
    if !opt_key_eq(source_zone.owner, player.player_key) {
        return Err(ExpandZoneError::NotInGame);
    }
    if !is_adjacent_zone(source_zone, target_zone) {
        return Err(ExpandZoneError::ZoneNotAdjacent);
    }
    let expansion_cost = calculate_immune_response_cost(source_zone, target_zone);
    if !player.can_afford(expansion_cost.0, expansion_cost.1, expansion_cost.2, expansion_cost.3) {
        return Err(ExpandZoneError::InsufficientResources);
    }
    let _ = player.spend_resources(expansion_cost.0, expansion_cost.1, expansion_cost.2, expansion_cost.3);
    if target_zone.owner.is_none() {
        target_zone.owner = player.player_key;
        target_zone.is_controlled = true;
        target_zone.zone_type = ZoneType::Lymphatic;
        player.controlled_zones = player.controlled_zones + 1;
    } else {
        target_zone.antibodies = cap_add32(target_zone.antibodies, 100, 1000);
        target_zone.energy = cap_add32(target_zone.energy, 50, 1000);
    }
    game.update_immune_response_level(5);
    Ok(())
}

// ---------------------------------------------------------------------------
// Zone creation
// ---------------------------------------------------------------------------

/// First failing validation of a zone creation, in the order the rules check
/// them, or the selected zone type when the creation may proceed.
pub open spec fn spec_create_new_zone_check(g: Game, p: Player, t: Zone, zone_type_index: u8) -> Result<ZoneType, ExpandZoneError> {
    if g.total_zones >= 64 {
        Err(ExpandZoneError::MaxZonesReached)
    } else if !(t.owner is None) {
        Err(ExpandZoneError::ZoneAlreadyControlled)
    } else {
        match spec_zone_type_from_index(zone_type_index) {
            None => Err(ExpandZoneError::InvalidZoneType),
            Some(zone_type) => {
                let cost = spec_zone_creation_cost(zone_type, p.faction);
                if !p.spec_can_afford(cost.0, cost.1, cost.2, cost.3) {
                    Err(ExpandZoneError::InsufficientResources)
                } else {
                    Ok(zone_type)
                }
            }
        }
    }
}

/// State after a successful creation: the cost is paid; the target takes the
/// next sequential id, the selected type, the creator as owner, border and
/// controlled flags, and five turns' worth of its type's yield; the zone
/// counter and the player's controlled count rise by one.
pub open spec fn spec_create_new_zone_effect(g0: Game, p0: Player, t0: Zone, zone_type: ZoneType) -> (Game, Player, Zone) {
    let cost = spec_zone_creation_cost(zone_type, p0.faction);
    let p_spent = p0.spec_spend(cost.0, cost.1, cost.2, cost.3);
    let p1 = Player { controlled_zones: (p_spent.controlled_zones + 1) as u16, ..p_spent };
    let gen = zone_type.spec_resource_generation();
    let t1 = Zone {
        zone_id: g0.total_zones,
        zone_type,
        owner: p0.player_key,
        is_controlled: true,
        is_border_zone: true,
        energy: (gen.0 * 5) as u32,
        antibodies: (gen.1 * 5) as u32,
        stem_cells: (gen.2 * 5) as u32,
        nutrients: (gen.3 * 5) as u32,
        ..t0
    };
    let g1 = Game { total_zones: (g0.total_zones + 1) as u32, ..g0 };
    (g1, p1, t1)
}

/// Full behaviour of one zone creation over the old and new entity values.
pub open spec fn spec_create_new_zone_outcome(
    g0: Game, p0: Player, t0: Zone, zone_type_index: u8,
    g1: Game, p1: Player, t1: Zone,
    r: Result<(), ExpandZoneError>,
) -> bool {
    match spec_create_new_zone_check(g0, p0, t0, zone_type_index) {
        Err(e) => r == Err::<(), ExpandZoneError>(e) && g1 == g0 && p1 == p0 && t1 == t0,
        Ok(zone_type) => r == Ok::<(), ExpandZoneError>(())
            && (g1, p1, t1) == spec_create_new_zone_effect(g0, p0, t0, zone_type),
    }
}

/// Activates one of the pre-allocated zones for the acting player. Either
/// every validation passes and the whole effect is applied, or the first
/// failure is returned and nothing changes.
pub fn create_new_zone(
    game: &mut Game,
    player: &mut Player,
    target_zone: &mut Zone,
    zone_type_index: u8,
) -> (r: Result<(), ExpandZoneError>)
    requires
        old(player).controlled_zones < u16::MAX,
    ensures
        spec_create_new_zone_outcome(
            *old(game), *old(player), *old(target_zone), zone_type_index,
            *final(game), *final(player), *final(target_zone),
            r,
        ),
{
    if game.total_zones >= 64 {
        return Err(ExpandZoneError::MaxZonesReached);
    }
    if target_zone.owner.is_some() {
        return Err(ExpandZoneError::ZoneAlreadyControlled);
    }
    let zone_type = match zone_type_from_index(zone_type_index) {
        Some(zone_type) => zone_type,
        None => {
            return Err(ExpandZoneError::InvalidZoneType);
        }
    };
    let creation_cost = calculate_zone_creation_cost(&zone_type, player.faction);
    if !player.can_afford(creation_cost.0, creation_cost.1, creation_cost.2, creation_cost.3) {
        return Err(ExpandZoneError::InsufficientResources);
    }
    let _ = player.spend_resources(creation_cost.0, creation_cost.1, creation_cost.2, creation_cost.3);
    target_zone.zone_id = game.total_zones;
    target_zone.zone_type = zone_type;
    target_zone.owner = player.player_key;
    target_zone.is_controlled = true;
    target_zone.is_border_zone = true;
    let (energy, antibodies, stem_cells, nutrients) = zone_type.get_resource_generation();
    target_zone.energy = energy * 5;
    target_zone.antibodies = antibodies * 5;
    target_zone.stem_cells = stem_cells * 5;
    target_zone.nutrients = nutrients * 5;
    game.total_zones = game.total_zones + 1;
    player.controlled_zones = player.controlled_zones + 1;
    Ok(())
}

/// Law: once the zone counter has reached the map capacity, creation fails
/// with the capacity error whatever the player could afford.
pub proof fn lemma_create_new_zone_at_capacity(g: Game, p: Player, t: Zone, zone_type_index: u8)
    requires
        g.total_zones >= 64,
    ensures
        spec_create_new_zone_check(g, p, t, zone_type_index)
            == Err::<ZoneType, ExpandZoneError>(ExpandZoneError::MaxZonesReached),
{
}

// ---------------------------------------------------------------------------
// Conquest
// ---------------------------------------------------------------------------

/// First failing validation of a conquest, in the order the rules check them,
/// or `Ok` when the conquest may proceed.
pub open spec fn spec_conquer_zone_check(p: Player, s: Zone, t: Zone) -> Result<(), ExpandZoneError> {
    let cost = spec_conquest_cost(t.zone_type);
    if s.owner != p.player_key {
        Err(ExpandZoneError::NotInGame)
    } else if !(t.owner is Some && t.owner != p.player_key) {
        Err(ExpandZoneError::ZoneAlreadyControlled)
    } else if !spec_adjacent(s.x, s.y, t.x, t.y) {
        Err(ExpandZoneError::ZoneNotAdjacent)
    } else if !p.spec_can_afford(cost.0, cost.1, cost.2, cost.3) {
        Err(ExpandZoneError::InsufficientResources)
    } else {
        Ok(())
    }
}

/// State after a successful conquest: the cost is paid; ownership transfers,
/// the target's energy, nutrients and unit count are halved by battle
/// attrition, and the acting faction's pressure gauge rises by 3.
pub open spec fn spec_conquer_zone_effect(g0: Game, p0: Player, s: Zone, t0: Zone) -> (Game, Player, Zone) {
    let cost = spec_conquest_cost(t0.zone_type);
    let p_spent = p0.spec_spend(cost.0, cost.1, cost.2, cost.3);
    let p1 = Player { controlled_zones: (p_spent.controlled_zones + 1) as u16, ..p_spent };
    let t1 = Zone {
        owner: p0.player_key,
        is_controlled: true,
        energy: (t0.energy / 2) as u32,
        nutrients: (t0.nutrients / 2) as u32,
        unit_count: (t0.unit_count / 2) as u16,
        ..t0
    };
    let g1 = match p0.faction {
        Faction::Pathogen => g0.spec_update_infection_level(3),
        Faction::ImmuneSystem => g0.spec_update_immune_response_level(3),
    };
    (g1, p1, t1)
}

/// Full behaviour of one conquest over the old and new entity values.
pub open spec fn spec_conquer_zone_outcome(
    g0: Game, p0: Player, s: Zone, t0: Zone,
    g1: Game, p1: Player, t1: Zone,
    r: Result<(), ExpandZoneError>,
) -> bool {
    match spec_conquer_zone_check(p0, s, t0) {
        Err(e) => r == Err::<(), ExpandZoneError>(e) && g1 == g0 && p1 == p0 && t1 == t0,
        Ok(()) => r == Ok::<(), ExpandZoneError>(())
            && (g1, p1, t1) == spec_conquer_zone_effect(g0, p0, s, t0),
    }
}

/// Takes control of an adjacent enemy zone. Either every validation passes
/// and the whole effect is applied, or the first failure is returned and
/// nothing changes.
pub fn conquer_zone(
    game: &mut Game,
    player: &mut Player,
    source_zone: &Zone,
    target_zone: &mut Zone,
) -> (r: Result<(), ExpandZoneError>)
    requires
        old(player).controlled_zones < u16::MAX,
    ensures
        spec_conquer_zone_outcome(
            *old(game), *old(player), *source_zone, *old(target_zone),
            *final(game), *final(player), *final(target_zone),
            r,
        ),
{
    if !opt_key_eq(source_zone.owner, player.player_key) {
        return Err(ExpandZoneError::NotInGame);
    }
    let target_owned_by_enemy = match target_zone.owner {
        Some(_) => !opt_key_eq(target_zone.owner, player.player_key),
        None => false,
    };
    if !target_owned_by_enemy {
        return Err(ExpandZoneError::ZoneAlreadyControlled);
    }
    if !is_adjacent_zone(source_zone, target_zone) {
        return Err(ExpandZoneError::ZoneNotAdjacent);
    }
    let conquest_cost = calculate_conquest_cost(source_zone, target_zone);
    if !player.can_afford(conquest_cost.0, conquest_cost.1, conquest_cost.2, conquest_cost.3) {
        return Err(ExpandZoneError::InsufficientResources);
    }
    let _ = player.spend_resources(conquest_cost.0, conquest_cost.1, conquest_cost.2, conquest_cost.3);
    target_zone.owner = player.player_key;
    target_zone.is_controlled = true;
    player.controlled_zones = player.controlled_zones + 1;
    target_zone.energy = target_zone.energy / 2;
    target_zone.nutrients = target_zone.nutrients / 2;
    target_zone.unit_count = target_zone.unit_count / 2;
    match player.faction {
        Faction::Pathogen => game.update_infection_level(3),
        Faction::ImmuneSystem => game.update_immune_response_level(3),
    }
    Ok(())
}

// ---------------------------------------------------------------------------
// Entry point
// ---------------------------------------------------------------------------

/// First failing authorization check for an expansion, in the order the turn
/// controller applies them.
pub open spec fn spec_expand_auth_check(g: Game, p: Player, authority: u64) -> Result<(), ExpandZoneError> {
    if !g.spec_is_player_turn(authority) {
        Err(ExpandZoneError::NotPlayersTurn)
    } else if !(g.game_state is Active) {
        Err(ExpandZoneError::NotActive)
    } else if p.player_key != Some(authority) {
        Err(ExpandZoneError::NotInGame)
    } else {
        Ok(())
    }
}

/// Runs one expansion for the acting identity: authorizes the turn, then
/// dispatches on the expansion type. A failure anywhere leaves every entity
/// exactly as it was.
pub fn execute(c: &mut Components, authority: u64, expansion_type: ExpansionType, new_zone_type: u8) -> (r: Result<(), ExpandZoneError>)
    requires
        old(c).player.controlled_zones < u16::MAX,
    ensures
        final(c).source_zone == old(c).source_zone,
        r is Err ==> *final(c) == *old(c),
        old(c).game.wf() ==> final(c).game.wf(),
        old(c).player.wf() ==> final(c).player.wf(),
        old(c).target_zone.wf() ==> final(c).target_zone.wf(),
        match spec_expand_auth_check(old(c).game, old(c).player, authority) {
            Err(e) => r == Err::<(), ExpandZoneError>(e) && *final(c) == *old(c),
            Ok(()) => match expansion_type {
                ExpansionType::InfectionSpread => spec_infection_spread_outcome(
                    old(c).game, old(c).player, old(c).source_zone, old(c).target_zone,
                    final(c).game, final(c).player, final(c).target_zone,
                    r,
                ),
                ExpansionType::ImmuneResponse => spec_immune_response_outcome(
                    old(c).game, old(c).player, old(c).source_zone, old(c).target_zone,
                    final(c).game, final(c).player, final(c).target_zone,
                    r,
                ),
                ExpansionType::CreateNewZone => spec_create_new_zone_outcome(
                    old(c).game, old(c).player, old(c).target_zone, new_zone_type,
                    final(c).game, final(c).player, final(c).target_zone,
                    r,
                ),
                ExpansionType::ConquerZone => spec_conquer_zone_outcome(
                    old(c).game, old(c).player, old(c).source_zone, old(c).target_zone,
                    final(c).game, final(c).player, final(c).target_zone,
                    r,
                ),
            },
        },
{
    if !c.game.is_player_turn(authority) {
        return Err(ExpandZoneError::NotPlayersTurn);
    }
    if !c.game.is_game_active() {
        return Err(ExpandZoneError::NotActive);
    }
    if !opt_key_eq(c.player.player_key, Some(authority)) {
        return Err(ExpandZoneError::NotInGame);
    }
    match expansion_type {
        ExpansionType::InfectionSpread => {
            infection_spread_expansion(&mut c.game, &mut c.player, &c.source_zone, &mut c.target_zone)
        }
        ExpansionType::ImmuneResponse => {
            immune_response_expansion(&mut c.game, &mut c.player, &c.source_zone, &mut c.target_zone)
        }
        ExpansionType::CreateNewZone => {
            create_new_zone(&mut c.game, &mut c.player, &mut c.target_zone, new_zone_type)
        }
        ExpansionType::ConquerZone => {
            conquer_zone(&mut c.game, &mut c.player, &c.source_zone, &mut c.target_zone)
        }
    }
}

// ---------------------------------------------------------------------------
// Laws about affordability
// ---------------------------------------------------------------------------

/// Law: a pathogen that cannot afford the infection-spread cost is refused.
pub proof fn lemma_infection_spread_unaffordable(p: Player, s: Zone, t: Zone)
    requires
        !p.spec_can_afford(
            spec_infection_spread_cost(t.zone_type).0,
            spec_infection_spread_cost(t.zone_type).1,
            spec_infection_spread_cost(t.zone_type).2,
            spec_infection_spread_cost(t.zone_type).3,
        ),
    ensures
        spec_infection_spread_check(p, s, t) is Err,
{
}

/// Law: an immune system that cannot afford the immune-response cost is
/// refused.
pub proof fn lemma_immune_response_unaffordable(p: Player, s: Zone, t: Zone)
    requires
        !p.spec_can_afford(
            spec_immune_response_cost(t.zone_type).0,
            spec_immune_response_cost(t.zone_type).1,
            spec_immune_response_cost(t.zone_type).2,
            spec_immune_response_cost(t.zone_type).3,
        ),
    ensures
        spec_immune_response_check(p, s, t) is Err,
{
}

/// Law: a creator that cannot afford the creation cost of the selected zone
/// type is refused.
pub proof fn lemma_create_new_zone_unaffordable(g: Game, p: Player, t: Zone, zone_type_index: u8, zone_type: ZoneType)
    requires
        spec_zone_type_from_index(zone_type_index) == Some(zone_type),
        !p.spec_can_afford(
            spec_zone_creation_cost(zone_type, p.faction).0,
            spec_zone_creation_cost(zone_type, p.faction).1,
            spec_zone_creation_cost(zone_type, p.faction).2,
            spec_zone_creation_cost(zone_type, p.faction).3,
        ),
    ensures
        spec_create_new_zone_check(g, p, t, zone_type_index) is Err,
{
}

/// Law: a conqueror that cannot afford the conquest cost is refused.
pub proof fn lemma_conquer_zone_unaffordable(p: Player, s: Zone, t: Zone)
    requires
        !p.spec_can_afford(
            spec_conquest_cost(t.zone_type).0,
            spec_conquest_cost(t.zone_type).1,
            spec_conquest_cost(t.zone_type).2,
            spec_conquest_cost(t.zone_type).3,
        ),
    ensures
        spec_conquer_zone_check(p, s, t) is Err,
{
}

} // verus!
