use bio_commander::game::{Game, GameState, GameWinner};
use bio_commander::grid::{CellContent, Zone, ZoneType};
use bio_commander::play::{
    calculate_spawn_cost, check_win_conditions, execute, ActionType, BioCommanderError, Components,
};
use bio_commander::players::{Faction, Player};
use bio_commander::unit::{SpecialAbility, Unit, UnitType};

const KEY_A: u64 = 11;
const KEY_B: u64 = 22;

fn active_game() -> Game {
    let mut g = Game::default();
    g.player1 = Some(KEY_A);
    g.player2 = Some(KEY_B);
    g.game_state = GameState::Active;
    g.current_turn = 1;
    g
}

fn seated_player(key: u64, faction: Faction) -> Player {
    let mut p = Player::default();
    p.player_key = Some(key);
    p.faction = faction;
    p
}

fn owned_zone(owner: Option<u64>) -> Zone {
    let mut z = Zone::default();
    z.owner = owner;
    z
}

fn bundle(zone: Zone, unit: Option<Unit>) -> Components {
    Components {
        game: active_game(),
        player: seated_player(KEY_A, Faction::ImmuneSystem),
        zone,
        unit,
    }
}

fn occupied_cells(z: &Zone) -> usize {
    z.grid.iter().filter(|c| c.is_some()).count()
}

#[test]
fn spawn_cost_lymphatic_tcell_exact_truncation() {
    assert_eq!(calculate_spawn_cost(&UnitType::TCell, &ZoneType::Lymphatic), (16, 8, 1, 5));
}

#[test]
fn spawn_cost_tables() {
    assert_eq!(calculate_spawn_cost(&UnitType::TCell, &ZoneType::Tissue), (20, 10, 2, 6));
    assert_eq!(calculate_spawn_cost(&UnitType::TCell, &ZoneType::Barrier), (30, 15, 3, 10));
    assert_eq!(calculate_spawn_cost(&UnitType::Virus, &ZoneType::Tissue), (20, 0, 0, 10));
    assert_eq!(calculate_spawn_cost(&UnitType::Virus, &ZoneType::Barrier), (30, 0, 0, 15));
    assert_eq!(calculate_spawn_cost(&UnitType::Virus, &ZoneType::Lymphatic), (16, 0, 0, 8));
    assert_eq!(calculate_spawn_cost(&UnitType::NaturalKillerCell, &ZoneType::Barrier), (60, 30, 6, 20));
}

#[test]
fn spawn_tcell_in_lymphatic_zone() {
    let mut zone = owned_zone(Some(KEY_A));
    zone.zone_type = ZoneType::Lymphatic;
    zone.zone_id = 3;
    zone.unit_count = 2;
    let mut c = bundle(zone, None);
    let r = execute(&mut c, KEY_A, ActionType::SpawnUnit, 4, 5, 0, 0);
    assert_eq!(r, Ok(()));
    assert_eq!(c.player.energy_reserves, 1000 - 16);
    assert_eq!(c.player.antibody_reserves, 500 - 8);
    assert_eq!(c.player.stem_cell_reserves, 100 - 1);
    assert_eq!(c.player.nutrient_reserves, 750 - 5);
    assert_eq!(c.zone.cell(4, 5), Some(CellContent::ImmuneCell { unit_id: 3002, health: 80 }));
    assert_eq!(c.zone.unit_count, 3);
    assert_eq!(c.player.total_units, 1);
}

#[test]
fn spawn_pathogen_writes_pathogen_cell() {
    let mut c = bundle(owned_zone(Some(KEY_A)), None);
    c.player.faction = Faction::Pathogen;
    let r = execute(&mut c, KEY_A, ActionType::SpawnUnit, 0, 0, 6, 0);
    assert_eq!(r, Ok(()));
    assert_eq!(c.zone.cell(0, 0), Some(CellContent::Pathogen { unit_id: 0, health: 40 }));
}

#[test]
fn spawn_rejects_out_of_bounds() {
    let mut c = bundle(owned_zone(Some(KEY_A)), None);
    let before = c.clone();
    let r = execute(&mut c, KEY_A, ActionType::SpawnUnit, 16, 0, 0, 0);
    assert_eq!(r, Err(BioCommanderError::PositionOutOfBounds));
    assert_eq!(c, before);
}

#[test]
fn spawn_rejects_occupied_cell() {
    let mut zone = owned_zone(Some(KEY_A));
    zone.set_cell(4, 5, Some(CellContent::Obstacle));
    let mut c = bundle(zone, None);
    let before = c.clone();
    let r = execute(&mut c, KEY_A, ActionType::SpawnUnit, 4, 5, 0, 0);
    assert_eq!(r, Err(BioCommanderError::PositionOccupied));
    assert_eq!(c, before);
}

#[test]
fn spawn_rejects_foreign_zone() {
    let mut c = bundle(owned_zone(Some(KEY_B)), None);
    let before = c.clone();
    let r = execute(&mut c, KEY_A, ActionType::SpawnUnit, 4, 5, 0, 0);
    assert_eq!(r, Err(BioCommanderError::ZoneNotControlled));
    assert_eq!(c, before);
}

#[test]
fn spawn_rejects_locked_unit_type() {
    let mut c = bundle(owned_zone(Some(KEY_A)), None);
    let before = c.clone();
    let r = execute(&mut c, KEY_A, ActionType::SpawnUnit, 4, 5, 3, 0);
    assert_eq!(r, Err(BioCommanderError::UnitTypeNotUnlocked));
    assert_eq!(c, before);
}

#[test]
fn spawn_unaffordable_changes_nothing() {
    let mut c = bundle(owned_zone(Some(KEY_A)), None);
    c.player.energy_reserves = 19;
    let before = c.clone();
    let r = execute(&mut c, KEY_A, ActionType::SpawnUnit, 4, 5, 0, 0);
    assert_eq!(r, Err(BioCommanderError::InsufficientResources));
    assert_eq!(c, before);
}

fn placed_unit(x: u8, y: u8) -> Unit {
    let mut u = Unit::default();
    u.unit_id = 5;
    u.x = x;
    u.y = y;
    u
}

fn zone_with_unit_cell(x: u8, y: u8) -> Zone {
    let mut z = owned_zone(Some(KEY_A));
    z.set_cell(x, y, Some(CellContent::ImmuneCell { unit_id: 5, health: 80 }));
    z.unit_count = 1;
    z
}

#[test]
fn move_unit_updates_cell_and_record() {
    let zone = zone_with_unit_cell(2, 2);
    let mut c = bundle(zone, Some(placed_unit(2, 2)));
    let r = execute(&mut c, KEY_A, ActionType::MoveUnit, 3, 2, 0, 0);
    assert_eq!(r, Ok(()));
    assert_eq!(c.zone.cell(2, 2), None);
    assert_eq!(c.zone.cell(3, 2), Some(CellContent::ImmuneCell { unit_id: 5, health: 80 }));
    let u = c.unit.as_ref().unwrap();
    assert_eq!((u.x, u.y), (3, 2));
    assert_eq!(occupied_cells(&c.zone), 1);
}

#[test]
fn move_unit_round_trip_restores_everything() {
    let zone = zone_with_unit_cell(2, 2);
    let original_zone = zone.clone();
    let original_unit = placed_unit(2, 2);
    let mut c = bundle(zone, Some(original_unit.clone()));
    assert_eq!(execute(&mut c, KEY_A, ActionType::MoveUnit, 4, 3, 0, 0), Ok(()));
    assert_eq!(execute(&mut c, KEY_A, ActionType::MoveUnit, 2, 2, 0, 0), Ok(()));
    assert_eq!(c.unit.as_ref().unwrap(), &original_unit);
    assert_eq!(c.zone, original_zone);
    assert_eq!(occupied_cells(&c.zone), 1);
    assert_eq!(c.zone.cell(2, 2), Some(CellContent::ImmuneCell { unit_id: 5, health: 80 }));
}

#[test]
fn move_unit_rejects_out_of_range() {
    let zone = zone_with_unit_cell(2, 2);
    let mut c = bundle(zone, Some(placed_unit(2, 2)));
    let before = c.clone();
    let r = execute(&mut c, KEY_A, ActionType::MoveUnit, 6, 2, 0, 0);
    assert_eq!(r, Err(BioCommanderError::InvalidMove));
    assert_eq!(c, before);
}

#[test]
fn move_unit_rejects_occupied_destination() {
    let mut zone = zone_with_unit_cell(2, 2);
    zone.set_cell(3, 2, Some(CellContent::Obstacle));
    let mut c = bundle(zone, Some(placed_unit(2, 2)));
    let before = c.clone();
    let r = execute(&mut c, KEY_A, ActionType::MoveUnit, 3, 2, 0, 0);
    assert_eq!(r, Err(BioCommanderError::PositionOccupied));
    assert_eq!(c, before);
}

#[test]
fn move_unit_rejects_out_of_bounds() {
    let zone = zone_with_unit_cell(2, 2);
    let mut c = bundle(zone, Some(placed_unit(2, 2)));
    let before = c.clone();
    let r = execute(&mut c, KEY_A, ActionType::MoveUnit, 2, 16, 0, 0);
    assert_eq!(r, Err(BioCommanderError::PositionOutOfBounds));
    assert_eq!(c, before);
}

#[test]
fn move_without_unit_record_is_a_quiet_no_op() {
    let zone = zone_with_unit_cell(2, 2);
    let mut c = bundle(zone, None);
    let before = c.clone();
    let r = execute(&mut c, KEY_A, ActionType::MoveUnit, 3, 2, 0, 0);
    assert_eq!(r, Ok(()));
    assert_eq!(c, before);
}

#[test]
fn attack_deals_attack_minus_defense_bonus() {
    // Tissue zone: defense bonus 2; T-cell attack 15 -> 13 damage.
    let mut zone = owned_zone(Some(KEY_A));
    zone.set_cell(9, 9, Some(CellContent::Pathogen { unit_id: 7, health: 40 }));
    zone.unit_count = 1;
    let mut c = bundle(zone, Some(placed_unit(2, 2)));
    let r = execute(&mut c, KEY_A, ActionType::AttackPosition, 9, 9, 0, 0);
    assert_eq!(r, Ok(()));
    assert_eq!(c.zone.cell(9, 9), Some(CellContent::Pathogen { unit_id: 7, health: 27 }));
    assert_eq!(c.zone.unit_count, 1);
}

#[test]
fn attack_into_high_defense_deals_zero_damage() {
    // Barrier zone: defense bonus 5 is above the attacker's attack stat of 3,
    // so the saturating damage is 0 and the defender's health is unchanged.
    let mut zone = owned_zone(Some(KEY_A));
    zone.zone_type = ZoneType::Barrier;
    zone.set_cell(9, 9, Some(CellContent::Pathogen { unit_id: 7, health: 40 }));
    zone.unit_count = 1;
    let mut unit = placed_unit(2, 2);
    unit.attack = 3;
    let mut c = bundle(zone, Some(unit));
    let before = c.clone();
    let r = execute(&mut c, KEY_A, ActionType::AttackPosition, 9, 9, 0, 0);
    assert_eq!(r, Ok(()));
    assert_eq!(c, before);
}

#[test]
fn attack_kill_clears_cell_and_counter() {
    let mut zone = owned_zone(Some(KEY_A));
    zone.set_cell(9, 9, Some(CellContent::Pathogen { unit_id: 7, health: 10 }));
    zone.unit_count = 2;
    let mut c = bundle(zone, Some(placed_unit(2, 2)));
    let r = execute(&mut c, KEY_A, ActionType::AttackPosition, 9, 9, 0, 0);
    assert_eq!(r, Ok(()));
    assert_eq!(c.zone.cell(9, 9), None);
    assert_eq!(c.zone.unit_count, 1);
}

#[test]
fn attack_empty_cell_is_a_quiet_no_op() {
    let zone = owned_zone(Some(KEY_A));
    let mut c = bundle(zone, Some(placed_unit(2, 2)));
    let before = c.clone();
    let r = execute(&mut c, KEY_A, ActionType::AttackPosition, 9, 9, 0, 0);
    assert_eq!(r, Ok(()));
    assert_eq!(c, before);
}

#[test]
fn attack_resource_cell_is_invalid() {
    let mut zone = owned_zone(Some(KEY_A));
    zone.set_cell(
        9,
        9,
        Some(CellContent::Resource {
            resource_type: bio_commander::grid::ResourceType::Energy,
            amount: 5,
        }),
    );
    let mut c = bundle(zone, Some(placed_unit(2, 2)));
    let before = c.clone();
    let r = execute(&mut c, KEY_A, ActionType::AttackPosition, 9, 9, 0, 0);
    assert_eq!(r, Err(BioCommanderError::InvalidAction));
    assert_eq!(c, before);
}

#[test]
fn attack_out_of_bounds_is_rejected() {
    let zone = owned_zone(Some(KEY_A));
    let mut c = bundle(zone, Some(placed_unit(2, 2)));
    let before = c.clone();
    let r = execute(&mut c, KEY_A, ActionType::AttackPosition, 16, 0, 0, 0);
    assert_eq!(r, Err(BioCommanderError::PositionOutOfBounds));
    assert_eq!(c, before);
}

fn unit_with_ability(slot0: Option<SpecialAbility>) -> Unit {
    let mut u = placed_unit(2, 2);
    u.special_abilities = vec![slot0, None, None];
    u
}

#[test]
fn ability_antibody_production_grants_antibodies() {
    let zone = owned_zone(Some(KEY_A));
    let mut c = bundle(zone, Some(unit_with_ability(Some(SpecialAbility::AntibodyProduction))));
    let r = execute(&mut c, KEY_A, ActionType::UseSpecialAbility, 0, 0, 0, 0);
    assert_eq!(r, Ok(()));
    assert_eq!(c.player.antibody_reserves, 550);
}

#[test]
fn ability_phagocytosis_heals_up_to_max() {
    let zone = owned_zone(Some(KEY_A));
    let mut u = unit_with_ability(Some(SpecialAbility::Phagocytosis));
    u.health = 70;
    u.max_health = 80;
    let mut c = bundle(zone, Some(u));
    let r = execute(&mut c, KEY_A, ActionType::UseSpecialAbility, 0, 0, 0, 0);
    assert_eq!(r, Ok(()));
    assert_eq!(c.unit.as_ref().unwrap().health, 80);
    assert_eq!(c.player.energy_reserves, 1010);
    assert_eq!(c.player.nutrient_reserves, 755);
}

#[test]
fn ability_replication_raises_both_counters() {
    let zone = owned_zone(Some(KEY_A));
    let mut c = bundle(zone, Some(unit_with_ability(Some(SpecialAbility::Replication))));
    let r = execute(&mut c, KEY_A, ActionType::UseSpecialAbility, 0, 0, 0, 0);
    assert_eq!(r, Ok(()));
    assert_eq!(c.zone.unit_count, 1);
    assert_eq!(c.player.total_units, 1);
}

#[test]
fn ability_zone_healing_caps_at_thousand() {
    let mut zone = owned_zone(Some(KEY_A));
    zone.energy = 980;
    zone.nutrients = 100;
    let mut c = bundle(zone, Some(unit_with_ability(Some(SpecialAbility::ZoneHealing))));
    let r = execute(&mut c, KEY_A, ActionType::UseSpecialAbility, 0, 0, 0, 0);
    assert_eq!(r, Ok(()));
    assert_eq!(c.zone.energy, 1000);
    assert_eq!(c.zone.nutrients, 130);
}

#[test]
fn ability_without_effect_is_a_no_op() {
    let zone = owned_zone(Some(KEY_A));
    let mut c = bundle(zone, Some(unit_with_ability(Some(SpecialAbility::Mutation))));
    let before = c.clone();
    let r = execute(&mut c, KEY_A, ActionType::UseSpecialAbility, 0, 0, 0, 0);
    assert_eq!(r, Ok(()));
    assert_eq!(c, before);
}

#[test]
fn ability_out_of_range_slot_is_a_no_op() {
    let zone = owned_zone(Some(KEY_A));
    let mut c = bundle(zone, Some(unit_with_ability(Some(SpecialAbility::AntibodyProduction))));
    let before = c.clone();
    let r = execute(&mut c, KEY_A, ActionType::UseSpecialAbility, 0, 0, 0, 7);
    assert_eq!(r, Ok(()));
    assert_eq!(c, before);
}

#[test]
fn end_turn_on_owned_zone_produces_resources() {
    // Tissue yield is (5, 15, 1, 10) per turn.
    let mut zone = owned_zone(Some(KEY_A));
    zone.energy = 998;
    zone.stem_cells = 100;
    let mut c = bundle(zone, None);
    let r = execute(&mut c, KEY_A, ActionType::EndTurn, 0, 0, 0, 0);
    assert_eq!(r, Ok(()));
    assert_eq!(c.player.energy_reserves, 1005);
    assert_eq!(c.player.antibody_reserves, 515);
    assert_eq!(c.player.stem_cell_reserves, 101);
    assert_eq!(c.player.nutrient_reserves, 760);
    assert_eq!(c.zone.energy, 1000);
    assert_eq!(c.zone.antibodies, 65);
    assert_eq!(c.zone.stem_cells, 100);
    assert_eq!(c.zone.nutrients, 85);
    assert_eq!(c.game.current_turn, 2);
    assert_eq!(c.game.turn_number, 1);
}

#[test]
fn end_turn_on_foreign_zone_still_switches_turn() {
    let zone = owned_zone(Some(KEY_B));
    let mut c = bundle(zone, None);
    let zone_before = c.zone.clone();
    let player_before = c.player.clone();
    let r = execute(&mut c, KEY_A, ActionType::EndTurn, 0, 0, 0, 0);
    assert_eq!(r, Ok(()));
    assert_eq!(c.zone, zone_before);
    assert_eq!(c.player, player_before);
    assert_eq!(c.game.current_turn, 2);
    assert_eq!(c.game.turn_number, 1);
}

#[test]
fn win_at_three_quarters_of_sixteen_zones() {
    let mut game = active_game();
    game.total_zones = 16;
    let mut player = seated_player(KEY_A, Faction::ImmuneSystem);
    player.player_id = 1;
    player.controlled_zones = 12;
    let r = check_win_conditions(&mut game, &player);
    assert_eq!(r, Ok(()));
    assert_eq!(game.game_state, GameState::Finished { winner: GameWinner::Player1 });
    assert_eq!(game.winner, Some(KEY_A));
}

#[test]
fn no_win_one_zone_short() {
    let mut game = active_game();
    game.total_zones = 16;
    let mut player = seated_player(KEY_A, Faction::ImmuneSystem);
    player.player_id = 1;
    player.controlled_zones = 11;
    let before = game.clone();
    let r = check_win_conditions(&mut game, &player);
    assert_eq!(r, Ok(()));
    assert_eq!(game, before);
}

#[test]
fn win_evaluator_runs_after_actions() {
    let mut zone = owned_zone(Some(KEY_A));
    zone.zone_type = ZoneType::Lymphatic;
    let mut c = bundle(zone, None);
    c.game.total_zones = 16;
    c.player.player_id = 2;
    c.player.player_key = Some(KEY_B);
    c.player.controlled_zones = 12;
    c.game.current_turn = 2;
    let r = execute(&mut c, KEY_B, ActionType::EndTurn, 0, 0, 0, 0);
    assert_eq!(r, Ok(()));
    assert_eq!(c.game.game_state, GameState::Finished { winner: GameWinner::Player2 });
    assert_eq!(c.game.winner, Some(KEY_B));
}

#[test]
fn play_rejects_wrong_turn() {
    let mut c = bundle(owned_zone(Some(KEY_A)), None);
    let before = c.clone();
    let r = execute(&mut c, KEY_B, ActionType::EndTurn, 0, 0, 0, 0);
    assert_eq!(r, Err(BioCommanderError::NotPlayersTurn));
    assert_eq!(c, before);
}

#[test]
fn play_rejects_inactive_game() {
    let mut c = bundle(owned_zone(Some(KEY_A)), None);
    c.game.game_state = GameState::Paused;
    let before = c.clone();
    let r = execute(&mut c, KEY_A, ActionType::EndTurn, 0, 0, 0, 0);
    assert_eq!(r, Err(BioCommanderError::NotActive));
    assert_eq!(c, before);
}

#[test]
fn play_rejects_foreign_player_record() {
    let mut c = bundle(owned_zone(Some(KEY_A)), None);
    c.player.player_key = Some(99);
    let before = c.clone();
    let r = execute(&mut c, KEY_A, ActionType::EndTurn, 0, 0, 0, 0);
    assert_eq!(r, Err(BioCommanderError::NotInGame));
    assert_eq!(c, before);
}
