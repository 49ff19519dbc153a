use bio_commander::game::{Game, GameState, GameWinner};
use bio_commander::grid::{CellContent, Zone, ZoneType};
use bio_commander::players::{Faction, Player};
use bio_commander::unit::{SpecialAbility, Unit, UnitType};

#[test]
fn game_default_values() {
    let g = Game::default();
    assert_eq!(g.game_id, 0);
    assert_eq!(g.player1, None);
    assert_eq!(g.player2, None);
    assert_eq!(g.current_turn, 1);
    assert_eq!(g.turn_number, 0);
    assert_eq!(g.map_width, 4);
    assert_eq!(g.map_height, 4);
    assert_eq!(g.total_zones, 16);
    assert_eq!(g.game_state, GameState::WaitingForPlayers);
    assert_eq!(g.winner, None);
    assert_eq!(g.infection_level, 20);
    assert_eq!(g.immune_response_level, 30);
    assert_eq!(g.turn_time_limit, 300);
    assert_eq!(g.last_turn_timestamp, 0);
}

#[test]
fn is_player_turn_by_seat() {
    let mut g = Game::default();
    g.player1 = Some(10);
    g.player2 = Some(20);
    g.current_turn = 1;
    assert!(g.is_player_turn(10));
    assert!(!g.is_player_turn(20));
    g.current_turn = 2;
    assert!(g.is_player_turn(20));
    assert!(!g.is_player_turn(10));
    g.current_turn = 3;
    assert!(!g.is_player_turn(10));
    assert!(!g.is_player_turn(20));
}

#[test]
fn get_opponent_both_seats() {
    let mut g = Game::default();
    g.player1 = Some(10);
    g.player2 = Some(20);
    assert_eq!(g.get_opponent(10), Some(Some(20)));
    assert_eq!(g.get_opponent(20), Some(Some(10)));
    assert_eq!(g.get_opponent(30), None);
}

#[test]
fn get_opponent_with_empty_seat() {
    let mut g = Game::default();
    g.player1 = Some(10);
    assert_eq!(g.get_opponent(10), Some(None));
}

#[test]
fn switch_turn_flips_and_counts() {
    let mut g = Game::default();
    g.current_turn = 1;
    g.turn_number = 7;
    g.switch_turn();
    assert_eq!(g.current_turn, 2);
    assert_eq!(g.turn_number, 8);
    g.switch_turn();
    assert_eq!(g.current_turn, 1);
    assert_eq!(g.turn_number, 9);
}

#[test]
fn get_current_player_by_seat() {
    let mut g = Game::default();
    g.player1 = Some(10);
    g.player2 = Some(20);
    g.current_turn = 1;
    assert_eq!(g.get_current_player(), Some(10));
    g.current_turn = 2;
    assert_eq!(g.get_current_player(), Some(20));
}

#[test]
fn is_game_active_only_when_active() {
    let mut g = Game::default();
    assert!(!g.is_game_active());
    g.game_state = GameState::Active;
    assert!(g.is_game_active());
    g.game_state = GameState::Paused;
    assert!(!g.is_game_active());
    g.game_state = GameState::Finished { winner: GameWinner::Draw };
    assert!(!g.is_game_active());
}

#[test]
fn end_game_records_seat_winner() {
    let mut g = Game::default();
    g.player1 = Some(10);
    g.player2 = Some(20);
    g.end_game(GameWinner::Player2);
    assert_eq!(g.game_state, GameState::Finished { winner: GameWinner::Player2 });
    assert_eq!(g.winner, Some(20));
}

#[test]
fn end_game_special_outcome_has_no_winner_key() {
    let mut g = Game::default();
    g.player1 = Some(10);
    g.player2 = Some(20);
    g.end_game(GameWinner::Draw);
    assert_eq!(g.game_state, GameState::Finished { winner: GameWinner::Draw });
    assert_eq!(g.winner, None);
}

#[test]
fn infection_level_clamps_high() {
    let mut g = Game::default();
    g.infection_level = 98;
    g.update_infection_level(5);
    assert_eq!(g.infection_level, 100);
}

#[test]
fn infection_level_clamps_low() {
    let mut g = Game::default();
    g.infection_level = 2;
    g.update_infection_level(-5);
    assert_eq!(g.infection_level, 0);
}

#[test]
fn immune_response_level_moves_by_delta() {
    let mut g = Game::default();
    g.immune_response_level = 30;
    g.update_immune_response_level(5);
    assert_eq!(g.immune_response_level, 35);
    g.update_immune_response_level(-10);
    assert_eq!(g.immune_response_level, 25);
    g.update_immune_response_level(127);
    assert_eq!(g.immune_response_level, 100);
}

#[test]
fn zone_default_values() {
    let z = Zone::default();
    assert_eq!(z.zone_id, 0);
    assert_eq!(z.zone_type, ZoneType::Tissue);
    assert_eq!((z.x, z.y), (0, 0));
    assert_eq!(z.owner, None);
    assert_eq!(z.grid.len(), 256);
    assert!(z.grid.iter().all(|c| c.is_none()));
    assert_eq!(z.energy, 100);
    assert_eq!(z.antibodies, 50);
    assert_eq!(z.stem_cells, 10);
    assert_eq!(z.nutrients, 75);
    assert_eq!(z.unit_count, 0);
    assert!(!z.is_border_zone);
    assert!(!z.is_controlled);
    assert_eq!(z.connected_zones.len(), 4);
    assert!(z.connected_zones.iter().all(|c| c.is_none()));
}

#[test]
fn zone_cell_round_trip() {
    let mut z = Zone::default();
    let content = CellContent::Obstacle;
    z.set_cell(3, 7, Some(content));
    assert_eq!(z.cell(3, 7), Some(CellContent::Obstacle));
    assert_eq!(z.cell(7, 3), None);
    z.set_cell(3, 7, None);
    assert_eq!(z.cell(3, 7), None);
}

#[test]
fn zone_type_movement_costs() {
    assert_eq!(ZoneType::Circulatory.get_movement_cost(), 1);
    assert_eq!(ZoneType::Tissue.get_movement_cost(), 3);
    assert_eq!(ZoneType::Lymphatic.get_movement_cost(), 2);
    assert_eq!(ZoneType::Barrier.get_movement_cost(), 4);
    assert_eq!(ZoneType::Organ.get_movement_cost(), 2);
}

#[test]
fn zone_type_resource_generation() {
    assert_eq!(ZoneType::Circulatory.get_resource_generation(), (10, 5, 2, 8));
    assert_eq!(ZoneType::Tissue.get_resource_generation(), (5, 15, 1, 10));
    assert_eq!(ZoneType::Lymphatic.get_resource_generation(), (8, 20, 5, 5));
    assert_eq!(ZoneType::Barrier.get_resource_generation(), (3, 25, 1, 3));
    assert_eq!(ZoneType::Organ.get_resource_generation(), (15, 10, 3, 15));
}

#[test]
fn zone_type_defense_bonuses() {
    assert_eq!(ZoneType::Circulatory.get_defense_bonus(), 0);
    assert_eq!(ZoneType::Tissue.get_defense_bonus(), 2);
    assert_eq!(ZoneType::Lymphatic.get_defense_bonus(), 3);
    assert_eq!(ZoneType::Barrier.get_defense_bonus(), 5);
    assert_eq!(ZoneType::Organ.get_defense_bonus(), 1);
}

#[test]
fn player_default_values() {
    let p = Player::default();
    assert_eq!(p.player_id, 1);
    assert_eq!(p.player_key, None);
    assert_eq!(p.energy_reserves, 1000);
    assert_eq!(p.antibody_reserves, 500);
    assert_eq!(p.stem_cell_reserves, 100);
    assert_eq!(p.nutrient_reserves, 750);
    assert_eq!(p.controlled_zones, 0);
    assert_eq!(p.total_units, 0);
    assert_eq!(p.research_points, 0);
    assert_eq!(p.faction, Faction::ImmuneSystem);
    assert_eq!(p.unlocked_units.len(), 12);
    for (i, unlocked) in p.unlocked_units.iter().enumerate() {
        assert_eq!(*unlocked, i == 0 || i == 6);
    }
    assert_eq!(p.special_bonuses.len(), 3);
    assert!(p.special_bonuses.iter().all(|b| b.is_none()));
}

#[test]
fn can_afford_checks_every_reserve() {
    let p = Player::default();
    assert!(p.can_afford(1000, 500, 100, 750));
    assert!(!p.can_afford(1001, 0, 0, 0));
    assert!(!p.can_afford(0, 501, 0, 0));
    assert!(!p.can_afford(0, 0, 101, 0));
    assert!(!p.can_afford(0, 0, 0, 751));
}

#[test]
fn spend_resources_deducts_when_affordable() {
    let mut p = Player::default();
    assert!(p.spend_resources(100, 50, 10, 75));
    assert_eq!(p.energy_reserves, 900);
    assert_eq!(p.antibody_reserves, 450);
    assert_eq!(p.stem_cell_reserves, 90);
    assert_eq!(p.nutrient_reserves, 675);
}

#[test]
fn spend_resources_refuses_unaffordable() {
    let mut p = Player::default();
    assert!(!p.spend_resources(2000, 0, 0, 0));
    assert_eq!(p.energy_reserves, 1000);
    assert_eq!(p.antibody_reserves, 500);
    assert_eq!(p.stem_cell_reserves, 100);
    assert_eq!(p.nutrient_reserves, 750);
}

#[test]
fn add_resources_saturates() {
    let mut p = Player::default();
    p.energy_reserves = u64::MAX - 5;
    p.add_resources(10, 1, 2, 3);
    assert_eq!(p.energy_reserves, u64::MAX);
    assert_eq!(p.antibody_reserves, 501);
    assert_eq!(p.stem_cell_reserves, 102);
    assert_eq!(p.nutrient_reserves, 753);
}

#[test]
fn faction_bonus_by_faction() {
    let mut p = Player::default();
    assert_eq!(p.get_faction_bonus(), (2, 3, 0));
    p.faction = Faction::Pathogen;
    assert_eq!(p.get_faction_bonus(), (3, 0, 1));
}

#[test]
fn unit_unlock_table() {
    let mut p = Player::default();
    assert!(p.is_unit_unlocked(0));
    assert!(!p.is_unit_unlocked(3));
    assert!(p.is_unit_unlocked(6));
    assert!(!p.is_unit_unlocked(12));
    assert!(!p.is_unit_unlocked(100));
    p.unlock_unit(3);
    assert!(p.is_unit_unlocked(3));
    p.unlock_unit(50);
    assert_eq!(p.unlocked_units.len(), 12);
}

#[test]
fn unit_default_values() {
    let u = Unit::default();
    assert_eq!(u.unit_id, 0);
    assert_eq!(u.unit_type, UnitType::TCell);
    assert_eq!(u.zone_id, 0);
    assert_eq!((u.x, u.y), (0, 0));
    assert_eq!(u.health, 80);
    assert_eq!(u.max_health, 80);
    assert_eq!(u.attack, 15);
    assert_eq!(u.defense, 10);
    assert_eq!(u.movement_range, 3);
    assert_eq!(u.owner, None);
    assert_eq!(
        u.special_abilities,
        vec![
            Some(SpecialAbility::CytokineRelease),
            Some(SpecialAbility::MemoryResponse),
            None
        ]
    );
    assert!(u.is_active);
    assert_eq!(u.energy_cost, 20);
}

#[test]
fn unit_base_stats_samples() {
    assert_eq!(UnitType::TCell.get_base_stats(), (80, 15, 10, 3, 20));
    assert_eq!(UnitType::Macrophage.get_base_stats(), (120, 20, 15, 2, 30));
    assert_eq!(UnitType::Virus.get_base_stats(), (40, 12, 5, 4, 10));
    assert_eq!(UnitType::Toxin.get_base_stats(), (30, 30, 2, 5, 5));
}

#[test]
fn unit_default_abilities_samples() {
    assert_eq!(
        UnitType::BCell.get_default_abilities(),
        vec![
            Some(SpecialAbility::AntibodyProduction),
            Some(SpecialAbility::MemoryResponse),
            None
        ]
    );
    assert_eq!(
        UnitType::CancerCell.get_default_abilities(),
        vec![
            Some(SpecialAbility::Replication),
            Some(SpecialAbility::Metastasis),
            None
        ]
    );
}

#[test]
fn unit_roster_split() {
    assert!(UnitType::TCell.is_immune_cell());
    assert!(UnitType::NaturalKillerCell.is_immune_cell());
    assert!(!UnitType::Virus.is_immune_cell());
    assert!(UnitType::Virus.is_pathogen());
    assert!(UnitType::CancerCell.is_pathogen());
    assert!(!UnitType::Macrophage.is_pathogen());
}
