//! The join protocol: seat assignment and faction setup. Seat 1 is assigned
//! first, then seat 2; the second join activates the match and, when a
//! starting-zone slot is supplied, seeds it at the map centre.
//!
//! Every validation precedes every mutation, so a failed join leaves the
//! match, the seat and the zone exactly as they were.

use vstd::prelude::*;
use crate::arith::opt_key_eq;
use crate::game::{Game, GameState};
use crate::grid::{Zone, ZoneType};
use crate::players::{Faction, Player};

verus! {

#[derive(Clone, Copy, Debug, PartialEq, Eq, Structural)]
pub enum JoinGameError {
    GameFull,
    PlayerAlreadyInGame,
    GameAlreadyStarted,
    InvalidFaction,
}

/// The entity bundle one join acts on. The starting zone is optional: without
/// it the activating join seeds no territory.
#[derive(Clone, Debug, PartialEq)]
pub struct Components {
    pub game: Game,
    pub player: Player,
    pub starting_zone: Option<Zone>,
}

/// The seat a new player would take: 1 if free, else 2 if free, else none.
pub open spec fn spec_seat_for(g: Game) -> Option<u8> {
    if g.player1 is None {
        Some(1u8)
    } else if g.player2 is None {
        Some(2u8)
    } else {
        None
    }
}

/// The faction selected by a join request; only 0 (immune system) and
/// 1 (pathogen) are valid.
pub open spec fn spec_faction_from_index(faction_index: u8) -> Option<Faction> {
    if faction_index == 0 {
        Some(Faction::ImmuneSystem)
    } else if faction_index == 1 {
        Some(Faction::Pathogen)
    } else {
        None
    }
}

/// First failing validation of a join, in the order the rules check them, or
/// the assigned seat and faction when the join may proceed.
pub open spec fn spec_join_check(g: Game, authority: u64, faction_index: u8) -> Result<(u8, Faction), JoinGameError> {
    if !(g.game_state is WaitingForPlayers) {
        Err(JoinGameError::GameAlreadyStarted)
    } else if g.player1 == Some(authority) || g.player2 == Some(authority) {
        Err(JoinGameError::PlayerAlreadyInGame)
    } else {
        match spec_seat_for(g) {
            None => Err(JoinGameError::GameFull),
            Some(seat) => match spec_faction_from_index(faction_index) {
                None => Err(JoinGameError::InvalidFaction),
                Some(faction) => Ok((seat, faction)),
            },
        }
    }
}

/// The match record after a successful join: the seat is taken and, when both
/// seats are now taken, the match becomes active with seat 1 to move.
pub open spec fn spec_join_game_effect(g0: Game, authority: u64, seat: u8) -> Game {
    let g_seated = if seat == 1 {
        Game { player1: Some(authority), ..g0 }
    } else {
        Game { player2: Some(authority), ..g0 }
    };
    if g_seated.player1 is Some && g_seated.player2 is Some {
        Game { game_state: GameState::Active, current_turn: 1, ..g_seated }
    } else {
        g_seated
    }
}

/// Faction-dependent starting reserves as
/// `(energy, antibodies, stem_cells, nutrients)`.
pub open spec fn spec_starting_reserves(faction: Faction) -> (u64, u64, u64, u64) {
    match faction {
        Faction::ImmuneSystem => (1200u64, 800u64, 150u64, 900u64),
        Faction::Pathogen => (1500u64, 200u64, 50u64, 1200u64),
    }
}

/// First index of the three consecutive unit types each faction starts with.
pub open spec fn spec_starting_unlock_base(faction: Faction) -> int {
    match faction {
        Faction::ImmuneSystem => 0,
        Faction::Pathogen => 6,
    }
}

/// Zone type of a seeded starting zone: a staging area for the immune
/// system, infected tissue for the pathogen.
pub open spec fn spec_starting_zone_type(faction: Faction) -> ZoneType {
    match faction {
        Faction::ImmuneSystem => ZoneType::Lymphatic,
        Faction::Pathogen => ZoneType::Tissue,
    }
}

/// The seat record after a successful join: identity, faction, starting
/// reserves, the faction's three starting unit types unlocked, and one
/// controlled zone exactly when a starting zone was seeded.
pub open spec fn spec_join_player_post(p0: Player, p1: Player, authority: u64, seat: u8, faction: Faction, zone_seeded: bool) -> bool {
    let reserves = spec_starting_reserves(faction);
    let base = spec_starting_unlock_base(faction);
    &&& p1.unlocked_units@ == p0.unlocked_units@.update(base, true).update(base + 1, true).update(base + 2, true)
    &&& p1 == (Player {
        player_id: seat,
        player_key: Some(authority),
        energy_reserves: reserves.0,
        antibody_reserves: reserves.1,
        stem_cell_reserves: reserves.2,
        nutrient_reserves: reserves.3,
        faction,
        controlled_zones: if zone_seeded { 1u16 } else { p0.controlled_zones },
        unlocked_units: p1.unlocked_units,
        ..p0
    })
}

/// The starting-zone slot after a successful join: seeded at the map centre
/// for the activating join, untouched otherwise.
pub open spec fn spec_join_zone_post(z0: Option<Zone>, z1: Option<Zone>, authority: u64, faction: Faction, activated: bool) -> bool {
    match z0 {
        None => z1 == z0,
        Some(z) => if activated {
            z1 == Some(Zone {
                zone_id: 0,
                x: 2,
                y: 2,
                owner: Some(authority),
                is_controlled: true,
                zone_type: spec_starting_zone_type(faction),
                ..z
            })
        } else {
            z1 == z0
        },
    }
}

/// Full behaviour of one join over the old and new entity values.
pub open spec fn spec_join_outcome(
    g0: Game, p0: Player, z0: Option<Zone>,
    authority: u64, faction_index: u8,
    g1: Game, p1: Player, z1: Option<Zone>,
    r: Result<(), JoinGameError>,
) -> bool {
    match spec_join_check(g0, authority, faction_index) {
        Err(e) => r == Err::<(), JoinGameError>(e) && g1 == g0 && p1 == p0 && z1 == z0,
        Ok((seat, faction)) => {
            let activated = spec_join_game_effect(g0, authority, seat).game_state is Active;
            &&& r == Ok::<(), JoinGameError>(())
            &&& g1 == spec_join_game_effect(g0, authority, seat)
            &&& spec_join_player_post(p0, p1, authority, seat, faction, activated && z0 is Some)
            &&& spec_join_zone_post(z0, z1, authority, faction, activated)
        }
    }
}

/// Seats the acting identity in the match. The first join takes seat 1, the
/// second takes seat 2 and activates the match; a failure anywhere leaves
/// every entity exactly as it was.
pub fn execute(c: &mut Components, authority: u64, faction: u8) -> (r: Result<(), JoinGameError>)
    requires
        old(c).player.wf(),
    ensures
        spec_join_outcome(
            old(c).game, old(c).player, old(c).starting_zone,
            authority, faction,
            final(c).game, final(c).player, final(c).starting_zone,
            r,
        ),
        r is Err ==> *final(c) == *old(c),
        old(c).game.wf() ==> final(c).game.wf(),
        final(c).player.wf(),
        (match old(c).starting_zone {
            Some(z) => z.wf(),
            None => true,
        }) ==> (match final(c).starting_zone {
            Some(z) => z.wf(),
            None => true,
        }),
{
    match c.game.game_state {
        GameState::WaitingForPlayers => {}
        _ => {
            return Err(JoinGameError::GameAlreadyStarted);
        }
    }
    if opt_key_eq(c.game.player1, Some(authority)) || opt_key_eq(c.game.player2, Some(authority)) {
        return Err(JoinGameError::PlayerAlreadyInGame);
    }
    let player_id: u8 = if c.game.player1.is_none() {
        1
    } else if c.game.player2.is_none() {
        2
    } else {
        return Err(JoinGameError::GameFull);
    };
    let faction_choice = match faction {
        0 => Faction::ImmuneSystem,
        1 => Faction::Pathogen,
        _ => {
            return Err(JoinGameError::InvalidFaction);
        }
    };

    if player_id == 1 {
        c.game.player1 = Some(authority);
    } else {
        c.game.player2 = Some(authority);
    }

    c.player.player_id = player_id;
    c.player.player_key = Some(authority);
    c.player.faction = faction_choice;

    match faction_choice {
        Faction::ImmuneSystem => {
            c.player.energy_reserves = 1200;
            c.player.antibody_reserves = 800;
            c.player.stem_cell_reserves = 150;
            c.player.nutrient_reserves = 900;
        }
        Faction::Pathogen => {
            c.player.energy_reserves = 1500;
            c.player.antibody_reserves = 200;
            c.player.stem_cell_reserves = 50;
            c.player.nutrient_reserves = 1200;
        }
    }

    match faction_choice {
        Faction::ImmuneSystem => {
            c.player.unlock_unit(0);
            c.player.unlock_unit(1);
            c.player.unlock_unit(2);
        }
        Faction::Pathogen => {
            c.player.unlock_unit(6);
            c.player.unlock_unit(7);
            c.player.unlock_unit(8);
        }
    }

    if c.game.player1.is_some() && c.game.player2.is_some() {
        c.game.game_state = GameState::Active;
        c.game.current_turn = 1;
        match &mut c.starting_zone {
            Some(zone) => {
                zone.zone_id = 0;
                zone.x = 2;
                zone.y = 2;
                zone.owner = Some(authority);
                zone.is_controlled = true;
                zone.zone_type = match faction_choice {
                    Faction::ImmuneSystem => ZoneType::Lymphatic,
                    Faction::Pathogen => ZoneType::Tissue,
                };
                c.player.controlled_zones = 1;
            }
            None => {}
        }
    }

    Ok(())
}

} // verus!
