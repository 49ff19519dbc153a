//! The match record: seats, turn order, the overall state machine, and the two
//! 0..=100 pressure gauges (infection and immune response).
//!
//! Player identities are opaque comparable keys; a seat or an owner that has
//! not been assigned yet is `None`.

use vstd::prelude::*;
use crate::arith::{apply_level_delta, opt_key_eq, spec_clamp_level};

verus! {

#[derive(Clone, Copy, Debug, PartialEq, Eq, Structural)]
pub enum GameWinner {
    Player1,
    Player2,
    Draw,
    /// Special outcome: the immune system wins without a seat being credited.
    ImmuneSystem,
    /// Special outcome: the infection wins without a seat being credited.
    Infection,
}

#[derive(Clone, Copy, Debug, PartialEq, Eq, Structural)]
pub enum GameState {
    WaitingForPlayers,
    Active,
    /// Declared state with no transition in this core; an external host would
    /// trigger it.
    Paused,
    Finished { winner: GameWinner },
}

/// One match. `current_turn` is meaningful only while `game_state` is
/// `Active`; `turn_time_limit` and `last_turn_timestamp` are state for an
/// external enforcement mechanism and are never read by this core.
#[derive(Clone, Debug, PartialEq)]
pub struct Game {
    pub game_id: u32,
    pub player1: Option<u64>,
    pub player2: Option<u64>,
    /// 1 or 2.
    pub current_turn: u8,
    pub turn_number: u32,
    pub map_width: u8,
    pub map_height: u8,
    pub total_zones: u32,
    pub game_state: GameState,
    pub winner: Option<u64>,
    /// 0..=100.
    pub infection_level: u8,
    /// 0..=100.
    pub immune_response_level: u8,
    /// Seconds; consulted externally, never by this core.
    pub turn_time_limit: u64,
    pub last_turn_timestamp: i64,
}

impl Game {
    /// Well-formedness: the zone counter never passes the fixed map capacity
    /// and both pressure gauges stay in range. Every constructor establishes
    /// it and every operation preserves it.
    pub open spec fn wf(self) -> bool {
        &&& self.total_zones <= 64
        &&& self.infection_level <= 100
        &&& self.immune_response_level <= 100
    }

    pub open spec fn spec_is_player_turn(self, player: u64) -> bool {
        if self.current_turn == 1 {
            self.player1 == Some(player)
        } else if self.current_turn == 2 {
            self.player2 == Some(player)
        } else {
            false
        }
    }

    /// Whether `player` holds the seat whose turn it currently is.
    pub fn is_player_turn(&self, player: u64) -> (r: bool)
        ensures
            r == self.spec_is_player_turn(player),
    {
        if self.current_turn == 1 {
            opt_key_eq(self.player1, Some(player))
        } else if self.current_turn == 2 {
            opt_key_eq(self.player2, Some(player))
        } else {
            false
        }
    }

    pub open spec fn spec_get_opponent(self, player: u64) -> Option<Option<u64>> {
        if self.player1 == Some(player) {
            Some(self.player2)
        } else if self.player2 == Some(player) {
            Some(self.player1)
        } else {
            None
        }
    }

    /// The other seat's key, if `player` occupies a seat. The outer `None`
    /// means `player` is not in this game; the inner option is the opposing
    /// seat, which may itself still be unassigned.
    pub fn get_opponent(&self, player: u64) -> (r: Option<Option<u64>>)
        ensures
            r == self.spec_get_opponent(player),
    {
        if opt_key_eq(self.player1, Some(player)) {
            Some(self.player2)
        } else if opt_key_eq(self.player2, Some(player)) {
            Some(self.player1)
        } else {
            None
        }
    }

    pub open spec fn spec_switch_turn(self) -> Game {
        Game {
            current_turn: if self.current_turn == 1 { 2 } else { 1 },
            turn_number: (self.turn_number + 1) as u32,
            ..self
        }
    }

    /// Flips the active seat and advances the turn counter. The only way the
    /// turn ever advances; invoked solely by the end-turn action.
    pub fn switch_turn(&mut self)
        requires
            old(self).turn_number < u32::MAX,
        ensures
            *final(self) == old(self).spec_switch_turn(),
    {
        self.current_turn = if self.current_turn == 1 { 2 } else { 1 };
        self.turn_number = self.turn_number + 1;
    }

    pub open spec fn spec_get_current_player(self) -> Option<u64> {
        if self.current_turn == 1 {
            self.player1
        } else {
            self.player2
        }
    }

    pub fn get_current_player(&self) -> (r: Option<u64>)
        ensures
            r == self.spec_get_current_player(),
    {
        if self.current_turn == 1 {
            self.player1
        } else {
            self.player2
        }
    }

    pub fn is_game_active(&self) -> (r: bool)
        ensures
            r == (self.game_state is Active),
    {
        match self.game_state {
            GameState::Active => true,
            _ => false,
        }
    }

    /// The key credited for `winner`: the seat's key for `Player1`/`Player2`,
    /// unset for every special outcome.
    pub open spec fn spec_winner_key(self, winner: GameWinner) -> Option<u64> {
        match winner {
            GameWinner::Player1 => self.player1,
            GameWinner::Player2 => self.player2,
            _ => None,
        }
    }

    pub open spec fn spec_end_game(self, winner: GameWinner) -> Game {
        Game {
            game_state: GameState::Finished { winner },
            winner: self.spec_winner_key(winner),
            ..self
        }
    }

    /// Moves the match to its terminal state and records the winning key.
    pub fn end_game(&mut self, winner: GameWinner)
        ensures
            *final(self) == old(self).spec_end_game(winner),
    {
        let winner_key: Option<u64> = match winner {
            GameWinner::Player1 => self.player1,
            GameWinner::Player2 => self.player2,
            _ => None,
        };
        self.game_state = GameState::Finished { winner };
        self.winner = winner_key;
    }

    pub open spec fn spec_update_infection_level(self, delta: i8) -> Game {
        Game {
            infection_level: spec_clamp_level(self.infection_level + delta) as u8,
            ..self
        }
    }

    /// Shifts the infection gauge by `delta`, clamped to 0..=100.
    pub fn update_infection_level(&mut self, delta: i8)
        ensures
            *final(self) == old(self).spec_update_infection_level(delta),
    {
        self.infection_level = apply_level_delta(self.infection_level, delta);
    }

    pub open spec fn spec_update_immune_response_level(self, delta: i8) -> Game {
        Game {
            immune_response_level: spec_clamp_level(self.immune_response_level + delta) as u8,
            ..self
        }
    }

    /// Shifts the immune-response gauge by `delta`, clamped to 0..=100.
    pub fn update_immune_response_level(&mut self, delta: i8)
        ensures
            *final(self) == old(self).spec_update_immune_response_level(delta),
    {
        self.immune_response_level = apply_level_delta(self.immune_response_level, delta);
    }

    /// A fresh match waiting for both players, on a 4x4 zone map.
    pub open spec fn spec_default() -> Game {
        Game {
            game_id: 0,
            player1: None,
            player2: None,
            current_turn: 1,
            turn_number: 0,
            map_width: 4,
            map_height: 4,
            total_zones: 16,
            game_state: GameState::WaitingForPlayers,
            winner: None,
            infection_level: 20,
            immune_response_level: 30,
            turn_time_limit: 300,
            last_turn_timestamp: 0,
        }
    }
}

impl Default for Game {
    fn default() -> (r: Game)
        ensures
            r == Game::spec_default(),
            r.wf(),
    {
        Game {
            game_id: 0,
            player1: None,
            player2: None,
            current_turn: 1,
            turn_number: 0,
            map_width: 4,
            map_height: 4,
            total_zones: 16,
            game_state: GameState::WaitingForPlayers,
            winner: None,
            infection_level: 20,
            immune_response_level: 30,
            turn_time_limit: 300,
            last_turn_timestamp: 0,
        }
    }
}

} // verus!
