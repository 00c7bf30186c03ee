use vstd::prelude::*;

use crate::actions::Action;
use crate::models::opt_string_view;
use crate::state::{GameOutcome, State};
use crate::text::{decimal_text, usize_text};

verus! {

/// One exported data point: a position, the actions on offer, and the one chosen.
#[derive(Debug)]
pub struct ExportedDataPoint {
    pub game_id: String,
    pub ply: u32,
    pub actor: usize,
    pub state: State,
    pub playable_actions: Vec<Action>,
    pub chosen_action: Action,
}

/// The outcome of one exported game: the label every exported ply of that game is trained
/// against.
#[derive(Debug)]
pub struct GameResult {
    /// Index of the winning player, or `None` for a tie and for a game without a winner.
    pub winner: Option<usize>,
    /// Final point totals, `[player 0, player 1]`.
    pub points: [u8; 2],
    /// `State::turn_count` of the final state.
    pub turns: u8,
    /// The player who took the first decision of the game, `None` if no ply was exported.
    pub starting_player: Option<usize>,
    /// Deck file path given for player 0, when known.
    pub deck_a: Option<String>,
    /// Deck file path given for player 1, when known.
    pub deck_b: Option<String>,
}

/// The winner a game outcome names: the winning player, nobody for a tie or no outcome.
pub open spec fn winner_of(result: Option<GameOutcome>) -> Option<usize> {
    match result {
        Some(GameOutcome::Win(p)) => Some(p),
        _ => None,
    }
}

/// A win by any player is recorded as that player's win; only a tie or a game without an
/// outcome is recorded with no winner.
pub proof fn law_every_win_is_recorded(p: usize, result: Option<GameOutcome>)
    ensures
        winner_of(Some(GameOutcome::Win(p))) == Some(p),
        winner_of(result) is None <==> (result is None || result == Some(GameOutcome::Tie)),
        winner_of(result) is Some ==> result == Some(GameOutcome::Win(winner_of(result)->0)),
{
}

/// What the exporter keeps between events: which ply comes next, who moved first, and the deck
/// files of the two players.
#[derive(Debug)]
pub struct ExportRecorder {
    pub ply_counter: u32,
    pub current_game_id: Option<String>,
    pub deck_a: Option<String>,
    pub deck_b: Option<String>,
    pub starting_player: Option<usize>,
}

impl ExportRecorder {
    pub fn new() -> (r: Self)
        ensures
            r.ply_counter == 0,
            r.current_game_id is None,
            r.deck_a is None,
            r.deck_b is None,
            r.starting_player is None,
    {
        ExportRecorder {
            ply_counter: 0,
            current_game_id: None,
            deck_a: None,
            deck_b: None,
            starting_player: None,
        }
    }

    /// Records the deck files of the two players, for the result of each game.
    pub fn with_decks(self, deck_a: String, deck_b: String) -> (r: Self)
        ensures
            opt_string_view(r.deck_a) == Some(deck_a@),
            opt_string_view(r.deck_b) == Some(deck_b@),
            r.ply_counter == self.ply_counter,
            r.starting_player == self.starting_player,
            opt_string_view(r.current_game_id) == opt_string_view(self.current_game_id),
    {
        ExportRecorder { deck_a: Some(deck_a), deck_b: Some(deck_b), ..self }
    }

    /// A new game begins: plies count from zero and no first player is known yet.
    pub fn on_game_start(&mut self, game_id: String)
        ensures
            final(self).ply_counter == 0,
            final(self).starting_player is None,
            opt_string_view(final(self).current_game_id) == Some(game_id@),
            opt_string_view(final(self).deck_a) == opt_string_view(old(self).deck_a),
            opt_string_view(final(self).deck_b) == opt_string_view(old(self).deck_b),
    {
        self.current_game_id = Some(game_id);
        self.ply_counter = 0;
        self.starting_player = None;
    }

    /// A decision was made from a position whose player to move was `current_player`. Returns
    /// the number of this ply; the first ply of a game records who moved first.
    pub fn on_action(&mut self, current_player: usize) -> (ply: u32)
        requires
            old(self).ply_counter < u32::MAX,
        ensures
            ply == old(self).ply_counter,
            final(self).ply_counter == old(self).ply_counter + 1,
            final(self).starting_player == if old(self).ply_counter == 0 {
                Some(current_player)
            } else {
                old(self).starting_player
            },
            opt_string_view(final(self).current_game_id) == opt_string_view(
                old(self).current_game_id,
            ),
            opt_string_view(final(self).deck_a) == opt_string_view(old(self).deck_a),
            opt_string_view(final(self).deck_b) == opt_string_view(old(self).deck_b),
    {
        if self.ply_counter == 0 {
            self.starting_player = Some(current_player);
        }
        let ply = self.ply_counter;
        self.ply_counter = self.ply_counter + 1;
        ply
    }

    /// The game is over: its result, from the final points and turn count and the outcome.
    /// Afterwards the recorder waits for the next game.
    pub fn on_game_end(&mut self, state: &State, result: Option<GameOutcome>) -> (r: GameResult)
        ensures
            r.winner == winner_of(result),
            r.points == state.points,
            r.turns == state.turn_count,
            r.starting_player == old(self).starting_player,
            opt_string_view(r.deck_a) == opt_string_view(old(self).deck_a),
            opt_string_view(r.deck_b) == opt_string_view(old(self).deck_b),
            final(self).ply_counter == 0,
            final(self).current_game_id is None,
            final(self).starting_player is None,
            opt_string_view(final(self).deck_a) == opt_string_view(old(self).deck_a),
            opt_string_view(final(self).deck_b) == opt_string_view(old(self).deck_b),
    {
        let winner = match result {
            Some(GameOutcome::Win(player)) => Some(player),
            Some(GameOutcome::Tie) | None => None,
        };
        let game_result = GameResult {
            winner,
            points: state.points,
            turns: state.turn_count,
            starting_player: self.starting_player,
            deck_a: crate::models::clone_opt_string(&self.deck_a),
            deck_b: crate::models::clone_opt_string(&self.deck_b),
        };
        self.ply_counter = 0;
        self.current_game_id = None;
        self.starting_player = None;
        game_result
    }
}

/// `digits` padded with leading zeros to at least four characters.
pub open spec fn pad4(digits: Seq<char>) -> Seq<char> {
    if digits.len() >= 4 {
        digits
    } else {
        Seq::new((4 - digits.len()) as nat, |i: int| '0') + digits
    }
}

/// The file a ply is written to: `ply_` and the ply number padded to four digits, `.json`.
pub fn ply_file_name(ply: u32) -> (r: String)
    ensures
        r@ == "ply_"@ + pad4(decimal_text(ply as nat)) + ".json"@,
{
    let digits = usize_text(ply as usize);
    let n = digits.as_str().unicode_len();
    let mut name = String::from_str("ply_");
    let ghost head = name@;
    let mut k: usize = n;
    while k < 4
        invariant
            n == decimal_text(ply as nat).len(),
            n <= k <= 4 || (n > 4 && k == n),
            name@ == head + Seq::new((k - n) as nat, |i: int| '0'),
        decreases 4 - k,
    {
        name.append("0");
        proof {
            reveal_strlit("0");
        }
        k += 1;
        assert(name@ =~= head + Seq::new((k - n) as nat, |i: int| '0'));
    }
    assert(name@ =~= "ply_"@ + (pad4(decimal_text(ply as nat)).take(
        pad4(decimal_text(ply as nat)).len() - n,
    )));
    name.append(digits.as_str());
    name.append(".json");
    assert(pad4(decimal_text(ply as nat)) =~= pad4(decimal_text(ply as nat)).take(
        pad4(decimal_text(ply as nat)).len() - n,
    ) + decimal_text(ply as nat));
    name
}

} // verus!
