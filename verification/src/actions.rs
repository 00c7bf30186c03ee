use vstd::prelude::*;

use crate::models::{Attack, AttackView, Card, CardView, EnergyType, TrainerCard, TrainerCardView};

verus! {

/// One choice a player can make.
#[derive(Debug)]
pub enum SimpleAction {
    /// Attach `(amount, type, in_play_idx)` Energy; `is_turn_energy` when it comes from the
    /// Energy Zone.
    Attach { attachments: Vec<(u32, EnergyType, usize)>, is_turn_energy: bool },
    /// Move one Energy between two of the player's Pokémon and offer the next move.
    MoveEnergyAndReoffer {
        from_in_play_idx: usize,
        to_in_play_idx: usize,
        energy_type: EnergyType,
        remaining_moves: usize,
    },
    Attack(Attack),
    Play { trainer_card: TrainerCard },
    /// Retreat the Active, promoting the Bench Pokémon at this slot.
    Retreat(usize),
    Evolve { evolution: Card, in_play_idx: usize, from_deck: bool },
    /// Put a card from hand into this slot.
    Place(Card, usize),
    /// Promote the Pokémon at this slot into the Active Spot.
    Activate { player: usize, in_play_idx: usize },
    EndTurn,
    Noop,
}

/// The mathematical value of an action.
pub enum SimpleActionView {
    Attach { attachments: Seq<(u32, EnergyType, usize)>, is_turn_energy: bool },
    MoveEnergyAndReoffer {
        from_in_play_idx: usize,
        to_in_play_idx: usize,
        energy_type: EnergyType,
        remaining_moves: usize,
    },
    Attack(AttackView),
    Play { trainer_card: TrainerCardView },
    Retreat(usize),
    Evolve { evolution: CardView, in_play_idx: usize, from_deck: bool },
    Place(CardView, usize),
    Activate { player: usize, in_play_idx: usize },
    EndTurn,
    Noop,
}

impl View for SimpleAction {
    type V = SimpleActionView;

    open spec fn view(&self) -> SimpleActionView {
        match self {
            SimpleAction::Attach { attachments, is_turn_energy } => SimpleActionView::Attach {
                attachments: attachments@,
                is_turn_energy: *is_turn_energy,
            },
            SimpleAction::MoveEnergyAndReoffer {
                from_in_play_idx,
                to_in_play_idx,
                energy_type,
                remaining_moves,
            } => SimpleActionView::MoveEnergyAndReoffer {
                from_in_play_idx: *from_in_play_idx,
                to_in_play_idx: *to_in_play_idx,
                energy_type: *energy_type,
                remaining_moves: *remaining_moves,
            },
            SimpleAction::Attack(a) => SimpleActionView::Attack(a@),
            SimpleAction::Play { trainer_card } => SimpleActionView::Play {
                trainer_card: trainer_card@,
            },
            SimpleAction::Retreat(i) => SimpleActionView::Retreat(*i),
            SimpleAction::Evolve { evolution, in_play_idx, from_deck } => SimpleActionView::Evolve {
                evolution: evolution@,
                in_play_idx: *in_play_idx,
                from_deck: *from_deck,
            },
            SimpleAction::Place(c, i) => SimpleActionView::Place(c@, *i),
            SimpleAction::Activate { player, in_play_idx } => SimpleActionView::Activate {
                player: *player,
                in_play_idx: *in_play_idx,
            },
            SimpleAction::EndTurn => SimpleActionView::EndTurn,
            SimpleAction::Noop => SimpleActionView::Noop,
        }
    }
}

pub open spec fn actions_view(s: Seq<SimpleAction>) -> Seq<SimpleActionView> {
    s.map_values(|a: SimpleAction| a@)
}

/// An action together with the player who takes it.
#[derive(Debug)]
pub struct Action {
    pub actor: usize,
    pub action: SimpleAction,
    pub is_stack: bool,
}

} // verus!
