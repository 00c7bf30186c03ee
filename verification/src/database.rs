use vstd::prelude::*;

use crate::abilities::{AbilityMechanic, AbilityMechanicView};
use crate::models::{
    Attack, AttackView, Card, CardView, EnergyType, PokemonCard, PokemonCardView, TrainerCard,
    TrainerType,
};

verus! {

/// The cards this crate refers to by id.
#[derive(Debug, Clone, Copy, PartialEq, Eq, Structural, Hash)]
pub enum CardId {
    A1001Bulbasaur,
    A1055Blastoise,
    A1196Meowth,
    A1211Snorlax,
    A1a006Serperior,
    A2147GiantCape,
    A3147LeafCape,
    B3b065ElegantCape,
    B3a069AncientBoosterEnergyCapsule,
    A4a067InflatableBoat,
    A4a068MemoryLight,
    B2a087BigAirBalloon,
    B3b064SmallBalloon,
    B2155PeculiarPlaza,
    B2153TrainingArea,
    B2154StartingPlains,
    B2a093Mesagoza,
    B2b069HikingTrail,
    B3155BoundedField,
    B3154ArenaofAntiquity,
    B3153FragrantForest,
    B3a074AreaZero,
    B3b069KidsRoom,
    B4154SoothingShore,
    B4155RainbowCave,
    B4a072Arcade,
    A1053Squirtle,
    A1054Wartortle,
    A1059Poliwag,
    A1074Staryu,
    A1075Starmie,
    A1076StarmieEx,
    A1077Magikarp,
    A1094Pikachu,
    A1099Voltorb,
    A1100Electrode,
    A1129MewtwoEx,
    A1143Machop,
    A1145Machamp,
    A1155Hitmonchan,
    A1156Rhyhorn,
    A1189Rattata,
    A1202Chansey,
    A1223Giovanni,
    A1225Sabrina,
    A2148RockyHelmet,
    A2150Cyrus,
    A3144RareCandy,
    PA001Potion,
    PA007ProfessorsResearch,
}

/// The printed facts of a catalogued card: id, name, effect text and kind.
pub open spec fn card_facts(id: CardId) -> (Seq<char>, Seq<char>, Seq<char>, TrainerType) {
    match id {
        CardId::A2147GiantCape => (
            "A2 147"@,
            "Giant Cape"@,
            "The Pokémon this card is attached to gets +20 HP."@,
            TrainerType::Tool,
        ),
        CardId::A3147LeafCape => (
            "A3 147"@,
            "Leaf Cape"@,
            "The [G] Pokémon this card is attached to gets +30 HP."@,
            TrainerType::Tool,
        ),
        CardId::B3b065ElegantCape => (
            "B3b 065"@,
            "Elegant Cape"@,
            "The Stage 1 Pokémon this card is attached to gets +30 HP."@,
            TrainerType::Tool,
        ),
        CardId::B3a069AncientBoosterEnergyCapsule => (
            "B3a 069"@,
            "Ancient Booster Energy Capsule"@,
            "The Ancient Pokémon this card is attached to gets +40 HP."@,
            TrainerType::Tool,
        ),
        CardId::A4a067InflatableBoat => (
            "A4a 067"@,
            "Inflatable Boat"@,
            "The Retreat Cost of the [W] Pokémon this card is attached to is 1 less."@,
            TrainerType::Tool,
        ),
        CardId::A4a068MemoryLight => (
            "A4a 068"@,
            "Memory Light"@,
            "The Pokémon this card is attached to can use any attack from its previous Evolutions."@,
            TrainerType::Tool,
        ),
        CardId::B2a087BigAirBalloon => (
            "B2a 087"@,
            "Big Air Balloon"@,
            "The Stage 2 Pokémon this card is attached to has no Retreat Cost."@,
            TrainerType::Tool,
        ),
        CardId::B3b064SmallBalloon => (
            "B3b 064"@,
            "Small Balloon"@,
            "The Retreat Cost of the Basic Pokémon this card is attached to is 1 less."@,
            TrainerType::Tool,
        ),
        CardId::B2155PeculiarPlaza => (
            "B2 155"@,
            "Peculiar Plaza"@,
            "The Retreat Cost of each [P] Pokémon in play (both yours and your opponent's) is 2 less."@,
            TrainerType::Stadium,
        ),
        CardId::B2153TrainingArea => (
            "B2 153"@,
            "Training Area"@,
            "Attacks used by Stage 1 Pokémon in play (both yours and your opponent's) do +10 damage to the opponent's Active Pokémon."@,
            TrainerType::Stadium,
        ),
        CardId::B2154StartingPlains => (
            "B2 154"@,
            "Starting Plains"@,
            "Each Basic Pokémon in play (both yours and your opponent's) gets +20 HP."@,
            TrainerType::Stadium,
        ),
        CardId::B2a093Mesagoza => (
            "B2a 093"@,
            "Mesagoza"@,
            "Once during each player's turn, that player may flip a coin. If heads, that player puts a random Pokémon from their deck into their hand."@,
            TrainerType::Stadium,
        ),
        CardId::B2b069HikingTrail => (
            "B2b 069"@,
            "Hiking Trail"@,
            "Each player may look at the top card of their deck at the start of their turn."@,
            TrainerType::Stadium,
        ),
        CardId::B3155BoundedField => (
            "B3 155"@,
            "Bounded Field"@,
            "Weakness of each Pokémon in play (both yours and your opponent's) is doubled."@,
            TrainerType::Stadium,
        ),
        CardId::B3154ArenaofAntiquity => (
            "B3 154"@,
            "Arena of Antiquity"@,
            "Attacks used by each [F] Pokémon in play (both yours and your opponent's) do +20 damage to the opponent's Active Pokémon ex."@,
            TrainerType::Stadium,
        ),
        CardId::B3153FragrantForest => (
            "B3 153"@,
            "Fragrant Forest"@,
            "Once during each player's turn, that player may put a random Basic [G] Pokémon from their deck into their hand."@,
            TrainerType::Stadium,
        ),
        CardId::B3a074AreaZero => (
            "B3a 074"@,
            "Area Zero"@,
            "Once during each player's turn, that player may put a Basic Pokémon from their hand onto their Bench."@,
            TrainerType::Stadium,
        ),
        CardId::B3b069KidsRoom => (
            "B3b 069"@,
            "Kids Room"@,
            "Once during each player's turn, that player may discard a card from their hand to put a random Pokémon Tool card from their deck into their hand."@,
            TrainerType::Stadium,
        ),
        CardId::B4154SoothingShore => (
            "B4 154"@,
            "Soothing Shore"@,
            "At the end of each player's turn, heal 10 damage from that player's Active Pokémon."@,
            TrainerType::Stadium,
        ),
        CardId::B4155RainbowCave => (
            "B4 155"@,
            "Rainbow Cave"@,
            "Once during each player's turn, that player may discard the Energy in their Energy Zone to generate a different Energy."@,
            TrainerType::Stadium,
        ),
        CardId::B4a072Arcade => (
            "B4a 072"@,
            "Arcade"@,
            "Once during each player's turn, that player may draw cards until they have 7 cards in their hand."@,
            TrainerType::Stadium,
        ),
        CardId::A1223Giovanni => (
            "A1 223"@,
            "Giovanni"@,
            "During this turn, attacks used by your Pokémon do +10 damage to your opponent's Active Pokémon."@,
            TrainerType::Supporter,
        ),
        CardId::A1225Sabrina => (
            "A1 225"@,
            "Sabrina"@,
            "Switch out your opponent's Active Pokémon to the Bench. (Your opponent chooses the new Active Pokémon.)"@,
            TrainerType::Supporter,
        ),
        CardId::A2148RockyHelmet => (
            "A2 148"@,
            "Rocky Helmet"@,
            "If the Pokémon this card is attached to is in the Active Spot and is damaged by an attack from your opponent's Pokémon, do 20 damage to the Attacking Pokémon."@,
            TrainerType::Tool,
        ),
        CardId::A2150Cyrus => (
            "A2 150"@,
            "Cyrus"@,
            "Switch in 1 of your opponent's Benched Pokémon that has damage on it to the Active Spot."@,
            TrainerType::Supporter,
        ),
        CardId::A3144RareCandy => (
            "A3 144"@,
            "Rare Candy"@,
            "Choose 1 of your Basic Pokémon in play. If you have a Stage 2 card in your hand that evolves from that Pokémon, put that card onto the Basic Pokémon to evolve it, skipping the Stage 1. You can't use this card during your first turn or on a Basic Pokémon that was put into play this turn."@,
            TrainerType::Item,
        ),
        CardId::PA001Potion => (
            "P-A 001"@,
            "Potion"@,
            "Heal 20 damage from 1 of your Pokémon."@,
            TrainerType::Item,
        ),
        CardId::PA007ProfessorsResearch => (
            "P-A 007"@,
            "Professor's Research"@,
            "Draw 2 cards."@,
            TrainerType::Supporter,
        ),
        _ => (Seq::empty(), Seq::empty(), Seq::empty(), TrainerType::Item),
    }
}

/// One attack as printed: name, damage, effect text and Energy cost.
pub open spec fn attack_view(
    title: Seq<char>,
    damage: u32,
    effect: Option<Seq<char>>,
    cost: Seq<EnergyType>,
) -> AttackView {
    AttackView { title, fixed_damage: damage, effect, energy_required: cost }
}

/// The catalogued Pokémon of an id, `None` for a Trainer.
pub open spec fn pokemon_facts(id: CardId) -> Option<PokemonCardView> {
    match id {
        CardId::A1001Bulbasaur => Some(
            PokemonCardView {
                id: "A1 001"@,
                name: "Bulbasaur"@,
                stage: 0,
                evolves_from: None,
                hp: 70,
                energy_type: EnergyType::Grass,
                ability: None,
                attacks: seq![
                    attack_view(
                        "Vine Whip"@,
                        40,
                        None,
                        seq![EnergyType::Grass, EnergyType::Colorless],
                    ),
                ],
                weakness: Some(EnergyType::Fire),
                retreat_cost: seq![EnergyType::Colorless],
            },
        ),
        CardId::A1055Blastoise => Some(
            PokemonCardView {
                id: "A1 055"@,
                name: "Blastoise"@,
                stage: 2,
                evolves_from: Some("Wartortle"@),
                hp: 150,
                energy_type: EnergyType::Water,
                ability: None,
                attacks: seq![
                    attack_view(
                        "Hydro Pump"@,
                        80,
                        Some(
                            "If this Pokémon has at least 2 extra [W] Energy attached, this attack does 60 more damage."@,
                        ),
                        seq![EnergyType::Water, EnergyType::Water, EnergyType::Colorless],
                    ),
                ],
                weakness: Some(EnergyType::Lightning),
                retreat_cost: seq![EnergyType::Colorless, EnergyType::Colorless, EnergyType::Colorless],
            },
        ),
        CardId::A1196Meowth => Some(
            PokemonCardView {
                id: "A1 196"@,
                name: "Meowth"@,
                stage: 0,
                evolves_from: None,
                hp: 60,
                energy_type: EnergyType::Colorless,
                ability: None,
                attacks: seq![
                    attack_view(
                        "Pay Day"@,
                        10,
                        Some("Draw a card."@),
                        seq![EnergyType::Colorless],
                    ),
                ],
                weakness: Some(EnergyType::Fighting),
                retreat_cost: seq![EnergyType::Colorless],
            },
        ),
        CardId::A1211Snorlax => Some(
            PokemonCardView {
                id: "A1 211"@,
                name: "Snorlax"@,
                stage: 0,
                evolves_from: None,
                hp: 150,
                energy_type: EnergyType::Colorless,
                ability: None,
                attacks: seq![
                    attack_view(
                        "Rollout"@,
                        70,
                        None,
                        seq![
                            EnergyType::Colorless,
                            EnergyType::Colorless,
                            EnergyType::Colorless,
                            EnergyType::Colorless,
                        ],
                    ),
                ],
                weakness: Some(EnergyType::Fighting),
                retreat_cost: seq![
                    EnergyType::Colorless,
                    EnergyType::Colorless,
                    EnergyType::Colorless,
                    EnergyType::Colorless,
                ],
            },
        ),
        CardId::A1a006Serperior => Some(
            PokemonCardView {
                id: "A1a 006"@,
                name: "Serperior"@,
                stage: 2,
                evolves_from: Some("Servine"@),
                hp: 110,
                energy_type: EnergyType::Grass,
                ability: Some(AbilityMechanicView::DoubleGrassEnergy),
                attacks: seq![
                    attack_view(
                        "Solar Beam"@,
                        70,
                        None,
                        seq![EnergyType::Grass, EnergyType::Colorless, EnergyType::Colorless],
                    ),
                ],
                weakness: Some(EnergyType::Fire),
                retreat_cost: seq![EnergyType::Colorless, EnergyType::Colorless],
            },
        ),
        CardId::A1053Squirtle => Some(
            PokemonCardView {
                id: "A1 053"@,
                name: "Squirtle"@,
                stage: 0,
                evolves_from: None,
                hp: 60,
                energy_type: EnergyType::Water,
                ability: None,
                attacks: seq![
                    attack_view("Water Gun"@, 20, None, seq![EnergyType::Water]),
                ],
                weakness: Some(EnergyType::Lightning),
                retreat_cost: seq![EnergyType::Colorless],
            },
        ),
        CardId::A1054Wartortle => Some(
            PokemonCardView {
                id: "A1 054"@,
                name: "Wartortle"@,
                stage: 1,
                evolves_from: Some("Squirtle"@),
                hp: 80,
                energy_type: EnergyType::Water,
                ability: None,
                attacks: seq![
                    attack_view("Wave Splash"@, 40, None, seq![EnergyType::Water, EnergyType::Colorless]),
                ],
                weakness: Some(EnergyType::Lightning),
                retreat_cost: seq![EnergyType::Colorless],
            },
        ),
        CardId::A1059Poliwag => Some(
            PokemonCardView {
                id: "A1 059"@,
                name: "Poliwag"@,
                stage: 0,
                evolves_from: None,
                hp: 60,
                energy_type: EnergyType::Water,
                ability: None,
                attacks: seq![
                    attack_view("Razor Fin"@, 10, None, seq![EnergyType::Colorless]),
                ],
                weakness: Some(EnergyType::Lightning),
                retreat_cost: seq![EnergyType::Colorless],
            },
        ),
        CardId::A1074Staryu => Some(
            PokemonCardView {
                id: "A1 074"@,
                name: "Staryu"@,
                stage: 0,
                evolves_from: None,
                hp: 50,
                energy_type: EnergyType::Water,
                ability: None,
                attacks: seq![
                    attack_view("Smack"@, 20, None, seq![EnergyType::Water]),
                ],
                weakness: Some(EnergyType::Lightning),
                retreat_cost: seq![EnergyType::Colorless],
            },
        ),
        CardId::A1075Starmie => Some(
            PokemonCardView {
                id: "A1 075"@,
                name: "Starmie"@,
                stage: 1,
                evolves_from: Some("Staryu"@),
                hp: 90,
                energy_type: EnergyType::Water,
                ability: None,
                attacks: seq![
                    attack_view("Wave Splash"@, 40, None, seq![EnergyType::Water]),
                ],
                weakness: Some(EnergyType::Lightning),
                retreat_cost: seq![EnergyType::Colorless],
            },
        ),
        CardId::A1076StarmieEx => Some(
            PokemonCardView {
                id: "A1 076"@,
                name: "Starmie ex"@,
                stage: 1,
                evolves_from: Some("Staryu"@),
                hp: 130,
                energy_type: EnergyType::Water,
                ability: None,
                attacks: seq![
                    attack_view("Hydro Splash"@, 90, None, seq![EnergyType::Water, EnergyType::Water]),
                ],
                weakness: Some(EnergyType::Lightning),
                retreat_cost: Seq::<EnergyType>::empty(),
            },
        ),
        CardId::A1077Magikarp => Some(
            PokemonCardView {
                id: "A1 077"@,
                name: "Magikarp"@,
                stage: 0,
                evolves_from: None,
                hp: 30,
                energy_type: EnergyType::Water,
                ability: None,
                attacks: seq![
                    attack_view("Splash"@, 10, None, seq![EnergyType::Colorless]),
                ],
                weakness: Some(EnergyType::Lightning),
                retreat_cost: seq![EnergyType::Colorless],
            },
        ),
        CardId::A1094Pikachu => Some(
            PokemonCardView {
                id: "A1 094"@,
                name: "Pikachu"@,
                stage: 0,
                evolves_from: None,
                hp: 60,
                energy_type: EnergyType::Lightning,
                ability: None,
                attacks: seq![
                    attack_view("Gnaw"@, 20, None, seq![EnergyType::Lightning]),
                ],
                weakness: Some(EnergyType::Fighting),
                retreat_cost: seq![EnergyType::Colorless],
            },
        ),
        CardId::A1099Voltorb => Some(
            PokemonCardView {
                id: "A1 099"@,
                name: "Voltorb"@,
                stage: 0,
                evolves_from: None,
                hp: 60,
                energy_type: EnergyType::Lightning,
                ability: None,
                attacks: seq![
                    attack_view("Tackle"@, 20, None, seq![EnergyType::Lightning]),
                ],
                weakness: Some(EnergyType::Fighting),
                retreat_cost: seq![EnergyType::Colorless],
            },
        ),
        CardId::A1100Electrode => Some(
            PokemonCardView {
                id: "A1 100"@,
                name: "Electrode"@,
                stage: 1,
                evolves_from: Some("Voltorb"@),
                hp: 80,
                energy_type: EnergyType::Lightning,
                ability: None,
                attacks: seq![
                    attack_view("Electro Ball"@, 70, None, seq![EnergyType::Lightning, EnergyType::Lightning]),
                ],
                weakness: Some(EnergyType::Fighting),
                retreat_cost: seq![EnergyType::Colorless],
            },
        ),
        CardId::A1129MewtwoEx => Some(
            PokemonCardView {
                id: "A1 129"@,
                name: "Mewtwo ex"@,
                stage: 0,
                evolves_from: None,
                hp: 150,
                energy_type: EnergyType::Psychic,
                ability: None,
                attacks: seq![
                    attack_view("Psychic Sphere"@, 50, None, seq![EnergyType::Psychic, EnergyType::Psychic]),
                    attack_view("Psydrive"@, 150, Some("Discard 2 [P] Energy from this Pokémon."@), seq![EnergyType::Psychic, EnergyType::Psychic, EnergyType::Psychic, EnergyType::Psychic]),
                ],
                weakness: Some(EnergyType::Darkness),
                retreat_cost: seq![EnergyType::Colorless, EnergyType::Colorless],
            },
        ),
        CardId::A1143Machop => Some(
            PokemonCardView {
                id: "A1 143"@,
                name: "Machop"@,
                stage: 0,
                evolves_from: None,
                hp: 70,
                energy_type: EnergyType::Fighting,
                ability: None,
                attacks: seq![
                    attack_view("Knuckle Punch"@, 20, None, seq![EnergyType::Fighting]),
                ],
                weakness: Some(EnergyType::Psychic),
                retreat_cost: seq![EnergyType::Colorless, EnergyType::Colorless],
            },
        ),
        CardId::A1145Machamp => Some(
            PokemonCardView {
                id: "A1 145"@,
                name: "Machamp"@,
                stage: 2,
                evolves_from: Some("Machoke"@),
                hp: 150,
                energy_type: EnergyType::Fighting,
                ability: None,
                attacks: seq![
                    attack_view("Seismic Toss"@, 100, None, seq![EnergyType::Fighting, EnergyType::Fighting, EnergyType::Fighting]),
                ],
                weakness: Some(EnergyType::Psychic),
                retreat_cost: seq![EnergyType::Colorless, EnergyType::Colorless, EnergyType::Colorless],
            },
        ),
        CardId::A1155Hitmonchan => Some(
            PokemonCardView {
                id: "A1 155"@,
                name: "Hitmonchan"@,
                stage: 0,
                evolves_from: None,
                hp: 80,
                energy_type: EnergyType::Fighting,
                ability: None,
                attacks: seq![
                    attack_view("Jab"@, 30, None, seq![EnergyType::Fighting]),
                ],
                weakness: Some(EnergyType::Psychic),
                retreat_cost: seq![EnergyType::Colorless],
            },
        ),
        CardId::A1156Rhyhorn => Some(
            PokemonCardView {
                id: "A1 156"@,
                name: "Rhyhorn"@,
                stage: 0,
                evolves_from: None,
                hp: 80,
                energy_type: EnergyType::Fighting,
                ability: None,
                attacks: seq![
                    attack_view("Tackle"@, 60, None, seq![EnergyType::Fighting, EnergyType::Colorless, EnergyType::Colorless]),
                ],
                weakness: Some(EnergyType::Grass),
                retreat_cost: seq![EnergyType::Colorless, EnergyType::Colorless, EnergyType::Colorless],
            },
        ),
        CardId::A1189Rattata => Some(
            PokemonCardView {
                id: "A1 189"@,
                name: "Rattata"@,
                stage: 0,
                evolves_from: None,
                hp: 40,
                energy_type: EnergyType::Colorless,
                ability: None,
                attacks: seq![
                    attack_view("Gnaw"@, 20, None, seq![EnergyType::Colorless]),
                ],
                weakness: Some(EnergyType::Fighting),
                retreat_cost: seq![EnergyType::Colorless],
            },
        ),
        CardId::A1202Chansey => Some(
            PokemonCardView {
                id: "A1 202"@,
                name: "Chansey"@,
                stage: 0,
                evolves_from: None,
                hp: 120,
                energy_type: EnergyType::Colorless,
                ability: None,
                attacks: seq![
                    attack_view("Gentle Slap"@, 60, None, seq![EnergyType::Colorless, EnergyType::Colorless, EnergyType::Colorless]),
                ],
                weakness: Some(EnergyType::Fighting),
                retreat_cost: seq![EnergyType::Colorless],
            },
        ),
        _ => None,
    }
}

/// The catalogued card of an id.
pub open spec fn spec_card_by_enum(id: CardId) -> CardView {
    match pokemon_facts(id) {
        Some(p) => CardView::Pokemon(p),
        None => {
            let (cid, name, effect, kind) = card_facts(id);
            CardView::Trainer(
                crate::models::TrainerCardView { id: cid, name, effect, trainer_card_type: kind },
            )
        },
    }
}

/// The effect text of a catalogued card.
pub open spec fn effect_text(id: CardId) -> Seq<char> {
    card_facts(id).2
}

fn trainer(id: &str, name: &str, effect: &str, kind: TrainerType) -> (r: Card)
    ensures
        r@ == CardView::Trainer(
            crate::models::TrainerCardView {
                id: id@,
                name: name@,
                effect: effect@,
                trainer_card_type: kind,
            },
        ),
{
    Card::Trainer(
        TrainerCard {
            id: String::from_str(id),
            name: String::from_str(name),
            effect: String::from_str(effect),
            trainer_card_type: kind,
        },
    )
}

fn attack(title: &str, damage: u32, effect: Option<&str>, cost: Vec<EnergyType>) -> (r: Attack)
    ensures
        r@ == attack_view(
            title@,
            damage,
            match effect {
                Some(e) => Some(e@),
                None => None,
            },
            cost@,
        ),
{
    Attack {
        title: String::from_str(title),
        fixed_damage: damage,
        effect: match effect {
            Some(e) => Some(String::from_str(e)),
            None => None,
        },
        energy_required: cost,
    }
}

/// The card with this id.
pub fn get_card_by_enum(id: CardId) -> (r: Card)
    ensures
        r@ == spec_card_by_enum(id),
{
    match id {
        CardId::A1001Bulbasaur => {
            let cost = vec![EnergyType::Grass, EnergyType::Colorless];
            assert(cost@ == seq![EnergyType::Grass, EnergyType::Colorless]);
            let a = attack("Vine Whip", 40, None, cost);
            let attacks = vec![a];
            assert(attacks@ == seq![a]);
            let rc = vec![EnergyType::Colorless];
            assert(rc@ == seq![EnergyType::Colorless]);
            let r = Card::Pokemon(
                PokemonCard {
                    id: String::from_str("A1 001"),
                    name: String::from_str("Bulbasaur"),
                    stage: 0,
                    evolves_from: None,
                    hp: 70,
                    energy_type: EnergyType::Grass,
                    ability: None,
                    attacks,
                    weakness: Some(EnergyType::Fire),
                    retreat_cost: rc,
                },
            );
            assert(r@ == spec_card_by_enum(id)) by {
                assert(crate::models::attacks_view(attacks@) =~= pokemon_facts(id)->0.attacks);
            }
            r
        },
        CardId::A1055Blastoise => {
            let attacks = vec![
                attack(
                    "Hydro Pump",
                    80,
                    Some(
                        "If this Pokémon has at least 2 extra [W] Energy attached, this attack does 60 more damage.",
                    ),
                    vec![EnergyType::Water, EnergyType::Water, EnergyType::Colorless],
                ),
            ];
            let r = Card::Pokemon(
                PokemonCard {
                    id: String::from_str("A1 055"),
                    name: String::from_str("Blastoise"),
                    stage: 2,
                    evolves_from: Some(String::from_str("Wartortle")),
                    hp: 150,
                    energy_type: EnergyType::Water,
                    ability: None,
                    attacks,
                    weakness: Some(EnergyType::Lightning),
                    retreat_cost: vec![
                        EnergyType::Colorless,
                        EnergyType::Colorless,
                        EnergyType::Colorless,
                    ],
                },
            );
            assert(r@ == spec_card_by_enum(id)) by {
                assert(crate::models::attacks_view(attacks@) =~= pokemon_facts(id)->0.attacks);
            }
            r
        },
        CardId::A1196Meowth => {
            let cost = vec![EnergyType::Colorless];
            assert(cost@ == seq![EnergyType::Colorless]);
            let a = attack("Pay Day", 10, Some("Draw a card."), cost);
            let attacks = vec![a];
            assert(attacks@ == seq![a]);
            let rc = vec![EnergyType::Colorless];
            assert(rc@ == seq![EnergyType::Colorless]);
            let r = Card::Pokemon(
                PokemonCard {
                    id: String::from_str("A1 196"),
                    name: String::from_str("Meowth"),
                    stage: 0,
                    evolves_from: None,
                    hp: 60,
                    energy_type: EnergyType::Colorless,
                    ability: None,
                    attacks,
                    weakness: Some(EnergyType::Fighting),
                    retreat_cost: rc,
                },
            );
            assert(r@ == spec_card_by_enum(id)) by {
                assert(crate::models::attacks_view(attacks@) =~= pokemon_facts(id)->0.attacks);
            }
            r
        },
        CardId::A1211Snorlax => {
            let attacks = vec![
                attack(
                    "Rollout",
                    70,
                    None,
                    vec![
                        EnergyType::Colorless,
                        EnergyType::Colorless,
                        EnergyType::Colorless,
                        EnergyType::Colorless,
                    ],
                ),
            ];
            let r = Card::Pokemon(
                PokemonCard {
                    id: String::from_str("A1 211"),
                    name: String::from_str("Snorlax"),
                    stage: 0,
                    evolves_from: None,
                    hp: 150,
                    energy_type: EnergyType::Colorless,
                    ability: None,
                    attacks,
                    weakness: Some(EnergyType::Fighting),
                    retreat_cost: vec![
                        EnergyType::Colorless,
                        EnergyType::Colorless,
                        EnergyType::Colorless,
                        EnergyType::Colorless,
                    ],
                },
            );
            assert(r@ == spec_card_by_enum(id)) by {
                assert(crate::models::attacks_view(attacks@) =~= pokemon_facts(id)->0.attacks);
            }
            r
        },
        CardId::A1a006Serperior => {
            let attacks = vec![
                attack(
                    "Solar Beam",
                    70,
                    None,
                    vec![EnergyType::Grass, EnergyType::Colorless, EnergyType::Colorless],
                ),
            ];
            let r = Card::Pokemon(
                PokemonCard {
                    id: String::from_str("A1a 006"),
                    name: String::from_str("Serperior"),
                    stage: 2,
                    evolves_from: Some(String::from_str("Servine")),
                    hp: 110,
                    energy_type: EnergyType::Grass,
                    ability: Some(AbilityMechanic::DoubleGrassEnergy),
                    attacks,
                    weakness: Some(EnergyType::Fire),
                    retreat_cost: vec![EnergyType::Colorless, EnergyType::Colorless],
                },
            );
            assert(r@ == spec_card_by_enum(id)) by {
                assert(crate::models::attacks_view(attacks@) =~= pokemon_facts(id)->0.attacks);
            }
            r
        },
        CardId::A2147GiantCape => trainer(
            "A2 147",
            "Giant Cape",
            "The Pokémon this card is attached to gets +20 HP.",
            TrainerType::Tool,
        ),
        CardId::A3147LeafCape => trainer(
            "A3 147",
            "Leaf Cape",
            "The [G] Pokémon this card is attached to gets +30 HP.",
            TrainerType::Tool,
        ),
        CardId::B3b065ElegantCape => trainer(
            "B3b 065",
            "Elegant Cape",
            "The Stage 1 Pokémon this card is attached to gets +30 HP.",
            TrainerType::Tool,
        ),
        CardId::B3a069AncientBoosterEnergyCapsule => trainer(
            "B3a 069",
            "Ancient Booster Energy Capsule",
            "The Ancient Pokémon this card is attached to gets +40 HP.",
            TrainerType::Tool,
        ),
        CardId::A4a067InflatableBoat => trainer(
            "A4a 067",
            "Inflatable Boat",
            "The Retreat Cost of the [W] Pokémon this card is attached to is 1 less.",
            TrainerType::Tool,
        ),
        CardId::A4a068MemoryLight => trainer(
            "A4a 068",
            "Memory Light",
            "The Pokémon this card is attached to can use any attack from its previous Evolutions.",
            TrainerType::Tool,
        ),
        CardId::B2a087BigAirBalloon => trainer(
            "B2a 087",
            "Big Air Balloon",
            "The Stage 2 Pokémon this card is attached to has no Retreat Cost.",
            TrainerType::Tool,
        ),
        CardId::B3b064SmallBalloon => trainer(
            "B3b 064",
            "Small Balloon",
            "The Retreat Cost of the Basic Pokémon this card is attached to is 1 less.",
            TrainerType::Tool,
        ),
        CardId::B2155PeculiarPlaza => trainer(
            "B2 155",
            "Peculiar Plaza",
            "The Retreat Cost of each [P] Pokémon in play (both yours and your opponent's) is 2 less.",
            TrainerType::Stadium,
        ),
        CardId::B2153TrainingArea => trainer(
            "B2 153",
            "Training Area",
            "Attacks used by Stage 1 Pokémon in play (both yours and your opponent's) do +10 damage to the opponent's Active Pokémon.",
            TrainerType::Stadium,
        ),
        CardId::B2154StartingPlains => trainer(
            "B2 154",
            "Starting Plains",
            "Each Basic Pokémon in play (both yours and your opponent's) gets +20 HP.",
            TrainerType::Stadium,
        ),
        CardId::B2a093Mesagoza => trainer(
            "B2a 093",
            "Mesagoza",
            "Once during each player's turn, that player may flip a coin. If heads, that player puts a random Pokémon from their deck into their hand.",
            TrainerType::Stadium,
        ),
        CardId::B2b069HikingTrail => trainer(
            "B2b 069",
            "Hiking Trail",
            "Each player may look at the top card of their deck at the start of their turn.",
            TrainerType::Stadium,
        ),
        CardId::B3155BoundedField => trainer(
            "B3 155",
            "Bounded Field",
            "Weakness of each Pokémon in play (both yours and your opponent's) is doubled.",
            TrainerType::Stadium,
        ),
        CardId::B3154ArenaofAntiquity => trainer(
            "B3 154",
            "Arena of Antiquity",
            "Attacks used by each [F] Pokémon in play (both yours and your opponent's) do +20 damage to the opponent's Active Pokémon ex.",
            TrainerType::Stadium,
        ),
        CardId::B3153FragrantForest => trainer(
            "B3 153",
            "Fragrant Forest",
            "Once during each player's turn, that player may put a random Basic [G] Pokémon from their deck into their hand.",
            TrainerType::Stadium,
        ),
        CardId::B3a074AreaZero => trainer(
            "B3a 074",
            "Area Zero",
            "Once during each player's turn, that player may put a Basic Pokémon from their hand onto their Bench.",
            TrainerType::Stadium,
        ),
        CardId::B3b069KidsRoom => trainer(
            "B3b 069",
            "Kids Room",
            "Once during each player's turn, that player may discard a card from their hand to put a random Pokémon Tool card from their deck into their hand.",
            TrainerType::Stadium,
        ),
        CardId::B4154SoothingShore => trainer(
            "B4 154",
            "Soothing Shore",
            "At the end of each player's turn, heal 10 damage from that player's Active Pokémon.",
            TrainerType::Stadium,
        ),
        CardId::B4155RainbowCave => trainer(
            "B4 155",
            "Rainbow Cave",
            "Once during each player's turn, that player may discard the Energy in their Energy Zone to generate a different Energy.",
            TrainerType::Stadium,
        ),
        CardId::B4a072Arcade => trainer(
            "B4a 072",
            "Arcade",
            "Once during each player's turn, that player may draw cards until they have 7 cards in their hand.",
            TrainerType::Stadium,
        ),
        CardId::A1053Squirtle => card_a1053_squirtle(),
        CardId::A1054Wartortle => card_a1054_wartortle(),
        CardId::A1059Poliwag => card_a1059_poliwag(),
        CardId::A1074Staryu => card_a1074_staryu(),
        CardId::A1075Starmie => card_a1075_starmie(),
        CardId::A1076StarmieEx => card_a1076_starmie_ex(),
        CardId::A1077Magikarp => card_a1077_magikarp(),
        CardId::A1094Pikachu => card_a1094_pikachu(),
        CardId::A1099Voltorb => card_a1099_voltorb(),
        CardId::A1100Electrode => card_a1100_electrode(),
        CardId::A1129MewtwoEx => card_a1129_mewtwo_ex(),
        CardId::A1143Machop => card_a1143_machop(),
        CardId::A1145Machamp => card_a1145_machamp(),
        CardId::A1155Hitmonchan => card_a1155_hitmonchan(),
        CardId::A1156Rhyhorn => card_a1156_rhyhorn(),
        CardId::A1189Rattata => card_a1189_rattata(),
        CardId::A1202Chansey => card_a1202_chansey(),
        CardId::A1223Giovanni => trainer(
            "A1 223",
            "Giovanni",
            "During this turn, attacks used by your Pokémon do +10 damage to your opponent's Active Pokémon.",
            TrainerType::Supporter,
        ),
        CardId::A1225Sabrina => trainer(
            "A1 225",
            "Sabrina",
            "Switch out your opponent's Active Pokémon to the Bench. (Your opponent chooses the new Active Pokémon.)",
            TrainerType::Supporter,
        ),
        CardId::A2148RockyHelmet => trainer(
            "A2 148",
            "Rocky Helmet",
            "If the Pokémon this card is attached to is in the Active Spot and is damaged by an attack from your opponent's Pokémon, do 20 damage to the Attacking Pokémon.",
            TrainerType::Tool,
        ),
        CardId::A2150Cyrus => trainer(
            "A2 150",
            "Cyrus",
            "Switch in 1 of your opponent's Benched Pokémon that has damage on it to the Active Spot.",
            TrainerType::Supporter,
        ),
        CardId::A3144RareCandy => trainer(
            "A3 144",
            "Rare Candy",
            "Choose 1 of your Basic Pokémon in play. If you have a Stage 2 card in your hand that evolves from that Pokémon, put that card onto the Basic Pokémon to evolve it, skipping the Stage 1. You can't use this card during your first turn or on a Basic Pokémon that was put into play this turn.",
            TrainerType::Item,
        ),
        CardId::PA001Potion => trainer(
            "P-A 001",
            "Potion",
            "Heal 20 damage from 1 of your Pokémon.",
            TrainerType::Item,
        ),
        CardId::PA007ProfessorsResearch => trainer(
            "P-A 007",
            "Professor's Research",
            "Draw 2 cards.",
            TrainerType::Supporter,
        ),
    }
}

fn card_a1053_squirtle() -> (r: Card)
    ensures
        r@ == spec_card_by_enum(CardId::A1053Squirtle),
{
    let cost0 = vec![EnergyType::Water];
    assert(cost0@ == seq![EnergyType::Water]);
    let a0 = attack("Water Gun", 20, None, cost0);
    let attacks = vec![a0];
    assert(attacks@ == seq![a0]);
    let rc = vec![EnergyType::Colorless];
    assert(rc@ == seq![EnergyType::Colorless]);
    let r = Card::Pokemon(
        PokemonCard {
            id: String::from_str("A1 053"),
            name: String::from_str("Squirtle"),
            stage: 0,
            evolves_from: None,
            hp: 60,
            energy_type: EnergyType::Water,
            ability: None,
            attacks,
            weakness: Some(EnergyType::Lightning),
            retreat_cost: rc,
        },
    );
    assert(r@ == spec_card_by_enum(CardId::A1053Squirtle)) by {
        assert(crate::models::attacks_view(attacks@) =~= pokemon_facts(CardId::A1053Squirtle)->0.attacks);
    }
    r
}

fn card_a1054_wartortle() -> (r: Card)
    ensures
        r@ == spec_card_by_enum(CardId::A1054Wartortle),
{
    let cost0 = vec![EnergyType::Water, EnergyType::Colorless];
    assert(cost0@ == seq![EnergyType::Water, EnergyType::Colorless]);
    let a0 = attack("Wave Splash", 40, None, cost0);
    let attacks = vec![a0];
    assert(attacks@ == seq![a0]);
    let rc = vec![EnergyType::Colorless];
    assert(rc@ == seq![EnergyType::Colorless]);
    let r = Card::Pokemon(
        PokemonCard {
            id: String::from_str("A1 054"),
            name: String::from_str("Wartortle"),
            stage: 1,
            evolves_from: Some(String::from_str("Squirtle")),
            hp: 80,
            energy_type: EnergyType::Water,
            ability: None,
            attacks,
            weakness: Some(EnergyType::Lightning),
            retreat_cost: rc,
        },
    );
    assert(r@ == spec_card_by_enum(CardId::A1054Wartortle)) by {
        assert(crate::models::attacks_view(attacks@) =~= pokemon_facts(CardId::A1054Wartortle)->0.attacks);
    }
    r
}

fn card_a1059_poliwag() -> (r: Card)
    ensures
        r@ == spec_card_by_enum(CardId::A1059Poliwag),
{
    let cost0 = vec![EnergyType::Colorless];
    assert(cost0@ == seq![EnergyType::Colorless]);
    let a0 = attack("Razor Fin", 10, None, cost0);
    let attacks = vec![a0];
    assert(attacks@ == seq![a0]);
    let rc = vec![EnergyType::Colorless];
    assert(rc@ == seq![EnergyType::Colorless]);
    let r = Card::Pokemon(
        PokemonCard {
            id: String::from_str("A1 059"),
            name: String::from_str("Poliwag"),
            stage: 0,
            evolves_from: None,
            hp: 60,
            energy_type: EnergyType::Water,
            ability: None,
            attacks,
            weakness: Some(EnergyType::Lightning),
            retreat_cost: rc,
        },
    );
    assert(r@ == spec_card_by_enum(CardId::A1059Poliwag)) by {
        assert(crate::models::attacks_view(attacks@) =~= pokemon_facts(CardId::A1059Poliwag)->0.attacks);
    }
    r
}

fn card_a1074_staryu() -> (r: Card)
    ensures
        r@ == spec_card_by_enum(CardId::A1074Staryu),
{
    let cost0 = vec![EnergyType::Water];
    assert(cost0@ == seq![EnergyType::Water]);
    let a0 = attack("Smack", 20, None, cost0);
    let attacks = vec![a0];
    assert(attacks@ == seq![a0]);
    let rc = vec![EnergyType::Colorless];
    assert(rc@ == seq![EnergyType::Colorless]);
    let r = Card::Pokemon(
        PokemonCard {
            id: String::from_str("A1 074"),
            name: String::from_str("Staryu"),
            stage: 0,
            evolves_from: None,
            hp: 50,
            energy_type: EnergyType::Water,
            ability: None,
            attacks,
            weakness: Some(EnergyType::Lightning),
            retreat_cost: rc,
        },
    );
    assert(r@ == spec_card_by_enum(CardId::A1074Staryu)) by {
        assert(crate::models::attacks_view(attacks@) =~= pokemon_facts(CardId::A1074Staryu)->0.attacks);
    }
    r
}

fn card_a1075_starmie() -> (r: Card)
    ensures
        r@ == spec_card_by_enum(CardId::A1075Starmie),
{
    let cost0 = vec![EnergyType::Water];
    assert(cost0@ == seq![EnergyType::Water]);
    let a0 = attack("Wave Splash", 40, None, cost0);
    let attacks = vec![a0];
    assert(attacks@ == seq![a0]);
    let rc = vec![EnergyType::Colorless];
    assert(rc@ == seq![EnergyType::Colorless]);
    let r = Card::Pokemon(
        PokemonCard {
            id: String::from_str("A1 075"),
            name: String::from_str("Starmie"),
            stage: 1,
            evolves_from: Some(String::from_str("Staryu")),
            hp: 90,
            energy_type: EnergyType::Water,
            ability: None,
            attacks,
            weakness: Some(EnergyType::Lightning),
            retreat_cost: rc,
        },
    );
    assert(r@ == spec_card_by_enum(CardId::A1075Starmie)) by {
        assert(crate::models::attacks_view(attacks@) =~= pokemon_facts(CardId::A1075Starmie)->0.attacks);
    }
    r
}

fn card_a1076_starmie_ex() -> (r: Card)
    ensures
        r@ == spec_card_by_enum(CardId::A1076StarmieEx),
{
    let cost0 = vec![EnergyType::Water, EnergyType::Water];
    assert(cost0@ == seq![EnergyType::Water, EnergyType::Water]);
    let a0 = attack("Hydro Splash", 90, None, cost0);
    let attacks = vec![a0];
    assert(attacks@ == seq![a0]);
    let rc: Vec<EnergyType> = Vec::new();
    assert(rc@ == Seq::<EnergyType>::empty());
    let r = Card::Pokemon(
        PokemonCard {
            id: String::from_str("A1 076"),
            name: String::from_str("Starmie ex"),
            stage: 1,
            evolves_from: Some(String::from_str("Staryu")),
            hp: 130,
            energy_type: EnergyType::Water,
            ability: None,
            attacks,
            weakness: Some(EnergyType::Lightning),
            retreat_cost: rc,
        },
    );
    assert(r@ == spec_card_by_enum(CardId::A1076StarmieEx)) by {
        assert(crate::models::attacks_view(attacks@) =~= pokemon_facts(CardId::A1076StarmieEx)->0.attacks);
    }
    r
}

fn card_a1077_magikarp() -> (r: Card)
    ensures
        r@ == spec_card_by_enum(CardId::A1077Magikarp),
{
    let cost0 = vec![EnergyType::Colorless];
    assert(cost0@ == seq![EnergyType::Colorless]);
    let a0 = attack("Splash", 10, None, cost0);
    let attacks = vec![a0];
    assert(attacks@ == seq![a0]);
    let rc = vec![EnergyType::Colorless];
    assert(rc@ == seq![EnergyType::Colorless]);
    let r = Card::Pokemon(
        PokemonCard {
            id: String::from_str("A1 077"),
            name: String::from_str("Magikarp"),
            stage: 0,
            evolves_from: None,
            hp: 30,
            energy_type: EnergyType::Water,
            ability: None,
            attacks,
            weakness: Some(EnergyType::Lightning),
            retreat_cost: rc,
        },
    );
    assert(r@ == spec_card_by_enum(CardId::A1077Magikarp)) by {
        assert(crate::models::attacks_view(attacks@) =~= pokemon_facts(CardId::A1077Magikarp)->0.attacks);
    }
    r
}

fn card_a1094_pikachu() -> (r: Card)
    ensures
        r@ == spec_card_by_enum(CardId::A1094Pikachu),
{
    let cost0 = vec![EnergyType::Lightning];
    assert(cost0@ == seq![EnergyType::Lightning]);
    let a0 = attack("Gnaw", 20, None, cost0);
    let attacks = vec![a0];
    assert(attacks@ == seq![a0]);
    let rc = vec![EnergyType::Colorless];
    assert(rc@ == seq![EnergyType::Colorless]);
    let r = Card::Pokemon(
        PokemonCard {
            id: String::from_str("A1 094"),
            name: String::from_str("Pikachu"),
            stage: 0,
            evolves_from: None,
            hp: 60,
            energy_type: EnergyType::Lightning,
            ability: None,
            attacks,
            weakness: Some(EnergyType::Fighting),
            retreat_cost: rc,
        },
    );
    assert(r@ == spec_card_by_enum(CardId::A1094Pikachu)) by {
        assert(crate::models::attacks_view(attacks@) =~= pokemon_facts(CardId::A1094Pikachu)->0.attacks);
    }
    r
}

fn card_a1099_voltorb() -> (r: Card)
    ensures
        r@ == spec_card_by_enum(CardId::A1099Voltorb),
{
    let cost0 = vec![EnergyType::Lightning];
    assert(cost0@ == seq![EnergyType::Lightning]);
    let a0 = attack("Tackle", 20, None, cost0);
    let attacks = vec![a0];
    assert(attacks@ == seq![a0]);
    let rc = vec![EnergyType::Colorless];
    assert(rc@ == seq![EnergyType::Colorless]);
    let r = Card::Pokemon(
        PokemonCard {
            id: String::from_str("A1 099"),
            name: String::from_str("Voltorb"),
            stage: 0,
            evolves_from: None,
            hp: 60,
            energy_type: EnergyType::Lightning,
            ability: None,
            attacks,
            weakness: Some(EnergyType::Fighting),
            retreat_cost: rc,
        },
    );
    assert(r@ == spec_card_by_enum(CardId::A1099Voltorb)) by {
        assert(crate::models::attacks_view(attacks@) =~= pokemon_facts(CardId::A1099Voltorb)->0.attacks);
    }
    r
}

fn card_a1100_electrode() -> (r: Card)
    ensures
        r@ == spec_card_by_enum(CardId::A1100Electrode),
{
    let cost0 = vec![EnergyType::Lightning, EnergyType::Lightning];
    assert(cost0@ == seq![EnergyType::Lightning, EnergyType::Lightning]);
    let a0 = attack("Electro Ball", 70, None, cost0);
    let attacks = vec![a0];
    assert(attacks@ == seq![a0]);
    let rc = vec![EnergyType::Colorless];
    assert(rc@ == seq![EnergyType::Colorless]);
    let r = Card::Pokemon(
        PokemonCard {
            id: String::from_str("A1 100"),
            name: String::from_str("Electrode"),
            stage: 1,
            evolves_from: Some(String::from_str("Voltorb")),
            hp: 80,
            energy_type: EnergyType::Lightning,
            ability: None,
            attacks,
            weakness: Some(EnergyType::Fighting),
            retreat_cost: rc,
        },
    );
    assert(r@ == spec_card_by_enum(CardId::A1100Electrode)) by {
        assert(crate::models::attacks_view(attacks@) =~= pokemon_facts(CardId::A1100Electrode)->0.attacks);
    }
    r
}

fn card_a1129_mewtwo_ex() -> (r: Card)
    ensures
        r@ == spec_card_by_enum(CardId::A1129MewtwoEx),
{
    let cost0 = vec![EnergyType::Psychic, EnergyType::Psychic];
    assert(cost0@ == seq![EnergyType::Psychic, EnergyType::Psychic]);
    let a0 = attack("Psychic Sphere", 50, None, cost0);
    let cost1 = vec![EnergyType::Psychic, EnergyType::Psychic, EnergyType::Psychic, EnergyType::Psychic];
    assert(cost1@ == seq![EnergyType::Psychic, EnergyType::Psychic, EnergyType::Psychic, EnergyType::Psychic]);
    let a1 = attack("Psydrive", 150, Some("Discard 2 [P] Energy from this Pokémon."), cost1);
    let attacks = vec![a0, a1];
    assert(attacks@ == seq![a0, a1]);
    let rc = vec![EnergyType::Colorless, EnergyType::Colorless];
    assert(rc@ == seq![EnergyType::Colorless, EnergyType::Colorless]);
    let r = Card::Pokemon(
        PokemonCard {
            id: String::from_str("A1 129"),
            name: String::from_str("Mewtwo ex"),
            stage: 0,
            evolves_from: None,
            hp: 150,
            energy_type: EnergyType::Psychic,
            ability: None,
            attacks,
            weakness: Some(EnergyType::Darkness),
            retreat_cost: rc,
        },
    );
    assert(r@ == spec_card_by_enum(CardId::A1129MewtwoEx)) by {
        assert(crate::models::attacks_view(attacks@) =~= pokemon_facts(CardId::A1129MewtwoEx)->0.attacks);
    }
    r
}

fn card_a1143_machop() -> (r: Card)
    ensures
        r@ == spec_card_by_enum(CardId::A1143Machop),
{
    let cost0 = vec![EnergyType::Fighting];
    assert(cost0@ == seq![EnergyType::Fighting]);
    let a0 = attack("Knuckle Punch", 20, None, cost0);
    let attacks = vec![a0];
    assert(attacks@ == seq![a0]);
    let rc = vec![EnergyType::Colorless, EnergyType::Colorless];
    assert(rc@ == seq![EnergyType::Colorless, EnergyType::Colorless]);
    let r = Card::Pokemon(
        PokemonCard {
            id: String::from_str("A1 143"),
            name: String::from_str("Machop"),
            stage: 0,
            evolves_from: None,
            hp: 70,
            energy_type: EnergyType::Fighting,
            ability: None,
            attacks,
            weakness: Some(EnergyType::Psychic),
            retreat_cost: rc,
        },
    );
    assert(r@ == spec_card_by_enum(CardId::A1143Machop)) by {
        assert(crate::models::attacks_view(attacks@) =~= pokemon_facts(CardId::A1143Machop)->0.attacks);
    }
    r
}

fn card_a1145_machamp() -> (r: Card)
    ensures
        r@ == spec_card_by_enum(CardId::A1145Machamp),
{
    let cost0 = vec![EnergyType::Fighting, EnergyType::Fighting, EnergyType::Fighting];
    assert(cost0@ == seq![EnergyType::Fighting, EnergyType::Fighting, EnergyType::Fighting]);
    let a0 = attack("Seismic Toss", 100, None, cost0);
    let attacks = vec![a0];
    assert(attacks@ == seq![a0]);
    let rc = vec![EnergyType::Colorless, EnergyType::Colorless, EnergyType::Colorless];
    assert(rc@ == seq![EnergyType::Colorless, EnergyType::Colorless, EnergyType::Colorless]);
    let r = Card::Pokemon(
        PokemonCard {
            id: String::from_str("A1 145"),
            name: String::from_str("Machamp"),
            stage: 2,
            evolves_from: Some(String::from_str("Machoke")),
            hp: 150,
            energy_type: EnergyType::Fighting,
            ability: None,
            attacks,
            weakness: Some(EnergyType::Psychic),
            retreat_cost: rc,
        },
    );
    assert(r@ == spec_card_by_enum(CardId::A1145Machamp)) by {
        assert(crate::models::attacks_view(attacks@) =~= pokemon_facts(CardId::A1145Machamp)->0.attacks);
    }
    r
}

fn card_a1155_hitmonchan() -> (r: Card)
    ensures
        r@ == spec_card_by_enum(CardId::A1155Hitmonchan),
{
    let cost0 = vec![EnergyType::Fighting];
    assert(cost0@ == seq![EnergyType::Fighting]);
    let a0 = attack("Jab", 30, None, cost0);
    let attacks = vec![a0];
    assert(attacks@ == seq![a0]);
    let rc = vec![EnergyType::Colorless];
    assert(rc@ == seq![EnergyType::Colorless]);
    let r = Card::Pokemon(
        PokemonCard {
            id: String::from_str("A1 155"),
            name: String::from_str("Hitmonchan"),
            stage: 0,
            evolves_from: None,
            hp: 80,
            energy_type: EnergyType::Fighting,
            ability: None,
            attacks,
            weakness: Some(EnergyType::Psychic),
            retreat_cost: rc,
        },
    );
    assert(r@ == spec_card_by_enum(CardId::A1155Hitmonchan)) by {
        assert(crate::models::attacks_view(attacks@) =~= pokemon_facts(CardId::A1155Hitmonchan)->0.attacks);
    }
    r
}

fn card_a1156_rhyhorn() -> (r: Card)
    ensures
        r@ == spec_card_by_enum(CardId::A1156Rhyhorn),
{
    let cost0 = vec![EnergyType::Fighting, EnergyType::Colorless, EnergyType::Colorless];
    assert(cost0@ == seq![EnergyType::Fighting, EnergyType::Colorless, EnergyType::Colorless]);
    let a0 = attack("Tackle", 60, None, cost0);
    let attacks = vec![a0];
    assert(attacks@ == seq![a0]);
    let rc = vec![EnergyType::Colorless, EnergyType::Colorless, EnergyType::Colorless];
    assert(rc@ == seq![EnergyType::Colorless, EnergyType::Colorless, EnergyType::Colorless]);
    let r = Card::Pokemon(
        PokemonCard {
            id: String::from_str("A1 156"),
            name: String::from_str("Rhyhorn"),
            stage: 0,
            evolves_from: None,
            hp: 80,
            energy_type: EnergyType::Fighting,
            ability: None,
            attacks,
            weakness: Some(EnergyType::Grass),
            retreat_cost: rc,
        },
    );
    assert(r@ == spec_card_by_enum(CardId::A1156Rhyhorn)) by {
        assert(crate::models::attacks_view(attacks@) =~= pokemon_facts(CardId::A1156Rhyhorn)->0.attacks);
    }
    r
}

fn card_a1189_rattata() -> (r: Card)
    ensures
        r@ == spec_card_by_enum(CardId::A1189Rattata),
{
    let cost0 = vec![EnergyType::Colorless];
    assert(cost0@ == seq![EnergyType::Colorless]);
    let a0 = attack("Gnaw", 20, None, cost0);
    let attacks = vec![a0];
    assert(attacks@ == seq![a0]);
    let rc = vec![EnergyType::Colorless];
    assert(rc@ == seq![EnergyType::Colorless]);
    let r = Card::Pokemon(
        PokemonCard {
            id: String::from_str("A1 189"),
            name: String::from_str("Rattata"),
            stage: 0,
            evolves_from: None,
            hp: 40,
            energy_type: EnergyType::Colorless,
            ability: None,
            attacks,
            weakness: Some(EnergyType::Fighting),
            retreat_cost: rc,
        },
    );
    assert(r@ == spec_card_by_enum(CardId::A1189Rattata)) by {
        assert(crate::models::attacks_view(attacks@) =~= pokemon_facts(CardId::A1189Rattata)->0.attacks);
    }
    r
}

fn card_a1202_chansey() -> (r: Card)
    ensures
        r@ == spec_card_by_enum(CardId::A1202Chansey),
{
    let cost0 = vec![EnergyType::Colorless, EnergyType::Colorless, EnergyType::Colorless];
    assert(cost0@ == seq![EnergyType::Colorless, EnergyType::Colorless, EnergyType::Colorless]);
    let a0 = attack("Gentle Slap", 60, None, cost0);
    let attacks = vec![a0];
    assert(attacks@ == seq![a0]);
    let rc = vec![EnergyType::Colorless];
    assert(rc@ == seq![EnergyType::Colorless]);
    let r = Card::Pokemon(
        PokemonCard {
            id: String::from_str("A1 202"),
            name: String::from_str("Chansey"),
            stage: 0,
            evolves_from: None,
            hp: 120,
            energy_type: EnergyType::Colorless,
            ability: None,
            attacks,
            weakness: Some(EnergyType::Fighting),
            retreat_cost: rc,
        },
    );
    assert(r@ == spec_card_by_enum(CardId::A1202Chansey)) by {
        assert(crate::models::attacks_view(attacks@) =~= pokemon_facts(CardId::A1202Chansey)->0.attacks);
    }
    r
}

/// The effect text of a catalogued card.
pub fn effect_text_of(id: CardId) -> (r: String)
    ensures
        r@ == effect_text(id),
{
    match get_card_by_enum(id) {
        Card::Trainer(t) => t.effect,
        Card::Pokemon(_) => String::new(),
    }
}

} // verus!
