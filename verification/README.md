# deckgym

A Pokémon TCG Pocket rules and bot-support library whose logic is proved with Verus.

Every function in `src/` carries a `requires` / `ensures` contract over mathematical models
(`Seq`, `Set`, `Map`, and a view of each data type), and Verus checks each body against it.
Laws that tie several functions together (player codes are case-insensitive, games are shared
out evenly over decks, a retreat reduction never raises a Retreat Cost, a puzzle run's tally
adds up to its trials and lists the most common choice first, and so on) are public proof
functions whose names begin with `law_`.

## Layout

- `src/models.rs`, `src/database.rs`: cards, Energy types, and the card catalogue.
- `src/played_card.rs`, `src/state.rs`, `src/effects.rs`, `src/abilities.rs`: a Pokémon in play,
  the game position, and the effects and Abilities that change them.
- `src/retreat.rs`, `src/stadiums.rs`, `src/card_logic.rs`, `src/attack_helpers.rs`,
  `src/actions.rs`, `src/mechanic.rs`: the rules: Retreat Costs, Stadiums, Energy movers, and
  the choices an attack offers.
- `src/players/`: player codes (`parse_player_code`), the integer parts of the value
  functions, and the determinisation of the opponent's hidden hand.
- `src/puzzles/`: the 27 hand-built tactical positions (`all_puzzles`), each a board built
  from catalogued cards with the actions that solve it, and the grading of a bot's answers.
- `src/temp_deck.rs`: the temporary test decks built around one card.
- `src/simulate.rs`, `src/data_exporter.rs`: how a simulation run shares out its games, and
  the bookkeeping of the data exporter.
- `app/`: the command-line front end (argument handling, logging, the deck folder scan) and
  the floating-point scoring of the learned value function, which Verus does not model.
- `tests/`: tests on concrete values, run against the compiled library.

## Card data

The catalogue holds the cards the library's rules, tests and puzzles refer to. Each card's
printed facts (HP, type, attacks, Weakness, Retreat Cost, rules text) are spelled out in
`src/database.rs`, once as a specification and once as the code that builds the card.
