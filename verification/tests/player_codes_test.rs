use deckgym::players::mcts_informed_player;
use deckgym::players::mcts_player;
use deckgym::players::opponent_aware_player::{DEFAULT_DEPTH, DEFAULT_SAMPLES};
use deckgym::players::value_functions::ValueFunctionKind;
use deckgym::players::{fill_code_array, parse_player_code, parse_player_code_generic, PlayerCode};

#[test]
fn test_parse_opponent_aware_codes() {
    let defaults = PlayerCode::O {
        max_depth: DEFAULT_DEPTH,
        samples: DEFAULT_SAMPLES,
        value_function: ValueFunctionKind::Baseline,
    };
    assert_eq!(parse_player_code("o"), Ok(defaults.clone()));
    assert_eq!(parse_player_code("O"), Ok(defaults));
    assert_eq!(
        parse_player_code("o2"),
        Ok(PlayerCode::O {
            max_depth: 2,
            samples: DEFAULT_SAMPLES,
            value_function: ValueFunctionKind::Baseline
        })
    );
    assert_eq!(
        parse_player_code("ok5"),
        Ok(PlayerCode::O {
            max_depth: DEFAULT_DEPTH,
            samples: 5,
            value_function: ValueFunctionKind::Baseline
        })
    );
    assert_eq!(
        parse_player_code("o2k5"),
        Ok(PlayerCode::O {
            max_depth: 2,
            samples: 5,
            value_function: ValueFunctionKind::Baseline
        })
    );
}

#[test]
fn test_parse_rejects_malformed_opponent_aware_codes() {
    for code in ["o0", "ok0", "o2k0", "ox", "o2k", "okx", "o-1"] {
        assert!(
            parse_player_code(code).is_err(),
            "{code} should not parse as a player code"
        );
    }
}

#[test]
fn test_parse_learned_value_function_suffix() {
    assert_eq!(
        parse_player_code("oL"),
        Ok(PlayerCode::O {
            max_depth: DEFAULT_DEPTH,
            samples: DEFAULT_SAMPLES,
            value_function: ValueFunctionKind::Learned
        })
    );
    assert_eq!(
        parse_player_code("o2k5l"),
        Ok(PlayerCode::O {
            max_depth: 2,
            samples: 5,
            value_function: ValueFunctionKind::Learned
        })
    );
    assert_eq!(
        parse_player_code("mL"),
        Ok(PlayerCode::M {
            iterations: mcts_informed_player::DEFAULT_ITERATIONS,
            value_function: ValueFunctionKind::Learned
        })
    );
    assert_eq!(
        parse_player_code("m500l"),
        Ok(PlayerCode::M {
            iterations: 500,
            value_function: ValueFunctionKind::Learned
        })
    );
    assert!(parse_player_code("mrl").is_err());
    assert!(parse_player_code("mr100l").is_err());
    assert!(parse_player_code("o0l").is_err());
    assert!(parse_player_code("mxl").is_err());
}

#[test]
fn test_parse_leaves_the_other_codes_alone() {
    assert_eq!(parse_player_code("e"), Ok(PlayerCode::E { max_depth: 3 }));
    assert_eq!(parse_player_code("e2"), Ok(PlayerCode::E { max_depth: 2 }));
    assert_eq!(parse_player_code("er"), Ok(PlayerCode::ER));
    assert_eq!(parse_player_code("v"), Ok(PlayerCode::V));
    assert_eq!(
        parse_player_code("m"),
        Ok(PlayerCode::M {
            iterations: mcts_informed_player::DEFAULT_ITERATIONS,
            value_function: ValueFunctionKind::Baseline
        })
    );
    assert_eq!(parse_player_code("r"), Ok(PlayerCode::R));
    assert_eq!(parse_player_code("l"), Ok(PlayerCode::L { max_depth: 3 }));
    assert_eq!(parse_player_code("l2"), Ok(PlayerCode::L { max_depth: 2 }));
}

#[test]
fn test_player_codes_parse() {
    assert_eq!(
        parse_player_code("m"),
        Ok(PlayerCode::M {
            iterations: 200,
            value_function: ValueFunctionKind::Baseline
        })
    );
    assert_eq!(
        parse_player_code("m500"),
        Ok(PlayerCode::M {
            iterations: 500,
            value_function: ValueFunctionKind::Baseline
        })
    );
    assert_eq!(
        parse_player_code("M500"),
        Ok(PlayerCode::M {
            iterations: 500,
            value_function: ValueFunctionKind::Baseline
        })
    );
    assert_eq!(
        parse_player_code("mL"),
        Ok(PlayerCode::M {
            iterations: 200,
            value_function: ValueFunctionKind::Learned
        })
    );
    assert_eq!(
        parse_player_code("mr"),
        Ok(PlayerCode::MR { iterations: 100 })
    );
    assert_eq!(
        parse_player_code("mr50"),
        Ok(PlayerCode::MR { iterations: 50 })
    );
    assert!(parse_player_code("mx").is_err());
    assert!(parse_player_code("mr7x").is_err());
    assert_eq!(parse_player_code("e"), Ok(PlayerCode::E { max_depth: 3 }));
    assert_eq!(parse_player_code("r"), Ok(PlayerCode::R));
}

#[test]
fn player_code_l_parses_at_the_default_depth_and_at_an_explicit_one() {
    assert_eq!(
        parse_player_code("l").unwrap(),
        PlayerCode::L { max_depth: 3 }
    );
    assert_eq!(
        parse_player_code("L").unwrap(),
        PlayerCode::L { max_depth: 3 }
    );
    assert_eq!(
        parse_player_code("l2").unwrap(),
        PlayerCode::L { max_depth: 2 }
    );
    assert_eq!(
        parse_player_code("L5").unwrap(),
        PlayerCode::L { max_depth: 5 }
    );
    assert_eq!(
        parse_player_code("e").unwrap(),
        PlayerCode::E { max_depth: 3 }
    );
    assert!(parse_player_code("lx").is_err());
}

#[test]
fn bare_rollout_mcts_uses_its_own_default() {
    assert_eq!(
        parse_player_code("mr"),
        Ok(PlayerCode::MR {
            iterations: mcts_player::DEFAULT_ITERATIONS
        })
    );
}

#[test]
fn parse_player_code_simple_letters_ignore_case() {
    assert_eq!(parse_player_code("AA"), Ok(PlayerCode::AA));
    // "et" starts like the `e<depth>` family and is read as a malformed depth.
    assert!(parse_player_code("Et").is_err());
    assert_eq!(parse_player_code("H"), Ok(PlayerCode::H));
    assert_eq!(parse_player_code("w"), Ok(PlayerCode::W));
    assert_eq!(parse_player_code("ER"), Ok(PlayerCode::ER));
}

#[test]
fn parse_player_code_error_messages_name_the_code() {
    assert_eq!(
        parse_player_code("Zz"),
        Err("Invalid player code: Zz".to_string())
    );
    assert_eq!(
        parse_player_code("E9x"),
        Err("Invalid player code: E9x. Use 'e<number>' for ExpectiMiniMax with depth, e.g., 'e2', 'e5'".to_string())
    );
    let o_error = parse_player_code("o2k").unwrap_err();
    assert!(o_error.starts_with("Invalid player code: o2k. Use 'o' for the opponent-aware search at depth 3 with K=3"));
    let mr_error = parse_player_code("mr1l").unwrap_err();
    assert_eq!(
        mr_error,
        "Invalid player code: mr1l. Use 'mr<iterations>' for random-rollout MCTS, e.g. 'mr100'. It plays positions out to the end, so it takes no 'l' value-function suffix"
    );
}

#[test]
fn parse_player_code_counts_accept_a_plus_sign_and_reject_overflow() {
    assert_eq!(parse_player_code("e+4"), Ok(PlayerCode::E { max_depth: 4 }));
    assert_eq!(
        parse_player_code("m18446744073709551615"),
        Ok(PlayerCode::M {
            iterations: u64::MAX,
            value_function: ValueFunctionKind::Baseline
        })
    );
    assert!(parse_player_code("m18446744073709551616").is_err());
    assert!(parse_player_code("m+").is_err());
    assert!(parse_player_code("o2kk3").is_err());
}

#[test]
fn parse_player_code_generic_agrees_with_the_str_form() {
    for code in ["o2k5l", "m", "mr9", "e", "x", "l7"] {
        assert_eq!(
            parse_player_code_generic(code.to_string()),
            parse_player_code(code)
        );
    }
}

#[test]
fn fill_code_array_fills_up_with_random_players() {
    assert_eq!(fill_code_array(None), vec![PlayerCode::R, PlayerCode::R]);
    assert_eq!(
        fill_code_array(Some(vec![PlayerCode::V])),
        vec![PlayerCode::V, PlayerCode::R]
    );
    assert_eq!(
        fill_code_array(Some(vec![PlayerCode::V, PlayerCode::ET])),
        vec![PlayerCode::V, PlayerCode::ET]
    );
}
