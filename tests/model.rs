use trm_sim::{
    Direction, PatternConfig, State, StateSerde, SymbolPattern, SyntaxErrorType, Transition,
    TransitionSerde,
};

fn trans(cons: &str, prod: &str, mv: &str, next: &str) -> TransitionSerde {
    TransitionSerde {
        cons: cons.to_string(),
        prod: prod.to_string(),
        next_direction: mv.to_string(),
        next_state_name: next.to_string(),
    }
}

#[test]
fn transition_validates_into_patterns_and_moves() {
    let t = trans("a_*.", "bcde", "lRsL", "next").into_transition(PatternConfig::default()).unwrap();
    assert_eq!(t.consume, vec!['a', '_', '*', '.']);
    assert_eq!(t.produce, vec!['b', 'c', 'd', 'e']);
    assert_eq!(
        t.consume_pattern,
        vec![
            SymbolPattern::Literal('a'),
            SymbolPattern::RequireBlank,
            SymbolPattern::RequireNonBlank,
            SymbolPattern::MatchAny,
        ]
    );
    assert_eq!(t.direction, vec![Direction::Left, Direction::Right, Direction::Stay, Direction::Left]);
    assert_eq!(t.next_state_name, "next");
}

#[test]
fn transition_text_round_trip() {
    let t = Transition::try_from_serde(trans("0_", "1x", "rs", "q"), PatternConfig::default()).unwrap();
    let text = t.to_serde();
    assert_eq!(text.cons, "0_");
    assert_eq!(text.prod, "1x");
    assert_eq!(text.next_direction, "RS");
    assert_eq!(text.next_state_name, "q");
    let again = text.into_transition(PatternConfig::default()).unwrap();
    assert_eq!(again.consume, t.consume);
    assert_eq!(again.direction, t.direction);
}

#[test]
fn bad_letter_in_a_transition_is_reported() {
    let e = trans("0", "1", "X", "q").into_transition(PatternConfig::default()).err().unwrap();
    assert_eq!(e.error_type, SyntaxErrorType::TransitionDirectionNotFound);
    let e = trans("0", "", "R", "q").into_transition(PatternConfig::default()).err().unwrap();
    assert_eq!(e.error_type, SyntaxErrorType::TransitionConsumeProduceNotMatch);
}

#[test]
fn state_reports_its_first_bad_transition() {
    let s = StateSerde {
        name: "q".to_string(),
        is_start: true,
        is_final: false,
        trans: vec![trans("0", "1", "R", "q"), trans("0", "1", "Q", "q"), trans("00", "1", "R", "q")],
    };
    let e = State::try_from_serde(s, PatternConfig::default()).err().unwrap();
    assert_eq!(e.error_type, SyntaxErrorType::TransitionDirectionNotFound);
}

#[test]
fn state_text_round_trip() {
    let s = StateSerde {
        name: "q".to_string(),
        is_start: false,
        is_final: true,
        trans: vec![trans("a", "b", "L", "r"), trans(".", ".", "S", "q")],
    };
    let state = s.into_state(PatternConfig::default()).unwrap();
    assert_eq!(state.transitions.len(), 2);
    let text = state.to_serde();
    assert_eq!(text.name, "q");
    assert!(!text.is_start);
    assert!(text.is_final);
    assert_eq!(text.trans.len(), 2);
    assert_eq!(text.trans[1].cons, ".");
    assert_eq!(text.trans[0].next_direction, "L");
    assert_eq!(StateSerde::from_state(&state).trans[0].next_state_name, "r");
}
