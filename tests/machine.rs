use trm_sim::{
    Machine, MachineModel, MachineRunningError, PatternAction, PatternConfig, StateSerde,
    SymbolPattern, SyntaxErrorType, TransitionSerde,
};

fn trans(cons: &str, prod: &str, mv: &str, next: &str) -> TransitionSerde {
    TransitionSerde {
        cons: cons.to_string(),
        prod: prod.to_string(),
        next_direction: mv.to_string(),
        next_state_name: next.to_string(),
    }
}

fn state(name: &str, start: bool, fin: bool, trans: Vec<TransitionSerde>) -> StateSerde {
    StateSerde { name: name.to_string(), is_start: start, is_final: fin, trans }
}

fn model(states: Vec<StateSerde>) -> MachineModel {
    MachineModel { state: states, pattern_config: PatternConfig::default() }
}

fn flip_model() -> MachineModel {
    model(vec![
        state(
            "q0",
            true,
            false,
            vec![trans("0", "1", "R", "q1"), trans("1", "0", "R", "q1")],
        ),
        state(
            "q1",
            false,
            true,
            vec![trans("0", "1", "R", "q1"), trans("1", "0", "R", "q1")],
        ),
    ])
}

fn error_of(m: MachineModel) -> SyntaxErrorType {
    match Machine::new(m) {
        Ok(_) => panic!("the model was accepted"),
        Err(e) => e.error_type,
    }
}

#[test]
fn flip_machine_runs_to_its_final_state() {
    let mut machine = Machine::new(flip_model()).unwrap();
    machine.input("1101");
    assert_eq!(machine.run(), Ok(true));
    let id = machine.identifier();
    assert_eq!(id.current_state, "q1");
    assert_eq!(id.tape.len(), 1);
    assert_eq!(id.tape[0].tape, "0010_");
    assert_eq!(id.tape[0].head, 4);
    assert_eq!(id.tape[0].range, 0..5);
    assert!(machine.is_final());
}

#[test]
fn fewer_wildcards_win() {
    let m = model(vec![
        state("q0", true, false, vec![trans(".", "x", "S", "wild"), trans("a", "y", "S", "lit")]),
        state("wild", false, false, vec![]),
        state("lit", false, true, vec![]),
    ]);
    let mut machine = Machine::new(m).unwrap();
    machine.input("a");
    assert_eq!(machine.run_once(), Ok(false));
    let id = machine.identifier();
    assert_eq!(id.current_state, "lit");
    assert_eq!(id.tape[0].tape, "y");
}

#[test]
fn equal_wildcards_take_the_first_declared() {
    let m = model(vec![
        state("q0", true, false, vec![trans("*", "x", "S", "first"), trans(".", "y", "S", "second")]),
        state("first", false, false, vec![]),
        state("second", false, false, vec![]),
    ]);
    let mut machine = Machine::new(m).unwrap();
    machine.input("a");
    assert_eq!(machine.run_once(), Ok(false));
    assert_eq!(machine.identifier().current_state, "first");
}

#[test]
fn empty_input_runs_without_panic() {
    let mut machine = Machine::new(flip_model()).unwrap();
    machine.input("");
    assert_eq!(machine.run(), Ok(false));
    let id = machine.identifier();
    assert_eq!(id.current_state, "q0");
    assert_eq!(id.tape[0].tape, "");
    assert_eq!(id.tape[0].head, 0);
    assert_eq!(id.tape[0].range, 0..1);
}

#[test]
fn bad_direction_letter_is_rejected() {
    let m = model(vec![state("q0", true, false, vec![trans("0", "1", "X", "q0")])]);
    assert_eq!(error_of(m), SyntaxErrorType::TransitionDirectionNotFound);
}

#[test]
fn consume_produce_length_mismatch_is_rejected() {
    let m = model(vec![state("q0", true, false, vec![trans("01", "1", "RR", "q0")])]);
    assert_eq!(error_of(m), SyntaxErrorType::TransitionConsumeProduceNotMatch);
}

#[test]
fn move_length_mismatch_is_rejected() {
    let m = model(vec![state("q0", true, false, vec![trans("01", "10", "R", "q0")])]);
    assert_eq!(error_of(m), SyntaxErrorType::TransitionConsumeProduceNotMatch);
}

#[test]
fn length_mismatch_is_reported_before_a_bad_letter() {
    let m = model(vec![state("q0", true, false, vec![trans("01", "1", "X", "q0")])]);
    assert_eq!(error_of(m), SyntaxErrorType::TransitionConsumeProduceNotMatch);
}

#[test]
fn missing_start_state_is_rejected() {
    let m = model(vec![state("q0", false, true, vec![])]);
    assert_eq!(error_of(m), SyntaxErrorType::StartStateError);
}

#[test]
fn two_start_states_are_rejected() {
    let m = model(vec![state("a", true, false, vec![]), state("b", true, false, vec![])]);
    assert_eq!(error_of(m), SyntaxErrorType::StartStateError);
}

#[test]
fn later_state_replaces_one_of_the_same_name() {
    let m = model(vec![
        state("q0", true, false, vec![]),
        state("q0", true, true, vec![]),
    ]);
    let mut machine = Machine::new(m).unwrap();
    machine.input("");
    assert!(machine.is_final());
    assert_eq!(machine.model().state.len(), 1);
}

#[test]
fn missing_next_state_fails_the_step() {
    let m = model(vec![state("q0", true, false, vec![trans("a", "b", "R", "nowhere")])]);
    let mut machine = Machine::new(m).unwrap();
    machine.input("a");
    assert_eq!(machine.run_once(), Err(MachineRunningError::NextStateNotFound));
    let id = machine.identifier();
    assert_eq!(id.current_state, "q0");
    assert_eq!(id.tape[0].tape, "a");
    assert_eq!(machine.run(), Err(MachineRunningError::NextStateNotFound));
}

#[test]
fn halting_step_changes_nothing() {
    let mut machine = Machine::new(flip_model()).unwrap();
    machine.input("x1");
    let before = machine.identifier();
    assert_eq!(machine.run_once(), Ok(true));
    let after = machine.identifier();
    assert_eq!(before.current_state, after.current_state);
    assert_eq!(before.tape[0].tape, after.tape[0].tape);
    assert_eq!(before.tape[0].head, after.tape[0].head);
    assert_eq!(before.tape[0].range, after.tape[0].range);
    assert!(!machine.is_final());
}

#[test]
fn fresh_runs_agree() {
    let mut a = Machine::new(flip_model()).unwrap();
    let mut b = Machine::new(flip_model()).unwrap();
    a.input("0110");
    b.input("0110");
    assert_eq!(a.run(), b.run());
    let (ia, ib) = (a.identifier(), b.identifier());
    assert_eq!(ia.current_state, ib.current_state);
    assert_eq!(ia.tape[0].tape, ib.tape[0].tape);
    assert_eq!(ia.tape[0].head, ib.tape[0].head);
    assert_eq!(ia.tape[0].range, ib.tape[0].range);
}

#[test]
fn two_tape_machine_copies_its_input() {
    let m = model(vec![
        state("copy", true, false, vec![trans("*_", "**", "RR", "copy"), trans("__", "__", "SS", "done")]),
        state("done", false, true, vec![]),
    ]);
    let mut machine = Machine::new(m).unwrap();
    machine.input("ab");
    let id = machine.identifier();
    assert_eq!(id.tape.len(), 2);
    assert_eq!(id.tape[1].tape, "");
    assert_eq!(machine.run(), Ok(true));
    let id = machine.identifier();
    assert_eq!(id.current_state, "done");
    assert_eq!(id.tape[0].tape, "ab_");
    assert_eq!(id.tape[1].tape, "**_");
}

#[test]
fn wildcard_keeps_the_cell_when_consume_equals_produce() {
    let m = model(vec![
        state("q0", true, false, vec![trans("*", "*", "R", "q0"), trans("_", "!", "L", "end")]),
        state("end", false, true, vec![]),
    ]);
    let mut machine = Machine::new(m).unwrap();
    machine.input("xyz");
    assert_eq!(machine.run(), Ok(true));
    let id = machine.identifier();
    assert_eq!(id.tape[0].tape, "xyz!");
    assert_eq!(id.tape[0].head, 2);
}

#[test]
fn lower_case_direction_letters_are_accepted() {
    let m = model(vec![
        state("q0", true, false, vec![trans("a", "b", "r", "q1")]),
        state("q1", false, true, vec![trans("_", "c", "s", "q2")]),
        state("q2", false, true, vec![]),
    ]);
    let mut machine = Machine::new(m).unwrap();
    machine.input("a");
    assert_eq!(machine.run(), Ok(true));
    let id = machine.identifier();
    assert_eq!(id.current_state, "q2");
    assert_eq!(id.tape[0].tape, "bc");
    let text = machine.model();
    let q0 = text.state.iter().find(|s| s.name == "q0").unwrap();
    assert_eq!(q0.trans[0].next_direction, "R");
    assert_eq!(q0.trans[0].cons, "a");
    assert_eq!(q0.trans[0].prod, "b");
}

#[test]
fn reset_goes_back_to_the_start() {
    let mut machine = Machine::new(flip_model()).unwrap();
    machine.input("1");
    assert_eq!(machine.run(), Ok(true));
    machine.reset();
    assert_eq!(machine.identifier().current_state, "q0");
    assert_eq!(machine.identifier().tape.len(), 0);
    machine.input("0");
    assert_eq!(machine.run(), Ok(true));
    assert_eq!(machine.identifier().tape[0].tape, "1_");
}

#[test]
fn custom_wildcards_are_used() {
    let m = MachineModel {
        state: vec![
            state("q0", true, false, vec![trans("?", "_", "R", "q0"), trans("#", "#", "S", "end")]),
            state("end", false, true, vec![]),
        ],
        pattern_config: PatternConfig { empty: '#', some_wildcard: '?', any: '%' },
    };
    let mut machine = Machine::new(m).unwrap();
    machine.input("ab");
    assert_eq!(machine.run(), Ok(true));
    let id = machine.identifier();
    assert_eq!(id.current_state, "end");
    assert_eq!(id.tape[0].tape, "__#");
}

#[test]
fn patterns_classify_and_match() {
    let config = PatternConfig::default();
    let ps = config.parse(&['a', '_', '*', '.']);
    assert_eq!(
        ps,
        vec![
            SymbolPattern::Literal('a'),
            SymbolPattern::RequireBlank,
            SymbolPattern::RequireNonBlank,
            SymbolPattern::MatchAny,
        ]
    );
    assert!(ps[0].match_input(Some('a')));
    assert!(!ps[0].match_input(Some('b')));
    assert!(ps[1].match_input(None));
    assert!(!ps[1].match_input(Some('a')));
    assert!(ps[2].match_input(Some('a')));
    assert!(!ps[2].match_input(None));
    assert!(ps[3].match_input(None));
    assert_eq!(ps[0].action('a', 'a'), PatternAction::Replace('a'));
    assert_eq!(ps[3].action('.', '.'), PatternAction::Keep);
    assert_eq!(ps[3].action('.', 'x'), PatternAction::Replace('x'));
    assert_eq!(PatternAction::new(true, 'q'), PatternAction::Keep);
    assert_eq!(trm_sim::pattern::count_wildcards(&ps), 3);
}
