//! The machine: its states, its tapes and the state it is in.

use vstd::prelude::*;

use crate::error::{MachineRunningError, SyntaxError, SyntaxErrorType};
use crate::pattern::{count_wildcards, PatternAction, PatternConfig};
use crate::semantics::{
    apply, apply_one, input_tapes, last_start, lemma_last_start, lemma_merge_keeps_wf, lemma_most_specific_wins,
    lemma_state_index_at, max_arity, merge, merge_all, names_unique, pick, reads, run_spec,
    start_count, state_index, states_arity, steps_to, transitions_wf, MachineView, ModelText,
};
use crate::state::{state_text_of, State, StateSerde, StateView};
use crate::tape::{fresh_tape, FrozenTape, Tape, TapeView};
use crate::transition::Transition;

verus! {

/// A model as text gives it: states with unvalidated transitions, and the
/// wildcard characters.
#[derive(Debug, Clone)]
pub struct MachineModel {
    pub state: Vec<StateSerde>,
    pub pattern_config: PatternConfig,
}

impl View for MachineModel {
    type V = ModelText;

    open spec fn view(&self) -> ModelText {
        ModelText {
            states: self.state@.map_values(|s: StateSerde| s@),
            config: self.pattern_config,
        }
    }
}

/// A read-only snapshot of a machine: its current state and one frozen
/// snapshot per tape.
#[derive(Debug, Clone)]
pub struct MachineIdentifier {
    pub current_state: String,
    pub tape: Vec<FrozenTape>,
}

/// A Turing machine with any number of tapes.
#[derive(Debug)]
pub struct Machine {
    /// The states, no two with the same name.
    states: Vec<State>,
    start_state: String,
    current_state: String,
    tape: Vec<Tape>,
    /// Number of tapes that an input sets up.
    tape_num: usize,
    pattern_config: PatternConfig,
}

pub open spec fn state_views(v: Seq<State>) -> Seq<StateView> {
    v.map_values(|s: State| s@)
}

pub open spec fn tape_views(v: Seq<Tape>) -> Seq<TapeView> {
    v.map_values(|t: Tape| t@)
}

impl View for Machine {
    type V = MachineView;

    closed spec fn view(&self) -> MachineView {
        MachineView {
            states: state_views(self.states@),
            start: self.start_state@,
            current: self.current_state@,
            tapes: tape_views(self.tape@),
            tape_num: self.tape_num as nat,
            config: self.pattern_config,
        }
    }
}

/// Index of the state called `name`.
fn find_state(states: &Vec<State>, name: &String) -> (r: Option<usize>)
    requires
        names_unique(state_views(states@)),
    ensures
        r matches Some(i) ==> i < states@.len() && state_index(state_views(states@), name@) == Some(
            i as int,
        ),
        r is None ==> state_index(state_views(states@), name@) is None,
{
    let ghost sv = state_views(states@);
    let mut i: usize = 0;
    while i < states.len()
        invariant
            i <= states@.len(),
            sv == state_views(states@),
            names_unique(sv),
            forall|j: int| 0 <= j < i ==> sv[j].name != name@,
        decreases states@.len() - i,
    {
        if states[i].name == *name {
            proof {
                lemma_state_index_at(sv, name@, i as int);
            }
            return Some(i);
        }
        i += 1;
    }
    None
}

/// Whether `t` fits the symbols under the heads.
fn transition_fits(t: &Transition, tapes: &Vec<Tape>) -> (r: bool)
    requires
        forall|i: int| 0 <= i < tapes@.len() ==> (#[trigger] tapes@[i])@.wf(),
    ensures
        r == t@.accepts(reads(tape_views(tapes@))),
{
    let ghost rd = reads(tape_views(tapes@));
    if t.consume_pattern.len() != tapes.len() {
        return false;
    }
    let mut i: usize = 0;
    while i < tapes.len()
        invariant
            i <= tapes@.len(),
            t.consume_pattern@.len() == tapes@.len(),
            rd == reads(tape_views(tapes@)),
            forall|i: int| 0 <= i < tapes@.len() ==> (#[trigger] tapes@[i])@.wf(),
            forall|j: int| 0 <= j < i ==> #[trigger] t@.patterns[j].accepts(rd[j]),
        decreases tapes@.len() - i,
    {
        assert(rd[i as int] == tapes@[i as int]@.read());
        if !t.consume_pattern[i].match_input(tapes[i].read()) {
            return false;
        }
        i += 1;
    }
    true
}

impl Machine {
    /// Which transition of `state` to take: among those that fit the symbols
    /// under the heads, the one with the fewest wildcard positions, the first
    /// declared among equals.
    fn find_state_transition(state: &State, tapes: &Vec<Tape>) -> (r: Option<usize>)
        requires
            forall|i: int| 0 <= i < tapes@.len() ==> (#[trigger] tapes@[i])@.wf(),
        ensures
            r matches Some(k) ==> pick(
                state@.transitions,
                reads(tape_views(tapes@)),
                state@.transitions.len() as int,
            ) == Some(k as int),
            r is None ==> pick(
                state@.transitions,
                reads(tape_views(tapes@)),
                state@.transitions.len() as int,
            ) is None,
    {
        let ghost ts = state@.transitions;
        let ghost rd = reads(tape_views(tapes@));
        let mut best: Option<usize> = None;
        let mut best_wc: usize = 0;
        let mut i: usize = 0;
        while i < state.transitions.len()
            invariant
                i <= ts.len(),
                ts == state@.transitions,
                rd == reads(tape_views(tapes@)),
                forall|i: int| 0 <= i < tapes@.len() ==> (#[trigger] tapes@[i])@.wf(),
                match best {
                    Some(b) => pick(ts, rd, i as int) == Some(b as int) && b < i && best_wc
                        == ts[b as int].wildcards(),
                    None => pick(ts, rd, i as int) is None,
                },
            decreases ts.len() - i,
        {
            let t = &state.transitions[i];
            if transition_fits(t, tapes) {
                let wc = count_wildcards(&t.consume_pattern);
                match best {
                    None => {
                        best = Some(i);
                        best_wc = wc;
                    },
                    Some(_) => {
                        if wc < best_wc {
                            best = Some(i);
                            best_wc = wc;
                        }
                    },
                }
            }
            i += 1;
        }
        best
    }

    /// Takes one step. Returns `Ok(true)` when no transition fits (the
    /// machine halts and nothing changes), `Ok(false)` after a step, and
    /// `NextStateNotFound` when the chosen transition leads to a state that
    /// does not exist (nothing changes).
    pub fn run_once(&mut self) -> (r: Result<bool, MachineRunningError>)
        requires
            old(self)@.wf(),
            old(self)@.has_room(),
        ensures
            final(self)@.wf(),
            steps_to(old(self)@, final(self)@, r),
    {
        let ghost m = self@;
        let si = match find_state(&self.states, &self.current_state) {
            Some(i) => i,
            None => {
                return Err(MachineRunningError::NextStateNotFound);
            },
        };
        assert forall|j: int| 0 <= j < self.tape@.len() implies (#[trigger] self.tape@[j])@.wf() by {
            assert(m.tapes[j].wf());
        }
        proof {
            lemma_most_specific_wins(
                m.states[si as int].transitions,
                reads(m.tapes),
                m.states[si as int].transitions.len() as int,
            );
        }
        let k = match Machine::find_state_transition(&self.states[si], &self.tape) {
            Some(k) => k,
            None => {
                return Ok(true);
            },
        };
        let ghost tr = m.states[si as int].transitions[k as int];
        assert(tr.wf(m.config));
        match find_state(&self.states, &self.states[si].transitions[k].next_state_name) {
            Some(_) => {},
            None => {
                return Err(MachineRunningError::NextStateNotFound);
            },
        }
        let n = self.tape.len();
        let mut i: usize = 0;
        while i < n
            invariant
                n == self.tape@.len(),
                n == m.tapes.len(),
                m.has_room(),
                i <= n,
                m == old(self)@,
                self.states == old(self).states,
                self.start_state == old(self).start_state,
                self.current_state == old(self).current_state,
                self.tape_num == old(self).tape_num,
                self.pattern_config == old(self).pattern_config,
                si < self.states@.len(),
                k < self.states@[si as int].transitions@.len(),
                tr == self.states@[si as int].transitions@[k as int]@,
                tr.wf(m.config),
                tr.patterns.len() == n,
                forall|j: int| 0 <= j < n ==> (#[trigger] self.tape@[j])@.wf(),
                forall|j: int|
                    0 <= j < i ==> (#[trigger] self.tape@[j])@ == apply_one(m.tapes[j], tr, j),
                forall|j: int| i <= j < n ==> (#[trigger] self.tape@[j])@ == m.tapes[j],
            decreases n - i,
        {
            let t = &self.states[si].transitions[k];
            let act = t.consume_pattern[i].action(t.consume[i], t.produce[i]);
            let dir = t.direction[i];
            assert(m.tapes[i as int].has_room());
            match act {
                PatternAction::Keep => {},
                PatternAction::Replace(c) => {
                    self.tape[i].write(c);
                },
            }
            self.tape[i].move_to(dir);
            i += 1;
        }
        self.current_state = self.states[si].transitions[k].next_state_name.clone();
        assert(tape_views(self.tape@) =~= apply(m.tapes, tr));
        Ok(false)
    }

    /// Whether the current state is a final state.
    pub fn is_final(&self) -> (r: bool)
        requires
            self@.wf(),
        ensures
            r == self@.is_final(),
    {
        match find_state(&self.states, &self.current_state) {
            Some(i) => self.states[i].is_final,
            None => false,
        }
    }

    /// Builds a machine from a model: every transition of every state is
    /// validated (the first fault is reported), a later state replaces an
    /// earlier one of the same name, and exactly one state must be a start
    /// state. The machine starts in that state with no tapes; an input sets
    /// up as many tapes as the largest arity of a transition, at least one.
    pub fn new(model: MachineModel) -> (r: Result<Machine, SyntaxError>)
        ensures
            r matches Ok(m) ==> model@.is_valid() && model@.has_one_start() && m@ == model@.built()
                && m@.wf(),
            r matches Err(e) ==> (!model@.is_valid() && model@.rejects_with(e.error_type)) || (
            model@.is_valid() && !model@.has_one_start() && e.error_type is StartStateError),
    {
        let config = model.pattern_config;
        let ghost text = model@;
        let ghost svs = text.state_views();
        let mut states: Vec<State> = Vec::new();
        let mut i: usize = 0;
        while i < model.state.len()
            invariant
                i <= model.state@.len(),
                text == model@,
                svs == text.state_views(),
                config == text.config,
                forall|j: int| 0 <= j < i ==> (#[trigger] text.states[j]).is_valid(),
                state_views(states@) == merge_all(svs.subrange(0, i as int)),
                names_unique(state_views(states@)),
                transitions_wf(state_views(states@), config),
            decreases model.state@.len() - i,
        {
            let s = match model.state[i].validate(config) {
                Ok(s) => s,
                Err(e) => {
                    assert(!text.states[i as int].is_valid());
                    return Err(e);
                },
            };
            let ghost before = state_views(states@);
            let ghost sv = s@;
            proof {
                assert(sv == svs[i as int]);
                assert forall|k: int| 0 <= k < sv.transitions.len() implies (
                #[trigger] sv.transitions[k]).wf(config) by {
                    assert(text.states[i as int].trans[k].is_valid());
                }
                lemma_merge_keeps_wf(before, sv, config);
                assert(svs.subrange(0, i + 1).drop_last() =~= svs.subrange(0, i as int));
            }
            match find_state(&states, &s.name) {
                Some(k) => {
                    states.set(k, s);
                },
                None => {
                    states.push(s);
                },
            }
            assert(state_views(states@) =~= merge(before, sv));
            i += 1;
        }
        assert(svs.subrange(0, i as int) =~= svs);
        let ghost ss = state_views(states@);
        let mut count: usize = 0;
        let mut idx: usize = 0;
        let mut j: usize = 0;
        while j < states.len()
            invariant
                j <= states@.len(),
                ss == state_views(states@),
                count <= j,
                count == start_count(ss.subrange(0, j as int)),
                count == 0 <==> last_start(ss.subrange(0, j as int)) == -1,
                count > 0 ==> idx == last_start(ss.subrange(0, j as int)) && idx < j,
            decreases states@.len() - j,
        {
            assert(ss.subrange(0, j + 1).drop_last() =~= ss.subrange(0, j as int));
            if states[j].is_start {
                count += 1;
                idx = j;
            }
            j += 1;
        }
        assert(ss.subrange(0, j as int) =~= ss);
        if count != 1 {
            let mut message = String::new();
            message.append("the model must have exactly one start state");
            return Err(SyntaxError { error_type: SyntaxErrorType::StartStateError, message });
        }
        let a = states_max_arity(&states);
        let tape_num: usize = if a == 0 {
            1
        } else {
            a
        };
        let start_state = states[idx].name.clone();
        let current_state = states[idx].name.clone();
        proof {
            lemma_last_start(ss);
            lemma_state_index_at(ss, ss[idx as int].name, idx as int);
        }
        let m = Machine {
            states,
            start_state,
            current_state,
            tape: Vec::new(),
            tape_num,
            pattern_config: config,
        };
        assert(tape_views(m.tape@) =~= Seq::<TapeView>::empty());
        Ok(m)
    }

    /// Goes back to the start state and drops the tapes.
    pub fn reset(&mut self)
        requires
            old(self)@.wf(),
        ensures
            final(self)@ == (MachineView {
                current: old(self)@.start,
                tapes: Seq::empty(),
                ..old(self)@
            }),
            final(self)@.wf(),
    {
        self.current_state = self.start_state.clone();
        self.tape.clear();
        assert(tape_views(self.tape@) =~= Seq::empty());
    }

    /// The current state and a snapshot of each tape, with the model's blank
    /// marker as the blank character.
    pub fn identifier(&self) -> (r: MachineIdentifier)
        requires
            self@.wf(),
        ensures
            r.current_state@ == self@.current,
            r.tape@.len() == self@.tapes.len(),
            forall|i: int|
                0 <= i < self@.tapes.len() ==> (#[trigger] r.tape@[i]).is_snapshot_of(
                    self@.tapes[i],
                    self@.config.empty,
                ),
    {
        let ghost m = self@;
        let mut tape: Vec<FrozenTape> = Vec::new();
        let mut i: usize = 0;
        while i < self.tape.len()
            invariant
                m == self@,
                m.wf(),
                i <= self.tape@.len(),
                tape@.len() == i,
                forall|j: int|
                    0 <= j < i ==> (#[trigger] tape@[j]).is_snapshot_of(m.tapes[j], m.config.empty),
            decreases self.tape@.len() - i,
        {
            assert(m.tapes[i as int].wf());
            tape.push(self.tape[i].freeze(self.pattern_config.empty));
            i += 1;
        }
        MachineIdentifier { current_state: self.current_state.clone(), tape }
    }

    /// Sets up the tapes for a run: `input` on the first tape, the others
    /// blank; the current state is left as it is.
    pub fn input(&mut self, input: &str)
        requires
            old(self)@.wf(),
            input@.len() <= isize::MAX,
        ensures
            final(self)@ == (MachineView {
                tapes: input_tapes(input@, old(self)@.tape_num),
                ..old(self)@
            }),
            final(self)@.wf(),
    {
        let mut tapes: Vec<Tape> = Vec::new();
        tapes.push(Tape::new(input));
        let mut i: usize = 1;
        while i < self.tape_num
            invariant
                1 <= i <= self.tape_num,
                self.tape_num >= 1,
                tapes@.len() == i,
                forall|j: int| 0 <= j < i ==> (#[trigger] tapes@[j])@ == input_tapes(input@, i as nat)[j],
            decreases self.tape_num - i,
        {
            proof {
                reveal_strlit("");
                assert(""@.len() == 0);
                assert(fresh_tape(""@) == fresh_tape(Seq::empty()));
            }
            let ghost prev = tapes@;
            let blank = Tape::new("");
            assert(blank@ == fresh_tape(Seq::empty()));
            tapes.push(blank);
            assert(tapes@[i as int]@ == input_tapes(input@, (i + 1) as nat)[i as int]);
            assert forall|j: int| 0 <= j < i implies tapes@[j]@ == input_tapes(
                input@,
                (i + 1) as nat,
            )[j] by {
                assert(tapes@[j] == prev[j]);
                assert(prev[j]@ == input_tapes(input@, i as nat)[j]);
            }
            i += 1;
        }
        self.tape = tapes;
        assert(tape_views(self.tape@) =~= input_tapes(input@, self.tape_num as nat));
    }

    /// Whether every tape can store one more cell, as a step requires.
    pub fn has_room(&self) -> (r: bool)
        requires
            self@.wf(),
        ensures
            r == self@.has_room(),
    {
        let ghost m = self@;
        let mut i: usize = 0;
        while i < self.tape.len()
            invariant
                m == self@,
                m.wf(),
                i <= self.tape@.len(),
                forall|j: int| 0 <= j < i ==> (#[trigger] m.tapes[j]).has_room(),
            decreases self.tape@.len() - i,
        {
            assert(m.tapes[i as int].wf());
            if !self.tape[i].has_room() {
                return false;
            }
            i += 1;
        }
        true
    }

    /// Steps until no transition fits, and returns whether the state it
    /// halted in is final; fails as soon as a step leads to a missing state.
    /// The loop also ends after `u64::MAX` steps, or when a tape could not
    /// store one more cell: bounds that no real run reaches.
    pub fn run(&mut self) -> (r: Result<bool, MachineRunningError>)
        requires
            old(self)@.wf(),
        ensures
            final(self)@.wf(),
            (final(self)@, r) == run_spec(old(self)@, u64::MAX as nat),
    {
        let mut fuel: u64 = u64::MAX;
        loop
            invariant
                self@.wf(),
                run_spec(self@, fuel as nat) == run_spec(old(self)@, u64::MAX as nat),
            decreases fuel,
        {
            if fuel == 0 || !self.has_room() {
                return Ok(self.is_final());
            }
            let ghost before = self@;
            match self.run_once() {
                Err(e) => {
                    return Err(e);
                },
                Ok(true) => {
                    return Ok(self.is_final());
                },
                Ok(false) => {},
            }
            assert(before.step() is Next);
            fuel = fuel - 1;
        }
    }

    /// The model of this machine: its states as text, and its wildcard
    /// characters.
    pub fn model(&self) -> (r: MachineModel)
        ensures
            r@ == (ModelText {
                states: self@.states.map_values(|s: StateView| state_text_of(s)),
                config: self@.config,
            }),
    {
        let ghost m = self@;
        let mut state: Vec<StateSerde> = Vec::new();
        let mut i: usize = 0;
        while i < self.states.len()
            invariant
                m == self@,
                i <= self.states@.len(),
                state@.len() == i,
                forall|j: int| 0 <= j < i ==> (#[trigger] state@[j])@ == state_text_of(m.states[j]),
            decreases self.states@.len() - i,
        {
            state.push(StateSerde::from_state(&self.states[i]));
            i += 1;
        }
        let r = MachineModel { state, pattern_config: self.pattern_config };
        assert(r@.states =~= m.states.map_values(|s: StateView| state_text_of(s)));
        r
    }
}

/// The largest arity among the transitions of `ts`, or 0.
fn transitions_max_arity(ts: &Vec<Transition>) -> (r: usize)
    ensures
        r == max_arity(ts@.map_values(|t: Transition| t@)),
{
    let ghost tv = ts@.map_values(|t: Transition| t@);
    let mut a: usize = 0;
    let mut i: usize = 0;
    while i < ts.len()
        invariant
            i <= ts@.len(),
            tv == ts@.map_values(|t: Transition| t@),
            a == max_arity(tv.subrange(0, i as int)),
        decreases ts@.len() - i,
    {
        assert(tv.subrange(0, i + 1).drop_last() =~= tv.subrange(0, i as int));
        let n = ts[i].consume.len();
        if n > a {
            a = n;
        }
        i += 1;
    }
    assert(tv.subrange(0, i as int) =~= tv);
    a
}

/// The largest arity among the transitions of `states`, or 0.
fn states_max_arity(states: &Vec<State>) -> (r: usize)
    ensures
        r == states_arity(state_views(states@)),
{
    let ghost sv = state_views(states@);
    let mut a: usize = 0;
    let mut i: usize = 0;
    while i < states.len()
        invariant
            i <= states@.len(),
            sv == state_views(states@),
            a == states_arity(sv.subrange(0, i as int)),
        decreases states@.len() - i,
    {
        assert(sv.subrange(0, i + 1).drop_last() =~= sv.subrange(0, i as int));
        let b = transitions_max_arity(&states[i].transitions);
        if b > a {
            a = b;
        }
        i += 1;
    }
    assert(sv.subrange(0, i as int) =~= sv);
    a
}

} // verus!
