//! The meaning of a machine: its mathematical picture, which transition a
//! configuration selects, what one step does, and what a run ends in.

use vstd::prelude::*;

use crate::error::MachineRunningError;
use crate::pattern::{PatternAction, PatternConfig};
use crate::state::{StateText, StateView};
use crate::tape::{fresh_tape, TapeView};
use crate::transition::TransitionView;

verus! {

/// The mathematical picture of a machine.
pub struct MachineView {
    pub states: Seq<StateView>,
    pub start: Seq<char>,
    pub current: Seq<char>,
    pub tapes: Seq<TapeView>,
    /// Number of tapes that an input sets up.
    pub tape_num: nat,
    pub config: PatternConfig,
}

/// What one step from a configuration comes to.
pub enum StepOutcome {
    /// No transition fits: the machine halts, nothing changes.
    Halt,
    /// The current state, or the state the chosen transition leads to, does not exist.
    Missing,
    /// The configuration after the step.
    Next(MachineView),
}

/// No two states share a name.
pub open spec fn names_unique(states: Seq<StateView>) -> bool {
    forall|i: int, j: int|
        0 <= i < states.len() && 0 <= j < states.len() && i != j ==> #[trigger] states[i].name
            != #[trigger] states[j].name
}

/// With unique names, the state called `name` is the one at `i`.
pub proof fn lemma_state_index_at(states: Seq<StateView>, name: Seq<char>, i: int)
    requires
        names_unique(states),
        0 <= i < states.len(),
        states[i].name == name,
    ensures
        state_index(states, name) == Some(i),
{
    assert(exists|j: int| 0 <= j < states.len() && (#[trigger] states[j].name) == name);
    let c = choose|j: int| 0 <= j < states.len() && (#[trigger] states[j].name) == name;
    assert(states[c].name == states[i].name);
}

/// Every transition of every state is well formed under `config`.
pub open spec fn transitions_wf(states: Seq<StateView>, config: PatternConfig) -> bool {
    forall|i: int, k: int|
        0 <= i < states.len() && 0 <= k < states[i].transitions.len()
            ==> (#[trigger] states[i].transitions[k]).wf(config)
}

/// Index of the state called `name`, if there is one.
pub open spec fn state_index(states: Seq<StateView>, name: Seq<char>) -> Option<int> {
    if exists|i: int| 0 <= i < states.len() && (#[trigger] states[i].name) == name {
        Some(choose|i: int| 0 <= i < states.len() && (#[trigger] states[i].name) == name)
    } else {
        None
    }
}

/// The symbols under the heads.
pub open spec fn reads(tapes: Seq<TapeView>) -> Seq<Option<char>> {
    tapes.map_values(|t: TapeView| t.read())
}

/// Among the first `n` transitions of `ts`, the index of the one a step takes:
/// it fits `reads`, has the fewest wildcard positions, and comes first among
/// those with as few.
pub open spec fn pick(ts: Seq<TransitionView>, reads: Seq<Option<char>>, n: int) -> Option<int>
    decreases n,
{
    if n <= 0 {
        None
    } else {
        let prev = pick(ts, reads, n - 1);
        if ts[n - 1].accepts(reads) && (prev is None || ts[n - 1].wildcards()
            < ts[prev->0].wildcards()) {
            Some(n - 1)
        } else {
            prev
        }
    }
}

/// The transition that a step takes fits the symbols under the heads; no
/// fitting transition has fewer wildcard positions, and every fitting
/// transition declared before it has more. When none fits, none is taken.
pub proof fn lemma_most_specific_wins(ts: Seq<TransitionView>, reads: Seq<Option<char>>, n: int)
    requires
        0 <= n <= ts.len(),
    ensures
        pick(ts, reads, n) matches Some(k) ==> {
            &&& 0 <= k < n
            &&& ts[k].accepts(reads)
            &&& forall|j: int|
                0 <= j < n && #[trigger] ts[j].accepts(reads) ==> ts[k].wildcards()
                    <= ts[j].wildcards()
            &&& forall|j: int|
                0 <= j < k && #[trigger] ts[j].accepts(reads) ==> ts[j].wildcards()
                    > ts[k].wildcards()
        },
        pick(ts, reads, n) is None <==> forall|j: int|
            0 <= j < n ==> !#[trigger] ts[j].accepts(reads),
    decreases n,
{
    if n > 0 {
        lemma_most_specific_wins(ts, reads, n - 1);
    }
}

/// What a transition does to tape `i`: write (unless its action keeps the
/// cell), then move.
pub open spec fn apply_one(t: TapeView, tr: TransitionView, i: int) -> TapeView {
    let written = match tr.patterns[i].action_spec(tr.consume[i], tr.produce[i]) {
        PatternAction::Keep => t,
        PatternAction::Replace(c) => t.write(Some(c)),
    };
    written.move_to(tr.direction[i])
}

/// What a transition does to all tapes.
pub open spec fn apply(tapes: Seq<TapeView>, tr: TransitionView) -> Seq<TapeView> {
    Seq::new(tapes.len(), |i: int| apply_one(tapes[i], tr, i))
}

/// The tapes that an input sets up: the input on the first, the others blank.
pub open spec fn input_tapes(s: Seq<char>, n: nat) -> Seq<TapeView> {
    Seq::new(n, |i: int| if i == 0 { fresh_tape(s) } else { fresh_tape(Seq::empty()) })
}

impl MachineView {
    pub open spec fn current_index(self) -> Option<int> {
        state_index(self.states, self.current)
    }

    /// Index, among the current state's transitions, of the one a step takes.
    pub open spec fn chosen(self) -> Option<int> {
        match self.current_index() {
            Some(si) => pick(
                self.states[si].transitions,
                reads(self.tapes),
                self.states[si].transitions.len() as int,
            ),
            None => None,
        }
    }

    pub open spec fn step(self) -> StepOutcome {
        match self.current_index() {
            None => StepOutcome::Missing,
            Some(si) => match self.chosen() {
                None => StepOutcome::Halt,
                Some(k) => {
                    let tr = self.states[si].transitions[k];
                    if state_index(self.states, tr.next) is Some {
                        StepOutcome::Next(
                            MachineView {
                                current: tr.next,
                                tapes: apply(self.tapes, tr),
                                ..self
                            },
                        )
                    } else {
                        StepOutcome::Missing
                    }
                },
            },
        }
    }

    /// No transition fits the current configuration.
    pub open spec fn halted(self) -> bool {
        self.step() is Halt
    }

    pub open spec fn is_final(self) -> bool {
        match self.current_index() {
            Some(i) => self.states[i].is_final,
            None => false,
        }
    }

    /// Every tape can store one more cell.
    pub open spec fn has_room(self) -> bool {
        forall|i: int| 0 <= i < self.tapes.len() ==> (#[trigger] self.tapes[i]).has_room()
    }

    pub open spec fn wf(self) -> bool {
        &&& names_unique(self.states)
        &&& self.current_index() is Some
        &&& state_index(self.states, self.start) is Some
        &&& start_count(self.states) == 1
        &&& self.states[state_index(self.states, self.start)->0].is_start
        &&& transitions_wf(self.states, self.config)
        &&& self.tape_num >= 1
        &&& forall|i: int| 0 <= i < self.tapes.len() ==> (#[trigger] self.tapes[i]).wf()
    }
}

/// `r` and `after` are what one step from `before` returns and leaves: on a
/// halt `Ok(true)` and no change, on a missing state the error and no change,
/// else `Ok(false)` and the next configuration.
pub open spec fn steps_to(
    before: MachineView,
    after: MachineView,
    r: Result<bool, MachineRunningError>,
) -> bool {
    match before.step() {
        StepOutcome::Halt => r == Ok::<bool, MachineRunningError>(true) && after == before,
        StepOutcome::Missing => r == Err::<bool, MachineRunningError>(
            MachineRunningError::NextStateNotFound,
        ) && after == before,
        StepOutcome::Next(n) => r == Ok::<bool, MachineRunningError>(false) && after == n,
    }
}

/// Where a run that may take `fuel` more steps ends, and what it returns: it
/// stops when the machine halts (returning whether the state is final), when
/// the next state is missing, or when the fuel or a tape's room runs out.
pub open spec fn run_spec(m: MachineView, fuel: nat) -> (MachineView, Result<
    bool,
    MachineRunningError,
>)
    decreases fuel,
{
    if fuel == 0 || !m.has_room() {
        (m, Ok(m.is_final()))
    } else {
        match m.step() {
            StepOutcome::Halt => (m, Ok(m.is_final())),
            StepOutcome::Missing => (m, Err(MachineRunningError::NextStateNotFound)),
            StepOutcome::Next(n) => run_spec(n, (fuel - 1) as nat),
        }
    }
}

/// When no transition of the current state fits, a step halts: it returns
/// `Ok(true)` and changes nothing.
pub proof fn lemma_no_fit_halts(m: MachineView)
    requires
        m.wf(),
        forall|k: int|
            0 <= k < m.states[m.current_index()->0].transitions.len() ==> !(
            #[trigger] m.states[m.current_index()->0].transitions[k]).accepts(reads(m.tapes)),
    ensures
        m.halted(),
        forall|after: MachineView, r: Result<bool, MachineRunningError>|
            #[trigger] steps_to(m, after, r) <==> (r == Ok::<bool, MachineRunningError>(true)
                && after == m),
{
    let si = m.current_index()->0;
    let ts = m.states[si].transitions;
    lemma_most_specific_wins(ts, reads(m.tapes), ts.len() as int);
}

/// The machine that a model builds, once `s` is put on its tapes.
pub open spec fn loaded(model: ModelText, s: Seq<char>) -> MachineView {
    let m = model.built();
    MachineView { tapes: input_tapes(s, m.tape_num), ..m }
}

/// Runs are deterministic: two machines built from the same model and given
/// the same input end their runs in the same configuration with the same
/// result.
pub proof fn lemma_runs_agree(model: ModelText, s: Seq<char>, a: MachineView, b: MachineView)
    requires
        a == loaded(model, s),
        b == loaded(model, s),
    ensures
        run_spec(a, u64::MAX as nat).0 == run_spec(b, u64::MAX as nat).0,
        run_spec(a, u64::MAX as nat).1 == run_spec(b, u64::MAX as nat).1,
{
}

/// The states that result from adding `s`: it replaces a state of the same
/// name, or comes last.
pub open spec fn merge(states: Seq<StateView>, s: StateView) -> Seq<StateView> {
    match state_index(states, s.name) {
        Some(i) => states.update(i, s),
        None => states.push(s),
    }
}

/// Adding a state keeps names unique and transitions well formed.
pub proof fn lemma_merge_keeps_wf(states: Seq<StateView>, s: StateView, config: PatternConfig)
    requires
        names_unique(states),
        transitions_wf(states, config),
        forall|k: int| 0 <= k < s.transitions.len() ==> (#[trigger] s.transitions[k]).wf(config),
    ensures
        names_unique(merge(states, s)),
        transitions_wf(merge(states, s), config),
{
    let r = merge(states, s);
    match state_index(states, s.name) {
        Some(i) => {
            assert(exists|j: int| 0 <= j < states.len() && (#[trigger] states[j].name) == s.name);
            assert(states[i].name == s.name);
            assert forall|a: int, b: int|
                0 <= a < r.len() && 0 <= b < r.len() && a != b implies #[trigger] r[a].name
                != #[trigger] r[b].name by {
                assert(states[a].name != states[b].name);
            }
        },
        None => {
            assert forall|a: int, b: int|
                0 <= a < r.len() && 0 <= b < r.len() && a != b implies #[trigger] r[a].name
                != #[trigger] r[b].name by {
                if a < states.len() && b < states.len() {
                    assert(states[a].name != states[b].name);
                } else if a < states.len() {
                    assert(states[a].name != s.name);
                } else {
                    assert(states[b].name != s.name);
                }
            }
        },
    }
}

/// The states that result from adding each of `ss` in turn.
pub open spec fn merge_all(ss: Seq<StateView>) -> Seq<StateView>
    decreases ss.len(),
{
    if ss.len() == 0 {
        Seq::empty()
    } else {
        merge(merge_all(ss.drop_last()), ss.last())
    }
}

/// Number of start states.
pub open spec fn start_count(ss: Seq<StateView>) -> nat
    decreases ss.len(),
{
    if ss.len() == 0 {
        0
    } else {
        start_count(ss.drop_last()) + if ss.last().is_start {
            1nat
        } else {
            0nat
        }
    }
}

/// Index of the last start state, or -1.
pub open spec fn last_start(ss: Seq<StateView>) -> int
    decreases ss.len(),
{
    if ss.len() == 0 {
        -1
    } else if ss.last().is_start {
        ss.len() - 1
    } else {
        last_start(ss.drop_last())
    }
}

/// `last_start` is -1 or the index of a start state.
pub proof fn lemma_last_start(ss: Seq<StateView>)
    ensures
        last_start(ss) == -1 || (0 <= last_start(ss) < ss.len() && ss[last_start(ss)].is_start),
    decreases ss.len(),
{
    if ss.len() > 0 && !ss.last().is_start {
        lemma_last_start(ss.drop_last());
    }
}

/// The largest arity among `ts`, or 0.
pub open spec fn max_arity(ts: Seq<TransitionView>) -> nat
    decreases ts.len(),
{
    if ts.len() == 0 {
        0
    } else {
        let a = max_arity(ts.drop_last());
        if ts.last().arity() > a {
            ts.last().arity()
        } else {
            a
        }
    }
}

/// The largest arity among the transitions of `ss`, or 0.
pub open spec fn states_arity(ss: Seq<StateView>) -> nat
    decreases ss.len(),
{
    if ss.len() == 0 {
        0
    } else {
        let a = states_arity(ss.drop_last());
        let b = max_arity(ss.last().transitions);
        if b > a {
            b
        } else {
            a
        }
    }
}

/// Number of tapes of a machine with these states: the largest arity of a
/// transition, and at least one.
pub open spec fn tape_count(ss: Seq<StateView>) -> nat {
    if states_arity(ss) == 0 {
        1
    } else {
        states_arity(ss)
    }
}

/// The mathematical picture of a model: its states as text, and the
/// wildcard characters.
pub struct ModelText {
    pub states: Seq<StateText>,
    pub config: PatternConfig,
}

impl ModelText {
    pub open spec fn is_valid(self) -> bool {
        forall|i: int| 0 <= i < self.states.len() ==> (#[trigger] self.states[i]).is_valid()
    }

    /// `kind` is the error of the first invalid transition of the first
    /// invalid state.
    pub open spec fn rejects_with(self, kind: crate::error::SyntaxErrorType) -> bool {
        exists|i: int|
            0 <= i < self.states.len() && !(#[trigger] self.states[i]).is_valid() && (forall|j: int|
                0 <= j < i ==> self.states[j].is_valid()) && self.states[i].rejects_with(kind)
    }

    /// The validated states, in order.
    pub open spec fn state_views(self) -> Seq<StateView> {
        self.states.map_values(|s: StateText| s.to_state(self.config))
    }

    /// The states of the machine that a valid model builds.
    pub open spec fn built_states(self) -> Seq<StateView> {
        merge_all(self.state_views())
    }

    /// Exactly one state of the built machine is a start state.
    pub open spec fn has_one_start(self) -> bool {
        start_count(self.built_states()) == 1
    }

    /// The machine that a valid model with one start state builds, before any input.
    pub open spec fn built(self) -> MachineView {
        let ss = self.built_states();
        let start = ss[last_start(ss)].name;
        MachineView {
            states: ss,
            start,
            current: start,
            tapes: Seq::empty(),
            tape_num: tape_count(ss),
            config: self.config,
        }
    }
}

} // verus!
