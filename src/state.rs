//! States: a name, the start and final flags, and the outgoing transitions.

use vstd::prelude::*;

use crate::error::SyntaxError;
use crate::pattern::PatternConfig;
use crate::transition::{text_of, Transition, TransitionSerde, TransitionText, TransitionView};

verus! {

/// The mathematical picture of a state.
pub struct StateView {
    pub name: Seq<char>,
    pub is_start: bool,
    pub is_final: bool,
    pub transitions: Seq<TransitionView>,
}

/// A validated state.
#[derive(Debug)]
pub struct State {
    pub name: String,
    pub is_start: bool,
    pub is_final: bool,
    pub transitions: Vec<Transition>,
}

impl View for State {
    type V = StateView;

    open spec fn view(&self) -> StateView {
        StateView {
            name: self.name@,
            is_start: self.is_start,
            is_final: self.is_final,
            transitions: self.transitions@.map_values(|t: Transition| t@),
        }
    }
}

/// A state as a model states it, its transitions not yet validated.
#[derive(Debug, Clone)]
pub struct StateSerde {
    pub name: String,
    pub is_start: bool,
    pub is_final: bool,
    pub trans: Vec<TransitionSerde>,
}

/// The mathematical picture of an unvalidated state.
pub struct StateText {
    pub name: Seq<char>,
    pub is_start: bool,
    pub is_final: bool,
    pub trans: Seq<TransitionText>,
}

impl View for StateSerde {
    type V = StateText;

    open spec fn view(&self) -> StateText {
        StateText {
            name: self.name@,
            is_start: self.is_start,
            is_final: self.is_final,
            trans: self.trans@.map_values(|t: TransitionSerde| t@),
        }
    }
}

impl StateText {
    pub open spec fn is_valid(self) -> bool {
        forall|i: int| 0 <= i < self.trans.len() ==> (#[trigger] self.trans[i]).is_valid()
    }

    /// `kind` is the error of the first invalid transition.
    pub open spec fn rejects_with(self, kind: crate::error::SyntaxErrorType) -> bool {
        exists|i: int|
            0 <= i < self.trans.len() && !(#[trigger] self.trans[i]).is_valid() && (forall|j: int|
                0 <= j < i ==> self.trans[j].is_valid()) && self.trans[i].rejects_with(kind)
    }

    /// The state that a valid text describes.
    pub open spec fn to_state(self, config: PatternConfig) -> StateView {
        StateView {
            name: self.name,
            is_start: self.is_start,
            is_final: self.is_final,
            transitions: self.trans.map_values(|t: TransitionText| t.to_transition(config)),
        }
    }
}

/// The text of a state.
pub open spec fn state_text_of(s: StateView) -> StateText {
    StateText {
        name: s.name,
        is_start: s.is_start,
        is_final: s.is_final,
        trans: s.transitions.map_values(|t: TransitionView| text_of(t)),
    }
}

impl State {
    /// Validates `state` and each of its transitions.
    pub fn try_from_serde(state: StateSerde, config: PatternConfig) -> (r: Result<
        State,
        SyntaxError,
    >)
        ensures
            r matches Ok(s) ==> state@.is_valid() && s@ == state@.to_state(config),
            r matches Err(e) ==> !state@.is_valid() && state@.rejects_with(e.error_type),
    {
        state.into_state(config)
    }

    /// The text of this state.
    pub fn to_serde(&self) -> (r: StateSerde)
        ensures
            r@ == state_text_of(self@),
    {
        StateSerde::from_state(self)
    }
}

impl StateSerde {
    /// Validates each transition; the first invalid one gives the error.
    pub fn into_state(self, config: PatternConfig) -> (r: Result<State, SyntaxError>)
        ensures
            r matches Ok(s) ==> self@.is_valid() && s@ == self@.to_state(config),
            r matches Err(e) ==> !self@.is_valid() && self@.rejects_with(e.error_type),
    {
        self.validate(config)
    }

    /// As `into_state`, without taking the text.
    pub(crate) fn validate(&self, config: PatternConfig) -> (r: Result<State, SyntaxError>)
        ensures
            r matches Ok(s) ==> self@.is_valid() && s@ == self@.to_state(config),
            r matches Err(e) ==> !self@.is_valid() && self@.rejects_with(e.error_type),
    {
        let ghost text = self@;
        let mut transitions: Vec<Transition> = Vec::new();
        let mut i: usize = 0;
        while i < self.trans.len()
            invariant
                i <= self.trans@.len(),
                text == self@,
                forall|j: int| 0 <= j < i ==> (#[trigger] text.trans[j]).is_valid(),
                transitions@.len() == i,
                forall|j: int|
                    0 <= j < i ==> (#[trigger] transitions@[j])@ == text.trans[j].to_transition(
                        config,
                    ),
            decreases self.trans@.len() - i,
        {
            match self.trans[i].validate(config) {
                Ok(t) => {
                    transitions.push(t);
                },
                Err(e) => {
                    assert(!text.trans[i as int].is_valid());
                    return Err(e);
                },
            }
            i += 1;
        }
        let s = State {
            name: self.name.clone(),
            is_start: self.is_start,
            is_final: self.is_final,
            transitions,
        };
        assert(s@.transitions =~= text.to_state(config).transitions);
        Ok(s)
    }

    /// The text of a state.
    pub fn from_state(state: &State) -> (r: StateSerde)
        ensures
            r@ == state_text_of(state@),
    {
        let mut trans: Vec<TransitionSerde> = Vec::new();
        let mut i: usize = 0;
        while i < state.transitions.len()
            invariant
                i <= state.transitions@.len(),
                trans@.len() == i,
                forall|j: int|
                    0 <= j < i ==> (#[trigger] trans@[j])@ == text_of(state@.transitions[j]),
            decreases state.transitions@.len() - i,
        {
            trans.push(TransitionSerde::from_transition(&state.transitions[i]));
            i += 1;
        }
        let r = StateSerde {
            name: state.name.clone(),
            is_start: state.is_start,
            is_final: state.is_final,
            trans,
        };
        assert(r@.trans =~= state_text_of(state@).trans);
        r
    }
}

} // verus!
