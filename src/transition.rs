//! Transitions: per-tape patterns, written symbols and head moves, and their
//! validation from the textual shape of a model.

use vstd::prelude::*;

use crate::error::{SyntaxError, SyntaxErrorType};
use crate::pattern::{wildcard_count, PatternConfig, SymbolPattern};
use crate::text::{chars_of, push_char};

verus! {

/// The way a head moves after a transition has written its symbol.
#[derive(Debug, Clone, Copy, PartialEq, Eq, Structural)]
pub enum Direction {
    Left,
    Right,
    Stay,
}

/// The direction that a move letter stands for, in either case.
pub open spec fn direction_of(c: char) -> Option<Direction> {
    if c == 'L' || c == 'l' {
        Some(Direction::Left)
    } else if c == 'R' || c == 'r' {
        Some(Direction::Right)
    } else if c == 'S' || c == 's' {
        Some(Direction::Stay)
    } else {
        None
    }
}

/// The letter written for a direction.
pub open spec fn letter_of(d: Direction) -> char {
    match d {
        Direction::Left => 'L',
        Direction::Right => 'R',
        Direction::Stay => 'S',
    }
}

/// Every character of `s` is a move letter.
pub open spec fn directions_valid(s: Seq<char>) -> bool {
    forall|i: int| 0 <= i < s.len() ==> (#[trigger] direction_of(s[i])) is Some
}

pub open spec fn directions_of(s: Seq<char>) -> Seq<Direction> {
    s.map_values(|c: char| direction_of(c)->0)
}

/// The mathematical picture of a transition.
pub struct TransitionView {
    pub consume: Seq<char>,
    pub patterns: Seq<SymbolPattern>,
    pub produce: Seq<char>,
    pub direction: Seq<Direction>,
    pub next: Seq<char>,
}

impl TransitionView {
    /// Number of tapes the transition works on.
    pub open spec fn arity(self) -> nat {
        self.consume.len()
    }

    /// One pattern, one produced symbol and one move per tape, the patterns
    /// being those of the consume string under `config`.
    pub open spec fn wf(self, config: PatternConfig) -> bool {
        &&& self.produce.len() == self.consume.len()
        &&& self.direction.len() == self.consume.len()
        &&& self.patterns == config.classify_all(self.consume)
    }

    /// Number of wildcard positions in the consume string.
    pub open spec fn wildcards(self) -> nat {
        wildcard_count(self.patterns)
    }

    /// The transition fits the symbols under the heads: one pattern per tape,
    /// each satisfied.
    pub open spec fn accepts(self, reads: Seq<Option<char>>) -> bool {
        &&& self.patterns.len() == reads.len()
        &&& forall|i: int| 0 <= i < reads.len() ==> #[trigger] self.patterns[i].accepts(reads[i])
    }
}

/// A validated transition.
#[derive(Debug)]
pub struct Transition {
    /// The consume string, one character per tape.
    pub consume: Vec<char>,
    /// The pattern each consume character stands for.
    pub consume_pattern: Vec<SymbolPattern>,
    /// The symbols to write, one per tape.
    pub produce: Vec<char>,
    /// The moves, one per tape.
    pub direction: Vec<Direction>,
    /// Name of the state the transition leads to; resolved when taken.
    pub next_state_name: String,
}

impl View for Transition {
    type V = TransitionView;

    open spec fn view(&self) -> TransitionView {
        TransitionView {
            consume: self.consume@,
            patterns: self.consume_pattern@,
            produce: self.produce@,
            direction: self.direction@,
            next: self.next_state_name@,
        }
    }
}

/// A transition as a model states it: strings, not yet validated.
#[derive(Debug)]
pub struct TransitionSerde {
    /// Consume string.
    pub cons: String,
    /// Produce string.
    pub prod: String,
    /// Move letters, one per tape.
    pub next_direction: String,
    /// Name of the next state.
    pub next_state_name: String,
}

impl Clone for TransitionSerde {
    fn clone(&self) -> (r: TransitionSerde)
        ensures
            r@ == self@,
    {
        TransitionSerde {
            cons: self.cons.clone(),
            prod: self.prod.clone(),
            next_direction: self.next_direction.clone(),
            next_state_name: self.next_state_name.clone(),
        }
    }
}

/// The mathematical picture of an unvalidated transition: its four strings.
pub struct TransitionText {
    pub cons: Seq<char>,
    pub prod: Seq<char>,
    pub moves: Seq<char>,
    pub next: Seq<char>,
}

impl View for TransitionSerde {
    type V = TransitionText;

    open spec fn view(&self) -> TransitionText {
        TransitionText {
            cons: self.cons@,
            prod: self.prod@,
            moves: self.next_direction@,
            next: self.next_state_name@,
        }
    }
}

impl TransitionText {
    pub open spec fn is_valid(self) -> bool {
        &&& self.cons.len() == self.prod.len()
        &&& directions_valid(self.moves)
        &&& self.moves.len() == self.cons.len()
    }

    /// `kind` is the error that validation reports for these strings: a
    /// length mismatch of consume and produce first, then a bad move letter,
    /// then a move string of the wrong length.
    pub open spec fn rejects_with(self, kind: SyntaxErrorType) -> bool {
        if self.cons.len() != self.prod.len() {
            kind is TransitionConsumeProduceNotMatch
        } else if !directions_valid(self.moves) {
            kind is TransitionDirectionNotFound
        } else if self.moves.len() != self.cons.len() {
            kind is TransitionConsumeProduceNotMatch
        } else {
            false
        }
    }

    /// The transition that valid strings describe.
    pub open spec fn to_transition(self, config: PatternConfig) -> TransitionView {
        TransitionView {
            consume: self.cons,
            patterns: config.classify_all(self.cons),
            produce: self.prod,
            direction: directions_of(self.moves),
            next: self.next,
        }
    }
}

/// The strings of a transition.
pub open spec fn text_of(t: TransitionView) -> TransitionText {
    TransitionText {
        cons: t.consume,
        prod: t.produce,
        moves: t.direction.map_values(|d: Direction| letter_of(d)),
        next: t.next,
    }
}

/// The strings of a well-formed transition are valid, and validating them
/// gives the transition back.
pub proof fn lemma_text_round_trip(t: TransitionView, config: PatternConfig)
    requires
        t.wf(config),
    ensures
        text_of(t).is_valid(),
        text_of(t).to_transition(config) == t,
{
    let moves = text_of(t).moves;
    assert forall|i: int| 0 <= i < moves.len() implies (#[trigger] direction_of(moves[i])) is Some by {
        assert(moves[i] == letter_of(t.direction[i]));
    }
    assert(directions_of(moves) =~= t.direction);
}

impl Transition {
    /// Validates `trans` into a transition.
    pub fn try_from_serde(trans: TransitionSerde, config: PatternConfig) -> (r: Result<
        Transition,
        SyntaxError,
    >)
        ensures
            r matches Ok(t) ==> trans@.is_valid() && t@ == trans@.to_transition(config),
            r matches Err(e) ==> !trans@.is_valid() && trans@.rejects_with(e.error_type),
    {
        trans.into_transition(config)
    }

    /// The strings of this transition.
    pub fn to_serde(&self) -> (r: TransitionSerde)
        ensures
            r@ == text_of(self@),
    {
        TransitionSerde::from_transition(self)
    }
}

/// `"transition `<cons>` -> `<prod>`: <what>"`.
fn transition_message(cons: &String, prod: &String, what: &str) -> String {
    let mut m = String::new();
    m.append("transition `");
    m.append(cons.as_str());
    m.append("` -> `");
    m.append(prod.as_str());
    m.append("`: ");
    m.append(what);
    m
}

/// A string of the given characters.
pub(crate) fn string_of(cs: &Vec<char>) -> (r: String)
    ensures
        r@ == cs@,
{
    let mut s = String::new();
    let mut i: usize = 0;
    while i < cs.len()
        invariant
            i <= cs@.len(),
            s@ == cs@.subrange(0, i as int),
        decreases cs@.len() - i,
    {
        push_char(&mut s, cs[i]);
        i += 1;
        assert(s@ =~= cs@.subrange(0, i as int));
    }
    assert(cs@.subrange(0, i as int) =~= cs@);
    s
}

impl TransitionSerde {
    /// Validates the strings into a transition (see `TransitionText::rejects_with`
    /// for which error comes first).
    pub fn into_transition(self, config: PatternConfig) -> (r: Result<Transition, SyntaxError>)
        ensures
            r matches Ok(t) ==> self@.is_valid() && t@ == self@.to_transition(config),
            r matches Err(e) ==> !self@.is_valid() && self@.rejects_with(e.error_type),
    {
        self.validate(config)
    }

    /// As `into_transition`, without taking the strings.
    pub(crate) fn validate(&self, config: PatternConfig) -> (r: Result<Transition, SyntaxError>)
        ensures
            r matches Ok(t) ==> self@.is_valid() && t@ == self@.to_transition(config),
            r matches Err(e) ==> !self@.is_valid() && self@.rejects_with(e.error_type),
    {
        let (consume, produce) = match self.get_consume_produce() {
            Ok(p) => p,
            Err(e) => return Err(e),
        };
        let consume_pattern = config.parse(consume.as_slice());
        let direction = match self.get_direction() {
            Ok(d) => d,
            Err(e) => return Err(e),
        };
        if direction.len() != consume.len() {
            return Err(
                SyntaxError {
                    error_type: SyntaxErrorType::TransitionConsumeProduceNotMatch,
                    message: transition_message(
                        &self.cons,
                        &self.prod,
                        "consume does not match the move letters",
                    ),
                },
            );
        }
        Ok(
            Transition {
                consume,
                consume_pattern,
                produce,
                direction,
                next_state_name: self.next_state_name.clone(),
            },
        )
    }

    /// The moves of the move string.
    fn get_direction(&self) -> (r: Result<Vec<Direction>, SyntaxError>)
        ensures
            r matches Ok(d) ==> directions_valid(self.next_direction@) && d@ == directions_of(
                self.next_direction@,
            ),
            r matches Err(e) ==> !directions_valid(self.next_direction@)
                && e.error_type is TransitionDirectionNotFound,
    {
        let letters = chars_of(self.next_direction.as_str());
        let mut dirs: Vec<Direction> = Vec::new();
        let mut i: usize = 0;
        while i < letters.len()
            invariant
                i <= letters@.len(),
                letters@ == self.next_direction@,
                directions_valid(letters@.subrange(0, i as int)),
                dirs@ == directions_of(letters@.subrange(0, i as int)),
            decreases letters@.len() - i,
        {
            let c = letters[i];
            let d = if c == 'L' || c == 'l' {
                Direction::Left
            } else if c == 'R' || c == 'r' {
                Direction::Right
            } else if c == 'S' || c == 's' {
                Direction::Stay
            } else {
                assert(direction_of(letters@[i as int]) is None);
                return Err(
                    SyntaxError {
                        error_type: SyntaxErrorType::TransitionDirectionNotFound,
                        message: transition_message(&self.cons, &self.prod, "unknown move letter"),
                    },
                );
            };
            dirs.push(d);
            i += 1;
            assert(letters@.subrange(0, i as int).drop_last() =~= letters@.subrange(
                0,
                i - 1,
            ));
            assert(dirs@ =~= directions_of(letters@.subrange(0, i as int)));
        }
        assert(letters@.subrange(0, i as int) =~= letters@);
        Ok(dirs)
    }

    /// The characters of the consume and produce strings, which must be of
    /// equal length.
    fn get_consume_produce(&self) -> (r: Result<(Vec<char>, Vec<char>), SyntaxError>)
        ensures
            r matches Ok(p) ==> self.cons@.len() == self.prod@.len() && p.0@ == self.cons@
                && p.1@ == self.prod@,
            r matches Err(e) ==> self.cons@.len() != self.prod@.len()
                && e.error_type is TransitionConsumeProduceNotMatch,
    {
        let consume = chars_of(self.cons.as_str());
        let produce = chars_of(self.prod.as_str());
        if consume.len() != produce.len() {
            Err(
                SyntaxError {
                    error_type: SyntaxErrorType::TransitionConsumeProduceNotMatch,
                    message: transition_message(
                        &self.cons,
                        &self.prod,
                        "consume and produce differ in length",
                    ),
                },
            )
        } else {
            Ok((consume, produce))
        }
    }

    /// The strings of a transition.
    pub fn from_transition(transition: &Transition) -> (r: TransitionSerde)
        ensures
            r@ == text_of(transition@),
    {
        let mut next_direction = String::new();
        let mut i: usize = 0;
        while i < transition.direction.len()
            invariant
                i <= transition.direction@.len(),
                next_direction@ == transition.direction@.subrange(0, i as int).map_values(
                    |d: Direction| letter_of(d),
                ),
            decreases transition.direction@.len() - i,
        {
            let c = match transition.direction[i] {
                Direction::Left => 'L',
                Direction::Right => 'R',
                Direction::Stay => 'S',
            };
            push_char(&mut next_direction, c);
            i += 1;
            assert(next_direction@ =~= transition.direction@.subrange(0, i as int).map_values(
                |d: Direction| letter_of(d),
            ));
        }
        assert(transition.direction@.subrange(0, i as int) =~= transition.direction@);
        TransitionSerde {
            cons: string_of(&transition.consume),
            prod: string_of(&transition.produce),
            next_direction,
            next_state_name: transition.next_state_name.clone(),
        }
    }
}

} // verus!
