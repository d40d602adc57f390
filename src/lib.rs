//! A multi-tape Turing machine simulator.
//!
//! A machine is built from a validated model (states, transitions and the
//! wildcard characters used in transition patterns), given an input string,
//! and stepped until no transition fits the symbols under its heads.

mod text;

pub mod error;
pub mod machine;
pub mod pattern;
pub mod semantics;
pub mod state;
pub mod tape;
pub mod transition;

pub use error::{MachineRunningError, SyntaxError, SyntaxErrorType};
pub use machine::{Machine, MachineIdentifier, MachineModel};
pub use pattern::{PatternAction, PatternConfig, SymbolPattern};
pub use state::{State, StateSerde};
pub use tape::{FrozenTape, Tape, TapeView};
pub use transition::{Direction, Transition, TransitionSerde};
