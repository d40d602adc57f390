//! Symbol patterns: how one character of a transition's consume string is
//! matched against the symbol under a head.

use vstd::prelude::*;

verus! {

/// What a step does to the cell under a head before moving it.
#[derive(Debug, Clone, Copy, PartialEq, Eq, Structural)]
pub enum PatternAction {
    Keep,
    Replace(char),
}

impl PatternAction {
    /// `Keep` when `keep` holds, else `Replace(replace)`.
    pub fn new(keep: bool, replace: char) -> (r: PatternAction)
        ensures
            r == (if keep {
                PatternAction::Keep
            } else {
                PatternAction::Replace(replace)
            }),
    {
        if keep {
            PatternAction::Keep
        } else {
            PatternAction::Replace(replace)
        }
    }
}

/// The four kinds of consume pattern.
#[derive(Debug, Clone, Copy, PartialEq, Eq, Structural)]
pub enum SymbolPattern {
    /// Matches exactly this symbol.
    Literal(char),
    /// Matches a blank cell.
    RequireBlank,
    /// Matches any cell that holds a symbol.
    RequireNonBlank,
    /// Matches every cell.
    MatchAny,
}

impl SymbolPattern {
    pub open spec fn accepts(self, input: Option<char>) -> bool {
        match self {
            SymbolPattern::Literal(c) => input == Some(c),
            SymbolPattern::RequireBlank => input is None,
            SymbolPattern::RequireNonBlank => input is Some,
            SymbolPattern::MatchAny => true,
        }
    }

    pub open spec fn is_wildcard(self) -> bool {
        !(self is Literal)
    }

    /// A literal always writes its produce symbol; a wildcard keeps the cell
    /// when the consume and produce characters are the same.
    pub open spec fn action_spec(self, cons: char, prod: char) -> PatternAction {
        match self {
            SymbolPattern::Literal(_) => PatternAction::Replace(prod),
            _ => if cons == prod {
                PatternAction::Keep
            } else {
                PatternAction::Replace(prod)
            },
        }
    }

    /// Whether the symbol under a head (`None` is blank) satisfies the pattern.
    pub fn match_input(&self, input: Option<char>) -> (r: bool)
        ensures
            r == self.accepts(input),
    {
        match self {
            SymbolPattern::Literal(c) => match input {
                Some(x) => x == *c,
                None => false,
            },
            SymbolPattern::RequireBlank => input.is_none(),
            SymbolPattern::RequireNonBlank => input.is_some(),
            SymbolPattern::MatchAny => true,
        }
    }

    /// The write that a transition with this pattern makes.
    pub fn action(&self, cons: char, prod: char) -> (r: PatternAction)
        ensures
            r == self.action_spec(cons, prod),
    {
        match self {
            SymbolPattern::Literal(_) => PatternAction::new(false, prod),
            _ => PatternAction::new(cons == prod, prod),
        }
    }
}

/// The three special characters of consume strings.
#[derive(Debug, Clone, Copy, PartialEq, Eq, Structural)]
pub struct PatternConfig {
    /// Requires a blank cell.
    pub empty: char,
    /// Requires a cell that holds a symbol.
    pub some_wildcard: char,
    /// Matches any cell.
    pub any: char,
}

impl Default for PatternConfig {
    fn default() -> (r: PatternConfig)
        ensures
            r == (PatternConfig { empty: '_', some_wildcard: '*', any: '.' }),
    {
        PatternConfig { empty: '_', some_wildcard: '*', any: '.' }
    }
}

impl PatternConfig {
    /// The pattern that a consume character stands for.
    pub open spec fn classify(self, c: char) -> SymbolPattern {
        if c == self.empty {
            SymbolPattern::RequireBlank
        } else if c == self.some_wildcard {
            SymbolPattern::RequireNonBlank
        } else if c == self.any {
            SymbolPattern::MatchAny
        } else {
            SymbolPattern::Literal(c)
        }
    }

    /// The patterns of a consume string, one per character.
    pub open spec fn classify_all(self, cons: Seq<char>) -> Seq<SymbolPattern> {
        cons.map_values(|c: char| self.classify(c))
    }

    /// The pattern that one consume character stands for.
    pub fn pattern_of(&self, c: char) -> (r: SymbolPattern)
        ensures
            r == self.classify(c),
    {
        if c == self.empty {
            SymbolPattern::RequireBlank
        } else if c == self.some_wildcard {
            SymbolPattern::RequireNonBlank
        } else if c == self.any {
            SymbolPattern::MatchAny
        } else {
            SymbolPattern::Literal(c)
        }
    }

    /// The patterns of a consume string, one per character.
    pub fn parse(&self, pattern: &[char]) -> (r: Vec<SymbolPattern>)
        ensures
            r@ == self.classify_all(pattern@),
    {
        let mut r: Vec<SymbolPattern> = Vec::new();
        let mut i: usize = 0;
        while i < pattern.len()
            invariant
                i <= pattern@.len(),
                r@ == self.classify_all(pattern@.subrange(0, i as int)),
            decreases pattern@.len() - i,
        {
            r.push(self.pattern_of(pattern[i]));
            i += 1;
            assert(r@ =~= self.classify_all(pattern@.subrange(0, i as int)));
        }
        assert(pattern@.subrange(0, i as int) =~= pattern@);
        r
    }
}

/// Number of wildcard patterns in `ps`.
pub open spec fn wildcard_count(ps: Seq<SymbolPattern>) -> nat
    decreases ps.len(),
{
    if ps.len() == 0 {
        0
    } else {
        wildcard_count(ps.drop_last()) + if ps.last().is_wildcard() {
            1nat
        } else {
            0nat
        }
    }
}

/// Number of wildcard patterns in `ps`.
pub fn count_wildcards(ps: &Vec<SymbolPattern>) -> (r: usize)
    ensures
        r == wildcard_count(ps@),
{
    let mut n: usize = 0;
    let mut i: usize = 0;
    while i < ps.len()
        invariant
            i <= ps@.len(),
            n <= i,
            n == wildcard_count(ps@.subrange(0, i as int)),
        decreases ps@.len() - i,
    {
        proof {
            assert(ps@.subrange(0, i + 1).drop_last() =~= ps@.subrange(0, i as int));
        }
        match ps[i] {
            SymbolPattern::Literal(_) => {},
            _ => {
                n += 1;
            },
        }
        i += 1;
    }
    assert(ps@.subrange(0, i as int) =~= ps@);
    n
}

} // verus!
