use vstd::prelude::*;

verus! {

/// A symbol of a sequence rule: which axis value supplies the growth rate.
#[derive(Clone, Copy, Debug, PartialEq, Eq, Structural)]
pub enum Symbol {
    A,
    B,
}

/// Errors found while validating a rendering configuration.
#[derive(Clone, Copy, Debug, PartialEq, Eq, Structural)]
pub enum ConfigError {
    /// A rule character other than `A` or `B`, with its position.
    InvalidSequenceSymbol(usize),
    /// The rule holds no symbol at all.
    EmptySequence,
    /// The iteration depth does not exceed the warmup count.
    InvalidIterationConfig,
}

pub open spec fn is_symbol_char(c: char) -> bool {
    c == 'A' || c == 'B'
}

pub open spec fn symbol_of(c: char) -> Symbol {
    if c == 'A' { Symbol::A } else { Symbol::B }
}

/// A rule is valid when it is non-empty and every character is a symbol.
pub open spec fn rule_valid(s: Seq<char>) -> bool {
    s.len() > 0 && forall|j: int| 0 <= j < s.len() ==> is_symbol_char(#[trigger] s[j])
}

/// `i` is the index of the first character of `s` that is not a symbol.
pub open spec fn first_invalid(s: Seq<char>, i: int) -> bool {
    0 <= i < s.len() && !is_symbol_char(s[i]) && forall|j: int| 0 <= j < i ==> is_symbol_char(#[trigger] s[j])
}

/// Parses a sequence rule given as characters.
pub fn parse_rule(rule: &Vec<char>) -> (r: Result<Vec<Symbol>, ConfigError>)
    ensures
        match r {
            Ok(syms) => rule_valid(rule@) && syms@ == rule@.map_values(|c: char| symbol_of(c)),
            Err(ConfigError::InvalidSequenceSymbol(i)) => first_invalid(rule@, i as int),
            Err(ConfigError::EmptySequence) => rule@.len() == 0,
            Err(ConfigError::InvalidIterationConfig) => false,
        },
        rule_valid(rule@) ==> r is Ok,
{
    if rule.len() == 0 {
        return Err(ConfigError::EmptySequence);
    }
    let mut syms: Vec<Symbol> = Vec::new();
    let mut i: usize = 0;
    while i < rule.len()
        invariant
            i <= rule@.len(),
            forall|j: int| 0 <= j < i ==> is_symbol_char(#[trigger] rule@[j]),
            syms@ == rule@.subrange(0, i as int).map_values(|c: char| symbol_of(c)),
        decreases rule@.len() - i,
    {
        let c = rule[i];
        if c == 'A' {
            syms.push(Symbol::A);
        } else if c == 'B' {
            syms.push(Symbol::B);
        } else {
            return Err(ConfigError::InvalidSequenceSymbol(i));
        }
        assert(rule@.subrange(0, i as int + 1) == rule@.subrange(0, i as int).push(c));
        i = i + 1;
    }
    assert(rule@.subrange(0, rule@.len() as int) == rule@);
    Ok(syms)
}

/// The axis value that a symbol selects.
pub open spec fn value_of<T>(s: Symbol, a: T, b: T) -> T {
    match s {
        Symbol::A => a,
        Symbol::B => b,
    }
}

/// Binds a parsed rule to a parameter point: one growth rate per rule position.
pub fn resolve<T: Copy>(rule: &Vec<Symbol>, a: T, b: T) -> (r: Vec<T>)
    ensures
        r@ == rule@.map_values(|s: Symbol| value_of(s, a, b)),
{
    let mut out: Vec<T> = Vec::new();
    let mut i: usize = 0;
    while i < rule.len()
        invariant
            i <= rule@.len(),
            out@ == rule@.subrange(0, i as int).map_values(|s: Symbol| value_of(s, a, b)),
        decreases rule@.len() - i,
    {
        let v = match rule[i] {
            Symbol::A => a,
            Symbol::B => b,
        };
        out.push(v);
        assert(rule@.subrange(0, i as int + 1) == rule@.subrange(0, i as int).push(rule@[i as int]));
        i = i + 1;
    }
    assert(rule@.subrange(0, rule@.len() as int) == rule@);
    out
}

/// Position in a rule of length `len` that step `n` reads: the rule repeats.
pub fn cycle_index(n: u32, len: usize) -> (r: usize)
    requires
        len > 0,
    ensures
        r == (n as int) % (len as int),
        r < len,
{
    (n as usize) % len
}

} // verus!
