use vstd::prelude::*;
use crate::estimator::Estimator;
use crate::sequence::{
    parse_rule, resolve, cycle_index, rule_valid, first_invalid, symbol_of, value_of,
    ConfigError, Symbol,
};

verus! {

/// A validated configuration of the exponent estimation: a parsed sequence
/// rule and the iteration depth and warmup, checked once before the sweep.
pub struct RenderConfig {
    rule: Vec<Symbol>,
    depth: u32,
    warmup: u32,
}

impl RenderConfig {
    pub closed spec fn rule_spec(&self) -> Seq<Symbol> {
        self.rule@
    }

    pub closed spec fn depth_spec(&self) -> nat {
        self.depth as nat
    }

    pub closed spec fn warmup_spec(&self) -> nat {
        self.warmup as nat
    }

    pub open spec fn wf(&self) -> bool {
        self.rule_spec().len() > 0 && self.warmup_spec() < self.depth_spec()
    }

    /// Validates a rule given as characters together with the iteration
    /// depth and warmup. A bad rule is reported before a bad depth.
    pub fn validate(rule: &Vec<char>, depth: u32, warmup: u32) -> (r: Result<
        RenderConfig,
        ConfigError,
    >)
        ensures
            r is Ok <==> rule_valid(rule@) && depth > warmup,
            r matches Ok(c) ==> c.wf() && c.rule_spec() == rule@.map_values(
                |ch: char| symbol_of(ch),
            ) && c.depth_spec() == depth && c.warmup_spec() == warmup,
            r matches Err(ConfigError::InvalidSequenceSymbol(i)) ==> first_invalid(
                rule@,
                i as int,
            ),
            r == Err::<RenderConfig, ConfigError>(ConfigError::EmptySequence) <==> rule@.len()
                == 0,
            r == Err::<RenderConfig, ConfigError>(ConfigError::InvalidIterationConfig) <==> (
            rule_valid(rule@) && depth <= warmup),
    {
        match parse_rule(rule) {
            Err(e) => Err(e),
            Ok(syms) => {
                if depth <= warmup {
                    Err(ConfigError::InvalidIterationConfig)
                } else {
                    Ok(RenderConfig { rule: syms, depth, warmup })
                }
            },
        }
    }

    pub fn rule(&self) -> (r: &Vec<Symbol>)
        ensures
            r@ == self.rule_spec(),
    {
        &self.rule
    }

    pub fn depth(&self) -> (r: u32)
        ensures
            r == self.depth_spec(),
    {
        self.depth
    }

    pub fn warmup(&self) -> (r: u32)
        ensures
            r == self.warmup_spec(),
    {
        self.warmup
    }

    /// The growth rates of the rule at parameter point `(a, b)`.
    pub fn rates<T: Copy>(&self, a: T, b: T) -> (r: Vec<T>)
        ensures
            r@ == self.rule_spec().map_values(|s: Symbol| value_of(s, a, b)),
    {
        resolve(&self.rule, a, b)
    }

    /// Position in the rule that step `n` reads.
    pub fn rate_index(&self, n: u32) -> (r: usize)
        requires
            self.wf(),
        ensures
            r == (n as int) % (self.rule_spec().len() as int),
            r < self.rule_spec().len(),
    {
        cycle_index(n, self.rule.len())
    }

    /// A fresh step control for one pixel.
    pub fn estimator(&self) -> (e: Estimator)
        requires
            self.wf(),
        ensures
            e.wf(),
            e.steps() == 0,
            !e.stopped_spec(),
            e.depth_spec() == self.depth_spec(),
            e.warmup_spec() == self.warmup_spec(),
    {
        Estimator::start(self.depth, self.warmup)
    }
}

} // verus!
