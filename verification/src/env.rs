//! The environment in which one module is canonicalized.

use crate::symbol::Symbol;
use std::collections::HashMap;
use vstd::prelude::*;

verus! {

/// A stretch of source text.
#[derive(Clone, Copy, Debug, PartialEq, Eq, Structural)]
pub struct Region {
    pub start_line: u32,
    pub start_col: u16,
    pub end_line: u32,
    pub end_col: u16,
}

/// A value together with the place in the source that it came from.
pub struct Located<T> {
    pub region: Region,
    pub value: T,
}

/// The environment of one module. It collects what canonicalization finds:
/// the problems to report, of type `P`, and for each closure, by the number
/// of its symbol, what the closure refers to, of type `R`.
pub struct Env<P, R> {
    /// The path of the module. A name without a qualifier is relative to it.
    pub home: Box<str>,
    /// The problems met so far, in the order in which they were met.
    pub problems: Vec<P>,
    /// The variants declared in this module or imported, by the number of
    /// their symbol.
    pub variants: HashMap<u64, Located<Box<str>>>,
    /// What each closure refers to, by the number of its symbol.
    pub closures: HashMap<u64, R>,
    /// The symbol that can be called in tail position, if there is one.
    pub tailcallable_symbol: Option<Symbol>,
}

impl<P, R> Env<P, R> {
    /// The environment of the module `home`, with the variants it starts
    /// from and nothing found yet.
    pub fn new(home: Box<str>, declared_variants: HashMap<u64, Located<Box<str>>>) -> (env: Self)
        ensures
            env.home == home,
            env.variants == declared_variants,
            env.problems@ == Seq::<P>::empty(),
            env.closures@ == Map::<u64, R>::empty(),
            env.tailcallable_symbol is None,
    {
        Env {
            home,
            variants: declared_variants,
            problems: Vec::new(),
            closures: HashMap::new(),
            tailcallable_symbol: None,
        }
    }

    /// Adds a problem to those to report.
    pub fn problem(&mut self, problem: P)
        ensures
            final(self).problems@ == old(self).problems@.push(problem),
            final(self).home == old(self).home,
            final(self).variants == old(self).variants,
            final(self).closures == old(self).closures,
            final(self).tailcallable_symbol == old(self).tailcallable_symbol,
    {
        self.problems.push(problem)
    }

    /// Records what the closure `symbol` refers to, in place of what was
    /// recorded for it before.
    pub fn register_closure(&mut self, symbol: Symbol, references: R)
        ensures
            final(self).closures@ == old(self).closures@.insert(symbol.0, references),
            final(self).home == old(self).home,
            final(self).problems == old(self).problems,
            final(self).variants == old(self).variants,
            final(self).tailcallable_symbol == old(self).tailcallable_symbol,
    {
        self.closures.insert(symbol.0, references);
    }
}

} // verus!
