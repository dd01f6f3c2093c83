//! The context a program runs in.

use vstd::prelude::*;

verus! {

#[derive(Clone, Copy, Debug, PartialEq, Eq, Structural, PartialOrd, Ord, Hash)]
pub enum Context {
    Predicate,
    Script,
    Call,
    NotInitialized,
}

impl Default for Context {
    fn default() -> (r: Context)
        ensures
            r == Context::NotInitialized,
    {
        Context::NotInitialized
    }
}

impl Context {
    /// Predicates and scripts run outside any contract call.
    pub fn is_external(&self) -> (r: bool)
        ensures
            r == (*self == Context::Predicate || *self == Context::Script),
    {
        match self {
            Context::Predicate | Context::Script => true,
            _ => false,
        }
    }
}

} // verus!
