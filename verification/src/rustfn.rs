//! Native-function values: a closed set of host primitives.
use vstd::prelude::*;

verus! {

/// The primitives that the runtime ships. A native-function value names one of
/// these; application dispatches on the tag, so two native values are equal
/// exactly when they name the same primitives.
#[derive(Clone, Copy, Debug, PartialEq, Eq, Structural)]
pub enum Builtin {
    Plus,
    Minus,
    Multiply,
    Divide,
    Modular,
    Less,
    Greater,
    Le,
    Ge,
    And,
    Or,
    Not,
    Concat,
    SeqOp,
    DoOp,
    AndThen,
    EvalCond,
    CondOp,
    LetOp,
    MatchOp,
    MapOp,
    FlatMapOp,
    FoldOp,
    CreateList,
    PreFunction,
    Id,
}

/// A host primitive: the main routine, and a preprocess routine that rewrites
/// the operand list before the main routine runs. `Builtin::Id` as preprocess
/// leaves the operands untouched.
#[derive(Clone, Copy, Debug, PartialEq, Eq, Structural)]
pub struct RustFn {
    pub func: Builtin,
    pub preprocess: Builtin,
}

impl RustFn {
    /// A native function whose operands are handed over unchanged.
    pub fn new(f: Builtin) -> (r: Self)
        ensures
            r == (RustFn { func: f, preprocess: Builtin::Id }),
    {
        RustFn { func: f, preprocess: Builtin::Id }
    }

    /// A native function with an explicit preprocess routine.
    pub fn new_with_preprocess(f: Builtin, p: Builtin) -> (r: Self)
        ensures
            r == (RustFn { func: f, preprocess: p }),
    {
        RustFn { func: f, preprocess: p }
    }
}

} // verus!
