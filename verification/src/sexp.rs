//! The expression data model: one tagged value standing for both code and
//! list data, with its mathematical view.
use vstd::prelude::*;
use vstd::string::StringExecFns;

use crate::rustfn::{Builtin, RustFn};

verus! {

/// Pointer alias for heap-allocated expression nodes.
pub type Ptr<T> = Box<T>;

/// Mathematical model of an expression tree. String payloads are character
/// sequences; a captured closure names its frame by arena index.
pub enum SpecSexp {
    Read,
    Print,
    If,
    EqKw,
    Quote,
    ConsKw,
    CarKw,
    CdrKw,
    Lambda,
    Macro,
    EvalKw,
    Define,
    Provide,
    Require,
    Captured(int),
    Native(Builtin, Builtin),
    I32(i32),
    Char(char),
    SString(Seq<char>),
    Bool(bool),
    Identifier(Seq<char>),
    Nil,
    Form(Box<SpecSexp>, Box<SpecSexp>),
}

/// An s-expression: both code and data of the language. The keyword tokens,
/// literal data, identifiers, the empty-list marker and the pair are the
/// parser's output; captured closures and native functions arise during
/// evaluation.
#[derive(Debug)]
pub enum Sexp {
    Read,
    Print,
    If,
    Eq,
    Quote,
    Cons,
    Car,
    Cdr,
    Lambda,
    CapturedLambda(usize),
    Macro,
    RustFn(RustFn),
    Eval,
    Define,
    I32(i32),
    Char(char),
    SString(String),
    Bool(bool),
    Provide,
    Require,
    Identifier(String),
    Nil,
    Form(Cons),
}

/// A pair node: head (`car`) and tail (`cdr`).
#[derive(Debug)]
pub struct Cons {
    pub car: Ptr<Sexp>,
    pub cdr: Ptr<Sexp>,
}

/// The mathematical value that an expression tree stands for.
pub open spec fn view_of(s: Sexp) -> SpecSexp
    decreases s,
{
    match s {
        Sexp::Read => SpecSexp::Read,
        Sexp::Print => SpecSexp::Print,
        Sexp::If => SpecSexp::If,
        Sexp::Eq => SpecSexp::EqKw,
        Sexp::Quote => SpecSexp::Quote,
        Sexp::Cons => SpecSexp::ConsKw,
        Sexp::Car => SpecSexp::CarKw,
        Sexp::Cdr => SpecSexp::CdrKw,
        Sexp::Lambda => SpecSexp::Lambda,
        Sexp::CapturedLambda(i) => SpecSexp::Captured(i as int),
        Sexp::Macro => SpecSexp::Macro,
        Sexp::RustFn(f) => SpecSexp::Native(f.func, f.preprocess),
        Sexp::Eval => SpecSexp::EvalKw,
        Sexp::Define => SpecSexp::Define,
        Sexp::I32(n) => SpecSexp::I32(n),
        Sexp::Char(c) => SpecSexp::Char(c),
        Sexp::SString(s) => SpecSexp::SString(s@),
        Sexp::Bool(b) => SpecSexp::Bool(b),
        Sexp::Provide => SpecSexp::Provide,
        Sexp::Require => SpecSexp::Require,
        Sexp::Identifier(s) => SpecSexp::Identifier(s@),
        Sexp::Nil => SpecSexp::Nil,
        Sexp::Form(c) => SpecSexp::Form(Box::new(view_of(*c.car)), Box::new(view_of(*c.cdr))),
    }
}

impl View for Sexp {
    type V = SpecSexp;

    open spec fn view(&self) -> SpecSexp {
        view_of(*self)
    }
}

/// Head of a value; the empty marker when the value is not a pair.
pub open spec fn spec_car(v: SpecSexp) -> SpecSexp {
    match v {
        SpecSexp::Form(a, _) => *a,
        _ => SpecSexp::Nil,
    }
}

/// Tail of a value; the empty marker when the value is not a pair.
pub open spec fn spec_cdr(v: SpecSexp) -> SpecSexp {
    match v {
        SpecSexp::Form(_, d) => *d,
        _ => SpecSexp::Nil,
    }
}

/// The proper list holding the given elements in order.
pub open spec fn list_of(es: Seq<SpecSexp>) -> SpecSexp
    decreases es.len(),
{
    if es.len() == 0 {
        SpecSexp::Nil
    } else {
        SpecSexp::Form(Box::new(es[0]), Box::new(list_of(es.drop_first())))
    }
}

/// A value is quoted when its head is the `quote` keyword.
pub open spec fn spec_is_quoted(v: SpecSexp) -> bool {
    spec_car(v) is Quote
}

/// The payload of a quoted value.
pub open spec fn spec_get_quoted(v: SpecSexp) -> SpecSexp {
    spec_car(spec_cdr(v))
}

/// A lambda token or a captured closure.
pub open spec fn spec_is_lambda(v: SpecSexp) -> bool {
    v is Lambda || v is Captured
}

impl Clone for Sexp {
    /// Deep copy; the copy stands for the same value.
    fn clone(&self) -> (res: Self)
        ensures
            res@ == self@,
        decreases self,
    {
        match self {
            Sexp::Read => Sexp::Read,
            Sexp::Print => Sexp::Print,
            Sexp::If => Sexp::If,
            Sexp::Eq => Sexp::Eq,
            Sexp::Quote => Sexp::Quote,
            Sexp::Cons => Sexp::Cons,
            Sexp::Car => Sexp::Car,
            Sexp::Cdr => Sexp::Cdr,
            Sexp::Lambda => Sexp::Lambda,
            Sexp::CapturedLambda(i) => Sexp::CapturedLambda(*i),
            Sexp::Macro => Sexp::Macro,
            Sexp::RustFn(f) => Sexp::RustFn(*f),
            Sexp::Eval => Sexp::Eval,
            Sexp::Define => Sexp::Define,
            Sexp::I32(n) => Sexp::I32(*n),
            Sexp::Char(c) => Sexp::Char(*c),
            Sexp::SString(s) => Sexp::SString(s.clone()),
            Sexp::Bool(b) => Sexp::Bool(*b),
            Sexp::Provide => Sexp::Provide,
            Sexp::Require => Sexp::Require,
            Sexp::Identifier(s) => Sexp::Identifier(s.clone()),
            Sexp::Nil => Sexp::Nil,
            Sexp::Form(c) => Sexp::Form(
                Cons { car: Box::new((*c.car).clone()), cdr: Box::new((*c.cdr).clone()) },
            ),
        }
    }
}

/// Structural equality of two expression trees: true exactly when they stand
/// for the same mathematical value. Native functions compare by their tags.
pub fn sexp_eq(a: &Sexp, b: &Sexp) -> (r: bool)
    ensures
        r == (a@ == b@),
    decreases a,
{
    match (a, b) {
        (Sexp::Read, Sexp::Read) => true,
        (Sexp::Print, Sexp::Print) => true,
        (Sexp::If, Sexp::If) => true,
        (Sexp::Eq, Sexp::Eq) => true,
        (Sexp::Quote, Sexp::Quote) => true,
        (Sexp::Cons, Sexp::Cons) => true,
        (Sexp::Car, Sexp::Car) => true,
        (Sexp::Cdr, Sexp::Cdr) => true,
        (Sexp::Lambda, Sexp::Lambda) => true,
        (Sexp::CapturedLambda(i), Sexp::CapturedLambda(j)) => i == j,
        (Sexp::Macro, Sexp::Macro) => true,
        (Sexp::RustFn(f), Sexp::RustFn(g)) => f == g,
        (Sexp::Eval, Sexp::Eval) => true,
        (Sexp::Define, Sexp::Define) => true,
        (Sexp::I32(m), Sexp::I32(n)) => m == n,
        (Sexp::Char(c), Sexp::Char(d)) => c == d,
        (Sexp::SString(s), Sexp::SString(t)) => *s == *t,
        (Sexp::Bool(p), Sexp::Bool(q)) => p == q,
        (Sexp::Provide, Sexp::Provide) => true,
        (Sexp::Require, Sexp::Require) => true,
        (Sexp::Identifier(s), Sexp::Identifier(t)) => *s == *t,
        (Sexp::Nil, Sexp::Nil) => true,
        (Sexp::Form(c), Sexp::Form(d)) => sexp_eq(&c.car, &d.car) && sexp_eq(&c.cdr, &d.cdr),
        _ => false,
    }
}

impl Cons {
    pub fn new(car: Ptr<Sexp>, cdr: Ptr<Sexp>) -> (r: Self)
        ensures
            r.car@ == car@,
            r.cdr@ == cdr@,
    {
        Self { car, cdr }
    }
}

impl Sexp {
    /// Head of the value; the empty marker when it is not a pair.
    pub fn car(&self) -> (r: Ptr<Self>)
        ensures
            r@ == spec_car(self@),
    {
        if let Self::Form(c) = self {
            Box::new((*c.car).clone())
        } else {
            Box::new(Sexp::Nil)
        }
    }

    /// Tail of the value; the empty marker when it is not a pair.
    pub fn cdr(&self) -> (r: Ptr<Self>)
        ensures
            r@ == spec_cdr(self@),
    {
        if let Self::Form(c) = self {
            Box::new((*c.cdr).clone())
        } else {
            Box::new(Sexp::Nil)
        }
    }

    /// Only the dedicated empty marker counts as nil; pairs never do.
    pub fn is_nil(&self) -> (r: bool)
        ensures
            r == (self@ is Nil),
    {
        matches!(self, Self::Nil)
    }

    pub fn is_lambda(&self) -> (r: bool)
        ensures
            r == spec_is_lambda(self@),
    {
        matches!(self, Self::Lambda | Self::CapturedLambda(_))
    }

    pub fn is_macro(&self) -> (r: bool)
        ensures
            r == (self@ is Macro),
    {
        matches!(self, Self::Macro)
    }

    pub fn is_identifier(&self) -> (r: bool)
        ensures
            r == (self@ is Identifier),
    {
        matches!(self, Self::Identifier(_))
    }

    /// Build a pair.
    pub fn cons(l: Ptr<Self>, r: Ptr<Self>) -> (p: Ptr<Self>)
        ensures
            p@ == SpecSexp::Form(Box::new(l@), Box::new(r@)),
    {
        Box::new(Sexp::Form(Cons { car: l, cdr: r }))
    }

    pub fn nil() -> (r: Ptr<Sexp>)
        ensures
            r@ == SpecSexp::Nil,
    {
        Box::new(Sexp::Nil)
    }

    pub fn wrap(expr: Self) -> (r: Ptr<Self>)
        ensures
            r@ == expr@,
    {
        Box::new(expr)
    }

    /// Fold a sequence of values into a proper list.
    pub fn from_vec(v: Vec<Ptr<Sexp>>) -> (r: Ptr<Self>)
        ensures
            r@ == list_of(Seq::new(v@.len(), |i: int| v@[i]@)),
    {
        let ghost target = Seq::new(v@.len(), |i: int| v@[i]@);
        let mut r = Sexp::nil();
        let mut i = v.len();
        while i > 0
            invariant
                i <= v@.len(),
                target == Seq::new(v@.len(), |j: int| v@[j]@),
                r@ == list_of(target.skip(i as int)),
            decreases i,
        {
            i = i - 1;
            r = Sexp::cons(Box::new((*v[i]).clone()), r);
            proof {
                assert(target.skip(i as int).drop_first() =~= target.skip(i as int + 1));
            }
        }
        proof {
            assert(target.skip(0) =~= target);
        }
        r
    }

    pub fn read() -> (r: Ptr<Sexp>)
        ensures
            r@ == SpecSexp::Read,
    {
        Box::new(Sexp::Read)
    }

    pub fn print() -> (r: Ptr<Sexp>)
        ensures
            r@ == SpecSexp::Print,
    {
        Box::new(Sexp::Print)
    }

    pub fn if_token() -> (r: Ptr<Sexp>)
        ensures
            r@ == SpecSexp::If,
    {
        Box::new(Sexp::If)
    }

    pub fn eq() -> (r: Ptr<Sexp>)
        ensures
            r@ == SpecSexp::EqKw,
    {
        Box::new(Sexp::Eq)
    }

    pub fn quote() -> (r: Ptr<Sexp>)
        ensures
            r@ == SpecSexp::Quote,
    {
        Box::new(Sexp::Quote)
    }

    pub fn car_token() -> (r: Ptr<Sexp>)
        ensures
            r@ == SpecSexp::CarKw,
    {
        Box::new(Sexp::Car)
    }

    pub fn cdr_token() -> (r: Ptr<Sexp>)
        ensures
            r@ == SpecSexp::CdrKw,
    {
        Box::new(Sexp::Cdr)
    }

    pub fn lambda() -> (r: Ptr<Sexp>)
        ensures
            r@ == SpecSexp::Lambda,
    {
        Box::new(Sexp::Lambda)
    }

    pub fn macro_token() -> (r: Ptr<Sexp>)
        ensures
            r@ == SpecSexp::Macro,
    {
        Box::new(Sexp::Macro)
    }

    pub fn eval() -> (r: Ptr<Sexp>)
        ensures
            r@ == SpecSexp::EvalKw,
    {
        Box::new(Sexp::Eval)
    }

    pub fn define() -> (r: Ptr<Sexp>)
        ensures
            r@ == SpecSexp::Define,
    {
        Box::new(Sexp::Define)
    }

    pub fn require() -> (r: Ptr<Sexp>)
        ensures
            r@ == SpecSexp::Require,
    {
        Box::new(Sexp::Require)
    }

    pub fn provide() -> (r: Ptr<Sexp>)
        ensures
            r@ == SpecSexp::Provide,
    {
        Box::new(Sexp::Provide)
    }

    pub fn integer(expr: i32) -> (r: Ptr<Sexp>)
        ensures
            r@ == SpecSexp::I32(expr),
    {
        Box::new(Sexp::I32(expr))
    }

    pub fn character(expr: char) -> (r: Ptr<Sexp>)
        ensures
            r@ == SpecSexp::Char(expr),
    {
        Box::new(Sexp::Char(expr))
    }

    pub fn boolean(expr: bool) -> (r: Ptr<Sexp>)
        ensures
            r@ == SpecSexp::Bool(expr),
    {
        Box::new(Sexp::Bool(expr))
    }

    pub fn string(s: &str) -> (r: Ptr<Sexp>)
        ensures
            r@ == SpecSexp::SString(s@),
    {
        Box::new(Sexp::SString(String::from_str(s)))
    }

    pub fn identifier(s: &str) -> (r: Ptr<Sexp>)
        ensures
            r@ == SpecSexp::Identifier(s@),
    {
        Box::new(Sexp::Identifier(String::from_str(s)))
    }

    /// A closure value referencing its captured frame by arena index.
    pub fn lambda_capture(frame_ptr: usize) -> (r: Ptr<Sexp>)
        ensures
            r@ == SpecSexp::Captured(frame_ptr as int),
    {
        Box::new(Sexp::CapturedLambda(frame_ptr))
    }

    /// A native-function value without preprocessing.
    pub fn rust_fn(f: Builtin) -> (r: Ptr<Sexp>)
        ensures
            r@ == SpecSexp::Native(f, Builtin::Id),
    {
        Box::new(Sexp::RustFn(RustFn::new(f)))
    }

    /// A native-function value with a preprocess routine.
    pub fn rust_fn_with_preprocess(f: Builtin, p: Builtin) -> (r: Ptr<Sexp>)
        ensures
            r@ == SpecSexp::Native(f, p),
    {
        Box::new(Sexp::RustFn(RustFn::new_with_preprocess(f, p)))
    }

    pub fn is_quoted(&self) -> (r: bool)
        ensures
            r == spec_is_quoted(self@),
    {
        proof {
            reveal_with_fuel(view_of, 2);
        }
        match self {
            Self::Form(c) => match &*c.car {
                Sexp::Quote => true,
                _ => false,
            },
            _ => false,
        }
    }

    /// The quoted payload, when the value is quoted.
    pub fn get_quoted(&self) -> (r: Option<Ptr<Sexp>>)
        ensures
            spec_is_quoted(self@) ==> (r matches Some(q) && q@ == spec_get_quoted(self@)),
            !spec_is_quoted(self@) ==> r is None,
    {
        if self.is_quoted() {
            Some(self.cdr().car())
        } else {
            None
        }
    }
}

impl PartialEq for Sexp {
    fn eq(&self, other: &Self) -> (r: bool)
        ensures
            r == (self@ == other@),
    {
        sexp_eq(self, other)
    }
}

impl vstd::std_specs::cmp::PartialEqSpecImpl for Sexp {
    open spec fn obeys_eq_spec() -> bool {
        true
    }

    open spec fn eq_spec(&self, other: &Sexp) -> bool {
        self@ == other@
    }
}

impl Eq for Sexp {

}

} // verus!
