//! Structural destructuring: patterns, matching and the captured bindings.
use vstd::prelude::*;
use vstd::string::StringExecFns;

use crate::sexp::{
    spec_car, spec_cdr, spec_get_quoted, spec_is_quoted, view_of, Ptr, Sexp, SpecSexp,
};

verus! {

/// Model of a pattern: an exact value, a name capturing any non-empty value,
/// a fixed-arity list of sub-patterns, or the empty list.
pub enum SpecPattern {
    Literal(SpecSexp),
    Binding(Seq<char>),
    List(SpecSexp),
    Nil,
}

/// The pattern that an expression denotes. A quoted identifier is a literal;
/// the quoting is the sole disambiguator between matching an identifier
/// exactly and binding a fresh name.
pub open spec fn spec_pattern_of(v: SpecSexp) -> SpecPattern {
    match v {
        SpecSexp::Identifier(s) => SpecPattern::Binding(s),
        SpecSexp::Nil => SpecPattern::Nil,
        SpecSexp::Form(_, _) => if spec_is_quoted(v) && spec_get_quoted(v) is Identifier {
            SpecPattern::Literal(spec_get_quoted(v))
        } else {
            SpecPattern::List(v)
        },
        _ => SpecPattern::Literal(v),
    }
}

/// Node count of a value, the measure for pattern recursion.
pub open spec fn ssize(v: SpecSexp) -> nat
    decreases v,
{
    match v {
        SpecSexp::Form(a, d) => 1 + ssize(*a) + ssize(*d),
        _ => 0,
    }
}

/// Measure of a pattern.
pub open spec fn psize(p: SpecPattern) -> nat {
    match p {
        SpecPattern::List(pl) => 1 + ssize(pl),
        _ => 0,
    }
}

/// A successful match yields the captured (name, value) pairs in traversal
/// order; a failure names the pattern that failed and the value it met.
pub type SpecBindResult = Result<Seq<(Seq<char>, SpecSexp)>, (SpecPattern, SpecSexp)>;

/// Structural matching: literals demand equality, bindings capture any
/// non-empty value, lists match positionally with no rest-patterns, and the
/// nil pattern matches only the empty list.
pub open spec fn spec_bind(p: SpecPattern, v: SpecSexp) -> SpecBindResult
    decreases psize(p), 1int,
{
    match p {
        SpecPattern::Literal(l) => if v is Nil || v is Form {
            Err((p, v))
        } else if l == v {
            Ok(Seq::empty())
        } else {
            Err((p, v))
        },
        SpecPattern::Binding(name) => if v is Nil {
            Err((p, v))
        } else {
            Ok(seq![(name, v)])
        },
        SpecPattern::List(pl) => if v is Form {
            spec_bind_chain(pl, v)
        } else {
            Err((p, v))
        },
        SpecPattern::Nil => if v is Nil {
            Ok(Seq::empty())
        } else {
            Err((p, v))
        },
    }
}

/// Walk a pattern list and a value list pairwise, in the permissive way the
/// list iterator walks values: a non-pair, non-nil tail contributes one empty
/// element before the walk stops.
pub open spec fn spec_bind_chain(pats: SpecSexp, exprs: SpecSexp) -> SpecBindResult
    decreases 1 + ssize(pats), 0int,
{
    match pats {
        SpecSexp::Nil => if exprs is Nil {
            Ok(Seq::empty())
        } else {
            Err((SpecPattern::Nil, spec_car(exprs)))
        },
        SpecSexp::Form(a, d) => {
            let p0 = spec_pattern_of(*a);
            if exprs is Nil {
                Err((p0, SpecSexp::Nil))
            } else {
                match spec_bind(p0, spec_car(exprs)) {
                    Err(e) => Err(e),
                    Ok(bs) => match spec_bind_chain(*d, spec_cdr(exprs)) {
                        Err(e) => Err(e),
                        Ok(rest) => Ok(bs + rest),
                    },
                }
            }
        },
        _ => {
            // The pattern chain yields one final empty element.
            if exprs is Nil {
                Err((SpecPattern::Nil, SpecSexp::Nil))
            } else if spec_car(exprs) is Nil {
                if spec_cdr(exprs) is Nil {
                    Ok(Seq::empty())
                } else {
                    Err((SpecPattern::Nil, spec_car(spec_cdr(exprs))))
                }
            } else {
                Err((SpecPattern::Nil, spec_car(exprs)))
            }
        },
    }
}

/// A pattern for structural destructuring.
#[derive(Debug)]
pub enum Pattern {
    Literal(Ptr<Sexp>),
    Binding(String),
    List(Ptr<Sexp>),
    Nil,
}

impl View for Pattern {
    type V = SpecPattern;

    open spec fn view(&self) -> SpecPattern {
        match self {
            Pattern::Literal(v) => SpecPattern::Literal(view_of(**v)),
            Pattern::Binding(s) => SpecPattern::Binding(s@),
            Pattern::List(v) => SpecPattern::List(view_of(**v)),
            Pattern::Nil => SpecPattern::Nil,
        }
    }
}

impl Clone for Pattern {
    /// The copy stands for the same pattern.
    fn clone(&self) -> (res: Self)
        ensures
            res@ == self@,
    {
        match self {
            Pattern::Literal(v) => Pattern::Literal(Box::new((**v).clone())),
            Pattern::Binding(s) => Pattern::Binding(s.clone()),
            Pattern::List(v) => Pattern::List(Box::new((**v).clone())),
            Pattern::Nil => Pattern::Nil,
        }
    }
}

impl Pattern {
    /// Read a pattern off an expression.
    pub fn new(expr: Ptr<Sexp>) -> (r: Self)
        ensures
            r@ == spec_pattern_of(expr@),
    {
        match &*expr {
            Sexp::Identifier(s) => Pattern::Binding(s.clone()),
            Sexp::Nil => Pattern::Nil,
            Sexp::Form(_) => {
                let quoted_ident = match expr.get_quoted() {
                    Some(q) => q.is_identifier(),
                    None => false,
                };
                if quoted_ident {
                    match expr.get_quoted() {
                        Some(q) => Pattern::Literal(q),
                        None => Pattern::List(expr),
                    }
                } else {
                    Pattern::List(expr)
                }
            },
            _ => Pattern::Literal(expr),
        }
    }
}

impl From<Ptr<Sexp>> for Pattern {
    fn from(value: Ptr<Sexp>) -> (r: Self) {
        Self::new(value)
    }
}

impl vstd::std_specs::convert::FromSpecImpl<Ptr<Sexp>> for Pattern {
    open spec fn obeys_from_spec() -> bool {
        false
    }

    open spec fn from_spec(value: Ptr<Sexp>) -> Self {
        Pattern::Nil
    }
}

/// Why a match failed: the pattern that was expected and the value that stood
/// there.
#[derive(Debug)]
pub struct MatchError {
    expected: Pattern,
    existed: Ptr<Sexp>,
}

impl View for MatchError {
    type V = (SpecPattern, SpecSexp);

    closed spec fn view(&self) -> (SpecPattern, SpecSexp) {
        (self.expected@, self.existed@)
    }
}

impl MatchError {
    pub fn new(expected: Pattern, existed: Ptr<Sexp>) -> (r: Self)
        ensures
            r@ == (expected@, existed@),
    {
        Self { expected, existed }
    }
}

/// The captured (name, value) pairs of a successful match, in order.
#[derive(Debug)]
pub struct Binding {
    inner: Vec<(String, Ptr<Sexp>)>,
}

impl View for Binding {
    type V = Seq<(Seq<char>, SpecSexp)>;

    closed spec fn view(&self) -> Seq<(Seq<char>, SpecSexp)> {
        Seq::new(self.inner@.len(), |i: int| (self.inner@[i].0@, self.inner@[i].1@))
    }
}

impl Binding {
    pub fn new(bindings: Vec<(String, Ptr<Sexp>)>) -> (r: Self)
        ensures
            r@ == Seq::new(bindings@.len(), |i: int| (bindings@[i].0@, bindings@[i].1@)),
    {
        Self { inner: bindings }
    }

    pub fn empty() -> (r: Self)
        ensures
            r@ == Seq::<(Seq<char>, SpecSexp)>::empty(),
    {
        let r = Self { inner: Vec::new() };
        proof {
            assert(r@ =~= Seq::<(Seq<char>, SpecSexp)>::empty());
        }
        r
    }

    pub fn add_binding(&mut self, identifier: &str, value: Ptr<Sexp>)
        ensures
            final(self)@ == old(self)@.push((identifier@, value@)),
    {
        self.inner.push((String::from_str(identifier), value));
        proof {
            assert(final(self)@ =~= old(self)@.push((identifier@, value@)));
        }
    }

    pub fn extend_binding(&mut self, bindings: Self)
        ensures
            final(self)@ == old(self)@ + bindings@,
    {
        let Binding { inner } = bindings;
        let ghost gin = inner@;
        let mut rest = inner;
        let n = rest.len();
        let mut i: usize = 0;
        while i < n
            invariant
                n == gin.len(),
                i <= n,
                rest@ == gin,
                self@ == old(self)@ + Seq::new(i as nat, |j: int| (gin[j].0@, gin[j].1@)),
            decreases n - i,
        {
            let (k, v) = (rest[i].0.clone(), Box::new((*rest[i].1).clone()));
            proof {
                assert(k@ == gin[i as int].0@);
                assert(v@ == gin[i as int].1@);
            }
            let ghost pre = self@;
            self.inner.push((k, v));
            proof {
                assert(forall|j: int| 0 <= j < pre.len() ==> #[trigger] self@[j] == pre[j]);
                assert(self@[pre.len() as int] == (gin[i as int].0@, gin[i as int].1@));
                assert(self@ =~~= old(self)@ + Seq::new(
                    (i + 1) as nat,
                    |j: int| (gin[j].0@, gin[j].1@),
                ));
            }
            i = i + 1;
        }
        proof {
            assert(Seq::new(n as nat, |j: int| (gin[j].0@, gin[j].1@)) =~~= bindings@);
            assert(final(self)@ =~~= old(self)@ + bindings@);
        }
    }

    /// The captured pairs, in traversal order.
    pub fn get_binding(self) -> (r: Vec<(String, Ptr<Sexp>)>)
        ensures
            Seq::new(r@.len(), |i: int| (r@[i].0@, r@[i].1@)) == self@,
    {
        self.inner
    }
}

impl Pattern {
    /// Whether the expression matches the pattern.
    pub fn matches(&self, expr: Ptr<Sexp>) -> (r: bool)
        ensures
            r == (spec_bind(self@, expr@) is Ok),
    {
        self.bind(expr).is_ok()
    }

    /// Bind the values in the expression to the names in the pattern.
    pub fn bind(&self, expr: Ptr<Sexp>) -> (r: Result<Binding, MatchError>)
        ensures
            match r {
                Ok(b) => spec_bind(self@, expr@) matches Ok(bs) && b@ == bs,
                Err(e) => spec_bind(self@, expr@) matches Err(se) && e@ == se,
            },
        decreases psize(self@), 1int,
    {
        match self {
            Pattern::Literal(l) => {
                if expr.is_nil() || matches!(&*expr, Sexp::Form(_)) {
                    Err(MatchError::new(self.clone(), expr))
                } else if crate::sexp::sexp_eq(&**l, &*expr) {
                    Ok(Binding::empty())
                } else {
                    Err(MatchError::new(self.clone(), expr))
                }
            },
            Pattern::Binding(name) => {
                if expr.is_nil() {
                    Err(MatchError::new(self.clone(), expr))
                } else {
                    let mut b = Binding::empty();
                    b.add_binding(name.as_str(), expr);
                    proof {
                        assert(b@ =~= seq![(name@, expr@)]);
                    }
                    Ok(b)
                }
            },
            Pattern::List(pl) => {
                if matches!(&*expr, Sexp::Form(_)) {
                    bind_chain(pl, &expr)
                } else {
                    Err(MatchError::new(self.clone(), expr))
                }
            },
            Pattern::Nil => {
                if expr.is_nil() {
                    Ok(Binding::empty())
                } else {
                    Err(MatchError::new(self.clone(), expr))
                }
            },
        }
    }
}

/// Walk the pattern list and the value list pairwise.
fn bind_chain(pats: &Sexp, exprs: &Sexp) -> (r: Result<Binding, MatchError>)
    ensures
        match r {
            Ok(b) => spec_bind_chain(pats@, exprs@) matches Ok(bs) && b@ == bs,
            Err(e) => spec_bind_chain(pats@, exprs@) matches Err(se) && e@ == se,
        },
    decreases 1 + ssize(pats@), 0int,
{
    match pats {
        Sexp::Nil => {
            if exprs.is_nil() {
                Ok(Binding::empty())
            } else {
                Err(MatchError::new(Pattern::Nil, exprs.car()))
            }
        },
        Sexp::Form(c) => {
            let p0 = Pattern::new(Box::new((*c.car).clone()));
            if exprs.is_nil() {
                Err(MatchError::new(p0, Sexp::nil()))
            } else {
                match p0.bind(exprs.car()) {
                    Err(e) => Err(e),
                    Ok(mut bs) => {
                        let tail = exprs.cdr();
                        match bind_chain(&c.cdr, &tail) {
                            Err(e) => Err(e),
                            Ok(rest) => {
                                bs.extend_binding(rest);
                                Ok(bs)
                            },
                        }
                    },
                }
            }
        },
        _ => {
            if exprs.is_nil() {
                Err(MatchError::new(Pattern::Nil, Sexp::nil()))
            } else {
                let e0 = exprs.car();
                if e0.is_nil() {
                    let tail = exprs.cdr();
                    if tail.is_nil() {
                        Ok(Binding::empty())
                    } else {
                        Err(MatchError::new(Pattern::Nil, tail.car()))
                    }
                } else {
                    Err(MatchError::new(Pattern::Nil, e0))
                }
            }
        },
    }
}

} // verus!
