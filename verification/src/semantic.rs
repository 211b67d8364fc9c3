//! The evaluator: a reduction loop over an active expression, specified by
//! a total big-step semantics with an explicit depth bound.
use vstd::prelude::*;

use crate::env::{spec_lookup, spec_pop, spec_push, SpecEnv};
use crate::parse::unescape_of;
use crate::pattern::ssize;
use vstd::string::StringExecFns;
use crate::env::Env;
use crate::sexp::{spec_car, spec_cdr, spec_is_lambda, view_of, Ptr, Sexp, SpecSexp};

use crate::text::text_of;

verus! {

/// Model of an evaluation failure: an identifier with no binding, a head
/// that cannot be applied, or the explicit reduction-depth bound running out.
pub enum SpecErr {
    Unbound(Seq<char>),
    NotApplicable,
    Depth,
}

/// An evaluation failure. Lookup failure and application of a non-callable
/// value surface as recoverable errors, and the evaluator's explicit
/// reduction-depth counter turns runaway recursion into an error instead of
/// exhausting the native stack.
#[derive(Debug)]
pub enum EvalError {
    UnboundIdentifier(String),
    InvalidApplication,
    StackOverflow,
}

impl View for EvalError {
    type V = SpecErr;

    open spec fn view(&self) -> SpecErr {
        match self {
            EvalError::UnboundIdentifier(s) => SpecErr::Unbound(s@),
            EvalError::InvalidApplication => SpecErr::NotApplicable,
            EvalError::StackOverflow => SpecErr::Depth,
        }
    }
}

/// A one-element list.
pub open spec fn list1(a: SpecSexp) -> SpecSexp {
    SpecSexp::Form(Box::new(a), Box::new(SpecSexp::Nil))
}

/// A two-element list.
pub open spec fn list2(a: SpecSexp, b: SpecSexp) -> SpecSexp {
    SpecSexp::Form(Box::new(a), Box::new(list1(b)))
}

/// A three-element list.
pub open spec fn list3(a: SpecSexp, b: SpecSexp, c: SpecSexp) -> SpecSexp {
    SpecSexp::Form(Box::new(a), Box::new(list2(b, c)))
}

/// A pair.
pub open spec fn form2(a: SpecSexp, b: SpecSexp) -> SpecSexp {
    SpecSexp::Form(Box::new(a), Box::new(b))
}

/// Binding a name in the current scope; no scope means no change (the
/// evaluator always installs one before binding).
pub open spec fn env_set(e: SpecEnv, name: Seq<char>, v: SpecSexp) -> SpecEnv {
    match e.cur {
        Some(c) => if 0 <= c < e.frames.len() {
            SpecEnv {
                frames: e.frames.update(
                    c,
                    crate::frame::SpecFrame {
                        map: e.frames[c].map.insert(name, v),
                        pre: e.frames[c].pre,
                    },
                ),
                ..e
            }
        } else {
            e
        },
        None => e,
    }
}

/// What one evaluation step yields: a value or an error, and the environment
/// it leaves behind.
pub type SpecOut = (Result<SpecSexp, SpecErr>, SpecEnv);

/// Evaluation of an expression: push a fresh scope, reduce, then restore the
/// caller's scope and pop the local one.
pub open spec fn eval_s(expr: SpecSexp, env: SpecEnv, fuel: nat) -> SpecOut
    decreases fuel, 1int, 0nat,
{
    let ti = env.frames.len() as int;
    let env1 = spec_push(env);
    let (r, env2) = reduce_s(expr, env1, fuel);
    let env3 = if ti < env2.frames.len() {
        SpecEnv { cur: Some(ti), ..env2 }
    } else {
        SpecEnv { cur: None, ..env2 }
    };
    (r, spec_pop(env3))
}

/// The reduction loop: rewrite the active expression until a terminal value
/// appears, spending one unit of fuel per step.
pub open spec fn reduce_s(expr: SpecSexp, env: SpecEnv, fuel: nat) -> SpecOut
    decreases fuel, 0int, 0nat,
{
    if fuel == 0 {
        (Err(SpecErr::Depth), env)
    } else {
        let f = (fuel - 1) as nat;
        match expr {
            SpecSexp::Form(car0, cdr0) => {
                let car = *car0;
                let cdr = *cdr0;
                match car {
                    SpecSexp::Read => match spec_read(cdr, env) {
                        (Ok(e2), env2) => reduce_s(e2, env2, f),
                        (Err(e), env2) => (Err(e), env2),
                    },
                    SpecSexp::Print => match spec_print(cdr, env, f) {
                        (Ok(e2), env2) => reduce_s(e2, env2, f),
                        (Err(e), env2) => (Err(e), env2),
                    },
                    SpecSexp::If => match spec_if(cdr, env, f) {
                        (Ok(e2), env2) => reduce_s(e2, env2, f),
                        (Err(e), env2) => (Err(e), env2),
                    },
                    SpecSexp::EqKw => match spec_eq_form(cdr, env, f) {
                        (Ok(e2), env2) => reduce_s(e2, env2, f),
                        (Err(e), env2) => (Err(e), env2),
                    },
                    SpecSexp::Quote => (Ok(spec_car(cdr)), env),
                    SpecSexp::ConsKw => spec_cons_form(cdr, env, f),
                    SpecSexp::CarKw => spec_car_form(cdr, env, f),
                    SpecSexp::CdrKw => spec_cdr_form(cdr, env, f),
                    SpecSexp::Lambda => {
                        // Capture a fresh child of the current scope, so the
                        // closure's own bindings stay isolated.
                        let idx = env.frames.len() as int;
                        let env2 = SpecEnv {
                            frames: env.frames.push(
                                crate::frame::SpecFrame { map: Map::empty(), pre: env.cur },
                            ),
                            ..env
                        };
                        (Ok(form2(SpecSexp::Captured(idx), cdr)), env2)
                    },
                    SpecSexp::Macro => (Ok(form2(car, cdr)), env),
                    SpecSexp::Captured(_) => (Ok(form2(car, cdr)), env),
                    SpecSexp::EvalKw => match eval_s(cdr, env, f) {
                        (Ok(e2), env2) => reduce_s(e2, env2, f),
                        (Err(e), env2) => (Err(e), env2),
                    },
                    SpecSexp::Define => match spec_define(cdr, env, f) {
                        (Ok(e2), env2) => reduce_s(e2, env2, f),
                        (Err(e), env2) => (Err(e), env2),
                    },
                    SpecSexp::Require => match crate::module::spec_require(cdr, env, f) {
                        (Ok(e2), env2) => reduce_s(e2, env2, f),
                        (Err(e), env2) => (Err(e), env2),
                    },
                    SpecSexp::Provide => match crate::module::spec_provide(cdr, env, f) {
                        (Ok(e2), env2) => reduce_s(e2, env2, f),
                        (Err(e), env2) => (Err(e), env2),
                    },
                    SpecSexp::Nil => (Ok(SpecSexp::Nil), env),
                    SpecSexp::Identifier(id) => match spec_lookup(env, id) {
                        Some(def) => reduce_s(form2(def, cdr), env, f),
                        None => (Err(SpecErr::Unbound(id)), env),
                    },
                    SpecSexp::Form(inner_car, _) => match *inner_car {
                        SpecSexp::Lambda => match spec_eval_args(cdr, env, f) {
                            (Ok(args), env2) => {
                                let (e2, env3) = spec_apply(args, car, env2);
                                reduce_s(e2, env3, f)
                            },
                            (Err(e), env2) => (Err(e), env2),
                        },
                        SpecSexp::Captured(fid) => match spec_eval_args(cdr, env, f) {
                            (Ok(args), env2) => if 0 <= fid < env2.frames.len() {
                                let env3 = SpecEnv { cur: Some(fid), ..env2 };
                                let (e2, env4) = spec_apply(args, car, env3);
                                reduce_s(e2, env4, f)
                            } else {
                                (Err(SpecErr::NotApplicable), env2)
                            },
                            (Err(e), env2) => (Err(e), env2),
                        },
                        SpecSexp::Macro => {
                            let (e2, env2) = spec_apply(cdr, car, env);
                            reduce_s(e2, env2, f)
                        },
                        _ => match eval_s(car, env, f) {
                            (Ok(nc), env2) => reduce_s(form2(nc, cdr), env2, f),
                            (Err(e), env2) => (Err(e), env2),
                        },
                    },
                    SpecSexp::Native(func, pre) => match crate::stdlib::spec_call(
                        func,
                        pre,
                        cdr,
                        env,
                        f,
                    ) {
                        (Ok(e2), env2) => reduce_s(e2, env2, f),
                        (Err(e), env2) => (Err(e), env2),
                    },
                    // A literal head is not applicable: degrade to the
                    // original unevaluated expression.
                    _ => (Ok(expr), env),
                }
            },
            SpecSexp::Identifier(id) => match spec_lookup(env, id) {
                Some(v) => (Ok(v), env),
                None => (Err(SpecErr::Unbound(id)), env),
            },
            _ => (Ok(expr), env),
        }
    }
}

/// The `if` form: evaluate the condition; only the boolean-true literal
/// selects the then-branch, every other value the else-branch.
pub open spec fn spec_if(body: SpecSexp, env: SpecEnv, fuel: nat) -> SpecOut
    decreases fuel, 2int, 0nat,
{
    if fuel == 0 {
        (Err(SpecErr::Depth), env)
    } else {
        match eval_s(spec_car(body), env, (fuel - 1) as nat) {
            (Ok(v), env2) => if v == SpecSexp::Bool(true) {
                (Ok(spec_car(spec_cdr(body))), env2)
            } else {
                (Ok(spec_car(spec_cdr(spec_cdr(body)))), env2)
            },
            (Err(e), env2) => (Err(e), env2),
        }
    }
}

/// The `eq` form: evaluate a pivot, then compare each further operand to it,
/// stopping at the first mismatch or at the list's end.
pub open spec fn spec_eq_form(body: SpecSexp, env: SpecEnv, fuel: nat) -> SpecOut
    decreases fuel, 3int, 0nat,
{
    if fuel == 0 {
        (Err(SpecErr::Depth), env)
    } else {
        match eval_s(spec_car(body), env, (fuel - 1) as nat) {
            (Ok(pivot), env2) => spec_eq_loop(spec_cdr(body), pivot, env2, fuel),
            (Err(e), env2) => (Err(e), env2),
        }
    }
}

/// Comparison walk of the `eq` form.
pub open spec fn spec_eq_loop(rem: SpecSexp, pivot: SpecSexp, env: SpecEnv, fuel: nat) -> SpecOut
    decreases fuel, 2int, ssize(rem),
{
    if fuel == 0 {
        (Err(SpecErr::Depth), env)
    } else {
        match rem {
            SpecSexp::Form(a, d) => match eval_s(*a, env, (fuel - 1) as nat) {
                (Ok(v), env2) => if v is Nil {
                    (Ok(SpecSexp::Bool(true)), env2)
                } else if v != pivot {
                    (Ok(SpecSexp::Bool(false)), env2)
                } else {
                    spec_eq_loop(*d, pivot, env2, fuel)
                },
                (Err(e), env2) => (Err(e), env2),
            },
            _ => match eval_s(SpecSexp::Nil, env, (fuel - 1) as nat) {
                // The walked head here is the empty marker, which evaluates
                // to itself and ends the comparison.
                (Ok(v), env2) => if v is Nil {
                    (Ok(SpecSexp::Bool(true)), env2)
                } else {
                    (Ok(SpecSexp::Bool(false)), env2)
                },
                (Err(e), env2) => (Err(e), env2),
            },
        }
    }
}

/// The `cons` form: evaluate both operands eagerly and build the pair.
pub open spec fn spec_cons_form(body: SpecSexp, env: SpecEnv, fuel: nat) -> SpecOut
    decreases fuel, 2int, 0nat,
{
    if fuel == 0 {
        (Err(SpecErr::Depth), env)
    } else {
        let f = (fuel - 1) as nat;
        match eval_s(spec_car(body), env, f) {
            (Ok(a), env2) => match eval_s(spec_car(spec_cdr(body)), env2, f) {
                (Ok(b), env3) => (Ok(form2(a, b)), env3),
                (Err(e), env3) => (Err(e), env3),
            },
            (Err(e), env2) => (Err(e), env2),
        }
    }
}

/// The `car` form: evaluate the operand and take its head.
pub open spec fn spec_car_form(body: SpecSexp, env: SpecEnv, fuel: nat) -> SpecOut
    decreases fuel, 2int, 0nat,
{
    if fuel == 0 {
        (Err(SpecErr::Depth), env)
    } else {
        match eval_s(spec_car(body), env, (fuel - 1) as nat) {
            (Ok(v), env2) => (Ok(spec_car(v)), env2),
            (Err(e), env2) => (Err(e), env2),
        }
    }
}

/// The `cdr` form: evaluate the operand and take its tail.
pub open spec fn spec_cdr_form(body: SpecSexp, env: SpecEnv, fuel: nat) -> SpecOut
    decreases fuel, 2int, 0nat,
{
    if fuel == 0 {
        (Err(SpecErr::Depth), env)
    } else {
        match eval_s(spec_car(body), env, (fuel - 1) as nat) {
            (Ok(v), env2) => (Ok(spec_cdr(v)), env2),
            (Err(e), env2) => (Err(e), env2),
        }
    }
}

/// The `define` form: evaluate the value in the current scope, then bind the
/// result under the identifier in the global table, whatever the nesting
/// depth; the form's value is the empty marker.
pub open spec fn spec_define(body: SpecSexp, env: SpecEnv, fuel: nat) -> SpecOut
    decreases fuel, 2int, 0nat,
{
    if fuel == 0 {
        (Err(SpecErr::Depth), env)
    } else {
        let identity = spec_car(body);
        match eval_s(spec_car(spec_cdr(body)), env, (fuel - 1) as nat) {
            (Ok(v), env2) => {
                let env3 = match identity {
                    SpecSexp::Identifier(s) => SpecEnv {
                        globals: env2.globals.insert(s, v),
                        ..env2
                    },
                    _ => env2,
                };
                (Ok(SpecSexp::Nil), env3)
            },
            (Err(e), env2) => (Err(e), env2),
        }
    }
}

/// Drop one trailing newline (and a carriage return before it).
pub open spec fn trim_newline(s: Seq<char>) -> Seq<char> {
    if s.len() > 0 && s.last() == '\n' {
        let s1 = s.drop_last();
        if s1.len() > 0 && s1.last() == '\r' {
            s1.drop_last()
        } else {
            s1
        }
    } else {
        s
    }
}

/// The `read` form: take the next input line, unescape it, and hand it to
/// the continuation operand as a string argument.
pub open spec fn spec_read(body: SpecSexp, env: SpecEnv) -> SpecOut {
    let line = if env.input.len() == 0 {
        Seq::<char>::empty()
    } else {
        env.input[0]
    };
    let env2 = if env.input.len() == 0 {
        env
    } else {
        SpecEnv { input: env.input.drop_first(), ..env }
    };
    let trimmed = trim_newline(line);
    let unescaped = match unescape_of(trimmed) {
        Some(u) => u,
        None => "ERROR when unescaping"@,
    };
    (Ok(list2(spec_car(body), SpecSexp::SString(unescaped))), env2)
}

/// The `print` form: evaluate the operand, append its text to the output
/// (strings print bare), and continue with the continuation operand applied
/// to no argument.
pub open spec fn spec_print(body: SpecSexp, env: SpecEnv, fuel: nat) -> SpecOut
    decreases fuel, 2int, 0nat,
{
    if fuel == 0 {
        (Err(SpecErr::Depth), env)
    } else {
        match eval_s(spec_car(body), env, (fuel - 1) as nat) {
            (Ok(v), env2) => {
                let shown = match v {
                    SpecSexp::SString(s) => s,
                    _ => text_of(v),
                };
                let env3 = SpecEnv { output: env2.output + shown, ..env2 };
                (Ok(list1(spec_car(spec_cdr(body)))), env3)
            },
            (Err(e), env2) => (Err(e), env2),
        }
    }
}

/// Evaluate each operand in order, producing the list of results.
pub open spec fn spec_eval_args(args: SpecSexp, env: SpecEnv, fuel: nat) -> SpecOut
    decreases fuel, 2int, ssize(args),
{
    match args {
        SpecSexp::Nil => (Ok(SpecSexp::Nil), env),
        SpecSexp::Form(a, d) => {
            if fuel == 0 {
                (Err(SpecErr::Depth), env)
            } else {
                match eval_s(*a, env, (fuel - 1) as nat) {
                    (Ok(v), env2) => match spec_eval_args(*d, env2, fuel) {
                        (Ok(rest), env3) => (Ok(form2(v, rest)), env3),
                        (Err(e), env3) => (Err(e), env3),
                    },
                    (Err(e), env2) => (Err(e), env2),
                }
            }
        },
        _ => {
            // The permissive walk yields one final empty element.
            if fuel == 0 {
                (Err(SpecErr::Depth), env)
            } else {
                match eval_s(SpecSexp::Nil, env, (fuel - 1) as nat) {
                    (Ok(v), env2) => (Ok(list1(v)), env2),
                    (Err(e), env2) => (Err(e), env2),
                }
            }
        },
    }
}

/// Bind call arguments to the callable's parameters pairwise, in the current
/// scope.
pub open spec fn spec_bind_params(params: SpecSexp, args: SpecSexp, env: SpecEnv) -> (
    SpecSexp,
    SpecEnv,
)
    decreases ssize(args),
{
    match args {
        SpecSexp::Nil => (params, env),
        SpecSexp::Form(a, d) => {
            let p0 = spec_car(params);
            let env2 = match p0 {
                SpecSexp::Identifier(s) => env_set(env, s, *a),
                _ => env,
            };
            spec_bind_params(spec_cdr(params), *d, env2)
        },
        _ => {
            let p0 = spec_car(params);
            let env2 = match p0 {
                SpecSexp::Identifier(s) => env_set(env, s, SpecSexp::Nil),
                _ => env,
            };
            (spec_cdr(params), env2)
        },
    }
}

/// Application: bind arguments to parameters; too few arguments yield a
/// curried callable with the remaining parameters, an exact match yields the
/// body as the next expression, and a non-callable is returned unchanged.
pub open spec fn spec_apply(args: SpecSexp, callable: SpecSexp, env: SpecEnv) -> (
    SpecSexp,
    SpecEnv,
) {
    let ft = spec_car(callable);
    let params = spec_car(spec_cdr(callable));
    let body = spec_car(spec_cdr(spec_cdr(callable)));
    if !(spec_is_lambda(ft) || ft is Macro) {
        (callable, env)
    } else {
        let (rem, env2) = spec_bind_params(params, args, env);
        if rem is Nil {
            (body, env2)
        } else {
            (list3(ft, rem, body), env2)
        }
    }
}

/// The exec result mirrors one spec outcome exactly: same environment, and
/// the same value or error.
pub open spec fn matches_out(r: Result<Ptr<Sexp>, EvalError>, env_after: SpecEnv, out: SpecOut) -> bool {
    out.1 == env_after && (match r {
        Ok(v) => out.0 == Ok::<SpecSexp, SpecErr>(v@),
        Err(e) => out.0 == Err::<SpecSexp, SpecErr>(e@),
    })
}

/// The depth bound used when no explicit bound is given.
pub const DEFAULT_FUEL: u64 = 1000000;

impl Env {
    /// Evaluate an expression under the default reduction-depth bound.
    pub fn evaluate(&mut self, expr: Ptr<Sexp>) -> (r: Result<Ptr<Sexp>, EvalError>)
        requires
            old(self).wf(),
        ensures
            final(self).wf(),
            matches_out(r, final(self)@, eval_s(expr@, old(self)@, DEFAULT_FUEL as nat)),
    {
        evaluate(expr, self, DEFAULT_FUEL)
    }
}

/// Evaluate an expression: push a fresh scope, run the reduction loop under
/// the given depth bound, then restore the caller's scope and pop the local
/// one.
pub fn evaluate(sexp: Ptr<Sexp>, env: &mut Env, fuel: u64) -> (r: Result<Ptr<Sexp>, EvalError>)
    requires
        old(env).wf(),
    ensures
        final(env).wf(),
        matches_out(r, final(env)@, eval_s(sexp@, old(env)@, fuel as nat)),
    decreases fuel as nat, 1int, 0nat,
{
    let ghost orig = sexp@;
    let ghost env0 = old(env)@;
    env.push_frame();
    let cur_top = env.top_frame();
    let ghost ti = env0.frames.len() as int;
    proof {
        assert(env@ == spec_push(env0));
        assert(env@.cur == Some(ti));
    }
    let mut cur_sexp = sexp;
    let mut f = fuel;
    let mut result: Result<Ptr<Sexp>, EvalError> = Err(EvalError::StackOverflow);
    loop
        invariant_except_break
            env.wf(),
            f <= fuel,
            reduce_s(orig, spec_push(env0), fuel as nat) == reduce_s(cur_sexp@, env@, f as nat),
        ensures
            env.wf(),
            matches_out(result, env@, reduce_s(orig, spec_push(env0), fuel as nat)),
        decreases f,
    {
        let ghost pre = cur_sexp@;
        let ghost prenv = env@;
        let ghost pf = f as nat;
        if f == 0 {
            result = Err(EvalError::StackOverflow);
            break ;
        }
        f = f - 1;
        match *cur_sexp {
            Sexp::Form(c) => {
                let car = c.car;
                let cdr = c.cdr;
                let ghost gcar = car@;
                let ghost gcdr = cdr@;
                proof {
                    assert(pre == form2(gcar, gcdr));
                }
                match *car {
                    Sexp::Read => {
                        match process_read(cdr, env) {
                            Ok(e2) => {
                                cur_sexp = e2;
                            },
                            Err(e) => {
                                result = Err(e);
                                break ;
                            },
                        }
                    },
                    Sexp::Print => {
                        match process_print(cdr, env, f) {
                            Ok(e2) => {
                                cur_sexp = e2;
                            },
                            Err(e) => {
                                result = Err(e);
                                break ;
                            },
                        }
                    },
                    Sexp::If => {
                        match process_if(cdr, env, f) {
                            Ok(e2) => {
                                cur_sexp = e2;
                            },
                            Err(e) => {
                                result = Err(e);
                                break ;
                            },
                        }
                    },
                    Sexp::Eq => {
                        match process_eq(cdr, env, f) {
                            Ok(e2) => {
                                cur_sexp = e2;
                            },
                            Err(e) => {
                                result = Err(e);
                                break ;
                            },
                        }
                    },
                    Sexp::Quote => {
                        result = Ok(cdr.car());
                        break ;
                    },
                    Sexp::Cons => {
                        result = process_cons(cdr, env, f);
                        break ;
                    },
                    Sexp::Car => {
                        result = process_car(cdr, env, f);
                        break ;
                    },
                    Sexp::Cdr => {
                        result = process_cdr(cdr, env, f);
                        break ;
                    },
                    Sexp::Lambda => {
                        // A fresh child scope isolates the closure's own
                        // future parameter bindings.
                        let idx = env.capture_frame();
                        let new_lambda = Sexp::lambda_capture(idx);
                        result = Ok(Sexp::cons(new_lambda, cdr));
                        break ;
                    },
                    Sexp::Macro => {
                        result = Ok(Sexp::cons(Box::new(Sexp::Macro), cdr));
                        break ;
                    },
                    Sexp::CapturedLambda(i) => {
                        result = Ok(Sexp::cons(Sexp::lambda_capture(i), cdr));
                        break ;
                    },
                    Sexp::Eval => {
                        match evaluate(cdr, env, f) {
                            Ok(e2) => {
                                cur_sexp = e2;
                            },
                            Err(e) => {
                                result = Err(e);
                                break ;
                            },
                        }
                    },
                    Sexp::Define => {
                        match process_define(cdr, env, f) {
                            Ok(e2) => {
                                cur_sexp = e2;
                            },
                            Err(e) => {
                                result = Err(e);
                                break ;
                            },
                        }
                    },
                    Sexp::Require => {
                        match crate::module::process_require(cdr, env, f) {
                            Ok(e2) => {
                                cur_sexp = e2;
                            },
                            Err(e) => {
                                result = Err(e);
                                break ;
                            },
                        }
                    },
                    Sexp::Provide => {
                        match crate::module::process_provide(cdr, env, f) {
                            Ok(e2) => {
                                cur_sexp = e2;
                            },
                            Err(e) => {
                                result = Err(e);
                                break ;
                            },
                        }
                    },
                    Sexp::Nil => {
                        result = Ok(Sexp::nil());
                        break ;
                    },
                    Sexp::Identifier(id) => {
                        match env.get(id.as_str()) {
                            Some(def) => {
                                cur_sexp = Sexp::cons(def, cdr);
                            },
                            None => {
                                result = Err(EvalError::UnboundIdentifier(id));
                                break ;
                            },
                        }
                    },
                    Sexp::Form(inner) => {
                        let ghost gic = inner.car@;
                        let ghost gid = inner.cdr@;
                        let kind: u8 = match &*inner.car {
                            Sexp::Lambda => 0,
                            Sexp::CapturedLambda(_) => 1,
                            Sexp::Macro => 2,
                            _ => 3,
                        };
                        let fid: usize = match &*inner.car {
                            Sexp::CapturedLambda(i) => *i,
                            _ => 0,
                        };
                        let callable = Box::new(Sexp::Form(inner));
                        proof {
                            assert(callable@ == form2(gic, gid));
                            assert(gcar == callable@);
                        }
                        if kind == 0 {
                            match eval_args(cdr, env, f) {
                                Ok(args) => {
                                    cur_sexp = apply_list_to(args, callable, env);
                                },
                                Err(e) => {
                                    result = Err(e);
                                    break ;
                                },
                            }
                        } else if kind == 1 {
                            match eval_args(cdr, env, f) {
                                Ok(args) => {
                                    let n = env.frame_count();
                                    if fid < n {
                                        env.set_frame_ptr(Some(fid));
                                        cur_sexp = apply_list_to(args, callable, env);
                                    } else {
                                        result = Err(EvalError::InvalidApplication);
                                        break ;
                                    }
                                },
                                Err(e) => {
                                    result = Err(e);
                                    break ;
                                },
                            }
                        } else if kind == 2 {
                            cur_sexp = apply_list_to(cdr, callable, env);
                        } else {
                            match evaluate(callable, env, f) {
                                Ok(nc) => {
                                    cur_sexp = Sexp::cons(nc, cdr);
                                },
                                Err(e) => {
                                    result = Err(e);
                                    break ;
                                },
                            }
                        }
                    },
                    Sexp::RustFn(rf) => {
                        match rf.call(cdr, env, f) {
                            Ok(e2) => {
                                cur_sexp = e2;
                            },
                            Err(e) => {
                                result = Err(e);
                                break ;
                            },
                        }
                    },
                    other => {
                        proof {
                            assert(view_of(other) is I32 || view_of(other) is Char || view_of(
                                other,
                            ) is SString || view_of(other) is Bool);
                        }
                        result = Ok(Sexp::cons(Box::new(other), cdr));
                        break ;
                    },
                }
            },
            Sexp::Identifier(id) => {
                match env.get(id.as_str()) {
                    Some(v) => {
                        result = Ok(v);
                        break ;
                    },
                    None => {
                        result = Err(EvalError::UnboundIdentifier(id));
                        break ;
                    },
                }
            },
            other => {
                result = Ok(Box::new(other));
                break ;
            },
        }
    }
    // Restore the caller's scope and pop the locally pushed one.
    let n = env.frame_count();
    match cur_top {
        Some(i) => {
            if i < n {
                env.set_frame_ptr(Some(i));
            } else {
                env.set_frame_ptr(None);
            }
        },
        None => {
            // A scope was pushed on entry, so a current scope exists here.
            proof {
                assert(false);
            }
        },
    }
    env.pop_frame();
    result
}

/// The `car` form.
fn process_car(body: Ptr<Sexp>, env: &mut Env, fuel: u64) -> (r: Result<Ptr<Sexp>, EvalError>)
    requires
        old(env).wf(),
    ensures
        final(env).wf(),
        matches_out(r, final(env)@, spec_car_form(body@, old(env)@, fuel as nat)),
    decreases fuel as nat, 2int, 0nat,
{
    if fuel == 0 {
        return Err(EvalError::StackOverflow);
    }
    match evaluate(body.car(), env, fuel - 1) {
        Ok(v) => Ok(v.car()),
        Err(e) => Err(e),
    }
}

/// The `cdr` form.
fn process_cdr(body: Ptr<Sexp>, env: &mut Env, fuel: u64) -> (r: Result<Ptr<Sexp>, EvalError>)
    requires
        old(env).wf(),
    ensures
        final(env).wf(),
        matches_out(r, final(env)@, spec_cdr_form(body@, old(env)@, fuel as nat)),
    decreases fuel as nat, 2int, 0nat,
{
    if fuel == 0 {
        return Err(EvalError::StackOverflow);
    }
    match evaluate(body.car(), env, fuel - 1) {
        Ok(v) => Ok(v.cdr()),
        Err(e) => Err(e),
    }
}

/// The `if` form: only the boolean-true literal selects the then-branch.
pub fn process_if(body: Ptr<Sexp>, env: &mut Env, fuel: u64) -> (r: Result<Ptr<Sexp>, EvalError>)
    requires
        old(env).wf(),
    ensures
        final(env).wf(),
        matches_out(r, final(env)@, spec_if(body@, old(env)@, fuel as nat)),
    decreases fuel as nat, 2int, 0nat,
{
    if fuel == 0 {
        return Err(EvalError::StackOverflow);
    }
    let condition = body.car();
    let if_branch = body.cdr().car();
    let else_branch = body.cdr().cdr().car();
    match evaluate(condition, env, fuel - 1) {
        Ok(v) => {
            if matches!(&*v, Sexp::Bool(true)) {
                Ok(if_branch)
            } else {
                Ok(else_branch)
            }
        },
        Err(e) => Err(e),
    }
}

/// The `eq` form: evaluate a pivot, then compare the remaining operands.
pub fn process_eq(body: Ptr<Sexp>, env: &mut Env, fuel: u64) -> (r: Result<Ptr<Sexp>, EvalError>)
    requires
        old(env).wf(),
    ensures
        final(env).wf(),
        matches_out(r, final(env)@, spec_eq_form(body@, old(env)@, fuel as nat)),
    decreases fuel as nat, 3int, 0nat,
{
    if fuel == 0 {
        return Err(EvalError::StackOverflow);
    }
    match evaluate(body.car(), env, fuel - 1) {
        Ok(pivot) => eq_walk(body.cdr(), &pivot, env, fuel),
        Err(e) => Err(e),
    }
}

/// Comparison walk of the `eq` form.
fn eq_walk(rem: Ptr<Sexp>, pivot: &Sexp, env: &mut Env, fuel: u64) -> (r: Result<
    Ptr<Sexp>,
    EvalError,
>)
    requires
        old(env).wf(),
    ensures
        final(env).wf(),
        matches_out(r, final(env)@, spec_eq_loop(rem@, pivot@, old(env)@, fuel as nat)),
    decreases fuel as nat, 2int, ssize(rem@),
{
    if fuel == 0 {
        return Err(EvalError::StackOverflow);
    }
    match *rem {
        Sexp::Form(c) => {
            match evaluate(c.car, env, fuel - 1) {
                Ok(v) => {
                    if v.is_nil() {
                        Ok(Sexp::boolean(true))
                    } else if !crate::sexp::sexp_eq(&v, pivot) {
                        Ok(Sexp::boolean(false))
                    } else {
                        eq_walk(c.cdr, pivot, env, fuel)
                    }
                },
                Err(e) => Err(e),
            }
        },
        _ => {
            match evaluate(Sexp::nil(), env, fuel - 1) {
                Ok(v) => {
                    if v.is_nil() {
                        Ok(Sexp::boolean(true))
                    } else {
                        Ok(Sexp::boolean(false))
                    }
                },
                Err(e) => Err(e),
            }
        },
    }
}

/// The `cons` form: evaluate both operands eagerly and build the pair.
pub fn process_cons(body: Ptr<Sexp>, env: &mut Env, fuel: u64) -> (r: Result<Ptr<Sexp>, EvalError>)
    requires
        old(env).wf(),
    ensures
        final(env).wf(),
        matches_out(r, final(env)@, spec_cons_form(body@, old(env)@, fuel as nat)),
    decreases fuel as nat, 2int, 0nat,
{
    if fuel == 0 {
        return Err(EvalError::StackOverflow);
    }
    match evaluate(body.car(), env, fuel - 1) {
        Ok(first) => {
            match evaluate(body.cdr().car(), env, fuel - 1) {
                Ok(second) => Ok(Sexp::cons(first, second)),
                Err(e) => Err(e),
            }
        },
        Err(e) => Err(e),
    }
}

/// The `define` form: bind the evaluated value globally under the given
/// identifier.
pub fn process_define(body: Ptr<Sexp>, env: &mut Env, fuel: u64) -> (r: Result<
    Ptr<Sexp>,
    EvalError,
>)
    requires
        old(env).wf(),
    ensures
        final(env).wf(),
        matches_out(r, final(env)@, spec_define(body@, old(env)@, fuel as nat)),
    decreases fuel as nat, 2int, 0nat,
{
    if fuel == 0 {
        return Err(EvalError::StackOverflow);
    }
    let identity = body.car();
    match evaluate(body.cdr().car(), env, fuel - 1) {
        Ok(defination) => {
            if let Sexp::Identifier(ident) = &*identity {
                env.set_global(ident.as_str(), defination);
            }
            Ok(Sexp::nil())
        },
        Err(e) => Err(e),
    }
}

/// The `read` form: take the next input line, unescape it, and hand it to
/// the continuation operand.
pub fn process_read(body: Ptr<Sexp>, env: &mut Env) -> (r: Result<Ptr<Sexp>, EvalError>)
    requires
        old(env).wf(),
    ensures
        final(env).wf(),
        matches_out(r, final(env)@, spec_read(body@, old(env)@)),
{
    let line = env.next_input();
    let chars = crate::strutil::chars_of(line.as_str());
    let mut upto = chars.len();
    if upto > 0 && chars[upto - 1] == '\n' {
        upto = upto - 1;
        if upto > 0 && chars[upto - 1] == '\r' {
            upto = upto - 1;
        }
    }
    let mut trimmed_chars: Vec<char> = Vec::new();
    let mut k: usize = 0;
    while k < upto
        invariant
            upto <= chars@.len(),
            k <= upto,
            trimmed_chars@ == chars@.subrange(0, k as int),
        decreases upto - k,
    {
        trimmed_chars.push(chars[k]);
        proof {
            assert(trimmed_chars@ =~= chars@.subrange(0, k + 1));
        }
        k = k + 1;
    }
    let trimmed = crate::strutil::string_of(&trimmed_chars);
    proof {
        assert(trimmed@ =~= trim_newline(line@));
    }
    let unescaped = match crate::parse::unescape(trimmed.as_str()) {
        Some(u) => u,
        None => String::from_str("ERROR when unescaping"),
    };
    let func = body.car();
    let r = Sexp::cons(func, Sexp::cons(Sexp::wrap(Sexp::SString(unescaped)), Sexp::nil()));
    Ok(r)
}

/// The `print` form: append the operand's text to the output and continue
/// with the continuation applied to no argument.
pub fn process_print(body: Ptr<Sexp>, env: &mut Env, fuel: u64) -> (r: Result<
    Ptr<Sexp>,
    EvalError,
>)
    requires
        old(env).wf(),
    ensures
        final(env).wf(),
        matches_out(r, final(env)@, spec_print(body@, old(env)@, fuel as nat)),
    decreases fuel as nat, 2int, 0nat,
{
    if fuel == 0 {
        return Err(EvalError::StackOverflow);
    }
    match evaluate(body.car(), env, fuel - 1) {
        Ok(content) => {
            if let Sexp::SString(s) = &*content {
                env.append_output(s.as_str());
            } else {
                let shown = content.to_text();
                env.append_output(shown.as_str());
            }
            let func = body.cdr().car();
            Ok(Sexp::cons(func, Sexp::nil()))
        },
        Err(e) => Err(e),
    }
}

/// Evaluate each operand in order, producing the list of results.
pub fn eval_args(args: Ptr<Sexp>, env: &mut Env, fuel: u64) -> (r: Result<Ptr<Sexp>, EvalError>)
    requires
        old(env).wf(),
    ensures
        final(env).wf(),
        matches_out(r, final(env)@, spec_eval_args(args@, old(env)@, fuel as nat)),
    decreases fuel as nat, 2int, ssize(args@),
{
    match *args {
        Sexp::Nil => Ok(Sexp::nil()),
        Sexp::Form(c) => {
            if fuel == 0 {
                return Err(EvalError::StackOverflow);
            }
            match evaluate(c.car, env, fuel - 1) {
                Ok(v) => {
                    match eval_args(c.cdr, env, fuel) {
                        Ok(rest) => Ok(Sexp::cons(v, rest)),
                        Err(e) => Err(e),
                    }
                },
                Err(e) => Err(e),
            }
        },
        _ => {
            if fuel == 0 {
                return Err(EvalError::StackOverflow);
            }
            match evaluate(Sexp::nil(), env, fuel - 1) {
                Ok(v) => Ok(Sexp::cons(v, Sexp::nil())),
                Err(e) => Err(e),
            }
        },
    }
}

/// Bind call arguments to parameters pairwise in the current scope,
/// returning the parameters that remain unbound.
fn bind_params(params: Ptr<Sexp>, args: Ptr<Sexp>, env: &mut Env) -> (r: Ptr<Sexp>)
    requires
        old(env).wf(),
    ensures
        final(env).wf(),
        ({
            let (rem, se) = spec_bind_params(params@, args@, old(env)@);
            r@ == rem && final(env)@ == se
        }),
    decreases ssize(args@),
{
    match *args {
        Sexp::Nil => params,
        Sexp::Form(c) => {
            let p0 = params.car();
            if let Sexp::Identifier(ident) = &*p0 {
                match env.top_frame() {
                    Some(_) => {
                        proof {
                            crate::env::lemma_wf_spec(env);
                        }
                        env.set(ident.as_str(), Box::new((*c.car).clone()));
                        proof {
                            assert(env@ == env_set(old(env)@, ident@, c.car@));
                        }
                    },
                    None => {
                        proof {
                            assert(env@ == env_set(old(env)@, ident@, c.car@));
                        }
                    },
                }
            }
            bind_params(params.cdr(), c.cdr, env)
        },
        _ => {
            let p0 = params.car();
            if let Sexp::Identifier(ident) = &*p0 {
                match env.top_frame() {
                    Some(_) => {
                        proof {
                            crate::env::lemma_wf_spec(env);
                        }
                        env.set(ident.as_str(), Sexp::nil());
                        proof {
                            assert(env@ == env_set(old(env)@, ident@, SpecSexp::Nil));
                        }
                    },
                    None => {
                        proof {
                            assert(env@ == env_set(old(env)@, ident@, SpecSexp::Nil));
                        }
                    },
                }
            }
            params.cdr()
        },
    }
}

/// Application: bind arguments to parameters; too few arguments yield a
/// curried callable, an exact match yields the body, and a non-callable is
/// returned unchanged.
pub fn apply_list_to(args: Ptr<Sexp>, expr: Ptr<Sexp>, env: &mut Env) -> (r: Ptr<Sexp>)
    requires
        old(env).wf(),
    ensures
        final(env).wf(),
        ({
            let (e2, se) = spec_apply(args@, expr@, old(env)@);
            r@ == e2 && final(env)@ == se
        }),
{
    let first_token = expr.car();
    let params = expr.cdr().car();
    let body = expr.cdr().cdr().car();
    if !first_token.is_lambda() && !first_token.is_macro() {
        return expr;
    }
    let rem = bind_params(params, args, env);
    if rem.is_nil() {
        body
    } else {
        Sexp::cons(first_token, Sexp::cons(rem, Sexp::cons(body, Sexp::nil())))
    }
}

} // verus!
