//! The module mechanism: provide records exports, require evaluates a
//! registered module source in a copy of the environment and imports them.
use vstd::prelude::*;

use crate::env::{spec_adopt, Env, SpecEnv};
use crate::parse::spec_object;
use crate::semantic::{eval_s, evaluate, matches_out, EvalError, SpecErr, SpecOut};
use crate::sexp::{spec_car, spec_cdr, Ptr, Sexp, SpecSexp};
use vstd::string::{StrSliceExecFns, StringExecFns};
use crate::text::text_of;

verus! {

/// The `provide` form: evaluate the expression and record it in the exports
/// table under the printed form of the name; the form's value is the empty
/// marker.
pub open spec fn spec_provide(body: SpecSexp, env: SpecEnv, fuel: nat) -> SpecOut
    decreases fuel, 2int, 0nat,
{
    if fuel == 0 {
        (Err(SpecErr::Depth), env)
    } else {
        let ident = spec_car(body);
        match eval_s(spec_car(spec_cdr(body)), env, (fuel - 1) as nat) {
            (Ok(v), env2) => (
                Ok(SpecSexp::Nil),
                SpecEnv { provided: env2.provided.insert(text_of(ident), v), ..env2 },
            ),
            (Err(e), env2) => (Err(e), env2),
        }
    }
}

/// Evaluate the top-level forms of a module source text one after another.
/// A malformed remainder is abandoned; an evaluation failure stops the run.
pub open spec fn evaluate_buf_s(src: Seq<char>, env: SpecEnv, fuel: nat) -> SpecOut
    decreases fuel, 2int, src.len(),
{
    if src.len() == 0 {
        (Ok(SpecSexp::Nil), env)
    } else {
        match spec_object(src, 0) {
            Err(_) => (Ok(SpecSexp::Nil), env),
            Ok((v, j)) => {
                if j < 1 || j > src.len() {
                    (Ok(SpecSexp::Nil), env)
                } else if fuel == 0 {
                    (Err(SpecErr::Depth), env)
                } else {
                    match eval_s(v, env, (fuel - 1) as nat) {
                        (Ok(_), env2) => evaluate_buf_s(src.skip(j), env2, fuel),
                        (Err(e), env2) => (Err(e), env2),
                    }
                }
            },
        }
    }
}

/// The `require` form: resolve the specifier in the module table, evaluate
/// the module's forms in a copy of the environment, then import every export
/// into the global table under the prefix. A missing module leaves the
/// environment unchanged.
/// The prefix a `require` form names: a string or identifier operand, else
/// the empty prefix.
pub open spec fn spec_prefix_of(prefix_e: SpecSexp) -> Seq<char> {
    match prefix_e {
        SpecSexp::SString(s) => s,
        SpecSexp::Identifier(s) => s,
        _ => Seq::<char>::empty(),
    }
}

pub open spec fn spec_require(body: SpecSexp, env: SpecEnv, fuel: nat) -> SpecOut
    decreases fuel, 3int, 0nat,
{
    if fuel == 0 {
        (Err(SpecErr::Depth), env)
    } else {
        let module_name = spec_car(body);
        let prefix_e = spec_car(spec_cdr(body));
        let prefix = spec_prefix_of(prefix_e);
        match module_name {
            SpecSexp::SString(m) => spec_require_named(m, prefix, env, fuel),
            SpecSexp::Identifier(m) => spec_require_named(m, prefix, env, fuel),
            _ => (Ok(SpecSexp::Nil), spec_adopt(env, env, prefix)),
        }
    }
}

/// Resolve and import one named module.
pub open spec fn spec_require_named(m: Seq<char>, prefix: Seq<char>, env: SpecEnv, fuel: nat) -> SpecOut
    decreases fuel, 2int, 0nat,
{
    if env.modules.contains_key(m) && env.modules[m] is SString {
        let src = env.modules[m]->SString_0;
        if fuel == 0 {
            (Err(SpecErr::Depth), env)
        } else {
            match evaluate_buf_s(src, env, (fuel - 1) as nat) {
                (Ok(_), env_m) => (Ok(SpecSexp::Nil), spec_adopt(env, env_m, prefix)),
                (Err(e), _) => (Err(e), env),
            }
        }
    } else {
        (Ok(SpecSexp::Nil), env)
    }
}


/// The `provide` form: record the evaluated value in the exports table under
/// the printed form of the name.
pub fn process_provide(body: Ptr<Sexp>, env: &mut Env, fuel: u64) -> (r: Result<
    Ptr<Sexp>,
    EvalError,
>)
    requires
        old(env).wf(),
    ensures
        final(env).wf(),
        matches_out(r, final(env)@, spec_provide(body@, old(env)@, fuel as nat)),
    decreases fuel as nat, 2int, 0nat,
{
    if fuel == 0 {
        return Err(EvalError::StackOverflow);
    }
    let ident = body.car();
    match evaluate(body.cdr().car(), env, fuel - 1) {
        Ok(provided) => {
            let key = ident.to_text();
            env.add_provided(key.as_str(), provided);
            Ok(Sexp::nil())
        },
        Err(e) => Err(e),
    }
}

/// Evaluate the top-level forms of a source text one after another.
pub fn evaluate_buf(buf: &str, env: &mut Env, fuel: u64) -> (r: Result<Ptr<Sexp>, EvalError>)
    requires
        old(env).wf(),
    ensures
        final(env).wf(),
        matches_out(r, final(env)@, evaluate_buf_s(buf@, old(env)@, fuel as nat)),
    decreases fuel as nat, 2int, buf@.len(),
{
    let bl = buf.unicode_len();
    if bl == 0 {
        return Ok(Sexp::nil());
    }
    match crate::parse::parse_sexp(buf) {
        Err(_) => Ok(Sexp::nil()),
        Ok((rest, v)) => {
            let rl = rest.unicode_len();
            if rl >= bl {
                return Ok(Sexp::nil());
            }
            if fuel == 0 {
                return Err(EvalError::StackOverflow);
            }
            match evaluate(v, env, fuel - 1) {
                Ok(_) => evaluate_buf(rest.as_str(), env, fuel),
                Err(e) => Err(e),
            }
        },
    }
}

/// The `require` form: evaluate the named module's source in a copy of the
/// environment and import its exports under the prefix.
pub fn process_require(body: Ptr<Sexp>, env: &mut Env, fuel: u64) -> (r: Result<
    Ptr<Sexp>,
    EvalError,
>)
    requires
        old(env).wf(),
    ensures
        final(env).wf(),
        matches_out(r, final(env)@, spec_require(body@, old(env)@, fuel as nat)),
    decreases fuel as nat, 3int, 0nat,
{
    if fuel == 0 {
        return Err(EvalError::StackOverflow);
    }
    let module_name = body.car();
    let prefix_sexp = body.cdr().car();
    let prefix = match &*prefix_sexp {
        Sexp::SString(s) => s.clone(),
        Sexp::Identifier(s) => s.clone(),
        _ => String::new(),
    };
    match &*module_name {
        Sexp::SString(m) => require_named(m.as_str(), prefix.as_str(), env, fuel),
        Sexp::Identifier(m) => require_named(m.as_str(), prefix.as_str(), env, fuel),
        _ => {
            let copy = env.clone_env();
            env.adopt_module_results(copy, prefix.as_str());
            Ok(Sexp::nil())
        },
    }
}

/// Resolve and import one named module.
fn require_named(m: &str, prefix: &str, env: &mut Env, fuel: u64) -> (r: Result<
    Ptr<Sexp>,
    EvalError,
>)
    requires
        old(env).wf(),
    ensures
        final(env).wf(),
        matches_out(r, final(env)@, spec_require_named(m@, prefix@, old(env)@, fuel as nat)),
    decreases fuel as nat, 2int, 0nat,
{
    match env.get_module(m) {
        Some(src) => {
            if fuel == 0 {
                return Err(EvalError::StackOverflow);
            }
            let mut menv = env.clone_env();
            match evaluate_buf(src.as_str(), &mut menv, fuel - 1) {
                Ok(_) => {
                    env.adopt_module_results(menv, prefix);
                    Ok(Sexp::nil())
                },
                Err(e) => Err(e),
            }
        },
        None => Ok(Sexp::nil()),
    }
}

} // verus!
