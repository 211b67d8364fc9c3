//! The host primitives: arithmetic, comparison, boolean and string
//! operations, list helpers, and the expression-rewriting forms.
use vstd::prelude::*;

use crate::env::{Env, SpecEnv};
use crate::pattern::{spec_bind, spec_pattern_of, ssize};
use crate::rustfn::{Builtin, RustFn};
use crate::semantic::{eval_s, form2, list1, list2, list3, matches_out, spec_eval_args, EvalError, SpecErr, SpecOut};
use crate::sexp::{spec_car, spec_cdr, Ptr, Sexp, SpecSexp};
use crate::text::text_of;
use vstd::wrapping::i32_specs;
use vstd::string::StringExecFns;

verus! {

/// A quoted value: the payload behind the `quote` keyword.
pub open spec fn quote_of(v: SpecSexp) -> SpecSexp {
    list2(SpecSexp::Quote, v)
}

/// A four-element list.
pub open spec fn list4(a: SpecSexp, b: SpecSexp, c: SpecSexp, d: SpecSexp) -> SpecSexp {
    SpecSexp::Form(Box::new(a), Box::new(list3(b, c, d)))
}

/// The integer an operand stands for, with zero for anything else.
pub open spec fn val0(v: SpecSexp) -> i32 {
    match v {
        SpecSexp::I32(n) => n,
        _ => 0,
    }
}

/// The integer an operand stands for, with one for anything else.
pub open spec fn val1(v: SpecSexp) -> i32 {
    match v {
        SpecSexp::I32(n) => n,
        _ => 1,
    }
}

/// Wrapping sum of an operand list.
pub open spec fn sum_vals(args: SpecSexp) -> i32
    decreases args,
{
    match args {
        SpecSexp::Nil => 0,
        SpecSexp::Form(a, d) => i32_specs::wrapping_add(val0(*a), sum_vals(*d)),
        _ => 0,
    }
}

/// Left fold of wrapping subtraction over an operand list.
pub open spec fn minus_fold(acc: i32, rest: SpecSexp) -> i32
    decreases rest,
{
    match rest {
        SpecSexp::Form(a, d) => minus_fold(i32_specs::wrapping_sub(acc, val0(*a)), *d),
        _ => acc,
    }
}

/// Left fold of checked division; a failing division gives nothing.
pub open spec fn div_fold(acc: i32, rest: SpecSexp) -> Option<i32>
    decreases rest,
{
    match rest {
        SpecSexp::Form(a, d) => match acc.checked_div(val1(*a)) {
            Some(x) => div_fold(x, *d),
            None => None,
        },
        _ => Some(acc),
    }
}

/// Left fold of checked remainder over the integer operands, skipping the
/// rest; a failing remainder gives nothing.
pub open spec fn mod_fold(acc: i32, rest: SpecSexp) -> Option<i32>
    decreases rest,
{
    match rest {
        SpecSexp::Form(a, d) => match *a {
            SpecSexp::I32(n) => match acc.checked_rem(n) {
                Some(x) => mod_fold(x, *d),
                None => None,
            },
            _ => mod_fold(acc, *d),
        },
        _ => Some(acc),
    }
}

/// One ordered comparison.
pub open spec fn cmp_one(b: Builtin, x: i32, y: i32) -> bool {
    match b {
        Builtin::Less => x < y,
        Builtin::Greater => x > y,
        Builtin::Le => x <= y,
        Builtin::Ge => x >= y,
        _ => true,
    }
}

/// The pivot compares against every further operand (defaulting to one).
pub open spec fn comp_fold(b: Builtin, pivot: i32, rest: SpecSexp) -> bool
    decreases rest,
{
    match rest {
        SpecSexp::Nil => true,
        SpecSexp::Form(a, d) => cmp_one(b, pivot, val1(*a)) && comp_fold(b, pivot, *d),
        _ => cmp_one(b, pivot, 1),
    }
}

/// No operand is the boolean false.
pub open spec fn and_fold(args: SpecSexp) -> bool
    decreases args,
{
    match args {
        SpecSexp::Nil => true,
        SpecSexp::Form(a, d) => !(*a == SpecSexp::Bool(false)) && and_fold(*d),
        _ => true,
    }
}

/// Some operand is the boolean true.
pub open spec fn or_fold(args: SpecSexp) -> bool
    decreases args,
{
    match args {
        SpecSexp::Nil => false,
        SpecSexp::Form(a, d) => *a == SpecSexp::Bool(true) || or_fold(*d),
        _ => false,
    }
}

/// The text of one concat operand: strings contribute their contents, other
/// values their printed form.
pub open spec fn concat_part(v: SpecSexp) -> Seq<char> {
    match v {
        SpecSexp::SString(s) => s,
        _ => text_of(v),
    }
}

/// The concatenated text of all operands.
pub open spec fn concat_fold(args: SpecSexp) -> Seq<char>
    decreases args,
{
    match args {
        SpecSexp::Nil => Seq::empty(),
        SpecSexp::Form(a, d) => concat_part(*a) + concat_fold(*d),
        _ => concat_part(SpecSexp::Nil),
    }
}

/// The last operand of a `seq` form, or the empty marker.
pub open spec fn seq_last(args: SpecSexp) -> SpecSexp
    decreases args,
{
    match args {
        SpecSexp::Form(a, d) => if *d is Nil {
            *a
        } else {
            seq_last(*d)
        },
        _ => SpecSexp::Nil,
    }
}

/// The `and-then` rewrite: apply the continuation to a non-empty value, or
/// yield the empty value unchanged.
pub open spec fn spec_and_then(args: SpecSexp) -> SpecSexp {
    let e = spec_car(args);
    let c = spec_car(spec_cdr(args));
    if !(e is Nil) {
        list2(c, e)
    } else {
        e
    }
}

/// The `cond` rewrite: arms become nested `if` forms; an `else` arm ends the
/// chain, and a missing one defaults to the empty marker.
pub open spec fn spec_cond(args: SpecSexp) -> SpecSexp
    decreases args,
{
    match args {
        SpecSexp::Nil => SpecSexp::Nil,
        SpecSexp::Form(arm, d) => {
            let c = spec_car(*arm);
            let b = spec_car(spec_cdr(*arm));
            if c == SpecSexp::Identifier("else"@) {
                b
            } else {
                list4(SpecSexp::If, c, b, spec_cond(*d))
            }
        },
        _ => list4(SpecSexp::If, SpecSexp::Nil, SpecSexp::Nil, SpecSexp::Nil),
    }
}

/// Append one more element at the end of a list of operands.
pub open spec fn app_last(body: SpecSexp, last: SpecSexp) -> SpecSexp
    decreases body,
{
    match body {
        SpecSexp::Nil => list1(last),
        SpecSexp::Form(a, d) => form2(*a, app_last(*d, last)),
        _ => form2(SpecSexp::Nil, list1(last)),
    }
}

/// The `do` rewrite: each `(-> body params)` step becomes the body applied
/// to a lambda holding the rest of the chain; the first other form ends the
/// chain.
pub open spec fn spec_do(forms: SpecSexp) -> SpecSexp
    decreases forms,
{
    match forms {
        SpecSexp::Nil => SpecSexp::Nil,
        SpecSexp::Form(a, d) => {
            if spec_car(*a) == SpecSexp::Identifier("->"@) {
                let body = spec_car(spec_cdr(*a));
                let params = spec_car(spec_cdr(spec_cdr(*a)));
                let rest = spec_do(*d);
                app_last(body, list3(SpecSexp::Lambda, params, rest))
            } else {
                *a
            }
        },
        _ => SpecSexp::Nil,
    }
}

/// The identifiers of a `let` declaration list, in order.
pub open spec fn let_idents(decls: SpecSexp) -> SpecSexp
    decreases decls,
{
    match decls {
        SpecSexp::Form(el, d) => if spec_car(*el) is Identifier {
            form2(spec_car(*el), let_idents(*d))
        } else {
            let_idents(*d)
        },
        _ => SpecSexp::Nil,
    }
}

/// The bound expressions of a `let` declaration list, in order.
pub open spec fn let_exprs(decls: SpecSexp) -> SpecSexp
    decreases decls,
{
    match decls {
        SpecSexp::Form(el, d) => if spec_car(*el) is Identifier {
            form2(spec_car(spec_cdr(*el)), let_exprs(*d))
        } else {
            let_exprs(*d)
        },
        _ => SpecSexp::Nil,
    }
}

/// The anonymous fixed-point maker used by the named `let`.
pub open spec fn spec_omega() -> SpecSexp {
    list3(
        SpecSexp::Lambda,
        list1(SpecSexp::Identifier("f"@)),
        list2(SpecSexp::Identifier("f"@), SpecSexp::Identifier("f"@)),
    )
}

/// The fixed-point combinator specialized to the given parameter list.
pub open spec fn spec_y(params: SpecSexp) -> SpecSexp {
    list3(
        SpecSexp::Lambda,
        list1(SpecSexp::Identifier("f"@)),
        list2(
            spec_omega(),
            list3(
                SpecSexp::Lambda,
                list1(SpecSexp::Identifier("g"@)),
                list3(
                    SpecSexp::Lambda,
                    params,
                    form2(
                        list2(
                            SpecSexp::Identifier("f"@),
                            list2(SpecSexp::Identifier("g"@), SpecSexp::Identifier("g"@)),
                        ),
                        params,
                    ),
                ),
            ),
        ),
    )
}

/// The `let` rewrite: unnamed lets become a lambda application; a named let
/// additionally threads itself through the fixed-point combinator.
pub open spec fn spec_let(args: SpecSexp) -> SpecSexp {
    let first = spec_car(args);
    if first is Identifier {
        let decls = spec_car(spec_cdr(args));
        let cont = spec_car(spec_cdr(spec_cdr(args)));
        let idents = let_idents(decls);
        let exprs = let_exprs(decls);
        let lambda = list3(SpecSexp::Lambda, form2(first, idents), cont);
        let yc_lambda = list2(spec_y(idents), lambda);
        form2(yc_lambda, exprs)
    } else {
        let decls = first;
        let cont = spec_car(spec_cdr(args));
        let idents = let_idents(decls);
        let exprs = let_exprs(decls);
        form2(list3(SpecSexp::Lambda, idents, cont), exprs)
    }
}

/// The parameter names of a match's captured bindings, as a list.
pub open spec fn binds_params(bs: Seq<(Seq<char>, SpecSexp)>) -> SpecSexp
    decreases bs.len(),
{
    if bs.len() == 0 {
        SpecSexp::Nil
    } else {
        form2(SpecSexp::Identifier(bs[0].0), binds_params(bs.drop_first()))
    }
}

/// The captured values of a match's bindings, as a list.
pub open spec fn binds_args(bs: Seq<(Seq<char>, SpecSexp)>) -> SpecSexp
    decreases bs.len(),
{
    if bs.len() == 0 {
        SpecSexp::Nil
    } else {
        form2(bs[0].1, binds_args(bs.drop_first()))
    }
}

/// The `match` rewrite: the first arm whose pattern binds the scrutinee
/// becomes an ad-hoc lambda application of the captured values; an `else`
/// arm yields its value, and no match yields the empty marker.
pub open spec fn spec_match_arms(arg: SpecSexp, arms: SpecSexp) -> SpecSexp
    decreases arms,
{
    match arms {
        SpecSexp::Nil => SpecSexp::Nil,
        SpecSexp::Form(arm, d) => {
            let pat = spec_car(*arm);
            let ret = spec_car(spec_cdr(*arm));
            if pat == SpecSexp::Identifier("else"@) {
                ret
            } else {
                match spec_bind(spec_pattern_of(pat), arg) {
                    Ok(bs) => form2(list3(SpecSexp::Lambda, binds_params(bs), ret), binds_args(bs)),
                    Err(_) => spec_match_arms(arg, *d),
                }
            }
        },
        _ => {
            match spec_bind(spec_pattern_of(SpecSexp::Nil), arg) {
                Ok(bs) => form2(
                    list3(SpecSexp::Lambda, binds_params(bs), SpecSexp::Nil),
                    binds_args(bs),
                ),
                Err(_) => SpecSexp::Nil,
            }
        },
    }
}

/// The `match` form over a raw operand list.
pub open spec fn spec_match(args: SpecSexp) -> SpecSexp {
    spec_match_arms(spec_car(args), spec_cdr(args))
}

/// Wrapping product of the operands, each evaluated once more.
pub open spec fn spec_mul_vals(args: SpecSexp, env: SpecEnv, fuel: nat) -> (Result<
    i32,
    SpecErr,
>, SpecEnv)
    decreases fuel, 2int, ssize(args),
{
    match args {
        SpecSexp::Nil => (Ok(1i32), env),
        SpecSexp::Form(a, d) => {
            if fuel == 0 {
                (Err(SpecErr::Depth), env)
            } else {
                match eval_s(*a, env, (fuel - 1) as nat) {
                    (Ok(v), env2) => match spec_mul_vals(*d, env2, fuel) {
                        (Ok(rest), env3) => (Ok(i32_specs::wrapping_mul(val1(v), rest)), env3),
                        (Err(e), env3) => (Err(e), env3),
                    },
                    (Err(e), env2) => (Err(e), env2),
                }
            }
        },
        _ => {
            if fuel == 0 {
                (Err(SpecErr::Depth), env)
            } else {
                match eval_s(SpecSexp::Nil, env, (fuel - 1) as nat) {
                    (Ok(v), env2) => (Ok(val1(v)), env2),
                    (Err(e), env2) => (Err(e), env2),
                }
            }
        },
    }
}

/// A comparison primitive: evaluate the pivot, then compare.
pub open spec fn spec_comp(b: Builtin, args: SpecSexp, env: SpecEnv, fuel: nat) -> SpecOut
    decreases fuel, 2int, 0nat,
{
    if fuel == 0 {
        (Err(SpecErr::Depth), env)
    } else {
        match eval_s(spec_car(args), env, (fuel - 1) as nat) {
            (Ok(v), env2) => match v {
                SpecSexp::I32(init) => (
                    Ok(SpecSexp::Bool(comp_fold(b, init, spec_cdr(args)))),
                    env2,
                ),
                _ => (Ok(SpecSexp::Bool(false)), env2),
            },
            (Err(e), env2) => (Err(e), env2),
        }
    }
}

/// The remainder primitive: evaluate the pivot, then fold.
pub open spec fn spec_modular(args: SpecSexp, env: SpecEnv, fuel: nat) -> SpecOut
    decreases fuel, 2int, 0nat,
{
    if fuel == 0 {
        (Err(SpecErr::Depth), env)
    } else {
        match eval_s(spec_car(args), env, (fuel - 1) as nat) {
            (Ok(v), env2) => match v {
                SpecSexp::I32(init) => match mod_fold(init, spec_cdr(args)) {
                    Some(x) => (Ok(SpecSexp::I32(x)), env2),
                    None => (Ok(SpecSexp::Nil), env2),
                },
                _ => (Ok(SpecSexp::Nil), env2),
            },
            (Err(e), env2) => (Err(e), env2),
        }
    }
}

/// The `and-then` preprocess: evaluate the first operand only.
pub open spec fn spec_eval_cond(args: SpecSexp, env: SpecEnv, fuel: nat) -> SpecOut
    decreases fuel, 2int, 0nat,
{
    if fuel == 0 {
        (Err(SpecErr::Depth), env)
    } else {
        match eval_s(spec_car(args), env, (fuel - 1) as nat) {
            (Ok(v), env2) => (Ok(form2(v, spec_cdr(args))), env2),
            (Err(e), env2) => (Err(e), env2),
        }
    }
}

/// Map: apply the function to each quoted element, collecting the results.
pub open spec fn spec_map_loop(lst: SpecSexp, lam: SpecSexp, env: SpecEnv, fuel: nat) -> SpecOut
    decreases fuel, 2int, ssize(lst),
{
    match lst {
        SpecSexp::Nil => (Ok(SpecSexp::Nil), env),
        SpecSexp::Form(a, d) => {
            if fuel == 0 {
                (Err(SpecErr::Depth), env)
            } else {
                match eval_s(list2(lam, quote_of(*a)), env, (fuel - 1) as nat) {
                    (Ok(v), env2) => match spec_map_loop(*d, lam, env2, fuel) {
                        (Ok(rest), env3) => (Ok(form2(v, rest)), env3),
                        (Err(e), env3) => (Err(e), env3),
                    },
                    (Err(e), env2) => (Err(e), env2),
                }
            }
        },
        _ => {
            if fuel == 0 {
                (Err(SpecErr::Depth), env)
            } else {
                match eval_s(list2(lam, quote_of(SpecSexp::Nil)), env, (fuel - 1) as nat) {
                    (Ok(v), env2) => (Ok(list1(v)), env2),
                    (Err(e), env2) => (Err(e), env2),
                }
            }
        },
    }
}

/// The map primitive.
pub open spec fn spec_map(args: SpecSexp, env: SpecEnv, fuel: nat) -> SpecOut
    decreases fuel, 3int, 0nat,
{
    if fuel == 0 {
        (Err(SpecErr::Depth), env)
    } else {
        let f = (fuel - 1) as nat;
        match eval_s(spec_car(args), env, f) {
            (Ok(lst), env2) => match eval_s(spec_car(spec_cdr(args)), env2, f) {
                (Ok(lam), env3) => match spec_map_loop(lst, lam, env3, fuel) {
                    (Ok(res), env4) => (Ok(quote_of(res)), env4),
                    (Err(e), env4) => (Err(e), env4),
                },
                (Err(e), env3) => (Err(e), env3),
            },
            (Err(e), env2) => (Err(e), env2),
        }
    }
}

/// Splice the elements of one result in front of a list.
pub open spec fn app_elems(v: SpecSexp, rest: SpecSexp) -> SpecSexp
    decreases v,
{
    match v {
        SpecSexp::Nil => rest,
        SpecSexp::Form(a, d) => form2(*a, app_elems(*d, rest)),
        _ => form2(SpecSexp::Nil, rest),
    }
}

/// Flat map: apply the function to each element and splice the resulting
/// lists together.
pub open spec fn spec_flat_loop(lst: SpecSexp, lam: SpecSexp, env: SpecEnv, fuel: nat) -> SpecOut
    decreases fuel, 2int, ssize(lst),
{
    match lst {
        SpecSexp::Nil => (Ok(SpecSexp::Nil), env),
        SpecSexp::Form(a, d) => {
            if fuel == 0 {
                (Err(SpecErr::Depth), env)
            } else {
                match eval_s(list2(lam, *a), env, (fuel - 1) as nat) {
                    (Ok(v), env2) => match spec_flat_loop(*d, lam, env2, fuel) {
                        (Ok(rest), env3) => (Ok(app_elems(v, rest)), env3),
                        (Err(e), env3) => (Err(e), env3),
                    },
                    (Err(e), env2) => (Err(e), env2),
                }
            }
        },
        _ => {
            if fuel == 0 {
                (Err(SpecErr::Depth), env)
            } else {
                match eval_s(list2(lam, SpecSexp::Nil), env, (fuel - 1) as nat) {
                    (Ok(v), env2) => (Ok(app_elems(v, SpecSexp::Nil)), env2),
                    (Err(e), env2) => (Err(e), env2),
                }
            }
        },
    }
}

/// The flat-map primitive.
pub open spec fn spec_flat_map(args: SpecSexp, env: SpecEnv, fuel: nat) -> SpecOut
    decreases fuel, 3int, 0nat,
{
    if fuel == 0 {
        (Err(SpecErr::Depth), env)
    } else {
        let f = (fuel - 1) as nat;
        match eval_s(spec_car(args), env, f) {
            (Ok(lst), env2) => match eval_s(spec_car(spec_cdr(args)), env2, f) {
                (Ok(lam), env3) => match spec_flat_loop(lst, lam, env3, fuel) {
                    (Ok(res), env4) => (Ok(quote_of(res)), env4),
                    (Err(e), env4) => (Err(e), env4),
                },
                (Err(e), env3) => (Err(e), env3),
            },
            (Err(e), env2) => (Err(e), env2),
        }
    }
}

/// Fold one list into the accumulator.
pub open spec fn spec_fold_inner(l: SpecSexp, acc: SpecSexp, lam: SpecSexp, env: SpecEnv, fuel: nat) -> SpecOut
    decreases fuel, 2int, ssize(l),
{
    match l {
        SpecSexp::Nil => (Ok(acc), env),
        SpecSexp::Form(a, d) => {
            if fuel == 0 {
                (Err(SpecErr::Depth), env)
            } else {
                match eval_s(list3(lam, quote_of(acc), *a), env, (fuel - 1) as nat) {
                    (Ok(acc2), env2) => spec_fold_inner(*d, acc2, lam, env2, fuel),
                    (Err(e), env2) => (Err(e), env2),
                }
            }
        },
        _ => {
            if fuel == 0 {
                (Err(SpecErr::Depth), env)
            } else {
                match eval_s(list3(lam, quote_of(acc), SpecSexp::Nil), env, (fuel - 1) as nat) {
                    (Ok(acc2), env2) => (Ok(acc2), env2),
                    (Err(e), env2) => (Err(e), env2),
                }
            }
        },
    }
}

/// Fold each evaluated operand in turn: lists element by element, other
/// values as a single argument.
pub open spec fn spec_fold_outer(ls: SpecSexp, acc: SpecSexp, lam: SpecSexp, env: SpecEnv, fuel: nat) -> SpecOut
    decreases fuel, 3int, ssize(ls),
{
    match ls {
        SpecSexp::Form(l, d) => {
            let step = if *l is Form {
                spec_fold_inner(*l, acc, lam, env, fuel)
            } else {
                if fuel == 0 {
                    (Err(SpecErr::Depth), env)
                } else {
                    eval_s(list3(lam, quote_of(acc), *l), env, (fuel - 1) as nat)
                }
            };
            match step {
                (Ok(acc2), env2) => spec_fold_outer(*d, acc2, lam, env2, fuel),
                (Err(e), env2) => (Err(e), env2),
            }
        },
        _ => (Ok(acc), env),
    }
}

/// The fold primitive: evaluate the function, the seed and each list
/// operand, then fold them all.
pub open spec fn spec_fold(args: SpecSexp, env: SpecEnv, fuel: nat) -> SpecOut
    decreases fuel, 4int, 0nat,
{
    if fuel == 0 {
        (Err(SpecErr::Depth), env)
    } else {
        let f = (fuel - 1) as nat;
        match eval_s(spec_car(args), env, f) {
            (Ok(lam), env2) => match eval_s(spec_car(spec_cdr(args)), env2, f) {
                (Ok(acc0), env3) => match spec_eval_args(spec_cdr(spec_cdr(args)), env3, fuel) {
                    (Ok(ls), env4) => match spec_fold_outer(ls, acc0, lam, env4, fuel) {
                        (Ok(res), env5) => (Ok(quote_of(res)), env5),
                        (Err(e), env5) => (Err(e), env5),
                    },
                    (Err(e), env4) => (Err(e), env4),
                },
                (Err(e), env3) => (Err(e), env3),
            },
            (Err(e), env2) => (Err(e), env2),
        }
    }
}

/// The list constructor: evaluate every operand and quote the result list.
pub open spec fn spec_create_list(args: SpecSexp, env: SpecEnv, fuel: nat) -> SpecOut
    decreases fuel, 3int, 0nat,
{
    match spec_eval_args(args, env, fuel) {
        (Ok(lst), env2) => (Ok(quote_of(lst)), env2),
        (Err(e), env2) => (Err(e), env2),
    }
}

/// Dispatch one primitive routine on its operand list.
pub open spec fn spec_builtin(b: Builtin, args: SpecSexp, env: SpecEnv, fuel: nat) -> SpecOut
    decreases fuel, 5int, 0nat,
{
    match b {
        Builtin::Id => (Ok(args), env),
        Builtin::PreFunction => spec_eval_args(args, env, fuel),
        Builtin::Plus => (Ok(SpecSexp::I32(sum_vals(args))), env),
        Builtin::Minus => match spec_car(args) {
            SpecSexp::I32(init) => (Ok(SpecSexp::I32(minus_fold(init, spec_cdr(args)))), env),
            _ => (Ok(SpecSexp::Nil), env),
        },
        Builtin::Multiply => match spec_mul_vals(args, env, fuel) {
            (Ok(p), env2) => (Ok(SpecSexp::I32(p)), env2),
            (Err(e), env2) => (Err(e), env2),
        },
        Builtin::Divide => match spec_car(args) {
            SpecSexp::I32(init) => match div_fold(init, spec_cdr(args)) {
                Some(x) => (Ok(SpecSexp::I32(x)), env),
                None => (Ok(SpecSexp::Nil), env),
            },
            _ => (Ok(SpecSexp::Nil), env),
        },
        Builtin::Modular => spec_modular(args, env, fuel),
        Builtin::Less => spec_comp(b, args, env, fuel),
        Builtin::Greater => spec_comp(b, args, env, fuel),
        Builtin::Le => spec_comp(b, args, env, fuel),
        Builtin::Ge => spec_comp(b, args, env, fuel),
        Builtin::And => (Ok(SpecSexp::Bool(and_fold(args))), env),
        Builtin::Or => (Ok(SpecSexp::Bool(or_fold(args))), env),
        Builtin::Not => (Ok(SpecSexp::Bool(spec_car(args) == SpecSexp::Bool(false))), env),
        Builtin::Concat => (Ok(SpecSexp::SString(concat_fold(args))), env),
        Builtin::SeqOp => (Ok(seq_last(args)), env),
        Builtin::DoOp => (Ok(spec_do(args)), env),
        Builtin::AndThen => (Ok(spec_and_then(args)), env),
        Builtin::EvalCond => spec_eval_cond(args, env, fuel),
        Builtin::CondOp => (Ok(spec_cond(args)), env),
        Builtin::LetOp => (Ok(spec_let(args)), env),
        Builtin::MatchOp => (Ok(spec_match(args)), env),
        Builtin::MapOp => spec_map(args, env, fuel),
        Builtin::FlatMapOp => spec_flat_map(args, env, fuel),
        Builtin::FoldOp => spec_fold(args, env, fuel),
        Builtin::CreateList => spec_create_list(args, env, fuel),
    }
}

/// Invoke a native function: the preprocess routine rewrites the raw operand
/// list, then the main routine runs on the result.
pub open spec fn spec_call(func: Builtin, pre: Builtin, args: SpecSexp, env: SpecEnv, fuel: nat) -> SpecOut
    decreases fuel, 6int, 0nat,
{
    if fuel == 0 {
        (Err(SpecErr::Depth), env)
    } else {
        let f = (fuel - 1) as nat;
        match spec_builtin(pre, args, env, f) {
            (Ok(args2), env2) => spec_builtin(func, args2, env2, f),
            (Err(e), env2) => (Err(e), env2),
        }
    }
}


/// Invoke a native function: preprocess, then the main routine.
impl RustFn {
    pub fn call(&self, arg: Ptr<Sexp>, env: &mut Env, fuel: u64) -> (r: Result<
        Ptr<Sexp>,
        EvalError,
    >)
        requires
            old(env).wf(),
        ensures
            final(env).wf(),
            matches_out(r, final(env)@, spec_call(self.func, self.preprocess, arg@, old(env)@, fuel as nat)),
        decreases fuel as nat, 6int, 0nat,
    {
        if fuel == 0 {
            return Err(EvalError::StackOverflow);
        }
        match apply_builtin(self.preprocess, arg, env, fuel - 1) {
            Ok(arg2) => apply_builtin(self.func, arg2, env, fuel - 1),
            Err(e) => Err(e),
        }
    }
}

/// Dispatch one primitive routine on its operand list.
pub fn apply_builtin(b: Builtin, args: Ptr<Sexp>, env: &mut Env, fuel: u64) -> (r: Result<
    Ptr<Sexp>,
    EvalError,
>)
    requires
        old(env).wf(),
    ensures
        final(env).wf(),
        matches_out(r, final(env)@, spec_builtin(b, args@, old(env)@, fuel as nat)),
    decreases fuel as nat, 5int, 0nat,
{
    match b {
        Builtin::Id => Ok(id(args, env)),
        Builtin::PreFunction => pre_function(args, env, fuel),
        Builtin::Plus => Ok(plus(args, env)),
        Builtin::Minus => Ok(minus(args, env)),
        Builtin::Multiply => multiply(args, env, fuel),
        Builtin::Divide => Ok(divide(args, env)),
        Builtin::Modular => modular(args, env, fuel),
        Builtin::Less => less(args, env, fuel),
        Builtin::Greater => greater(args, env, fuel),
        Builtin::Le => le(args, env, fuel),
        Builtin::Ge => ge(args, env, fuel),
        Builtin::And => Ok(and(args, env)),
        Builtin::Or => Ok(or(args, env)),
        Builtin::Not => Ok(not(args, env)),
        Builtin::Concat => Ok(concat(args, env)),
        Builtin::SeqOp => Ok(seq_form(args, env)),
        Builtin::DoOp => Ok(do_form(args, env)),
        Builtin::AndThen => Ok(and_then(args, env)),
        Builtin::EvalCond => eval_cond(args, env, fuel),
        Builtin::CondOp => Ok(cond(args, env)),
        Builtin::LetOp => Ok(let_form(args, env)),
        Builtin::MatchOp => Ok(match_form(args, env)),
        Builtin::MapOp => map(args, env, fuel),
        Builtin::FlatMapOp => flat_map(args, env, fuel),
        Builtin::FoldOp => fold(args, env, fuel),
        Builtin::CreateList => create_list(args, env, fuel),
    }
}

/// Hand the operand list back unchanged.
pub fn id(args: Ptr<Sexp>, env: &mut Env) -> (r: Ptr<Sexp>)
    ensures
        r@ == args@,
        *final(env) == *old(env),
{
    args
}

/// Evaluate every operand; the uniform preprocess giving most primitives
/// call-by-value semantics.
pub fn pre_function(args: Ptr<Sexp>, env: &mut Env, fuel: u64) -> (r: Result<Ptr<Sexp>, EvalError>)
    requires
        old(env).wf(),
    ensures
        final(env).wf(),
        matches_out(r, final(env)@, spec_eval_args(args@, old(env)@, fuel as nat)),
    decreases fuel as nat, 3int, 0nat,
{
    crate::semantic::eval_args(args, env, fuel)
}

fn val0_exec(v: &Sexp) -> (r: i32)
    ensures
        r == val0(v@),
{
    match v {
        Sexp::I32(n) => *n,
        _ => 0,
    }
}

fn val1_exec(v: &Sexp) -> (r: i32)
    ensures
        r == val1(v@),
{
    match v {
        Sexp::I32(n) => *n,
        _ => 1,
    }
}

fn sum_exec(v: &Sexp) -> (r: i32)
    ensures
        r == sum_vals(v@),
    decreases v,
{
    match v {
        Sexp::Nil => 0,
        Sexp::Form(c) => {
            let a = val0_exec(&c.car);
            let rest = sum_exec(&c.cdr);
            a.wrapping_add(rest)
        },
        _ => 0,
    }
}

/// Wrapping sum of the integer operands, with zero for anything else.
pub fn plus(args: Ptr<Sexp>, env: &mut Env) -> (r: Ptr<Sexp>)
    ensures
        r@ == SpecSexp::I32(sum_vals(args@)),
        *final(env) == *old(env),
{
    Box::new(Sexp::I32(sum_exec(&args)))
}

fn minus_exec(acc: i32, rest: &Sexp) -> (r: i32)
    ensures
        r == minus_fold(acc, rest@),
    decreases rest,
{
    match rest {
        Sexp::Form(c) => {
            let a = val0_exec(&c.car);
            minus_exec(acc.wrapping_sub(a), &c.cdr)
        },
        _ => acc,
    }
}

/// Wrapping left-fold subtraction from an integer start; anything else
/// starting yields the empty marker.
pub fn minus(args: Ptr<Sexp>, env: &mut Env) -> (r: Ptr<Sexp>)
    ensures
        r@ == (match spec_car(args@) {
            SpecSexp::I32(init) => SpecSexp::I32(minus_fold(init, spec_cdr(args@))),
            _ => SpecSexp::Nil,
        }),
        *final(env) == *old(env),
{
    let init = args.car();
    match &*init {
        Sexp::I32(n) => {
            let cdr = args.cdr();
            Box::new(Sexp::I32(minus_exec(*n, &cdr)))
        },
        _ => Sexp::nil(),
    }
}

fn mul_vals(args: Ptr<Sexp>, env: &mut Env, fuel: u64) -> (r: Result<i32, EvalError>)
    requires
        old(env).wf(),
    ensures
        final(env).wf(),
        ({
            let (sr, se) = spec_mul_vals(args@, old(env)@, fuel as nat);
            final(env)@ == se && (match r {
                Ok(x) => sr == Ok::<i32, SpecErr>(x),
                Err(e) => sr == Err::<i32, SpecErr>(e@),
            })
        }),
    decreases fuel as nat, 2int, ssize(args@),
{
    match *args {
        Sexp::Nil => Ok(1),
        Sexp::Form(c) => {
            if fuel == 0 {
                return Err(EvalError::StackOverflow);
            }
            match crate::semantic::evaluate(c.car, env, fuel - 1) {
                Ok(v) => {
                    match mul_vals(c.cdr, env, fuel) {
                        Ok(rest) => {
                            let a = val1_exec(&v);
                            Ok(a.wrapping_mul(rest))
                        },
                        Err(e) => Err(e),
                    }
                },
                Err(e) => Err(e),
            }
        },
        _ => {
            if fuel == 0 {
                return Err(EvalError::StackOverflow);
            }
            match crate::semantic::evaluate(Sexp::nil(), env, fuel - 1) {
                Ok(v) => Ok(val1_exec(&v)),
                Err(e) => Err(e),
            }
        },
    }
}

/// Wrapping product of the operands, each evaluated once more.
pub fn multiply(args: Ptr<Sexp>, env: &mut Env, fuel: u64) -> (r: Result<Ptr<Sexp>, EvalError>)
    requires
        old(env).wf(),
    ensures
        final(env).wf(),
        matches_out(r, final(env)@, spec_builtin(Builtin::Multiply, args@, old(env)@, fuel as nat)),
    decreases fuel as nat, 3int, 0nat,
{
    match mul_vals(args, env, fuel) {
        Ok(p) => Ok(Box::new(Sexp::I32(p))),
        Err(e) => Err(e),
    }
}

fn div_exec(acc: i32, rest: &Sexp) -> (r: Option<i32>)
    ensures
        r == div_fold(acc, rest@),
    decreases rest,
{
    match rest {
        Sexp::Form(c) => {
            let a = val1_exec(&c.car);
            match acc.checked_div(a) {
                Some(x) => div_exec(x, &c.cdr),
                None => None,
            }
        },
        _ => Some(acc),
    }
}

/// Checked left-fold division from an integer start; a failing division or a
/// non-integer start yields the empty marker.
pub fn divide(args: Ptr<Sexp>, env: &mut Env) -> (r: Ptr<Sexp>)
    ensures
        r@ == (match spec_car(args@) {
            SpecSexp::I32(init) => match div_fold(init, spec_cdr(args@)) {
                Some(x) => SpecSexp::I32(x),
                None => SpecSexp::Nil,
            },
            _ => SpecSexp::Nil,
        }),
        *final(env) == *old(env),
{
    let init = args.car();
    match &*init {
        Sexp::I32(n) => {
            let cdr = args.cdr();
            match div_exec(*n, &cdr) {
                Some(x) => Box::new(Sexp::I32(x)),
                None => Sexp::nil(),
            }
        },
        _ => Sexp::nil(),
    }
}

fn mod_exec(acc: i32, rest: &Sexp) -> (r: Option<i32>)
    ensures
        r == mod_fold(acc, rest@),
    decreases rest,
{
    proof {
        reveal_with_fuel(crate::sexp::view_of, 2);
    }
    match rest {
        Sexp::Form(c) => {
            match &*c.car {
                Sexp::I32(n) => match acc.checked_rem(*n) {
                    Some(x) => mod_exec(x, &c.cdr),
                    None => None,
                },
                _ => mod_exec(acc, &c.cdr),
            }
        },
        _ => Some(acc),
    }
}

/// The remainder primitive: evaluate the pivot, then fold the remainder over
/// the integer operands.
pub fn modular(args: Ptr<Sexp>, env: &mut Env, fuel: u64) -> (r: Result<Ptr<Sexp>, EvalError>)
    requires
        old(env).wf(),
    ensures
        final(env).wf(),
        matches_out(r, final(env)@, spec_modular(args@, old(env)@, fuel as nat)),
    decreases fuel as nat, 3int, 0nat,
{
    if fuel == 0 {
        return Err(EvalError::StackOverflow);
    }
    match crate::semantic::evaluate(args.car(), env, fuel - 1) {
        Ok(v) => {
            match &*v {
                Sexp::I32(init) => {
                    let cdr = args.cdr();
                    match mod_exec(*init, &cdr) {
                        Some(x) => Ok(Box::new(Sexp::I32(x))),
                        None => Ok(Sexp::nil()),
                    }
                },
                _ => Ok(Sexp::nil()),
            }
        },
        Err(e) => Err(e),
    }
}

fn cmp_exec(b: Builtin, x: i32, y: i32) -> (r: bool)
    ensures
        r == cmp_one(b, x, y),
{
    match b {
        Builtin::Less => x < y,
        Builtin::Greater => x > y,
        Builtin::Le => x <= y,
        Builtin::Ge => x >= y,
        _ => true,
    }
}

fn comp_exec(b: Builtin, pivot: i32, rest: &Sexp) -> (r: bool)
    ensures
        r == comp_fold(b, pivot, rest@),
    decreases rest,
{
    match rest {
        Sexp::Nil => true,
        Sexp::Form(c) => {
            let a = val1_exec(&c.car);
            cmp_exec(b, pivot, a) && comp_exec(b, pivot, &c.cdr)
        },
        _ => cmp_exec(b, pivot, 1),
    }
}

fn comp_form(b: Builtin, args: Ptr<Sexp>, env: &mut Env, fuel: u64) -> (r: Result<
    Ptr<Sexp>,
    EvalError,
>)
    requires
        old(env).wf(),
    ensures
        final(env).wf(),
        matches_out(r, final(env)@, spec_comp(b, args@, old(env)@, fuel as nat)),
    decreases fuel as nat, 3int, 0nat,
{
    if fuel == 0 {
        return Err(EvalError::StackOverflow);
    }
    match crate::semantic::evaluate(args.car(), env, fuel - 1) {
        Ok(v) => {
            match &*v {
                Sexp::I32(init) => {
                    let cdr = args.cdr();
                    Ok(Sexp::boolean(comp_exec(b, *init, &cdr)))
                },
                _ => Ok(Sexp::boolean(false)),
            }
        },
        Err(e) => Err(e),
    }
}

/// The pivot is strictly smaller than every further operand.
pub fn less(args: Ptr<Sexp>, env: &mut Env, fuel: u64) -> (r: Result<Ptr<Sexp>, EvalError>)
    requires
        old(env).wf(),
    ensures
        final(env).wf(),
        matches_out(r, final(env)@, spec_comp(Builtin::Less, args@, old(env)@, fuel as nat)),
    decreases fuel as nat, 4int, 0nat,
{
    comp_form(Builtin::Less, args, env, fuel)
}

/// The pivot is strictly greater than every further operand.
pub fn greater(args: Ptr<Sexp>, env: &mut Env, fuel: u64) -> (r: Result<Ptr<Sexp>, EvalError>)
    requires
        old(env).wf(),
    ensures
        final(env).wf(),
        matches_out(r, final(env)@, spec_comp(Builtin::Greater, args@, old(env)@, fuel as nat)),
    decreases fuel as nat, 4int, 0nat,
{
    comp_form(Builtin::Greater, args, env, fuel)
}

/// The pivot is at most every further operand.
pub fn le(args: Ptr<Sexp>, env: &mut Env, fuel: u64) -> (r: Result<Ptr<Sexp>, EvalError>)
    requires
        old(env).wf(),
    ensures
        final(env).wf(),
        matches_out(r, final(env)@, spec_comp(Builtin::Le, args@, old(env)@, fuel as nat)),
    decreases fuel as nat, 4int, 0nat,
{
    comp_form(Builtin::Le, args, env, fuel)
}

/// The pivot is at least every further operand.
pub fn ge(args: Ptr<Sexp>, env: &mut Env, fuel: u64) -> (r: Result<Ptr<Sexp>, EvalError>)
    requires
        old(env).wf(),
    ensures
        final(env).wf(),
        matches_out(r, final(env)@, spec_comp(Builtin::Ge, args@, old(env)@, fuel as nat)),
    decreases fuel as nat, 4int, 0nat,
{
    comp_form(Builtin::Ge, args, env, fuel)
}

fn and_exec(args: &Sexp) -> (r: bool)
    ensures
        r == and_fold(args@),
    decreases args,
{
    proof {
        reveal_with_fuel(crate::sexp::view_of, 2);
    }
    match args {
        Sexp::Nil => true,
        Sexp::Form(c) => {
            let head_ok = !matches!(&*c.car, Sexp::Bool(false));
            head_ok && and_exec(&c.cdr)
        },
        _ => true,
    }
}

/// No operand is the boolean false.
pub fn and(args: Ptr<Sexp>, env: &mut Env) -> (r: Ptr<Sexp>)
    ensures
        r@ == SpecSexp::Bool(and_fold(args@)),
        *final(env) == *old(env),
{
    Sexp::boolean(and_exec(&args))
}

fn or_exec(args: &Sexp) -> (r: bool)
    ensures
        r == or_fold(args@),
    decreases args,
{
    proof {
        reveal_with_fuel(crate::sexp::view_of, 2);
    }
    match args {
        Sexp::Nil => false,
        Sexp::Form(c) => {
            let head_ok = matches!(&*c.car, Sexp::Bool(true));
            head_ok || or_exec(&c.cdr)
        },
        _ => false,
    }
}

/// Some operand is the boolean true.
pub fn or(args: Ptr<Sexp>, env: &mut Env) -> (r: Ptr<Sexp>)
    ensures
        r@ == SpecSexp::Bool(or_fold(args@)),
        *final(env) == *old(env),
{
    Sexp::boolean(or_exec(&args))
}

/// The first operand is the boolean false.
pub fn not(args: Ptr<Sexp>, env: &mut Env) -> (r: Ptr<Sexp>)
    ensures
        r@ == SpecSexp::Bool(spec_car(args@) == SpecSexp::Bool(false)),
        *final(env) == *old(env),
{
    let arg = args.car();
    proof {
        reveal_with_fuel(crate::sexp::view_of, 2);
    }
    Sexp::boolean(matches!(&*arg, Sexp::Bool(false)))
}

fn concat_exec(args: &Sexp) -> (r: String)
    ensures
        r@ == concat_fold(args@),
    decreases args,
{
    proof {
        reveal_with_fuel(crate::sexp::view_of, 2);
    }
    match args {
        Sexp::Nil => {
            let r = String::new();
            proof {
                assert(r@ =~= concat_fold(args@));
            }
            r
        },
        Sexp::Form(c) => {
            let mut part = match &*c.car {
                Sexp::SString(s) => s.clone(),
                _ => c.car.to_text(),
            };
            let rest = concat_exec(&c.cdr);
            part.append(rest.as_str());
            part
        },
        _ => Sexp::Nil.to_text(),
    }
}

/// Concatenate the operands' texts; strings contribute their contents, other
/// values their printed form.
pub fn concat(args: Ptr<Sexp>, env: &mut Env) -> (r: Ptr<Sexp>)
    ensures
        r@ == SpecSexp::SString(concat_fold(args@)),
        *final(env) == *old(env),
{
    Box::new(Sexp::SString(concat_exec(&args)))
}

fn seq_last_exec(args: &Sexp) -> (r: Ptr<Sexp>)
    ensures
        r@ == seq_last(args@),
    decreases args,
{
    match args {
        Sexp::Form(c) => {
            if c.cdr.is_nil() {
                Box::new((*c.car).clone())
            } else {
                seq_last_exec(&c.cdr)
            }
        },
        _ => Sexp::nil(),
    }
}

/// The `seq` form: its value is the last operand.
pub fn seq_form(args: Ptr<Sexp>, env: &mut Env) -> (r: Ptr<Sexp>)
    ensures
        r@ == seq_last(args@),
        *final(env) == *old(env),
{
    seq_last_exec(&args)
}

/// The `and-then` rewrite.
pub fn and_then(args: Ptr<Sexp>, env: &mut Env) -> (r: Ptr<Sexp>)
    ensures
        r@ == spec_and_then(args@),
        *final(env) == *old(env),
{
    let e = args.car();
    let c = args.cdr().car();
    if !e.is_nil() {
        Sexp::cons(c, Sexp::cons(e, Sexp::nil()))
    } else {
        e
    }
}

/// The `and-then` preprocess: evaluate the first operand only.
pub fn eval_cond(args: Ptr<Sexp>, env: &mut Env, fuel: u64) -> (r: Result<Ptr<Sexp>, EvalError>)
    requires
        old(env).wf(),
    ensures
        final(env).wf(),
        matches_out(r, final(env)@, spec_eval_cond(args@, old(env)@, fuel as nat)),
    decreases fuel as nat, 3int, 0nat,
{
    if fuel == 0 {
        return Err(EvalError::StackOverflow);
    }
    match crate::semantic::evaluate(args.car(), env, fuel - 1) {
        Ok(v) => Ok(Sexp::cons(v, args.cdr())),
        Err(e) => Err(e),
    }
}

fn cond_exec(args: &Sexp) -> (r: Ptr<Sexp>)
    ensures
        r@ == spec_cond(args@),
    decreases args,
{
    match args {
        Sexp::Nil => Sexp::nil(),
        Sexp::Form(c) => {
            let cnd = c.car.car();
            let b = c.car.cdr().car();
            let else_flag = Sexp::identifier("else");
            if crate::sexp::sexp_eq(&cnd, &else_flag) {
                b
            } else {
                let rest = cond_exec(&c.cdr);
                Sexp::cons(
                    Sexp::if_token(),
                    Sexp::cons(cnd, Sexp::cons(b, Sexp::cons(rest, Sexp::nil()))),
                )
            }
        },
        _ => Sexp::cons(
            Sexp::if_token(),
            Sexp::cons(
                Sexp::nil(),
                Sexp::cons(Sexp::nil(), Sexp::cons(Sexp::nil(), Sexp::nil())),
            ),
        ),
    }
}

/// The `cond` rewrite: arms become nested `if` forms.
pub fn cond(args: Ptr<Sexp>, env: &mut Env) -> (r: Ptr<Sexp>)
    ensures
        r@ == spec_cond(args@),
        *final(env) == *old(env),
{
    cond_exec(&args)
}

fn app_last_exec(body: &Sexp, last: Ptr<Sexp>) -> (r: Ptr<Sexp>)
    ensures
        r@ == app_last(body@, last@),
    decreases body,
{
    match body {
        Sexp::Nil => Sexp::cons(last, Sexp::nil()),
        Sexp::Form(c) => {
            let rest = app_last_exec(&c.cdr, last);
            Sexp::cons(Box::new((*c.car).clone()), rest)
        },
        _ => Sexp::cons(Sexp::nil(), Sexp::cons(last, Sexp::nil())),
    }
}

fn do_walk(forms: &Sexp) -> (r: Ptr<Sexp>)
    ensures
        r@ == spec_do(forms@),
    decreases forms,
{
    match forms {
        Sexp::Nil => Sexp::nil(),
        Sexp::Form(c) => {
            let first = c.car.car();
            let arrow = Sexp::identifier("->");
            if crate::sexp::sexp_eq(&first, &arrow) {
                let body = c.car.cdr().car();
                let params = c.car.cdr().cdr().car();
                let rest = do_walk(&c.cdr);
                let lambda = Sexp::cons(
                    Sexp::lambda(),
                    Sexp::cons(params, Sexp::cons(rest, Sexp::nil())),
                );
                app_last_exec(&body, lambda)
            } else {
                Box::new((*c.car).clone())
            }
        },
        _ => Sexp::nil(),
    }
}

/// The `do` rewrite: continuation-passing chains out of `->` steps.
pub fn do_form(args: Ptr<Sexp>, env: &mut Env) -> (r: Ptr<Sexp>)
    ensures
        r@ == spec_do(args@),
        *final(env) == *old(env),
{
    do_walk(&args)
}

fn let_idents_exec(decls: &Sexp) -> (r: Ptr<Sexp>)
    ensures
        r@ == let_idents(decls@),
    decreases decls,
{
    match decls {
        Sexp::Form(c) => {
            let ident = c.car.car();
            let rest = let_idents_exec(&c.cdr);
            if ident.is_identifier() {
                Sexp::cons(ident, rest)
            } else {
                rest
            }
        },
        _ => Sexp::nil(),
    }
}

fn let_exprs_exec(decls: &Sexp) -> (r: Ptr<Sexp>)
    ensures
        r@ == let_exprs(decls@),
    decreases decls,
{
    match decls {
        Sexp::Form(c) => {
            let ident = c.car.car();
            let rest = let_exprs_exec(&c.cdr);
            if ident.is_identifier() {
                Sexp::cons(c.car.cdr().car(), rest)
            } else {
                rest
            }
        },
        _ => Sexp::nil(),
    }
}

/// The anonymous fixed-point maker used by the named `let`.
fn omega() -> (r: Ptr<Sexp>)
    ensures
        r@ == spec_omega(),
{
    Sexp::cons(
        Sexp::lambda(),
        Sexp::cons(
            Sexp::cons(Sexp::identifier("f"), Sexp::nil()),
            Sexp::cons(
                Sexp::cons(Sexp::identifier("f"), Sexp::cons(Sexp::identifier("f"), Sexp::nil())),
                Sexp::nil(),
            ),
        ),
    )
}

/// The fixed-point combinator specialized to the given parameter list.
fn y_comb(params: Ptr<Sexp>) -> (r: Ptr<Sexp>)
    ensures
        r@ == spec_y(params@),
{
    let params2 = Box::new((*params).clone());
    let inner_apply = Sexp::cons(
        Sexp::cons(
            Sexp::identifier("f"),
            Sexp::cons(
                Sexp::cons(Sexp::identifier("g"), Sexp::cons(Sexp::identifier("g"), Sexp::nil())),
                Sexp::nil(),
            ),
        ),
        params2,
    );
    let inner_lambda = Sexp::cons(
        Sexp::lambda(),
        Sexp::cons(params, Sexp::cons(inner_apply, Sexp::nil())),
    );
    let g_lambda = Sexp::cons(
        Sexp::lambda(),
        Sexp::cons(
            Sexp::cons(Sexp::identifier("g"), Sexp::nil()),
            Sexp::cons(inner_lambda, Sexp::nil()),
        ),
    );
    Sexp::cons(
        Sexp::lambda(),
        Sexp::cons(
            Sexp::cons(Sexp::identifier("f"), Sexp::nil()),
            Sexp::cons(Sexp::cons(omega(), Sexp::cons(g_lambda, Sexp::nil())), Sexp::nil()),
        ),
    )
}

/// The `let` rewrite: a lambda application, threaded through the fixed-point
/// combinator when the let is named.
pub fn let_form(args: Ptr<Sexp>, env: &mut Env) -> (r: Ptr<Sexp>)
    ensures
        r@ == spec_let(args@),
        *final(env) == *old(env),
{
    let first = args.car();
    if first.is_identifier() {
        let decls = args.cdr().car();
        let cont = args.cdr().cdr().car();
        let idents = let_idents_exec(&decls);
        let exprs = let_exprs_exec(&decls);
        let idents2 = Box::new((*idents).clone());
        let lambda = Sexp::cons(
            Sexp::lambda(),
            Sexp::cons(Sexp::cons(first, idents), Sexp::cons(cont, Sexp::nil())),
        );
        let yc_lambda = Sexp::cons(y_comb(idents2), Sexp::cons(lambda, Sexp::nil()));
        Sexp::cons(yc_lambda, exprs)
    } else {
        let decls = first;
        let cont = args.cdr().car();
        let idents = let_idents_exec(&decls);
        let exprs = let_exprs_exec(&decls);
        let lambda = Sexp::cons(
            Sexp::lambda(),
            Sexp::cons(idents, Sexp::cons(cont, Sexp::nil())),
        );
        Sexp::cons(lambda, exprs)
    }
}

fn binds_params_exec(v: &Vec<(String, Ptr<Sexp>)>, i: usize, Ghost(bs): Ghost<
    Seq<(Seq<char>, SpecSexp)>,
>) -> (r: Ptr<Sexp>)
    requires
        i <= v@.len(),
        bs == Seq::new(v@.len(), |k: int| (v@[k].0@, v@[k].1@)),
    ensures
        r@ == binds_params(bs.skip(i as int)),
    decreases v@.len() - i,
{
    if i == v.len() {
        proof {
            assert(bs.skip(i as int) =~= Seq::<(Seq<char>, SpecSexp)>::empty());
        }
        Sexp::nil()
    } else {
        let rest = binds_params_exec(v, i + 1, Ghost(bs));
        proof {
            assert(bs.skip(i as int).drop_first() =~= bs.skip(i + 1));
            assert(bs.skip(i as int)[0] == bs[i as int]);
        }
        Sexp::cons(Sexp::identifier(v[i].0.as_str()), rest)
    }
}

fn binds_args_exec(v: &Vec<(String, Ptr<Sexp>)>, i: usize, Ghost(bs): Ghost<
    Seq<(Seq<char>, SpecSexp)>,
>) -> (r: Ptr<Sexp>)
    requires
        i <= v@.len(),
        bs == Seq::new(v@.len(), |k: int| (v@[k].0@, v@[k].1@)),
    ensures
        r@ == binds_args(bs.skip(i as int)),
    decreases v@.len() - i,
{
    if i == v.len() {
        proof {
            assert(bs.skip(i as int) =~= Seq::<(Seq<char>, SpecSexp)>::empty());
        }
        Sexp::nil()
    } else {
        let rest = binds_args_exec(v, i + 1, Ghost(bs));
        proof {
            assert(bs.skip(i as int).drop_first() =~= bs.skip(i + 1));
            assert(bs.skip(i as int)[0] == bs[i as int]);
        }
        Sexp::cons(Box::new((*v[i].1).clone()), rest)
    }
}

fn match_arms_exec(arg: &Sexp, arms: &Sexp) -> (r: Ptr<Sexp>)
    ensures
        r@ == spec_match_arms(arg@, arms@),
    decreases arms,
{
    match arms {
        Sexp::Nil => Sexp::nil(),
        Sexp::Form(c) => {
            let pat = c.car.car();
            let ret = c.car.cdr().car();
            let else_flag = Sexp::identifier("else");
            if crate::sexp::sexp_eq(&pat, &else_flag) {
                ret
            } else {
                let p = crate::pattern::Pattern::new(pat);
                match p.bind(Box::new(arg.clone())) {
                    Ok(b) => {
                        let ghost bsv = b@;
                        let bsvec = b.get_binding();
                        let params = binds_params_exec(&bsvec, 0, Ghost(bsv));
                        let argl = binds_args_exec(&bsvec, 0, Ghost(bsv));
                        proof {
                            assert(bsv.skip(0) =~= bsv);
                        }
                        let lambda = Sexp::cons(
                            Sexp::lambda(),
                            Sexp::cons(params, Sexp::cons(ret, Sexp::nil())),
                        );
                        Sexp::cons(lambda, argl)
                    },
                    Err(_) => match_arms_exec(arg, &c.cdr),
                }
            }
        },
        _ => {
            let p = crate::pattern::Pattern::Nil;
            match p.bind(Box::new(arg.clone())) {
                Ok(b) => {
                    let ghost bsv = b@;
                    let bsvec = b.get_binding();
                    let params = binds_params_exec(&bsvec, 0, Ghost(bsv));
                    let argl = binds_args_exec(&bsvec, 0, Ghost(bsv));
                    proof {
                        assert(bsv.skip(0) =~= bsv);
                    }
                    let lambda = Sexp::cons(
                        Sexp::lambda(),
                        Sexp::cons(params, Sexp::cons(Sexp::nil(), Sexp::nil())),
                    );
                    Sexp::cons(lambda, argl)
                },
                Err(_) => Sexp::nil(),
            }
        },
    }
}

/// The `match` rewrite: the first arm whose pattern binds the scrutinee
/// becomes an ad-hoc lambda application of the captured values.
pub fn match_form(args: Ptr<Sexp>, env: &mut Env) -> (r: Ptr<Sexp>)
    ensures
        r@ == spec_match(args@),
        *final(env) == *old(env),
{
    let arg = args.car();
    let arms = args.cdr();
    match_arms_exec(&arg, &arms)
}

/// Quote a value, shielding it from one further evaluation.
pub fn quote(args: Ptr<Sexp>) -> (r: Ptr<Sexp>)
    ensures
        r@ == quote_of(args@),
{
    Sexp::cons(Sexp::quote(), Sexp::cons(args, Sexp::nil()))
}

fn map_loop(lst: &Sexp, lam: &Sexp, env: &mut Env, fuel: u64) -> (r: Result<Ptr<Sexp>, EvalError>)
    requires
        old(env).wf(),
    ensures
        final(env).wf(),
        matches_out(r, final(env)@, spec_map_loop(lst@, lam@, old(env)@, fuel as nat)),
    decreases fuel as nat, 2int, ssize(lst@),
{
    match lst {
        Sexp::Nil => Ok(Sexp::nil()),
        Sexp::Form(c) => {
            if fuel == 0 {
                return Err(EvalError::StackOverflow);
            }
            let app = Sexp::cons(
                Box::new(lam.clone()),
                Sexp::cons(quote(Box::new((*c.car).clone())), Sexp::nil()),
            );
            match crate::semantic::evaluate(app, env, fuel - 1) {
                Ok(v) => {
                    match map_loop(&c.cdr, lam, env, fuel) {
                        Ok(rest) => Ok(Sexp::cons(v, rest)),
                        Err(e) => Err(e),
                    }
                },
                Err(e) => Err(e),
            }
        },
        _ => {
            if fuel == 0 {
                return Err(EvalError::StackOverflow);
            }
            let app = Sexp::cons(
                Box::new(lam.clone()),
                Sexp::cons(quote(Sexp::nil()), Sexp::nil()),
            );
            match crate::semantic::evaluate(app, env, fuel - 1) {
                Ok(v) => Ok(Sexp::cons(v, Sexp::nil())),
                Err(e) => Err(e),
            }
        },
    }
}

/// Map: evaluate the list and the function, apply the function to each
/// quoted element, and quote the collected results.
pub fn map(args: Ptr<Sexp>, env: &mut Env, fuel: u64) -> (r: Result<Ptr<Sexp>, EvalError>)
    requires
        old(env).wf(),
    ensures
        final(env).wf(),
        matches_out(r, final(env)@, spec_map(args@, old(env)@, fuel as nat)),
    decreases fuel as nat, 3int, 0nat,
{
    if fuel == 0 {
        return Err(EvalError::StackOverflow);
    }
    match crate::semantic::evaluate(args.car(), env, fuel - 1) {
        Ok(lst) => {
            match crate::semantic::evaluate(args.cdr().car(), env, fuel - 1) {
                Ok(lam) => {
                    match map_loop(&lst, &lam, env, fuel) {
                        Ok(res) => Ok(quote(res)),
                        Err(e) => Err(e),
                    }
                },
                Err(e) => Err(e),
            }
        },
        Err(e) => Err(e),
    }
}

fn app_elems_exec(v: &Sexp, rest: Ptr<Sexp>) -> (r: Ptr<Sexp>)
    ensures
        r@ == app_elems(v@, rest@),
    decreases v,
{
    match v {
        Sexp::Nil => rest,
        Sexp::Form(c) => {
            let tail = app_elems_exec(&c.cdr, rest);
            Sexp::cons(Box::new((*c.car).clone()), tail)
        },
        _ => Sexp::cons(Sexp::nil(), rest),
    }
}

fn flat_loop(lst: &Sexp, lam: &Sexp, env: &mut Env, fuel: u64) -> (r: Result<Ptr<Sexp>, EvalError>)
    requires
        old(env).wf(),
    ensures
        final(env).wf(),
        matches_out(r, final(env)@, spec_flat_loop(lst@, lam@, old(env)@, fuel as nat)),
    decreases fuel as nat, 2int, ssize(lst@),
{
    match lst {
        Sexp::Nil => Ok(Sexp::nil()),
        Sexp::Form(c) => {
            if fuel == 0 {
                return Err(EvalError::StackOverflow);
            }
            let app = Sexp::cons(
                Box::new(lam.clone()),
                Sexp::cons(Box::new((*c.car).clone()), Sexp::nil()),
            );
            match crate::semantic::evaluate(app, env, fuel - 1) {
                Ok(v) => {
                    match flat_loop(&c.cdr, lam, env, fuel) {
                        Ok(rest) => Ok(app_elems_exec(&v, rest)),
                        Err(e) => Err(e),
                    }
                },
                Err(e) => Err(e),
            }
        },
        _ => {
            if fuel == 0 {
                return Err(EvalError::StackOverflow);
            }
            let app = Sexp::cons(
                Box::new(lam.clone()),
                Sexp::cons(Sexp::nil(), Sexp::nil()),
            );
            match crate::semantic::evaluate(app, env, fuel - 1) {
                Ok(v) => Ok(app_elems_exec(&v, Sexp::nil())),
                Err(e) => Err(e),
            }
        },
    }
}

/// Flat map: apply the function to each element and splice the resulting
/// lists together, quoted.
pub fn flat_map(args: Ptr<Sexp>, env: &mut Env, fuel: u64) -> (r: Result<Ptr<Sexp>, EvalError>)
    requires
        old(env).wf(),
    ensures
        final(env).wf(),
        matches_out(r, final(env)@, spec_flat_map(args@, old(env)@, fuel as nat)),
    decreases fuel as nat, 3int, 0nat,
{
    if fuel == 0 {
        return Err(EvalError::StackOverflow);
    }
    match crate::semantic::evaluate(args.car(), env, fuel - 1) {
        Ok(lst) => {
            match crate::semantic::evaluate(args.cdr().car(), env, fuel - 1) {
                Ok(lam) => {
                    match flat_loop(&lst, &lam, env, fuel) {
                        Ok(res) => Ok(quote(res)),
                        Err(e) => Err(e),
                    }
                },
                Err(e) => Err(e),
            }
        },
        Err(e) => Err(e),
    }
}

fn fold_inner(l: &Sexp, acc: Ptr<Sexp>, lam: &Sexp, env: &mut Env, fuel: u64) -> (r: Result<
    Ptr<Sexp>,
    EvalError,
>)
    requires
        old(env).wf(),
    ensures
        final(env).wf(),
        matches_out(r, final(env)@, spec_fold_inner(l@, acc@, lam@, old(env)@, fuel as nat)),
    decreases fuel as nat, 2int, ssize(l@),
{
    match l {
        Sexp::Nil => Ok(acc),
        Sexp::Form(c) => {
            if fuel == 0 {
                return Err(EvalError::StackOverflow);
            }
            let app = Sexp::cons(
                Box::new(lam.clone()),
                Sexp::cons(quote(acc), Sexp::cons(Box::new((*c.car).clone()), Sexp::nil())),
            );
            match crate::semantic::evaluate(app, env, fuel - 1) {
                Ok(acc2) => fold_inner(&c.cdr, acc2, lam, env, fuel),
                Err(e) => Err(e),
            }
        },
        _ => {
            if fuel == 0 {
                return Err(EvalError::StackOverflow);
            }
            let app = Sexp::cons(
                Box::new(lam.clone()),
                Sexp::cons(quote(acc), Sexp::cons(Sexp::nil(), Sexp::nil())),
            );
            match crate::semantic::evaluate(app, env, fuel - 1) {
                Ok(acc2) => Ok(acc2),
                Err(e) => Err(e),
            }
        },
    }
}

fn fold_outer(ls: &Sexp, acc: Ptr<Sexp>, lam: &Sexp, env: &mut Env, fuel: u64) -> (r: Result<
    Ptr<Sexp>,
    EvalError,
>)
    requires
        old(env).wf(),
    ensures
        final(env).wf(),
        matches_out(r, final(env)@, spec_fold_outer(ls@, acc@, lam@, old(env)@, fuel as nat)),
    decreases fuel as nat, 3int, ssize(ls@),
{
    match ls {
        Sexp::Form(c) => {
            let step = if matches!(&*c.car, Sexp::Form(_)) {
                fold_inner(&c.car, acc, lam, env, fuel)
            } else {
                if fuel == 0 {
                    Err(EvalError::StackOverflow)
                } else {
                    let app = Sexp::cons(
                        Box::new(lam.clone()),
                        Sexp::cons(
                            quote(acc),
                            Sexp::cons(Box::new((*c.car).clone()), Sexp::nil()),
                        ),
                    );
                    crate::semantic::evaluate(app, env, fuel - 1)
                }
            };
            match step {
                Ok(acc2) => fold_outer(&c.cdr, acc2, lam, env, fuel),
                Err(e) => Err(e),
            }
        },
        _ => Ok(acc),
    }
}

/// Fold: evaluate the function, the seed and each list operand, then fold
/// them all, quoting the result.
pub fn fold(args: Ptr<Sexp>, env: &mut Env, fuel: u64) -> (r: Result<Ptr<Sexp>, EvalError>)
    requires
        old(env).wf(),
    ensures
        final(env).wf(),
        matches_out(r, final(env)@, spec_fold(args@, old(env)@, fuel as nat)),
    decreases fuel as nat, 4int, 0nat,
{
    if fuel == 0 {
        return Err(EvalError::StackOverflow);
    }
    match crate::semantic::evaluate(args.car(), env, fuel - 1) {
        Ok(lam) => {
            match crate::semantic::evaluate(args.cdr().car(), env, fuel - 1) {
                Ok(acc0) => {
                    match crate::semantic::eval_args(args.cdr().cdr(), env, fuel) {
                        Ok(ls) => {
                            match fold_outer(&ls, acc0, &lam, env, fuel) {
                                Ok(res) => Ok(quote(res)),
                                Err(e) => Err(e),
                            }
                        },
                        Err(e) => Err(e),
                    }
                },
                Err(e) => Err(e),
            }
        },
        Err(e) => Err(e),
    }
}

/// The list constructor: evaluate every operand and quote the result list.
pub fn create_list(args: Ptr<Sexp>, env: &mut Env, fuel: u64) -> (r: Result<Ptr<Sexp>, EvalError>)
    requires
        old(env).wf(),
    ensures
        final(env).wf(),
        matches_out(r, final(env)@, spec_create_list(args@, old(env)@, fuel as nat)),
    decreases fuel as nat, 3int, 0nat,
{
    match crate::semantic::eval_args(args, env, fuel) {
        Ok(lst) => Ok(quote(lst)),
        Err(e) => Err(e),
    }
}

/// Register the base forms: seq, do, and-then, let, cond and match.
pub fn load_base(env: &mut Env)
    requires
        old(env).wf(),
    ensures
        final(env).wf(),
        final(env)@ == (SpecEnv {
            globals: old(env)@.globals.insert(
                "seq"@,
                SpecSexp::Native(Builtin::SeqOp, Builtin::PreFunction),
            ).insert("do"@, SpecSexp::Native(Builtin::DoOp, Builtin::Id)).insert(
                "and-then"@,
                SpecSexp::Native(Builtin::AndThen, Builtin::EvalCond),
            ).insert("let"@, SpecSexp::Native(Builtin::LetOp, Builtin::Id)).insert(
                "cond"@,
                SpecSexp::Native(Builtin::CondOp, Builtin::Id),
            ).insert("match"@, SpecSexp::Native(Builtin::MatchOp, Builtin::Id)),
            ..old(env)@
        }),
{
    env.set_global("seq", Sexp::rust_fn_with_preprocess(Builtin::SeqOp, Builtin::PreFunction));
    env.set_global("do", Sexp::rust_fn(Builtin::DoOp));
    env.set_global("and-then", Sexp::rust_fn_with_preprocess(Builtin::AndThen, Builtin::EvalCond));
    env.set_global("let", Sexp::rust_fn(Builtin::LetOp));
    env.set_global("cond", Sexp::rust_fn(Builtin::CondOp));
    env.set_global("match", Sexp::rust_fn(Builtin::MatchOp));
}

/// Register the arithmetic primitives.
pub fn load_arithmetic(env: &mut Env)
    requires
        old(env).wf(),
    ensures
        final(env).wf(),
        final(env)@ == (SpecEnv {
            globals: old(env)@.globals.insert(
                "__builtin_+"@,
                SpecSexp::Native(Builtin::Plus, Builtin::PreFunction),
            ).insert("__builtin_-"@, SpecSexp::Native(Builtin::Minus, Builtin::PreFunction)).insert(
                "__builtin_*"@,
                SpecSexp::Native(Builtin::Multiply, Builtin::PreFunction),
            ).insert(
                "__builtin_/"@,
                SpecSexp::Native(Builtin::Divide, Builtin::PreFunction),
            ).insert(
                "__builtin_mod"@,
                SpecSexp::Native(Builtin::Modular, Builtin::PreFunction),
            ).insert(
                "__builtin_less"@,
                SpecSexp::Native(Builtin::Less, Builtin::PreFunction),
            ).insert(
                "__builtin_greater"@,
                SpecSexp::Native(Builtin::Greater, Builtin::PreFunction),
            ).insert("__builtin_le"@, SpecSexp::Native(Builtin::Le, Builtin::PreFunction)).insert(
                "__builtin_ge"@,
                SpecSexp::Native(Builtin::Ge, Builtin::PreFunction),
            ),
            ..old(env)@
        }),
{
    env.set_global(
        "__builtin_+",
        Sexp::rust_fn_with_preprocess(Builtin::Plus, Builtin::PreFunction),
    );
    env.set_global(
        "__builtin_-",
        Sexp::rust_fn_with_preprocess(Builtin::Minus, Builtin::PreFunction),
    );
    env.set_global(
        "__builtin_*",
        Sexp::rust_fn_with_preprocess(Builtin::Multiply, Builtin::PreFunction),
    );
    env.set_global(
        "__builtin_/",
        Sexp::rust_fn_with_preprocess(Builtin::Divide, Builtin::PreFunction),
    );
    env.set_global(
        "__builtin_mod",
        Sexp::rust_fn_with_preprocess(Builtin::Modular, Builtin::PreFunction),
    );
    env.set_global(
        "__builtin_less",
        Sexp::rust_fn_with_preprocess(Builtin::Less, Builtin::PreFunction),
    );
    env.set_global(
        "__builtin_greater",
        Sexp::rust_fn_with_preprocess(Builtin::Greater, Builtin::PreFunction),
    );
    env.set_global(
        "__builtin_le",
        Sexp::rust_fn_with_preprocess(Builtin::Le, Builtin::PreFunction),
    );
    env.set_global(
        "__builtin_ge",
        Sexp::rust_fn_with_preprocess(Builtin::Ge, Builtin::PreFunction),
    );
}

/// Register the boolean primitives.
pub fn load_bool(env: &mut Env)
    requires
        old(env).wf(),
    ensures
        final(env).wf(),
        final(env)@ == (SpecEnv {
            globals: old(env)@.globals.insert(
                "and"@,
                SpecSexp::Native(Builtin::And, Builtin::PreFunction),
            ).insert("or"@, SpecSexp::Native(Builtin::Or, Builtin::PreFunction)).insert(
                "not"@,
                SpecSexp::Native(Builtin::Not, Builtin::PreFunction),
            ),
            ..old(env)@
        }),
{
    env.set_global("and", Sexp::rust_fn_with_preprocess(Builtin::And, Builtin::PreFunction));
    env.set_global("or", Sexp::rust_fn_with_preprocess(Builtin::Or, Builtin::PreFunction));
    env.set_global("not", Sexp::rust_fn_with_preprocess(Builtin::Not, Builtin::PreFunction));
}

/// Register the string primitive.
pub fn load_string(env: &mut Env)
    requires
        old(env).wf(),
    ensures
        final(env).wf(),
        final(env)@ == (SpecEnv {
            globals: old(env)@.globals.insert(
                "concat"@,
                SpecSexp::Native(Builtin::Concat, Builtin::PreFunction),
            ),
            ..old(env)@
        }),
{
    env.set_global("concat", Sexp::rust_fn_with_preprocess(Builtin::Concat, Builtin::PreFunction));
}

/// Register the list primitives.
pub fn load_list(env: &mut Env)
    requires
        old(env).wf(),
    ensures
        final(env).wf(),
        final(env)@ == (SpecEnv {
            globals: old(env)@.globals.insert(
                "__builtin_list"@,
                SpecSexp::Native(Builtin::CreateList, Builtin::PreFunction),
            ).insert("__builtin_fold"@, SpecSexp::Native(Builtin::Id, Builtin::FoldOp)).insert(
                "__builtin_map"@,
                SpecSexp::Native(Builtin::Id, Builtin::MapOp),
            ).insert("__builtin_flat-map"@, SpecSexp::Native(Builtin::Id, Builtin::FlatMapOp)),
            ..old(env)@
        }),
{
    env.set_global(
        "__builtin_list",
        Sexp::rust_fn_with_preprocess(Builtin::CreateList, Builtin::PreFunction),
    );
    env.set_global("__builtin_fold", Sexp::rust_fn_with_preprocess(Builtin::Id, Builtin::FoldOp));
    env.set_global("__builtin_map", Sexp::rust_fn_with_preprocess(Builtin::Id, Builtin::MapOp));
    env.set_global(
        "__builtin_flat-map",
        Sexp::rust_fn_with_preprocess(Builtin::Id, Builtin::FlatMapOp),
    );
}

} // verus!
