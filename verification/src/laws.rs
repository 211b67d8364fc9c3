//! The laws of the runtime, each proved over the evaluator's semantics.
use vstd::prelude::*;

use crate::env::{import_map, prefixed_in, spec_lookup, spec_pop, spec_push, SpecEnv};
use crate::pattern::{spec_bind, spec_pattern_of, SpecPattern};
use crate::semantic::{
    eval_s, form2, list1, list2, list3, reduce_s, spec_apply, spec_bind_params, spec_define,
    spec_if, SpecErr,
};
use crate::sexp::{spec_car, spec_cdr, SpecSexp};
use crate::stdlib::list4;

verus! {

/// The pair laws: the head of a pair is its first component and the tail its
/// second, for all values.
pub proof fn lemma_cons_car_cdr(a: SpecSexp, b: SpecSexp)
    ensures
        spec_car(form2(a, b)) == a,
        spec_cdr(form2(a, b)) == b,
{
}

/// A literal datum: evaluating it returns it unchanged.
pub open spec fn is_literal(v: SpecSexp) -> bool {
    v is I32 || v is Char || v is SString || v is Bool || v is Nil
}

/// Evaluating a literal yields the literal and leaves the environment
/// exactly as it was: the scope pushed on entry is reclaimed on exit.
pub proof fn lemma_eval_literal(c: SpecSexp, env: SpecEnv, fuel: nat)
    requires
        is_literal(c),
        fuel >= 1,
    ensures
        eval_s(c, env, fuel) == (Ok::<SpecSexp, SpecErr>(c), env),
{
    let env1 = spec_push(env);
    let ti = env.frames.len() as int;
    assert(reduce_s(c, env1, fuel) == (Ok::<SpecSexp, SpecErr>(c), env1));
    let env3 = SpecEnv { cur: Some(ti), ..env1 };
    assert(spec_pop(env3).frames =~= env.frames);
    assert(spec_pop(env3) =~= env);
}

/// The conditional law: with a literal condition, the `if` form evaluates to
/// whatever the selected branch evaluates to, in the same environment; only
/// the boolean-true literal selects the then-branch, every other literal the
/// else-branch.
pub proof fn lemma_if_literal(c: SpecSexp, x: SpecSexp, y: SpecSexp, env: SpecEnv, fuel: nat)
    requires
        is_literal(c),
        fuel >= 3,
    ensures
        eval_s(list4(SpecSexp::If, c, x, y), env, fuel) == eval_s(
            if c == SpecSexp::Bool(true) {
                x
            } else {
                y
            },
            env,
            (fuel - 1) as nat,
        ),
{
    let fform = list4(SpecSexp::If, c, x, y);
    let body = list3(c, x, y);
    let env1 = spec_push(env);
    let ti = env.frames.len() as int;
    let f = (fuel - 1) as nat;
    lemma_eval_literal(c, env1, (f - 1) as nat);
    assert(spec_if(body, env1, f) == (
        Ok::<SpecSexp, SpecErr>(
            if c == SpecSexp::Bool(true) {
                x
            } else {
                y
            },
        ),
        env1,
    ));
    let sel = if c == SpecSexp::Bool(true) {
        x
    } else {
        y
    };
    assert(reduce_s(fform, env1, fuel) == reduce_s(sel, env1, f));
    assert(eval_s(fform, env, fuel) == eval_s(sel, env, f));
}

/// The equality law, first half: `(eq 1 1 1)` evaluates to the boolean true
/// in any environment, which it leaves unchanged.
pub proof fn lemma_eq_all_equal(env: SpecEnv, fuel: nat)
    requires
        fuel >= 4,
    ensures
        eval_s(list4(SpecSexp::EqKw, SpecSexp::I32(1), SpecSexp::I32(1), SpecSexp::I32(1)), env, fuel)
            == (Ok::<SpecSexp, SpecErr>(SpecSexp::Bool(true)), env),
{
    let one = SpecSexp::I32(1);
    let fform = list4(SpecSexp::EqKw, one, one, one);
    let env1 = spec_push(env);
    let ti = env.frames.len() as int;
    let f = (fuel - 1) as nat;
    lemma_eval_literal(one, env1, (f - 1) as nat);
    lemma_eval_literal(SpecSexp::Nil, env1, (f - 1) as nat);
    assert(crate::semantic::spec_eq_loop(SpecSexp::Nil, one, env1, f) == (
        Ok::<SpecSexp, SpecErr>(SpecSexp::Bool(true)),
        env1,
    ));
    assert(crate::semantic::spec_eq_loop(list1(one), one, env1, f) == (
        Ok::<SpecSexp, SpecErr>(SpecSexp::Bool(true)),
        env1,
    ));
    assert(crate::semantic::spec_eq_loop(list2(one, one), one, env1, f) == (
        Ok::<SpecSexp, SpecErr>(SpecSexp::Bool(true)),
        env1,
    ));
    assert(crate::semantic::spec_eq_form(list3(one, one, one), env1, f) == (
        Ok::<SpecSexp, SpecErr>(SpecSexp::Bool(true)),
        env1,
    ));
    assert(reduce_s(SpecSexp::Bool(true), env1, f) == (
        Ok::<SpecSexp, SpecErr>(SpecSexp::Bool(true)),
        env1,
    ));
    assert(reduce_s(fform, env1, fuel) == (Ok::<SpecSexp, SpecErr>(SpecSexp::Bool(true)), env1));
    let env3 = SpecEnv { cur: Some(ti), ..env1 };
    assert(spec_pop(env3).frames =~= env.frames);
    assert(spec_pop(env3) =~= env);
}

/// The equality law, second half: `(eq 1 2)` evaluates to the boolean false
/// in any environment, which it leaves unchanged.
pub proof fn lemma_eq_mismatch(env: SpecEnv, fuel: nat)
    requires
        fuel >= 4,
    ensures
        eval_s(list3(SpecSexp::EqKw, SpecSexp::I32(1), SpecSexp::I32(2)), env, fuel) == (
            Ok::<SpecSexp, SpecErr>(SpecSexp::Bool(false)),
            env,
        ),
{
    let one = SpecSexp::I32(1);
    let two = SpecSexp::I32(2);
    let fform = list3(SpecSexp::EqKw, one, two);
    let env1 = spec_push(env);
    let ti = env.frames.len() as int;
    let f = (fuel - 1) as nat;
    lemma_eval_literal(one, env1, (f - 1) as nat);
    lemma_eval_literal(two, env1, (f - 1) as nat);
    assert(crate::semantic::spec_eq_loop(list1(two), one, env1, f) == (
        Ok::<SpecSexp, SpecErr>(SpecSexp::Bool(false)),
        env1,
    ));
    assert(crate::semantic::spec_eq_form(list2(one, two), env1, f) == (
        Ok::<SpecSexp, SpecErr>(SpecSexp::Bool(false)),
        env1,
    ));
    assert(reduce_s(SpecSexp::Bool(false), env1, f) == (
        Ok::<SpecSexp, SpecErr>(SpecSexp::Bool(false)),
        env1,
    ));
    assert(reduce_s(fform, env1, fuel) == (Ok::<SpecSexp, SpecErr>(SpecSexp::Bool(false)), env1));
    let env3 = SpecEnv { cur: Some(ti), ..env1 };
    assert(spec_pop(env3).frames =~= env.frames);
    assert(spec_pop(env3) =~= env);
}

/// The macro law: applying the macro `(macro (b) 'ok)` to any argument
/// expression whatsoever yields the identifier `ok`, and the environment is
/// left exactly as it was — the argument is bound unevaluated, so even an
/// expression whose evaluation would fail or have effects never runs.
pub proof fn lemma_macro_argument_unevaluated(arg: SpecSexp, env: SpecEnv, fuel: nat)
    requires
        fuel >= 4,
    ensures
        ({
            let mac = list3(
                SpecSexp::Macro,
                list1(SpecSexp::Identifier("b"@)),
                list2(SpecSexp::Quote, SpecSexp::Identifier("ok"@)),
            );
            eval_s(list2(mac, arg), env, fuel) == (
                Ok::<SpecSexp, SpecErr>(SpecSexp::Identifier("ok"@)),
                env,
            )
        }),
{
    let mac = list3(
        SpecSexp::Macro,
        list1(SpecSexp::Identifier("b"@)),
        list2(SpecSexp::Quote, SpecSexp::Identifier("ok"@)),
    );
    let fform = list2(mac, arg);
    let env1 = spec_push(env);
    let ti = env.frames.len() as int;
    let f = (fuel - 1) as nat;
    // Apply binds the raw argument into the fresh scope and hands back the
    // macro body.
    let params = list1(SpecSexp::Identifier("b"@));
    let envb = crate::semantic::env_set(env1, "b"@, arg);
    assert(spec_bind_params(SpecSexp::Nil, SpecSexp::Nil, envb) == (SpecSexp::Nil, envb));
    assert(spec_bind_params(params, list1(arg), env1) == (SpecSexp::Nil, envb));
    let (rem, env2) = spec_bind_params(params, list1(arg), env1);
    assert(rem is Nil);
    assert(env2.frames.len() == env1.frames.len());
    assert(env2.frames[ti].pre == env1.frames[ti].pre);
    assert(env2 == (SpecEnv { frames: env2.frames, ..env1 }));
    let (e2, env2b) = spec_apply(list1(arg), mac, env1);
    assert(e2 == list2(SpecSexp::Quote, SpecSexp::Identifier("ok"@)) && env2b == env2);
    // The body is a quote form, terminal on the next step.
    assert(reduce_s(e2, env2, f) == (
        Ok::<SpecSexp, SpecErr>(SpecSexp::Identifier("ok"@)),
        env2,
    ));
    assert(reduce_s(fform, env1, fuel) == (
        Ok::<SpecSexp, SpecErr>(SpecSexp::Identifier("ok"@)),
        env2,
    ));
    let env3 = SpecEnv { cur: Some(ti), ..env2 };
    assert(spec_pop(env3).frames =~= env.frames);
    assert(spec_pop(env3) =~= env);
}

/// The define law: `(define a v)` with a literal value binds the value under
/// the name in the global table, whatever scope is current, returns the
/// empty marker, and changes nothing else; at top level (no scope chain) the
/// lookup of the name then yields exactly the value.
pub proof fn lemma_define_writes_globally(
    a: Seq<char>,
    v: SpecSexp,
    env: SpecEnv,
    fuel: nat,
)
    requires
        is_literal(v),
        fuel >= 4,
    ensures
        eval_s(list3(SpecSexp::Define, SpecSexp::Identifier(a), v), env, fuel) == (
            Ok::<SpecSexp, SpecErr>(SpecSexp::Nil),
            SpecEnv { globals: env.globals.insert(a, v), ..env },
        ),
        env.cur is None ==> spec_lookup(
            SpecEnv { globals: env.globals.insert(a, v), ..env },
            a,
        ) == Some(v),
{
    let fform = list3(SpecSexp::Define, SpecSexp::Identifier(a), v);
    let env1 = spec_push(env);
    let ti = env.frames.len() as int;
    let f = (fuel - 1) as nat;
    lemma_eval_literal(v, env1, (f - 1) as nat);
    let envg = SpecEnv { globals: env1.globals.insert(a, v), ..env1 };
    assert(spec_define(list2(SpecSexp::Identifier(a), v), env1, f) == (
        Ok::<SpecSexp, SpecErr>(SpecSexp::Nil),
        envg,
    ));
    lemma_eval_literal(SpecSexp::Nil, envg, f);
    assert(reduce_s(SpecSexp::Nil, envg, f) == (Ok::<SpecSexp, SpecErr>(SpecSexp::Nil), envg));
    assert(reduce_s(fform, env1, fuel) == (Ok::<SpecSexp, SpecErr>(SpecSexp::Nil), envg));
    let env3 = SpecEnv { cur: Some(ti), ..envg };
    let target = SpecEnv { globals: env.globals.insert(a, v), ..env };
    assert(spec_pop(env3).frames =~= target.frames);
    assert(spec_pop(env3) =~= target);
}

/// The require law for an absent module: requiring a specifier that no
/// registered module source answers leaves the environment exactly
/// unchanged — no partial import occurs.
pub proof fn lemma_require_missing_module(
    m: Seq<char>,
    prefix: SpecSexp,
    env: SpecEnv,
    fuel: nat,
)
    requires
        !(env.modules.contains_key(m) && env.modules[m] is SString),
        fuel >= 4,
    ensures
        eval_s(list3(SpecSexp::Require, SpecSexp::Identifier(m), prefix), env, fuel) == (
            Ok::<SpecSexp, SpecErr>(SpecSexp::Nil),
            env,
        ),
{
    let fform = list3(SpecSexp::Require, SpecSexp::Identifier(m), prefix);
    let env1 = spec_push(env);
    let ti = env.frames.len() as int;
    let f = (fuel - 1) as nat;
    assert(crate::module::spec_require_named(m, crate::module::spec_prefix_of(prefix), env1, (f
        - 1) as nat) == (Ok::<SpecSexp, SpecErr>(SpecSexp::Nil), env1));
    assert(crate::module::spec_require(list2(SpecSexp::Identifier(m), prefix), env1, f) == (
        Ok::<SpecSexp, SpecErr>(SpecSexp::Nil),
        env1,
    ));
    lemma_eval_literal(SpecSexp::Nil, env1, f);
    assert(reduce_s(SpecSexp::Nil, env1, f) == (Ok::<SpecSexp, SpecErr>(SpecSexp::Nil), env1));
    assert(reduce_s(fform, env1, fuel) == (Ok::<SpecSexp, SpecErr>(SpecSexp::Nil), env1));
    let env3 = SpecEnv { cur: Some(ti), ..env1 };
    assert(spec_pop(env3).frames =~= env.frames);
    assert(spec_pop(env3) =~= env);
}

/// The import law: importing an exports table under a prefix binds every
/// export under its prefixed name, with the exported value.
pub proof fn lemma_prefixed_import(
    g: Map<Seq<char>, SpecSexp>,
    p: Map<Seq<char>, SpecSexp>,
    prefix: Seq<char>,
    x: Seq<char>,
)
    requires
        p.contains_key(x),
    ensures
        import_map(g, p, prefix).contains_key(prefix + x),
        import_map(g, p, prefix)[prefix + x] == p[x],
{
    assert((prefix + x).take(prefix.len() as int) =~= prefix);
    assert((prefix + x).skip(prefix.len() as int) =~= x);
    assert(prefixed_in(p, prefix, prefix + x));
}

/// The pattern law, first half: the pattern `(a b)` matched against the list
/// `(v w)` of non-empty values binds `a` to `v` and `b` to `w`, in that
/// order.
pub proof fn lemma_pattern_pair(a: Seq<char>, b: Seq<char>, v: SpecSexp, w: SpecSexp)
    requires
        !(v is Nil),
        !(w is Nil),
    ensures
        spec_bind(
            spec_pattern_of(list2(SpecSexp::Identifier(a), SpecSexp::Identifier(b))),
            list2(v, w),
        ) == Ok::<Seq<(Seq<char>, SpecSexp)>, (SpecPattern, SpecSexp)>(seq![(a, v), (b, w)]),
{
    let pats = list2(SpecSexp::Identifier(a), SpecSexp::Identifier(b));
    let exprs = list2(v, w);
    assert(spec_pattern_of(pats) == SpecPattern::List(pats));
    assert(spec_bind(SpecPattern::Binding(a), v) == Ok::<
        Seq<(Seq<char>, SpecSexp)>,
        (SpecPattern, SpecSexp),
    >(seq![(a, v)]));
    assert(spec_bind(SpecPattern::Binding(b), w) == Ok::<
        Seq<(Seq<char>, SpecSexp)>,
        (SpecPattern, SpecSexp),
    >(seq![(b, w)]));
    assert(crate::pattern::spec_bind_chain(SpecSexp::Nil, SpecSexp::Nil) == Ok::<
        Seq<(Seq<char>, SpecSexp)>,
        (SpecPattern, SpecSexp),
    >(Seq::empty()));
    assert(crate::pattern::spec_bind_chain(list1(SpecSexp::Identifier(b)), list1(w)) == Ok::<
        Seq<(Seq<char>, SpecSexp)>,
        (SpecPattern, SpecSexp),
    >(seq![(b, w)] + Seq::empty()));
    assert(seq![(b, w)] + Seq::<(Seq<char>, SpecSexp)>::empty() =~= seq![(b, w)]);
    assert(crate::pattern::spec_bind_chain(pats, exprs) == Ok::<
        Seq<(Seq<char>, SpecSexp)>,
        (SpecPattern, SpecSexp),
    >(seq![(a, v)] + seq![(b, w)]));
    assert(seq![(a, v)] + seq![(b, w)] =~= seq![(a, v), (b, w)]);
}

/// The pattern law, second half: the pattern `(a)` does not match the
/// two-element list `(v w)` — an arity mismatch is a failure.
pub proof fn lemma_pattern_arity_mismatch(a: Seq<char>, v: SpecSexp, w: SpecSexp)
    requires
        !(v is Nil),
    ensures
        spec_bind(spec_pattern_of(list1(SpecSexp::Identifier(a))), list2(v, w)) is Err,
{
    let pats = list1(SpecSexp::Identifier(a));
    let exprs = list2(v, w);
    assert(spec_pattern_of(pats) == SpecPattern::List(pats));
    assert(spec_bind(SpecPattern::Binding(a), v) == Ok::<
        Seq<(Seq<char>, SpecSexp)>,
        (SpecPattern, SpecSexp),
    >(seq![(a, v)]));
    assert(crate::pattern::spec_bind_chain(SpecSexp::Nil, list1(w)) is Err);
    assert(crate::pattern::spec_bind_chain(pats, exprs) is Err);
}


/// The closure-capture law: applying `(lambda (x) (lambda () x))` to the
/// literal one and then calling the returned closure with no arguments
/// yields one, in any environment whatsoever — the binding of `x` outlives
/// the call that made it, because the closure keeps its captured scope
/// record alive in the arena after the call's own scope is gone.
pub proof fn lemma_closure_capture(env: SpecEnv, fuel: nat)
    requires
        fuel >= 6,
    ensures
        ({
            let ix = SpecSexp::Identifier("x"@);
            let l_in = list3(SpecSexp::Lambda, SpecSexp::Nil, ix);
            let l_out = list3(SpecSexp::Lambda, list1(ix), l_in);
            let x_app = list2(l_out, SpecSexp::I32(1));
            eval_s(list1(x_app), env, fuel).0 == Ok::<SpecSexp, SpecErr>(SpecSexp::I32(1))
        }),
{
    let ix = SpecSexp::Identifier("x"@);
    let l_in = list3(SpecSexp::Lambda, SpecSexp::Nil, ix);
    let l_out = list3(SpecSexp::Lambda, list1(ix), l_in);
    let x_app = list2(l_out, SpecSexp::I32(1));
    let fform = list1(x_app);
    let n = env.frames.len() as int;
    let env1 = spec_push(env);
    let f1 = (fuel - 1) as nat;

    // Inner evaluation of the application of the outer lambda to one.
    let env2 = spec_push(env1);
    let f2 = (f1 - 1) as nat;
    lemma_eval_literal(SpecSexp::I32(1), env2, (f2 - 1) as nat);
    assert(crate::semantic::spec_eval_args(SpecSexp::Nil, env2, f2) == (
        Ok::<SpecSexp, SpecErr>(SpecSexp::Nil),
        env2,
    ));
    assert(crate::semantic::spec_eval_args(list1(SpecSexp::I32(1)), env2, f2) == (
        Ok::<SpecSexp, SpecErr>(list1(SpecSexp::I32(1))),
        env2,
    ));
    let env3 = crate::semantic::env_set(env2, "x"@, SpecSexp::I32(1));
    assert(env2.cur == Some(n + 1));
    assert(env3.frames.len() == n + 2);
    assert(spec_bind_params(SpecSexp::Nil, SpecSexp::Nil, env3) == (SpecSexp::Nil, env3));
    assert(spec_bind_params(list1(ix), list1(SpecSexp::I32(1)), env2) == (SpecSexp::Nil, env3));
    assert(spec_apply(list1(SpecSexp::I32(1)), l_out, env2) == (l_in, env3));

    // The inner lambda captures a fresh child of the scope holding x.
    let cdr_in = spec_cdr(l_in);
    let cap = SpecSexp::Captured(n + 2);
    let env4 = SpecEnv {
        frames: env3.frames.push(crate::frame::SpecFrame { map: Map::empty(), pre: env3.cur }),
        ..env3
    };
    let f3 = (f2 - 1) as nat;
    assert(reduce_s(l_in, env3, f2) == (Ok::<SpecSexp, SpecErr>(form2(cap, cdr_in)), env4));
    assert(reduce_s(x_app, env2, f1) == (Ok::<SpecSexp, SpecErr>(form2(cap, cdr_in)), env4));

    // The inner evaluation restores its caller's scope; the captured frames
    // stay.
    let env5 = SpecEnv { cur: Some(n + 1), ..env4 };
    assert(eval_s(x_app, env1, f1) == (
        Ok::<SpecSexp, SpecErr>(form2(cap, cdr_in)),
        spec_pop(env5),
    ));
    let env6 = spec_pop(env5);
    assert(env6.frames == env4.frames);
    assert(env6.cur == env4.frames[n + 1].pre);
    assert(env6.cur == Some(n));

    // Applying the captured closure: no arguments, so its body, the bare
    // identifier, is looked up starting from the captured scope.
    let capp = form2(form2(cap, cdr_in), SpecSexp::Nil);
    let f4 = (f1 - 1) as nat;
    assert(crate::semantic::spec_eval_args(SpecSexp::Nil, env6, f4) == (
        Ok::<SpecSexp, SpecErr>(SpecSexp::Nil),
        env6,
    ));
    let env7 = SpecEnv { cur: Some(n + 2), ..env6 };
    assert(spec_car(cdr_in) == SpecSexp::Nil);
    assert(spec_car(spec_cdr(cdr_in)) == ix);
    assert(spec_bind_params(SpecSexp::Nil, SpecSexp::Nil, env7) == (SpecSexp::Nil, env7));
    assert(spec_apply(SpecSexp::Nil, form2(cap, cdr_in), env7) == (ix, env7));

    // Lookup walks from the empty captured scope to its parent, which holds
    // the binding of x made by the outer call.
    assert(env7.frames[n + 2].map == Map::<Seq<char>, SpecSexp>::empty());
    assert(env7.frames[n + 2].pre == Some(n + 1));
    assert(env7.frames[n + 1].map == env2.frames[n + 1].map.insert("x"@, SpecSexp::I32(1)));
    assert(crate::env::lookup_chain(env7.frames, Some(n + 1), "x"@) == Some(SpecSexp::I32(1)));
    assert(crate::env::lookup_chain(env7.frames, Some(n + 2), "x"@) == Some(SpecSexp::I32(1)));
    assert(spec_lookup(env7, "x"@) == Some(SpecSexp::I32(1)));
    assert(reduce_s(ix, env7, f4) == (Ok::<SpecSexp, SpecErr>(SpecSexp::I32(1)), env7));
    assert(reduce_s(capp, env6, f1) == (Ok::<SpecSexp, SpecErr>(SpecSexp::I32(1)), env7));
    assert(reduce_s(fform, env1, fuel) == (Ok::<SpecSexp, SpecErr>(SpecSexp::I32(1)), env7));
}


/// The provide law: `(provide x v)` with a literal value records the value
/// in the exports table under the printed form of the name, yields the empty
/// marker, and changes nothing else.
pub proof fn lemma_provide_records_export(x: Seq<char>, v: SpecSexp, env: SpecEnv, fuel: nat)
    requires
        is_literal(v),
        fuel >= 4,
    ensures
        eval_s(list3(SpecSexp::Provide, SpecSexp::Identifier(x), v), env, fuel) == (
            Ok::<SpecSexp, SpecErr>(SpecSexp::Nil),
            SpecEnv { provided: env.provided.insert(x, v), ..env },
        ),
{
    let fform = list3(SpecSexp::Provide, SpecSexp::Identifier(x), v);
    let env1 = spec_push(env);
    let ti = env.frames.len() as int;
    let f = (fuel - 1) as nat;
    lemma_eval_literal(v, env1, (f - 1) as nat);
    assert(crate::text::text_of(SpecSexp::Identifier(x)) == x);
    let envp = SpecEnv { provided: env1.provided.insert(x, v), ..env1 };
    assert(crate::module::spec_provide(list2(SpecSexp::Identifier(x), v), env1, f) == (
        Ok::<SpecSexp, SpecErr>(SpecSexp::Nil),
        envp,
    ));
    assert(reduce_s(SpecSexp::Nil, envp, f) == (Ok::<SpecSexp, SpecErr>(SpecSexp::Nil), envp));
    assert(reduce_s(fform, env1, fuel) == (Ok::<SpecSexp, SpecErr>(SpecSexp::Nil), envp));
    let env3 = SpecEnv { cur: Some(ti), ..envp };
    let target = SpecEnv { provided: env.provided.insert(x, v), ..env };
    assert(spec_pop(env3).frames =~= target.frames);
    assert(spec_pop(env3) =~= target);
}


/// Parsing the module source `(provide x 1)`: the whole text is one provide
/// form.
pub proof fn lemma_parse_provide_module()
    ensures
        crate::parse::spec_object("(provide x 1)"@, 0) == Ok::<(SpecSexp, int), ()>(
            (list3(SpecSexp::Provide, SpecSexp::Identifier("x"@), SpecSexp::I32(1)), 13),
        ),
{
    reveal_strlit("(provide x 1)");
    reveal_strlit("provide");
    reveal_strlit("x");
    reveal_strlit("read");
    reveal_strlit("print");
    reveal_strlit("if");
    reveal_strlit("eq");
    reveal_strlit("quote");
    reveal_strlit("cons");
    reveal_strlit("car");
    reveal_strlit("cdr");
    reveal_strlit("lambda");
    reveal_strlit("macro");
    reveal_strlit("eval");
    reveal_strlit("define");
    reveal_strlit("require");
    reveal_strlit("#t");
    reveal_strlit("#f");
    let s = "(provide x 1)"@;
    assert(s.len() == 13);
    // Separator positions.
    assert(crate::parse::sk(s, 0) == 0);
    assert(crate::parse::sk(s, 1) == 1);
    assert(crate::parse::sk(s, 9) == 9);
    assert(crate::parse::sk(s, 8) == 9);
    assert(crate::parse::sk(s, 11) == 11);
    assert(crate::parse::sk(s, 10) == 11);
    assert(crate::parse::sk(s, 12) == 12);
    assert(crate::parse::sk(s, 13) == 13);
    // Token boundaries.
    assert(crate::parse::token_end(s, 8) == 8);
    assert(crate::parse::token_end(s, 7) == 8);
    assert(crate::parse::token_end(s, 6) == 8);
    assert(crate::parse::token_end(s, 5) == 8);
    assert(crate::parse::token_end(s, 4) == 8);
    assert(crate::parse::token_end(s, 3) == 8);
    assert(crate::parse::token_end(s, 2) == 8);
    assert(crate::parse::token_end(s, 1) == 8);
    assert(crate::parse::token_end(s, 10) == 10);
    assert(crate::parse::token_end(s, 9) == 10);
    assert(crate::parse::token_end(s, 12) == 12);
    assert(crate::parse::token_end(s, 11) == 12);
    // The three tokens.
    let t1 = s.subrange(1, 8);
    assert(t1 =~= "provide"@);
    assert(crate::parse::classify_token(t1) == SpecSexp::Provide);
    let t2 = s.subrange(9, 10);
    assert(t2 =~= "x"@);
    assert(!crate::parse::all_digits(t2)) by {
        assert(t2[0] == 'x');
    }
    assert(crate::parse::int_token_val(t2) is None);
    assert(crate::parse::classify_token(t2) == SpecSexp::Identifier("x"@));
    let t3 = s.subrange(11, 12);
    assert(t3.len() == 1 && t3[0] == '1');
    assert(t3.drop_last() =~= Seq::<char>::empty());
    assert(crate::parse::dec_val(t3) == 1) by {
        assert(crate::parse::dec_val(t3.drop_last()) == 0);
    }
    assert(crate::parse::all_digits(t3));
    assert(crate::parse::int_token_val(t3) == Some(1i32));
    assert(crate::parse::classify_token(t3) == SpecSexp::I32(1)) by {
        assert(t3.len() != 2 && t3.len() != 4 && t3.len() != 5 && t3.len() != 6 && t3.len() != 3
            && t3.len() != 7);
    }
    // The objects, innermost first.
    assert(crate::parse::spec_object(s, 11) == Ok::<(SpecSexp, int), ()>((SpecSexp::I32(1), 12)));
    assert(crate::parse::spec_object(s, 9) == Ok::<(SpecSexp, int), ()>(
        (SpecSexp::Identifier("x"@), 11),
    ));
    assert(crate::parse::spec_object(s, 1) == Ok::<(SpecSexp, int), ()>((SpecSexp::Provide, 9)));
    assert(crate::parse::spec_list(s, 12) == Ok::<(SpecSexp, int), ()>((SpecSexp::Nil, 12)));
    assert(crate::parse::spec_list(s, 11) == Ok::<(SpecSexp, int), ()>(
        (list1(SpecSexp::I32(1)), 12),
    ));
    assert(crate::parse::spec_list(s, 9) == Ok::<(SpecSexp, int), ()>(
        (list2(SpecSexp::Identifier("x"@), SpecSexp::I32(1)), 12),
    ));
    assert(crate::parse::spec_list(s, 1) == Ok::<(SpecSexp, int), ()>(
        (list3(SpecSexp::Provide, SpecSexp::Identifier("x"@), SpecSexp::I32(1)), 12),
    ));
    assert(crate::parse::spec_object(s, 0) == Ok::<(SpecSexp, int), ()>(
        (list3(SpecSexp::Provide, SpecSexp::Identifier("x"@), SpecSexp::I32(1)), 13),
    ));
}

/// The require law: requiring a registered module whose source is
/// `(provide x 1)`, under the import prefix `m.`, evaluates the module in a
/// copy of the environment and imports the export, so the global table gains
/// the binding `m.x = 1`; the form's own value is the empty marker.
pub proof fn lemma_require_imports_export(env: SpecEnv, fuel: nat)
    requires
        env.modules.contains_key("m"@),
        env.modules["m"@] == SpecSexp::SString("(provide x 1)"@),
        fuel >= 9,
    ensures
        ({
            let rform = list3(
                SpecSexp::Require,
                SpecSexp::Identifier("m"@),
                SpecSexp::SString("m."@),
            );
            let (r, env2) = eval_s(rform, env, fuel);
            r == Ok::<SpecSexp, SpecErr>(SpecSexp::Nil) && env2.globals.contains_key("m.x"@)
                && env2.globals["m.x"@] == SpecSexp::I32(1)
        }),
{
    let src = "(provide x 1)"@;
    let rform = list3(
        SpecSexp::Require,
        SpecSexp::Identifier("m"@),
        SpecSexp::SString("m."@),
    );
    let pform = list3(SpecSexp::Provide, SpecSexp::Identifier("x"@), SpecSexp::I32(1));
    let env1 = spec_push(env);
    let ti = env.frames.len() as int;
    let f = (fuel - 1) as nat;

    // The module source parses to the one provide form and evaluates in the
    // copied environment, recording the export.
    lemma_parse_provide_module();
    reveal_strlit("(provide x 1)");
    assert(src.len() == 13);
    assert(src.skip(13) =~= Seq::<char>::empty());
    let fm = (f - 1) as nat;
    lemma_provide_records_export("x"@, SpecSexp::I32(1), env1, (fm - 1) as nat);
    let env_m = SpecEnv { provided: env1.provided.insert("x"@, SpecSexp::I32(1)), ..env1 };
    assert(crate::module::evaluate_buf_s(Seq::<char>::empty(), env_m, fm) == (
        Ok::<SpecSexp, SpecErr>(SpecSexp::Nil),
        env_m,
    ));
    assert(crate::module::evaluate_buf_s(src, env1, fm) == (
        Ok::<SpecSexp, SpecErr>(SpecSexp::Nil),
        env_m,
    ));

    // The exports are imported under the prefix.
    let adopted = crate::env::spec_adopt(env1, env_m, "m."@);
    assert(crate::module::spec_require_named("m"@, "m."@, env1, f) == (
        Ok::<SpecSexp, SpecErr>(SpecSexp::Nil),
        adopted,
    ));
    assert(crate::module::spec_prefix_of(SpecSexp::SString("m."@)) == "m."@);
    assert(crate::module::spec_require(list2(SpecSexp::Identifier("m"@), SpecSexp::SString("m."@)), env1, f)
        == (Ok::<SpecSexp, SpecErr>(SpecSexp::Nil), adopted));
    lemma_prefixed_import(env1.globals, env_m.provided, "m."@, "x"@);
    reveal_strlit("m.");
    reveal_strlit("x");
    reveal_strlit("m.x");
    assert("m."@ + "x"@ =~= "m.x"@);
    assert(adopted.globals.contains_key("m.x"@) && adopted.globals["m.x"@] == SpecSexp::I32(1));

    // The reduction finishes on the empty marker and restores the caller's
    // scope; the imported global stays.
    assert(adopted.cur == Some(ti));
    assert(reduce_s(SpecSexp::Nil, adopted, f) == (Ok::<SpecSexp, SpecErr>(SpecSexp::Nil), adopted));
    assert(reduce_s(rform, env1, fuel) == (Ok::<SpecSexp, SpecErr>(SpecSexp::Nil), adopted));
    assert(adopted.frames.len() == ti + 1);
    let env3 = SpecEnv { cur: Some(ti), ..adopted };
    assert(eval_s(rform, env, fuel) == (Ok::<SpecSexp, SpecErr>(SpecSexp::Nil), spec_pop(env3)));
    assert(spec_pop(env3).globals == adopted.globals);
}

} // verus!
