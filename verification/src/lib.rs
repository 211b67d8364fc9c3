use vstd::prelude::*;

pub mod arg;
pub mod env;
pub mod frame;
pub mod iter;
pub mod laws;
pub mod module;
pub mod parse;
pub mod pattern;
pub mod rustfn;
pub mod semantic;
pub mod sexp;
pub mod stdlib;
pub mod strutil;
pub mod table;
pub mod text;

pub use env::lookup_chain;
pub use env::spec_env_wf;
pub use env::spec_lookup;
pub use env::spec_pop;
pub use env::spec_push;
pub use env::Env;
pub use env::SpecEnv;
pub use frame::Frame;
pub use frame::SpecFrame;
pub use iter::lemma_iter_proper_list;
pub use iter::SexpListIter;
pub use laws::is_literal;
pub use laws::lemma_closure_capture;
pub use laws::lemma_cons_car_cdr;
pub use laws::lemma_define_writes_globally;
pub use laws::lemma_eq_all_equal;
pub use laws::lemma_eq_mismatch;
pub use laws::lemma_eval_literal;
pub use laws::lemma_if_literal;
pub use laws::lemma_macro_argument_unevaluated;
pub use laws::lemma_pattern_arity_mismatch;
pub use laws::lemma_pattern_pair;
pub use laws::lemma_prefixed_import;
pub use laws::lemma_parse_provide_module;
pub use laws::lemma_provide_records_export;
pub use laws::lemma_require_imports_export;
pub use laws::lemma_require_missing_module;
pub use module::evaluate_buf_s;
pub use module::spec_provide;
pub use module::spec_require;
pub use parse::parse_sexp;
pub use parse::spec_list;
pub use parse::spec_object;
pub use parse::unescape_of;
pub use parse::ParseError;
pub use pattern::spec_bind;
pub use pattern::spec_bind_chain;
pub use pattern::spec_pattern_of;
pub use pattern::Binding;
pub use pattern::MatchError;
pub use pattern::Pattern;
pub use pattern::SpecPattern;
pub use rustfn::Builtin;
pub use rustfn::RustFn;
pub use semantic::eval_s;
pub use semantic::reduce_s;
pub use semantic::spec_apply;
pub use semantic::spec_eval_args;
pub use semantic::EvalError;
pub use semantic::SpecErr;
pub use stdlib::spec_builtin;
pub use stdlib::spec_call;
pub use sexp::list_of;
pub use sexp::sexp_eq;
pub use sexp::spec_car;
pub use sexp::spec_cdr;
pub use sexp::spec_get_quoted;
pub use sexp::spec_is_lambda;
pub use sexp::spec_is_quoted;
pub use sexp::view_of;
pub use sexp::Cons;
pub use sexp::Ptr;
pub use sexp::Sexp;
pub use sexp::SpecSexp;
pub use text::text_of;

verus! {

} // verus!
