//! The environment: global bindings, the module exports table, and the
//! lexical scope arena with its current-scope register.
use vstd::prelude::*;
use vstd::string::StringExecFns;

use crate::frame::{Frame, SpecFrame};
use crate::sexp::{Ptr, Sexp, SpecSexp};
use crate::table::{table_keys_unique, table_view, tbl_get, tbl_set};

verus! {

/// Model of the whole environment: the flat global table, the per-module
/// exports table, the scope arena with the current-scope register, the module
/// source table, and the pending input lines and accumulated output text of
/// the two I/O primitives.
pub struct SpecEnv {
    pub globals: Map<Seq<char>, SpecSexp>,
    pub provided: Map<Seq<char>, SpecSexp>,
    pub frames: Seq<SpecFrame>,
    pub cur: Option<int>,
    pub modules: Map<Seq<char>, SpecSexp>,
    pub input: Seq<Seq<char>>,
    pub output: Seq<char>,
}

/// A scope chain is well formed when the current index is in range and every
/// frame's parent stands strictly earlier in the arena.
pub open spec fn spec_env_wf(e: SpecEnv) -> bool {
    &&& (e.cur matches Some(i) ==> 0 <= i < e.frames.len())
    &&& (forall|j: int|
        0 <= j < e.frames.len() ==> (#[trigger] e.frames[j].pre matches Some(p) ==> 0 <= p < j))
}

/// Walk the scope chain from `cur` toward the root, returning the first
/// binding of `name`.
pub open spec fn lookup_chain(frames: Seq<SpecFrame>, cur: Option<int>, name: Seq<char>) -> Option<
    SpecSexp,
>
    decreases (match cur {
        Some(i) => if i >= 0 {
            i + 1
        } else {
            0
        },
        None => 0,
    }),
{
    match cur {
        None => None,
        Some(i) => if 0 <= i < frames.len() {
            if frames[i].map.contains_key(name) {
                Some(frames[i].map[name])
            } else {
                match frames[i].pre {
                    Some(p) => if 0 <= p < i {
                        lookup_chain(frames, Some(p), name)
                    } else {
                        None
                    },
                    None => None,
                }
            }
        } else {
            None
        },
    }
}

/// Scope-chain lookup with fallback to the global table.
pub open spec fn spec_lookup(e: SpecEnv, name: Seq<char>) -> Option<SpecSexp> {
    match lookup_chain(e.frames, e.cur, name) {
        Some(v) => Some(v),
        None => if e.globals.contains_key(name) {
            Some(e.globals[name])
        } else {
            None
        },
    }
}

/// The environment after popping the current scope: the parent becomes
/// current, and the popped record is reclaimed when nothing lies above it.
pub open spec fn spec_pop(e: SpecEnv) -> SpecEnv {
    match e.cur {
        None => e,
        Some(i) => SpecEnv {
            frames: if i + 1 == e.frames.len() {
                e.frames.drop_last()
            } else {
                e.frames
            },
            cur: e.frames[i].pre,
            ..e
        },
    }
}

/// The environment after pushing a fresh scope as a child of the current one.
pub open spec fn spec_push(e: SpecEnv) -> SpecEnv {
    SpecEnv {
        frames: e.frames.push(SpecFrame { map: Map::empty(), pre: e.cur }),
        cur: Some(e.frames.len() as int),
        ..e
    }
}

/// The environment: a flat global table, the exports table filled by
/// `provide`, an arena of scope frames with a single mutable current-scope
/// register, host-registered module sources, and buffered I/O.
#[derive(Debug)]
pub struct Env {
    global_table: Vec<(String, Sexp)>,
    provided_table: Vec<(String, Sexp)>,
    frames: Vec<Frame>,
    stack_frame_ptr: Option<usize>,
    modules: Vec<(String, Sexp)>,
    input: Vec<String>,
    output: String,
}

impl View for Env {
    type V = SpecEnv;

    closed spec fn view(&self) -> SpecEnv {
        SpecEnv {
            globals: table_view(self.global_table@),
            provided: table_view(self.provided_table@),
            frames: Seq::new(self.frames@.len(), |i: int| self.frames@[i]@),
            cur: match self.stack_frame_ptr {
                Some(i) => Some(i as int),
                None => None,
            },
            modules: table_view(self.modules@),
            input: Seq::new(self.input@.len(), |i: int| self.input@[i]@),
            output: self.output@,
        }
    }
}

impl Env {
    /// Representation invariant: unique table keys, well-formed frames, and a
    /// well-formed scope chain.
    pub closed spec fn wf(&self) -> bool {
        &&& table_keys_unique(self.global_table@)
        &&& table_keys_unique(self.provided_table@)
        &&& table_keys_unique(self.modules@)
        &&& (forall|i: int| 0 <= i < self.frames@.len() ==> self.frames@[i].wf())
        &&& spec_env_wf(self@)
    }

    /// A fresh environment: everything empty, no scope installed.
    pub fn new() -> (r: Self)
        ensures
            r.wf(),
            r@.globals == Map::<Seq<char>, SpecSexp>::empty(),
            r@.provided == Map::<Seq<char>, SpecSexp>::empty(),
            r@.frames == Seq::<SpecFrame>::empty(),
            r@.cur is None,
            r@.modules == Map::<Seq<char>, SpecSexp>::empty(),
            r@.input == Seq::<Seq<char>>::empty(),
            r@.output == Seq::<char>::empty(),
    {
        let r = Env {
            global_table: Vec::new(),
            provided_table: Vec::new(),
            frames: Vec::new(),
            stack_frame_ptr: None,
            modules: Vec::new(),
            input: Vec::new(),
            output: String::new(),
        };
        proof {
            assert(r@.frames =~= Seq::<SpecFrame>::empty());
            assert(r@.input =~= Seq::<Seq<char>>::empty());
        }
        r
    }

    /// Install a fresh scope as a child of the current one.
    pub fn push_frame(&mut self)
        requires
            old(self).wf(),
        ensures
            final(self).wf(),
            final(self)@ == spec_push(old(self)@),
    {
        let f = Frame::push(self.stack_frame_ptr);
        self.frames.push(f);
        self.stack_frame_ptr = Some(self.frames.len() - 1);
        proof {
            assert(final(self)@.frames =~= spec_push(old(self)@).frames);
            assert(final(self)@ =~= spec_push(old(self)@));
        }
    }

    /// Make the current scope's parent current; reclaim the popped record
    /// when it is the newest one.
    pub fn pop_frame(&mut self)
        requires
            old(self).wf(),
        ensures
            final(self).wf(),
            final(self)@ == spec_pop(old(self)@),
    {
        match self.stack_frame_ptr {
            None => (),
            Some(i) => {
                proof {
                    assert(old(self)@.cur == Some(i as int));
                    assert(i < old(self).frames@.len());
                }
                let p = self.frames[i].pop();
                let n = self.frames.len();
                if i + 1 == n {
                    self.frames.pop();
                }
                self.stack_frame_ptr = p;
                proof {
                    assert(final(self)@.frames =~= spec_pop(old(self)@).frames);
                    assert(final(self)@ =~= spec_pop(old(self)@));
                }
            },
        }
    }

    /// Append a fresh child of the current scope to the arena without making
    /// it current; a closure captures it by index.
    pub fn capture_frame(&mut self) -> (idx: usize)
        requires
            old(self).wf(),
        ensures
            final(self).wf(),
            idx == old(self)@.frames.len(),
            final(self)@ == (SpecEnv {
                frames: old(self)@.frames.push(SpecFrame { map: Map::empty(), pre: old(self)@.cur }),
                ..old(self)@
            }),
    {
        let f = Frame::push(self.stack_frame_ptr);
        let idx = self.frames.len();
        self.frames.push(f);
        proof {
            assert(final(self)@.frames =~= old(self)@.frames.push(
                SpecFrame { map: Map::empty(), pre: old(self)@.cur },
            ));
            assert(final(self)@ =~= (SpecEnv {
                frames: old(self)@.frames.push(SpecFrame { map: Map::empty(), pre: old(self)@.cur }),
                ..old(self)@
            }));
        }
        idx
    }

    /// The current scope's arena index.
    pub fn top_frame(&self) -> (r: Option<usize>)
        ensures
            self@.cur == (match r {
                Some(i) => Some(i as int),
                None => None::<int>,
            }),
    {
        self.stack_frame_ptr
    }

    /// Replace the current-scope register, returning its prior value. Used to
    /// save the caller's scope around a closure call and restore it after.
    pub fn set_frame_ptr(&mut self, new_frame_ptr: Option<usize>) -> (r: Option<usize>)
        requires
            old(self).wf(),
            new_frame_ptr matches Some(i) ==> i < old(self)@.frames.len(),
        ensures
            final(self).wf(),
            final(self)@ == (SpecEnv {
                cur: match new_frame_ptr {
                    Some(i) => Some(i as int),
                    None => None::<int>,
                },
                ..old(self)@
            }),
            old(self)@.cur == (match r {
                Some(i) => Some(i as int),
                None => None::<int>,
            }),
    {
        let old_ptr = self.stack_frame_ptr;
        self.stack_frame_ptr = new_frame_ptr;
        old_ptr
    }

    /// First binding of the name along the scope chain, else the global one.
    pub fn get(&self, identity: &str) -> (r: Option<Ptr<Sexp>>)
        requires
            self.wf(),
        ensures
            match r {
                Some(x) => spec_lookup(self@, identity@) matches Some(v) && x@ == v,
                None => spec_lookup(self@, identity@) is None,
            },
    {
        let mut cur = self.stack_frame_ptr;
        loop
            invariant
                self.wf(),
                cur matches Some(i) ==> i < self@.frames.len(),
                lookup_chain(self@.frames, self@.cur, identity@) == lookup_chain(
                    self@.frames,
                    match cur {
                        Some(i) => Some(i as int),
                        None => None::<int>,
                    },
                    identity@,
                ),
            decreases (match cur {
                Some(i) => i + 1,
                None => 0,
            }),
        {
            match cur {
                None => {
                    return match tbl_get(&self.global_table, identity) {
                        Some(v) => Some(Box::new(v)),
                        None => None,
                    };
                },
                Some(i) => {
                    proof {
                        assert(self@.frames[i as int] == self.frames@[i as int]@);
                    }
                    match self.frames[i].read(identity) {
                        Some(v) => {
                            proof {
                                assert(lookup_chain(self@.frames, Some(i as int), identity@)
                                    == Some(self@.frames[i as int].map[identity@]));
                            }
                            return Some(Box::new(v));
                        },
                        None => {
                            cur = self.frames[i].pop();
                            proof {
                                assert(self.frames@[i as int]@.pre == (match cur {
                                    Some(p) => Some(p as int),
                                    None => None::<int>,
                                }));
                            }
                        },
                    }
                },
            }
        }
    }

    /// Bind a name in the current scope. The evaluator guarantees a scope is
    /// always installed when bindings are made.
    pub fn set(&mut self, identity: &str, expr: Ptr<Sexp>)
        requires
            old(self).wf(),
            old(self)@.cur is Some,
        ensures
            final(self).wf(),
            final(self)@ == (SpecEnv {
                frames: old(self)@.frames.update(
                    old(self)@.cur.unwrap(),
                    SpecFrame {
                        map: old(self)@.frames[old(self)@.cur.unwrap()].map.insert(
                            identity@,
                            expr@,
                        ),
                        pre: old(self)@.frames[old(self)@.cur.unwrap()].pre,
                    },
                ),
                ..old(self)@
            }),
    {
        let i = self.stack_frame_ptr.unwrap();
        let f = &mut self.frames[i];
        f.modify(identity, *expr);
        proof {
            assert(final(self)@.frames =~= (SpecEnv {
                frames: old(self)@.frames.update(
                    old(self)@.cur.unwrap(),
                    SpecFrame {
                        map: old(self)@.frames[old(self)@.cur.unwrap()].map.insert(
                            identity@,
                            expr@,
                        ),
                        pre: old(self)@.frames[old(self)@.cur.unwrap()].pre,
                    },
                ),
                ..old(self)@
            }).frames);
            assert(final(self)@ =~= (SpecEnv {
                frames: old(self)@.frames.update(
                    old(self)@.cur.unwrap(),
                    SpecFrame {
                        map: old(self)@.frames[old(self)@.cur.unwrap()].map.insert(
                            identity@,
                            expr@,
                        ),
                        pre: old(self)@.frames[old(self)@.cur.unwrap()].pre,
                    },
                ),
                ..old(self)@
            }));
        }
    }

    /// Bind a name in the global table, bypassing the scope chain.
    pub fn set_global(&mut self, identity: &str, expr: Ptr<Sexp>)
        requires
            old(self).wf(),
        ensures
            final(self).wf(),
            final(self)@ == (SpecEnv {
                globals: old(self)@.globals.insert(identity@, expr@),
                ..old(self)@
            }),
    {
        tbl_set(&mut self.global_table, identity, *expr);
        proof {
            assert(final(self)@ =~= (SpecEnv {
                globals: old(self)@.globals.insert(identity@, expr@),
                ..old(self)@
            }));
        }
    }

    /// The global binding of a name, ignoring scopes.
    pub fn get_global(&self, identity: &str) -> (r: Option<Ptr<Sexp>>)
        requires
            self.wf(),
        ensures
            match r {
                Some(x) => self@.globals.contains_key(identity@) && x@ == self@.globals[identity@],
                None => !self@.globals.contains_key(identity@),
            },
    {
        match tbl_get(&self.global_table, identity) {
            Some(v) => Some(Box::new(v)),
            None => None,
        }
    }

    /// Record an export of the module under evaluation.
    pub fn add_provided(&mut self, identity: &str, expr: Ptr<Sexp>)
        requires
            old(self).wf(),
        ensures
            final(self).wf(),
            final(self)@ == (SpecEnv {
                provided: old(self)@.provided.insert(identity@, expr@),
                ..old(self)@
            }),
    {
        tbl_set(&mut self.provided_table, identity, *expr);
        proof {
            assert(final(self)@ =~= (SpecEnv {
                provided: old(self)@.provided.insert(identity@, expr@),
                ..old(self)@
            }));
        }
    }

    /// Hand the exports table out, consuming the environment.
    pub fn get_provided(self) -> (r: Vec<(String, Sexp)>)
        requires
            self.wf(),
        ensures
            table_keys_unique(r@),
            table_view(r@) == self@.provided,
    {
        self.provided_table
    }

    /// Register the source text of a module under its specifier, for
    /// `require` to resolve. The host reads files; the library only maps
    /// specifiers to text.
    pub fn register_module(&mut self, name: &str, source: &str)
        requires
            old(self).wf(),
        ensures
            final(self).wf(),
            final(self)@ == (SpecEnv {
                modules: old(self)@.modules.insert(name@, SpecSexp::SString(source@)),
                ..old(self)@
            }),
    {
        tbl_set(&mut self.modules, name, Sexp::SString(String::from_str(source)));
        proof {
            assert(final(self)@ =~= (SpecEnv {
                modules: old(self)@.modules.insert(name@, SpecSexp::SString(source@)),
                ..old(self)@
            }));
        }
    }

    /// The registered source text of a module, if any.
    pub fn get_module(&self, name: &str) -> (r: Option<String>)
        requires
            self.wf(),
        ensures
            match r {
                Some(src) => self@.modules.contains_key(name@) && self@.modules[name@]
                    == SpecSexp::SString(src@),
                None => !(self@.modules.contains_key(name@) && self@.modules[name@] is SString),
            },
    {
        match tbl_get(&self.modules, name) {
            Some(Sexp::SString(s)) => Some(s),
            _ => None,
        }
    }

    /// Queue a line for the `read` primitive.
    pub fn push_input(&mut self, line: &str)
        requires
            old(self).wf(),
        ensures
            final(self).wf(),
            final(self)@ == (SpecEnv { input: old(self)@.input.push(line@), ..old(self)@ }),
    {
        self.input.push(String::from_str(line));
        proof {
            assert(final(self)@.input =~= old(self)@.input.push(line@));
            assert(final(self)@ =~= (SpecEnv { input: old(self)@.input.push(line@), ..old(self)@ }));
        }
    }

    /// Take the text printed so far, leaving the buffer empty.
    pub fn take_output(&mut self) -> (r: String)
        requires
            old(self).wf(),
        ensures
            final(self).wf(),
            r@ == old(self)@.output,
            final(self)@ == (SpecEnv { output: Seq::<char>::empty(), ..old(self)@ }),
    {
        let r = self.output.clone();
        self.output = String::new();
        proof {
            assert(final(self)@ =~= (SpecEnv { output: Seq::<char>::empty(), ..old(self)@ }));
        }
        r
    }
}

impl Env {
    /// How many frame records the arena holds.
    pub fn frame_count(&self) -> (r: usize)
        ensures
            r == self@.frames.len(),
    {
        self.frames.len()
    }

    /// The next queued input line, or the empty string when none is queued.
    pub fn next_input(&mut self) -> (r: String)
        requires
            old(self).wf(),
        ensures
            final(self).wf(),
            old(self)@.input.len() == 0 ==> r@ == Seq::<char>::empty() && final(self)@ == old(
                self,
            )@,
            old(self)@.input.len() > 0 ==> r@ == old(self)@.input[0] && final(self)@ == (SpecEnv {
                input: old(self)@.input.drop_first(),
                ..old(self)@
            }),
    {
        if self.input.len() == 0 {
            String::new()
        } else {
            let line = self.input.remove(0);
            proof {
                assert(final(self)@.input =~= old(self)@.input.drop_first());
                assert(final(self)@ =~= (SpecEnv {
                    input: old(self)@.input.drop_first(),
                    ..old(self)@
                }));
            }
            line
        }
    }

    /// Append text to the output buffer.
    pub fn append_output(&mut self, s: &str)
        requires
            old(self).wf(),
        ensures
            final(self).wf(),
            final(self)@ == (SpecEnv { output: old(self)@.output + s@, ..old(self)@ }),
    {
        self.output.append(s);
        proof {
            assert(final(self)@ =~= (SpecEnv { output: old(self)@.output + s@, ..old(self)@ }));
        }
    }

    /// A deep copy standing for the same environment. A module is evaluated
    /// in such a copy, so its definitions stay local while its exports are
    /// imported afterwards.
    pub fn clone_env(&self) -> (m: Env)
        requires
            self.wf(),
        ensures
            m.wf(),
            m@ == self@,
    {
        let m = Env {
            global_table: clone_table(&self.global_table),
            provided_table: clone_table(&self.provided_table),
            frames: clone_frames(&self.frames),
            stack_frame_ptr: self.stack_frame_ptr,
            modules: clone_table(&self.modules),
            input: clone_strings(&self.input),
            output: self.output.clone(),
        };
        proof {
            assert(m@.frames =~= self@.frames);
            assert(m@.input =~= self@.input);
            assert(m@ =~= self@);
            assert(table_keys_unique(m.global_table@));
            assert(table_keys_unique(m.provided_table@));
            assert(table_keys_unique(m.modules@));
            assert(forall|i: int| 0 <= i < m.frames@.len() ==> m.frames@[i].wf());
            assert(spec_env_wf(m@));
        }
        m
    }

    /// Adopt what a module evaluation produced: its frame arena and I/O
    /// buffers carry over, and every exported entry is bound in the global
    /// and exports tables under the prefixed name. Imported entries win over
    /// existing ones.
    pub fn adopt_module_results(&mut self, m: Env, prefix: &str)
        requires
            old(self).wf(),
            m.wf(),
        ensures
            final(self).wf(),
            final(self)@ == spec_adopt(old(self)@, m@, prefix@),
    {
        let Env {
            global_table: _,
            provided_table: mprov,
            frames: mframes,
            stack_frame_ptr: _,
            modules: _,
            input: minput,
            output: moutput,
        } = m;
        let ghost g0 = table_view(self.global_table@);
        let ghost p0 = table_view(self.provided_table@);
        let ghost pm = table_view(mprov@);
        let n = mprov.len();
        let mut i: usize = 0;
        while i < n
            invariant
                n == mprov@.len(),
                i <= n,
                table_keys_unique(mprov@),
                table_keys_unique(self.global_table@),
                table_keys_unique(self.provided_table@),
                g0 == table_view(old(self).global_table@),
                p0 == table_view(old(self).provided_table@),
                pm == table_view(mprov@),
                table_view(self.global_table@) == import_map(
                    g0,
                    table_view(mprov@.take(i as int)),
                    prefix@,
                ),
                table_view(self.provided_table@) == import_map(
                    p0,
                    table_view(mprov@.take(i as int)),
                    prefix@,
                ),
                self.frames@ == old(self).frames@,
                self.stack_frame_ptr == old(self).stack_frame_ptr,
                self.modules@ == old(self).modules@,
                self.input@ == old(self).input@,
                self.output@ == old(self).output@,
            decreases n - i,
        {
            let mut key = String::from_str(prefix);
            key.append(mprov[i].0.as_str());
            let val = mprov[i].1.clone();
            let ghost tv_i = table_view(mprov@.take(i as int));
            proof {
                assert(mprov@.take(i + 1).drop_last() =~= mprov@.take(i as int));
                assert(table_view(mprov@.take(i + 1)) == tv_i.insert(
                    mprov@[i as int].0@,
                    mprov@[i as int].1@,
                ));
                lemma_table_take_fresh(mprov@, i as int);
                lemma_import_step(g0, tv_i, prefix@, mprov@[i as int].0@, mprov@[i as int].1@);
                lemma_import_step(p0, tv_i, prefix@, mprov@[i as int].0@, mprov@[i as int].1@);
            }
            tbl_set(&mut self.global_table, key.as_str(), val.clone());
            tbl_set(&mut self.provided_table, key.as_str(), val);
            i = i + 1;
        }
        proof {
            assert(mprov@.take(n as int) =~= mprov@);
        }
        self.frames = mframes;
        self.input = minput;
        self.output = moutput;
        let keep = match self.stack_frame_ptr {
            Some(c) => {
                if c < self.frames.len() {
                    Some(c)
                } else {
                    None
                }
            },
            None => None,
        };
        self.stack_frame_ptr = keep;
        proof {
            assert(final(self)@.frames =~= spec_adopt(old(self)@, m@, prefix@).frames);
            assert(final(self)@.input =~= spec_adopt(old(self)@, m@, prefix@).input);
            assert(final(self)@ =~= spec_adopt(old(self)@, m@, prefix@));
        }
    }
}

/// Whether a key is the prefix followed by an exported name.
pub open spec fn prefixed_in(p: Map<Seq<char>, SpecSexp>, pre: Seq<char>, k: Seq<char>) -> bool {
    k.len() >= pre.len() && k.take(pre.len() as int) == pre && p.contains_key(
        k.skip(pre.len() as int),
    )
}

/// A table after importing every entry of `p` under the prefix; imported
/// entries win over existing ones.
pub open spec fn import_map(
    g: Map<Seq<char>, SpecSexp>,
    p: Map<Seq<char>, SpecSexp>,
    pre: Seq<char>,
) -> Map<Seq<char>, SpecSexp> {
    Map::new(
        |k: Seq<char>| g.contains_key(k) || prefixed_in(p, pre, k),
        |k: Seq<char>|
            if prefixed_in(p, pre, k) {
                p[k.skip(pre.len() as int)]
            } else {
                g[k]
            },
    )
}

/// The environment after a module evaluated in the copy `m`: the arena and
/// I/O buffers carry over, the exports are imported under the prefix, and the
/// caller's scope register stays (dropped only if the arena no longer reaches
/// it).
pub open spec fn spec_adopt(e: SpecEnv, m: SpecEnv, pre: Seq<char>) -> SpecEnv {
    SpecEnv {
        globals: import_map(e.globals, m.provided, pre),
        provided: import_map(e.provided, m.provided, pre),
        frames: m.frames,
        cur: match e.cur {
            Some(c) => if c < m.frames.len() {
                Some(c)
            } else {
                None
            },
            None => None,
        },
        modules: e.modules,
        input: m.input,
        output: m.output,
    }
}

proof fn lemma_table_take_fresh(s: Seq<(String, Sexp)>, i: int)
    requires
        table_keys_unique(s),
        0 <= i < s.len(),
    ensures
        !table_view(s.take(i)).contains_key(s[i].0@),
{
    crate::table::lemma_table_view_contains(s.take(i), s[i].0@);
    if table_view(s.take(i)).contains_key(s[i].0@) {
        let j = choose|j: int| 0 <= j < s.take(i).len() && s.take(i)[j].0@ == s[i].0@;
        assert(s[j].0@ == s[i].0@);
    }
}

proof fn lemma_import_step(
    g: Map<Seq<char>, SpecSexp>,
    p: Map<Seq<char>, SpecSexp>,
    pre: Seq<char>,
    k: Seq<char>,
    v: SpecSexp,
)
    requires
        !p.contains_key(k),
    ensures
        import_map(g, p.insert(k, v), pre) == import_map(g, p, pre).insert(pre + k, v),
{
    let m1 = import_map(g, p.insert(k, v), pre);
    let m2 = import_map(g, p, pre).insert(pre + k, v);
    assert((pre + k).take(pre.len() as int) =~= pre);
    assert((pre + k).skip(pre.len() as int) =~= k);
    assert forall|q: Seq<char>| #[trigger] m1.dom().contains(q) implies m2.dom().contains(q)
        && m1[q] == m2[q] by {
        if q.len() >= pre.len() && q.take(pre.len() as int) == pre {
            assert(q =~= q.take(pre.len() as int) + q.skip(pre.len() as int));
            if q.skip(pre.len() as int) == k {
                assert(q =~= pre + k);
            }
        }
    }
    assert forall|q: Seq<char>| #[trigger] m2.dom().contains(q) implies m1.dom().contains(q) by {
        if q.len() >= pre.len() && q.take(pre.len() as int) == pre {
            assert(q =~= q.take(pre.len() as int) + q.skip(pre.len() as int));
            if q.skip(pre.len() as int) == k {
                assert(q =~= pre + k);
            }
        }
        if q == pre + k {
            assert(prefixed_in(p.insert(k, v), pre, q));
        }
    }
    assert(m1 =~= m2);
}

/// Copy a binding table; the copy stands for the same map.
fn clone_table(v: &Vec<(String, Sexp)>) -> (r: Vec<(String, Sexp)>)
    ensures
        r@.len() == v@.len(),
        forall|j: int| 0 <= j < v@.len() ==> #[trigger] r@[j].0@ == v@[j].0@ && r@[j].1@ == v@[j].1@,
        table_view(r@) == table_view(v@),
        table_keys_unique(v@) ==> table_keys_unique(r@),
{
    let mut r: Vec<(String, Sexp)> = Vec::new();
    let n = v.len();
    let mut i: usize = 0;
    while i < n
        invariant
            n == v@.len(),
            i <= n,
            r@.len() == i,
            forall|j: int| 0 <= j < i ==> #[trigger] r@[j].0@ == v@[j].0@ && r@[j].1@ == v@[j].1@,
        decreases n - i,
    {
        r.push((v[i].0.clone(), v[i].1.clone()));
        i = i + 1;
    }
    proof {
        crate::table::lemma_table_view_parallel(r@, v@);
    }
    r
}

/// Copy the frame arena; the copy stands for the same scopes.
fn clone_frames(v: &Vec<Frame>) -> (r: Vec<Frame>)
    requires
        forall|j: int| 0 <= j < v@.len() ==> v@[j].wf(),
    ensures
        r@.len() == v@.len(),
        forall|j: int| 0 <= j < v@.len() ==> #[trigger] r@[j]@ == v@[j]@,
        forall|j: int| 0 <= j < v@.len() ==> (#[trigger] r@[j]).wf(),
{
    let mut r: Vec<Frame> = Vec::new();
    let n = v.len();
    let mut i: usize = 0;
    while i < n
        invariant
            n == v@.len(),
            i <= n,
            r@.len() == i,
            forall|j: int| 0 <= j < v@.len() ==> v@[j].wf(),
            forall|j: int| 0 <= j < i ==> #[trigger] r@[j]@ == v@[j]@,
            forall|j: int| 0 <= j < i ==> (#[trigger] r@[j]).wf(),
        decreases n - i,
    {
        r.push(v[i].clone_frame());
        i = i + 1;
    }
    r
}

/// Copy the queued input lines.
fn clone_strings(v: &Vec<String>) -> (r: Vec<String>)
    ensures
        r@.len() == v@.len(),
        forall|j: int| 0 <= j < v@.len() ==> #[trigger] r@[j]@ == v@[j]@,
{
    let mut r: Vec<String> = Vec::new();
    let n = v.len();
    let mut i: usize = 0;
    while i < n
        invariant
            n == v@.len(),
            i <= n,
            r@.len() == i,
            forall|j: int| 0 <= j < i ==> #[trigger] r@[j]@ == v@[j]@,
        decreases n - i,
    {
        r.push(v[i].clone());
        i = i + 1;
    }
    r
}

/// A well-formed environment's scope chain is well formed.
pub proof fn lemma_wf_spec(e: &Env)
    requires
        e.wf(),
    ensures
        spec_env_wf(e@),
{
}

impl Default for Env {
    /// Same as `Env::new`.
    fn default() -> (r: Self)
        ensures
            r.wf(),
            r@.globals == Map::<Seq<char>, SpecSexp>::empty(),
            r@.cur is None,
    {
        Self::new()
    }
}

} // verus!
