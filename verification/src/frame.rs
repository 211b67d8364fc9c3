//! One lexical scope: an ordered name-to-value table with a parent link.
use vstd::prelude::*;

use crate::sexp::{Sexp, SpecSexp};
use crate::table::{lemma_table_view_parallel, table_keys_unique, table_view, tbl_get, tbl_set};

verus! {

/// Model of one lexical scope: its bindings and its parent in the arena.
pub struct SpecFrame {
    pub map: Map<Seq<char>, SpecSexp>,
    pub pre: Option<int>,
}

/// One level of lexical binding. Frames live in an arena owned by the
/// environment; `pre` is the arena index of the parent scope.
#[derive(Debug)]
pub struct Frame {
    inner: Vec<(String, Sexp)>,
    pre: Option<usize>,
}

impl View for Frame {
    type V = SpecFrame;

    closed spec fn view(&self) -> SpecFrame {
        SpecFrame {
            map: table_view(self.inner@),
            pre: match self.pre {
                Some(i) => Some(i as int),
                None => None,
            },
        }
    }
}

impl Frame {
    /// The representation never repeats a key.
    pub closed spec fn wf(&self) -> bool {
        table_keys_unique(self.inner@)
    }

    /// An empty scope with no parent.
    pub fn new() -> (r: Self)
        ensures
            r.wf(),
            r@.map == Map::<Seq<char>, SpecSexp>::empty(),
            r@.pre is None,
    {
        Frame { inner: Vec::new(), pre: None }
    }

    /// A fresh scope whose parent is `cur`, to be appended to the arena.
    pub fn push(cur: Option<usize>) -> (r: Self)
        ensures
            r.wf(),
            r@.map == Map::<Seq<char>, SpecSexp>::empty(),
            r@.pre == (match cur {
                Some(i) => Some(i as int),
                None => None::<int>,
            }),
    {
        Frame { inner: Vec::new(), pre: cur }
    }

    /// The parent scope's arena index.
    pub fn pop(&self) -> (r: Option<usize>)
        ensures
            self@.pre == (match r {
                Some(i) => Some(i as int),
                None => None::<int>,
            }),
    {
        self.pre
    }

    /// Bind a name in this scope, shadowing any earlier binding here.
    pub fn modify(&mut self, identity: &str, expr: Sexp)
        requires
            old(self).wf(),
        ensures
            final(self).wf(),
            final(self)@.map == old(self)@.map.insert(identity@, expr@),
            final(self)@.pre == old(self)@.pre,
    {
        tbl_set(&mut self.inner, identity, expr);
    }

    /// A deep copy standing for the same scope.
    pub fn clone_frame(&self) -> (r: Self)
        requires
            self.wf(),
        ensures
            r.wf(),
            r@ == self@,
    {
        let mut inner: Vec<(String, Sexp)> = Vec::new();
        let n = self.inner.len();
        let mut i: usize = 0;
        while i < n
            invariant
                n == self.inner@.len(),
                i <= n,
                inner@.len() == i,
                forall|j: int|
                    0 <= j < i ==> #[trigger] inner@[j].0@ == self.inner@[j].0@ && inner@[j].1@
                        == self.inner@[j].1@,
            decreases n - i,
        {
            inner.push((self.inner[i].0.clone(), self.inner[i].1.clone()));
            i = i + 1;
        }
        let r = Frame { inner, pre: self.pre };
        proof {
            lemma_table_view_parallel(r.inner@, self.inner@);
        }
        r
    }

    /// Read a binding of this scope alone.
    pub fn read(&self, identity: &str) -> (r: Option<Sexp>)
        requires
            self.wf(),
        ensures
            match r {
                Some(x) => self@.map.contains_key(identity@) && x@ == self@.map[identity@],
                None => !self@.map.contains_key(identity@),
            },
    {
        tbl_get(&self.inner, identity)
    }
}

} // verus!
