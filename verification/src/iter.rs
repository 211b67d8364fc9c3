//! The lazy list iterator.
use vstd::prelude::*;

use crate::sexp::{list_of, spec_car, spec_cdr, Ptr, Sexp, SpecSexp};

verus! {

/// Lazy forward walk over a list value: yields heads while the remainder is a
/// pair, and deliberately does not guard against improper lists.
pub struct SexpListIter {
    head: Ptr<Sexp>,
}

impl View for SexpListIter {
    type V = SpecSexp;

    closed spec fn view(&self) -> SpecSexp {
        self.head@
    }
}

impl SexpListIter {
    pub fn new(head: Ptr<Sexp>) -> (r: Self)
        ensures
            r@ == head@,
    {
        Self { head }
    }

    /// The next element: the head of the remainder, unless the remainder is
    /// the empty marker.
    pub fn next(&mut self) -> (r: Option<Ptr<Sexp>>)
        ensures
            old(self)@ is Nil ==> r is None && final(self)@ == old(self)@,
            !(old(self)@ is Nil) ==> (r matches Some(v) && v@ == spec_car(old(self)@)
                && final(self)@ == spec_cdr(old(self)@)),
    {
        if self.head.is_nil() {
            None
        } else {
            let car = self.head.car();
            self.head = self.head.cdr();
            Some(car)
        }
    }
}

impl Sexp {
    /// Iterate over a list value.
    pub fn iter(list: Ptr<Sexp>) -> (r: SexpListIter)
        ensures
            r@ == list@,
    {
        SexpListIter::new(list)
    }
}

/// Walking a proper list yields exactly its elements in order and stops: a
/// non-empty list is a pair whose head is the first element and whose tail is
/// the proper list of the remaining ones, and the empty list is the marker on
/// which the iterator reports the end.
pub proof fn lemma_iter_proper_list(es: Seq<SpecSexp>)
    ensures
        es.len() == 0 ==> list_of(es) is Nil,
        es.len() > 0 ==> !(list_of(es) is Nil) && spec_car(list_of(es)) == es[0] && spec_cdr(
            list_of(es),
        ) == list_of(es.drop_first()),
{
}

} // verus!
