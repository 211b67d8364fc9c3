//! Association tables keyed by names, viewed as finite maps.
use vstd::prelude::*;
use vstd::string::StringExecFns;

use crate::sexp::{Sexp, SpecSexp};

verus! {

/// The finite map that an association list stands for; later entries win,
/// though a well-formed table never repeats a key.
pub open spec fn table_view(s: Seq<(String, Sexp)>) -> Map<Seq<char>, SpecSexp>
    decreases s.len(),
{
    if s.len() == 0 {
        Map::empty()
    } else {
        table_view(s.drop_last()).insert(s.last().0@, s.last().1@)
    }
}

/// No key occurs twice.
pub open spec fn table_keys_unique(s: Seq<(String, Sexp)>) -> bool {
    forall|i: int, j: int| 0 <= i < j < s.len() ==> s[i].0@ != s[j].0@
}

pub proof fn lemma_table_view_contains(s: Seq<(String, Sexp)>, k: Seq<char>)
    ensures
        table_view(s).contains_key(k) <==> exists|i: int| 0 <= i < s.len() && s[i].0@ == k,
    decreases s.len(),
{
    if s.len() > 0 {
        lemma_table_view_contains(s.drop_last(), k);
        if s.last().0@ == k {
            assert(s[s.len() - 1].0@ == k);
        } else {
            if table_view(s).contains_key(k) {
                let i = choose|i: int| 0 <= i < s.drop_last().len() && s.drop_last()[i].0@ == k;
                assert(s[i].0@ == k);
            } else {
                if exists|i: int| 0 <= i < s.len() && s[i].0@ == k {
                    let i = choose|i: int| 0 <= i < s.len() && s[i].0@ == k;
                    assert(s.drop_last()[i].0@ == k);
                }
            }
        }
    }
}

pub proof fn lemma_table_view_at(s: Seq<(String, Sexp)>, i: int)
    requires
        table_keys_unique(s),
        0 <= i < s.len(),
    ensures
        table_view(s).contains_key(s[i].0@),
        table_view(s)[s[i].0@] == s[i].1@,
    decreases s.len(),
{
    if i == s.len() - 1 {
    } else {
        lemma_table_view_at(s.drop_last(), i);
        assert(s.drop_last()[i] == s[i]);
        assert(s.last().0@ != s[i].0@);
    }
}

pub proof fn lemma_table_view_parallel(a: Seq<(String, Sexp)>, b: Seq<(String, Sexp)>)
    requires
        a.len() == b.len(),
        forall|j: int| 0 <= j < a.len() ==> #[trigger] a[j].0@ == b[j].0@ && a[j].1@ == b[j].1@,
    ensures
        table_view(a) == table_view(b),
        table_keys_unique(b) ==> table_keys_unique(a),
    decreases a.len(),
{
    if a.len() > 0 {
        assert(forall|j: int|
            0 <= j < a.drop_last().len() ==> #[trigger] a.drop_last()[j].0@ == b.drop_last()[j].0@
                && a.drop_last()[j].1@ == b.drop_last()[j].1@);
        lemma_table_view_parallel(a.drop_last(), b.drop_last());
        assert(a.last().0@ == b.last().0@ && a.last().1@ == b.last().1@);
        assert(table_view(a) =~= table_view(b));
    } else {
        assert(table_view(a) =~= table_view(b));
    }
}

/// Look a name up; the result mirrors the map that the table stands for.
pub fn tbl_get(v: &Vec<(String, Sexp)>, name: &str) -> (r: Option<Sexp>)
    requires
        table_keys_unique(v@),
    ensures
        match r {
            Some(x) => table_view(v@).contains_key(name@) && x@ == table_view(v@)[name@],
            None => !table_view(v@).contains_key(name@),
        },
{
    let key = String::from_str(name);
    let n = v.len();
    let mut i: usize = 0;
    while i < n
        invariant
            n == v@.len(),
            i <= n,
            key@ == name@,
            table_keys_unique(v@),
            forall|j: int| 0 <= j < i ==> v@[j].0@ != name@,
        decreases n - i,
    {
        if v[i].0 == key {
            proof {
                lemma_table_view_at(v@, i as int);
            }
            return Some(v[i].1.clone());
        }
        i = i + 1;
    }
    proof {
        lemma_table_view_contains(v@, name@);
    }
    None
}

/// Bind a name, replacing any earlier binding of the same name.
pub fn tbl_set(v: &mut Vec<(String, Sexp)>, name: &str, val: Sexp)
    requires
        table_keys_unique(old(v)@),
    ensures
        table_keys_unique(final(v)@),
        table_view(final(v)@) == table_view(old(v)@).insert(name@, val@),
{
    let key = String::from_str(name);
    let n = v.len();
    let mut i: usize = 0;
    while i < n
        invariant
            n == v@.len(),
            i <= n,
            key@ == name@,
            table_keys_unique(v@),
            v@ == old(v)@,
            forall|j: int| 0 <= j < i ==> v@[j].0@ != name@,
        decreases n - i,
    {
        if v[i].0 == key {
            let ghost s0 = v@;
            v[i].1 = val;
            proof {
                lemma_table_update(s0, i as int, v@);
            }
            return ;
        }
        i = i + 1;
    }
    let ghost s0 = v@;
    v.push((key, val));
    proof {
        assert(v@.drop_last() =~= s0);
    }
}

proof fn lemma_table_update(s0: Seq<(String, Sexp)>, i: int, s1: Seq<(String, Sexp)>)
    requires
        table_keys_unique(s0),
        0 <= i < s0.len(),
        s1.len() == s0.len(),
        forall|j: int| 0 <= j < s0.len() && j != i ==> s1[j] == s0[j],
        s1[i].0@ == s0[i].0@,
    ensures
        table_keys_unique(s1),
        table_view(s1) == table_view(s0).insert(s0[i].0@, s1[i].1@),
    decreases s0.len(),
{
    assert forall|p: int, q: int| 0 <= p < q < s1.len() implies s1[p].0@ != s1[q].0@ by {
        assert(s0[p].0@ != s0[q].0@);
    }
    if i == s0.len() - 1 {
        assert(s1.drop_last() =~= s0.drop_last());
        assert(table_view(s1) =~= table_view(s0).insert(s0[i].0@, s1[i].1@));
    } else {
        lemma_table_update(s0.drop_last(), i, s1.drop_last());
        assert(s1.last() == s0.last());
        assert(s0.last().0@ != s0[i].0@);
        assert(table_view(s1) =~= table_view(s0).insert(s0[i].0@, s1[i].1@));
    }
}

} // verus!
