//! Verified name filters for the host directory scans: configuration files
//! by extension, and graphics libraries by name prefix.

use vstd::prelude::*;

use crate::install::deep;
use crate::strutil::{ends_with, starts_with};

verus! {

/// The names that end in the given suffix, order kept.
pub open spec fn filter_suffix_spec(names: Seq<Seq<char>>, sfx: Seq<char>) -> Seq<Seq<char>> {
    names.filter(|s: Seq<char>| sfx.is_suffix_of(s))
}

proof fn lemma_filter_suffix_push(names: Seq<Seq<char>>, x: Seq<char>, sfx: Seq<char>)
    ensures
        filter_suffix_spec(names.push(x), sfx) == filter_suffix_spec(names, sfx) + (
        if sfx.is_suffix_of(x) {
            seq![x]
        } else {
            Seq::<Seq<char>>::empty()
        }),
{
    let pred = |s: Seq<char>| sfx.is_suffix_of(s);
    assert(names.push(x) =~= names + seq![x]);
    Seq::<Seq<char>>::filter_distributes_over_add(names, seq![x], pred);
    assert(seq![x].filter(pred) =~= (if pred(x) {
        seq![x]
    } else {
        Seq::<Seq<char>>::empty()
    })) by {
        reveal_with_fuel(Seq::filter, 2);
        assert(seq![x].drop_last() =~= Seq::<Seq<char>>::empty());
    }
}

/// Keeps the names that end in `suffix`, in their order.
pub fn filter_by_suffix(names: &Vec<String>, suffix: &str) -> (r: Vec<String>)
    ensures
        deep(r@) == filter_suffix_spec(deep(names@), suffix@),
{
    let mut out: Vec<String> = Vec::new();
    let mut i: usize = 0;
    proof {
        assert(deep(out@) =~= Seq::<Seq<char>>::empty());
        assert(deep(names@).subrange(0, 0) =~= Seq::<Seq<char>>::empty());
        reveal(Seq::filter);
    }
    while i < names.len()
        invariant
            0 <= i <= names@.len(),
            deep(out@) == filter_suffix_spec(deep(names@).subrange(0, i as int), suffix@),
        decreases names@.len() - i,
    {
        let ghost pre = deep(names@).subrange(0, i as int);
        let ghost x = deep(names@)[i as int];
        if ends_with(names[i].as_str(), suffix) {
            out.push(names[i].clone());
            proof {
                assert(deep(out@) =~~= filter_suffix_spec(pre, suffix@) + seq![x]);
            }
        }
        proof {
            lemma_filter_suffix_push(pre, x, suffix@);
            assert(deep(names@).subrange(0, i + 1 as int) =~= pre.push(x));
            if !suffix@.is_suffix_of(x) {
                assert(filter_suffix_spec(pre, suffix@) + Seq::<Seq<char>>::empty()
                    =~= filter_suffix_spec(pre, suffix@));
            }
        }
        i = i + 1;
    }
    proof {
        assert(deep(names@).subrange(0, names@.len() as int) =~= deep(names@));
    }
    out
}

/// A graphics library name: one carrying the loader's well-known prefixes.
pub open spec fn gl_name_spec(s: Seq<char>) -> bool {
    "libGL"@.is_prefix_of(s) || "libEGL"@.is_prefix_of(s) || "libGLX"@.is_prefix_of(s)
}

/// The graphics library names, order kept.
pub open spec fn filter_gl_spec(names: Seq<Seq<char>>) -> Seq<Seq<char>> {
    names.filter(|s: Seq<char>| gl_name_spec(s))
}

proof fn lemma_filter_gl_push(names: Seq<Seq<char>>, x: Seq<char>)
    ensures
        filter_gl_spec(names.push(x)) == filter_gl_spec(names) + (if gl_name_spec(x) {
            seq![x]
        } else {
            Seq::<Seq<char>>::empty()
        }),
{
    let pred = |s: Seq<char>| gl_name_spec(s);
    assert(names.push(x) =~= names + seq![x]);
    Seq::<Seq<char>>::filter_distributes_over_add(names, seq![x], pred);
    assert(seq![x].filter(pred) =~= (if pred(x) {
        seq![x]
    } else {
        Seq::<Seq<char>>::empty()
    })) by {
        reveal_with_fuel(Seq::filter, 2);
        assert(seq![x].drop_last() =~= Seq::<Seq<char>>::empty());
    }
}

/// Keeps the graphics library names, in their order.
pub fn filter_gl_names(names: &Vec<String>) -> (r: Vec<String>)
    ensures
        deep(r@) == filter_gl_spec(deep(names@)),
{
    let mut out: Vec<String> = Vec::new();
    let mut i: usize = 0;
    proof {
        assert(deep(out@) =~= Seq::<Seq<char>>::empty());
        assert(deep(names@).subrange(0, 0) =~= Seq::<Seq<char>>::empty());
        reveal(Seq::filter);
    }
    while i < names.len()
        invariant
            0 <= i <= names@.len(),
            deep(out@) == filter_gl_spec(deep(names@).subrange(0, i as int)),
        decreases names@.len() - i,
    {
        let ghost pre = deep(names@).subrange(0, i as int);
        let ghost x = deep(names@)[i as int];
        let name = &names[i];
        if starts_with(name.as_str(), "libGL") || starts_with(name.as_str(), "libEGL")
            || starts_with(name.as_str(), "libGLX") {
            out.push(names[i].clone());
            proof {
                assert(deep(out@) =~~= filter_gl_spec(pre) + seq![x]);
            }
        }
        proof {
            lemma_filter_gl_push(pre, x);
            assert(deep(names@).subrange(0, i + 1 as int) =~= pre.push(x));
            if !gl_name_spec(x) {
                assert(filter_gl_spec(pre) + Seq::<Seq<char>>::empty() =~= filter_gl_spec(pre));
            }
        }
        i = i + 1;
    }
    proof {
        assert(deep(names@).subrange(0, names@.len() as int) =~= deep(names@));
    }
    out
}

} // verus!
