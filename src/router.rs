//! Static model-to-provider lookup: the first provider in configuration
//! order that lists a model serves it.
use vstd::prelude::*;

use crate::config::OpenAICompatible;

verus! {

/// Provider `p` lists model `m`.
pub open spec fn serves(p: OpenAICompatible, m: Seq<char>) -> bool {
    exists|j: int| 0 <= j < p.models@.len() && (#[trigger] p.models@[j])@ == m
}

/// Some provider in `ps` lists `m`.
pub open spec fn routable(ps: Seq<OpenAICompatible>, m: Seq<char>) -> bool {
    exists|i: int| 0 <= i < ps.len() && serves(#[trigger] ps[i], m)
}

/// `i` is the first position in `ps` whose provider lists `m`.
pub open spec fn first_match(ps: Seq<OpenAICompatible>, m: Seq<char>, i: int) -> bool {
    &&& 0 <= i < ps.len()
    &&& serves(ps[i], m)
    &&& forall|k: int| 0 <= k < i ==> !serves(#[trigger] ps[k], m)
}

/// Whether `p` lists `model`.
pub fn lists_model(p: &OpenAICompatible, model: &String) -> (r: bool)
    ensures
        r == serves(*p, model@),
{
    let n = p.models.len();
    let mut j: usize = 0;
    while j < n
        invariant
            n == p.models@.len(),
            j <= n,
            forall|k: int| 0 <= k < j ==> (#[trigger] p.models@[k])@ != model@,
        decreases n - j,
    {
        if p.models[j].eq(model) {
            return true;
        }
        j = j + 1;
    }
    false
}

/// The position of the first provider that lists `model`, if any.
pub fn find_provider(providers: &Vec<OpenAICompatible>, model: &String) -> (r: Option<usize>)
    ensures
        r is Some <==> routable(providers@, model@),
        r is Some ==> first_match(providers@, model@, r->Some_0 as int),
{
    let n = providers.len();
    let mut i: usize = 0;
    while i < n
        invariant
            n == providers@.len(),
            i <= n,
            forall|k: int| 0 <= k < i ==> !serves(#[trigger] providers@[k], model@),
        decreases n - i,
    {
        if lists_model(&providers[i], model) {
            return Some(i);
        }
        i = i + 1;
    }
    None
}

/// First match wins: when the providers at `i` and `j`, with `i < j`, both
/// list `m`, the one chosen is never `j` and stands no later than `i`.
pub proof fn lemma_first_match_wins(ps: Seq<OpenAICompatible>, m: Seq<char>, i: int, j: int, k: int)
    requires
        0 <= i < j < ps.len(),
        serves(ps[i], m),
        serves(ps[j], m),
        first_match(ps, m, k),
    ensures
        k <= i,
        k != j,
{
    if k > i {
        assert(!serves(ps[i], m));
    }
}

/// The first match is unique.
pub proof fn lemma_first_match_unique(ps: Seq<OpenAICompatible>, m: Seq<char>, a: int, b: int)
    requires
        first_match(ps, m, a),
        first_match(ps, m, b),
    ensures
        a == b,
{
    if a < b {
        assert(!serves(ps[a], m));
    } else if b < a {
        assert(!serves(ps[b], m));
    }
}

} // verus!
