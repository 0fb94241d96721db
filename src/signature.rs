//! What a front end learns from a function's parameter list: its arity, and whether its
//! absence-tolerant parameters form a trailing run.
use vstd::prelude::*;

verus! {

/// A declared parameter: its name, and whether the caller may leave it out.
#[derive(Debug, Clone, PartialEq, Eq)]
pub struct Param {
    pub name: String,
    pub optional: bool,
}

/// How many parameters of `ps` the caller must supply.
pub open spec fn required_count(ps: Seq<Param>) -> nat
    decreases ps.len(),
{
    if ps.len() == 0 {
        0
    } else {
        required_count(ps.drop_last()) + if ps.last().optional {
            0nat
        } else {
            1nat
        }
    }
}

/// Every parameter after an absence-tolerant one is absence-tolerant too.
pub open spec fn optional_suffix(ps: Seq<Param>) -> bool {
    forall|i: int, j: int| 0 <= i < j < ps.len() && #[trigger] ps[i].optional ==> #[trigger] ps[j].optional
}

/// The arity of a parameter list: the count of parameters that are not absence-tolerant,
/// and the count of all.
pub fn arity(params: &[Param]) -> (r: (usize, usize))
    ensures
        r.0 == required_count(params@),
        r.1 == params@.len(),
        r.0 <= r.1,
{
    let n = params.len();
    let mut min: usize = 0;
    let mut i: usize = 0;
    while i < n
        invariant
            i <= n,
            n == params@.len(),
            min == required_count(params@.subrange(0, i as int)),
            min <= i,
        decreases n - i,
    {
        proof {
            assert(params@.subrange(0, i + 1).drop_last() =~= params@.subrange(0, i as int));
        }
        if !params[i].optional {
            min = min + 1;
        }
        i = i + 1;
    }
    proof {
        assert(params@.subrange(0, n as int) =~= params@);
    }
    (min, n)
}

/// Checks that absence-tolerant parameters form a trailing run. On failure, the index
/// of the first required parameter that follows an absence-tolerant one.
pub fn check_optional_suffix(params: &[Param]) -> (r: Result<(), usize>)
    ensures
        r is Ok <==> optional_suffix(params@),
        r matches Err(j) ==> {
            &&& j < params@.len()
            &&& !params@[j as int].optional
            &&& exists|i: int| 0 <= i < j && #[trigger] params@[i].optional
            &&& optional_suffix(params@.subrange(0, j as int))
        },
{
    let n = params.len();
    let mut seen: Option<usize> = None;
    let mut i: usize = 0;
    while i < n
        invariant
            i <= n,
            n == params@.len(),
            optional_suffix(params@.subrange(0, i as int)),
            seen matches Some(k) ==> k < i && params@[k as int].optional,
            seen is None ==> forall|k: int| 0 <= k < i ==> !(#[trigger] params@[k]).optional,
        decreases n - i,
    {
        let opt = params[i].optional;
        if !opt {
            if let Some(k) = seen {
                proof {
                    assert(params@[k as int].optional);
                }
                return Err(i);
            }
        } else if seen.is_none() {
            seen = Some(i);
        }
        proof {
            let s = params@.subrange(0, i + 1);
            assert forall|a: int, b: int| 0 <= a < b < s.len() && #[trigger] s[a].optional implies #[trigger] s[b].optional by {
                if b < i {
                    assert(params@.subrange(0, i as int)[a] == s[a]);
                    assert(params@.subrange(0, i as int)[b] == s[b]);
                }
            }
        }
        i = i + 1;
    }
    proof {
        assert(params@.subrange(0, n as int) =~= params@);
    }
    Ok(())
}

/// Where absence-tolerant parameters trail, the required ones are exactly those at the
/// positions below the required count: a call with at least that many arguments binds a
/// text to every required parameter.
pub proof fn lemma_required_prefix(ps: Seq<Param>)
    requires
        optional_suffix(ps),
    ensures
        required_count(ps) <= ps.len(),
        forall|i: int| 0 <= i < ps.len() ==> (i < required_count(ps) <==> !(#[trigger] ps[i]).optional),
    decreases ps.len(),
{
    if ps.len() > 0 {
        let d = ps.drop_last();
        assert forall|i: int, j: int| 0 <= i < j < d.len() && #[trigger] d[i].optional implies #[trigger] d[j].optional by {
            assert(ps[i] == d[i] && ps[j] == d[j]);
        }
        lemma_required_prefix(d);
        assert forall|i: int| 0 <= i < ps.len() implies (i < required_count(ps) <==> !(#[trigger] ps[i]).optional) by {
            if i < d.len() {
                assert(ps[i] == d[i]);
                if !ps.last().optional && ps[i].optional {
                    assert(ps[ps.len() - 1].optional);
                }
            } else {
                if ps.last().optional {
                    if required_count(d) == d.len() && d.len() > 0 {
                        assert(!d[d.len() - 1].optional);
                    }
                } else {
                    if required_count(d) < d.len() {
                        assert(d[d.len() - 1].optional);
                        assert(ps[d.len() - 1].optional);
                    }
                }
            }
        }
    }
}

} // verus!
