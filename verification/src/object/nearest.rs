//! The nearest of several intersections.
//!
//! A group of objects is tested one by one; each object is only asked for
//! hits that are nearer than the nearest found so far.

use crate::object::record::HitRecord;
use crate::utils::scalar::Scalar;
use vstd::prelude::*;

verus! {

/// The hit `full`, unless it lies at `bound` or beyond.
pub open spec fn restricted(full: Option<HitRecord>, bound: Scalar) -> Option<HitRecord> {
    match full {
        Some(h) => if h.t.raw < bound.raw {
            Some(h)
        } else {
            None
        },
        None => None,
    }
}

/// The upper end of the search once `prev` has been found.
pub open spec fn bound_after(prev: Option<HitRecord>, tmax: Scalar) -> Scalar {
    match prev {
        Some(h) => h.t,
        None => tmax,
    }
}

/// The result of testing the first `n` objects in turn, where `hits(i, b)` is
/// what object `i` reports when asked for hits below `b`: each object is
/// asked for hits below the nearest one found before it.
pub open spec fn nearest_of(
    hits: spec_fn(int, Scalar) -> Option<HitRecord>,
    n: nat,
    tmax: Scalar,
) -> Option<HitRecord>
    decreases n,
{
    if n == 0 {
        None
    } else {
        let prev = nearest_of(hits, (n - 1) as nat, tmax);
        match hits(n - 1, bound_after(prev, tmax)) {
            Some(h) => Some(h),
            None => prev,
        }
    }
}

/// Entry `i` of `all` is a hit, no entry is nearer, and no earlier entry is as
/// near.
pub open spec fn is_first_min(all: Seq<Option<HitRecord>>, i: int) -> bool {
    &&& 0 <= i < all.len()
    &&& all[i] is Some
    &&& forall|j: int|
        0 <= j < all.len() && (#[trigger] all[j]) is Some ==> {
            &&& all[i]->0.t.raw <= all[j]->0.t.raw
            &&& j < i ==> all[i]->0.t.raw < all[j]->0.t.raw
        }
}

/// `r` is the nearest of the hits in `all`, the first of them among equals;
/// it is `None` exactly when `all` holds no hit.
pub open spec fn is_first_nearest(all: Seq<Option<HitRecord>>, r: Option<HitRecord>) -> bool {
    match r {
        None => forall|i: int| 0 <= i < all.len() ==> (#[trigger] all[i]) is None,
        Some(h) => exists|i: int| #[trigger] is_first_min(all, i) && all[i] == Some(h),
    }
}

/// Two families of objects that agree on the first `n` give the same result
/// on them.
pub proof fn lemma_nearest_of_agree(
    f: spec_fn(int, Scalar) -> Option<HitRecord>,
    g: spec_fn(int, Scalar) -> Option<HitRecord>,
    n: nat,
    tmax: Scalar,
)
    requires
        forall|i: int, b: Scalar| 0 <= i < n ==> #[trigger] f(i, b) == g(i, b),
    ensures
        nearest_of(f, n, tmax) == nearest_of(g, n, tmax),
    decreases n,
{
    if n > 0 {
        lemma_nearest_of_agree(f, g, (n - 1) as nat, tmax);
    }
}

/// When asking an object for hits below a smaller bound only hides the hits
/// at or beyond that bound, testing the objects in turn finds the nearest of
/// all their hits below `tmax`, the first among equals.
pub proof fn lemma_nearest_of_is_first_nearest(
    hits: spec_fn(int, Scalar) -> Option<HitRecord>,
    n: nat,
    tmax: Scalar,
)
    requires
        forall|i: int, b: Scalar|
            0 <= i < n && b.raw <= tmax.raw ==> #[trigger] hits(i, b) == restricted(
                hits(i, tmax),
                b,
            ),
    ensures
        is_first_nearest(Seq::new(n, |i: int| hits(i, tmax)), nearest_of(hits, n, tmax)),
        bound_after(nearest_of(hits, n, tmax), tmax).raw <= tmax.raw,
    decreases n,
{
    let all = Seq::new(n, |i: int| hits(i, tmax));
    let res = nearest_of(hits, n, tmax);
    if n > 0 {
        let m = (n - 1) as nat;
        lemma_nearest_of_is_first_nearest(hits, m, tmax);
        let before = Seq::new(m, |i: int| hits(i, tmax));
        let prev = nearest_of(hits, m, tmax);
        let b = bound_after(prev, tmax);
        let cur = hits(m as int, b);
        let full = hits(m as int, tmax);
        assert(cur == restricted(full, b));
        assert(full == restricted(full, tmax));
        assert(all[m as int] == full);
        assert forall|j: int| 0 <= j < m implies all[j] == before[j] by {}
        match prev {
            None => {
                match cur {
                    Some(h) => {
                        assert(is_first_min(all, m as int));
                    },
                    None => {},
                }
            },
            Some(hp) => {
                let ip = choose|i: int| #[trigger] is_first_min(before, i) && before[i] == Some(hp);
                assert(all[ip] == Some(hp));
                match cur {
                    Some(h) => {
                        assert forall|j: int| 0 <= j < all.len() && (#[trigger] all[j]) is Some implies {
                            &&& h.t.raw <= all[j]->0.t.raw
                            &&& j < m ==> h.t.raw < all[j]->0.t.raw
                        } by {
                            if j < m {
                                assert(before[j] is Some);
                            }
                        }
                        assert(is_first_min(all, m as int));
                    },
                    None => {
                        assert forall|j: int| 0 <= j < all.len() && (#[trigger] all[j]) is Some implies {
                            &&& hp.t.raw <= all[j]->0.t.raw
                            &&& j < ip ==> hp.t.raw < all[j]->0.t.raw
                        } by {
                            if j < m {
                                assert(before[j] is Some);
                            }
                        }
                        assert(is_first_min(all, ip));
                    },
                }
            },
        }
    }
}

/// Under the same condition, searching below a smaller bound finds the same
/// hit, unless that hit lies at the bound or beyond.
pub proof fn lemma_nearest_of_restricts(
    hits: spec_fn(int, Scalar) -> Option<HitRecord>,
    n: nat,
    tmax: Scalar,
    b: Scalar,
)
    requires
        forall|i: int, x: Scalar|
            0 <= i < n && x.raw <= tmax.raw ==> #[trigger] hits(i, x) == restricted(
                hits(i, tmax),
                x,
            ),
        b.raw <= tmax.raw,
    ensures
        nearest_of(hits, n, b) == restricted(nearest_of(hits, n, tmax), b),
    decreases n,
{
    if n > 0 {
        let m = (n - 1) as nat;
        lemma_nearest_of_restricts(hits, m, tmax, b);
        lemma_nearest_of_is_first_nearest(hits, m, tmax);
        let far = nearest_of(hits, m, tmax);
        let full = hits(m as int, tmax);
        assert(hits(m as int, b) == restricted(full, b));
        assert(hits(m as int, tmax) == restricted(full, tmax));
        match far {
            Some(ha) => {
                assert(hits(m as int, ha.t) == restricted(full, ha.t));
            },
            None => {},
        }
    }
}

/// What the search finds is what one of the objects reported.
pub proof fn lemma_nearest_of_comes_from(
    hits: spec_fn(int, Scalar) -> Option<HitRecord>,
    n: nat,
    tmax: Scalar,
)
    ensures
        nearest_of(hits, n, tmax) matches Some(h) ==> exists|i: int, x: Scalar|
            0 <= i < n && #[trigger] hits(i, x) == Some(h),
    decreases n,
{
    if n > 0 {
        let m = (n - 1) as nat;
        lemma_nearest_of_comes_from(hits, m, tmax);
        let prev = nearest_of(hits, m, tmax);
        let x = bound_after(prev, tmax);
        match hits(m as int, x) {
            Some(h) => {
                assert(0 <= m < n && hits(m as int, x) == Some(h));
            },
            None => {
                if let Some(hp) = prev {
                    let (i, y) = choose|i: int, y: Scalar|
                        0 <= i < m && #[trigger] hits(i, y) == Some(hp);
                    assert(0 <= i < n && hits(i, y) == Some(hp));
                }
            },
        }
    }
}

} // verus!
