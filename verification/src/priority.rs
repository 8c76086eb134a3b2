//! The priority selector: the order in which pending jobs are tried when the
//! caller asks for episode-aware scheduling.
//!
//! Jobs with episode metadata come before jobs without; among the former the
//! order is by series name, then season, then episode; jobs that this leaves
//! level keep the order of the listing. The order is only a hint for which
//! job to try first: who gets a job is decided by the claim itself.

use vstd::prelude::*;
use crate::episode::{opt_episode_view, EpisodeMetadata, EpisodeView};
use crate::text::chars_of;

verus! {

/// `a` comes before `b` in the order of texts by their characters' code
/// points, the shorter first where one begins the other.
pub open spec fn text_lt(a: Seq<char>, b: Seq<char>) -> bool
    decreases a.len(),
{
    if b.len() == 0 {
        false
    } else if a.len() == 0 {
        true
    } else if a[0] != b[0] {
        a[0] < b[0]
    } else {
        text_lt(a.drop_first(), b.drop_first())
    }
}

/// No text comes before itself, and of two texts at most one comes before
/// the other.
pub proof fn lemma_text_lt_asymmetric(a: Seq<char>, b: Seq<char>)
    ensures
        !(text_lt(a, b) && text_lt(b, a)),
    decreases a.len(),
{
    if a.len() > 0 && b.len() > 0 && a[0] == b[0] {
        lemma_text_lt_asymmetric(a.drop_first(), b.drop_first());
    }
}

/// Of two different texts one comes before the other.
pub proof fn lemma_text_lt_total(a: Seq<char>, b: Seq<char>)
    ensures
        text_lt(a, b) || text_lt(b, a) || a == b,
    decreases a.len(),
{
    if a.len() > 0 && b.len() > 0 && a[0] == b[0] {
        lemma_text_lt_total(a.drop_first(), b.drop_first());
        if a.drop_first() == b.drop_first() {
            assert(a =~= seq![a[0]] + a.drop_first());
            assert(b =~= seq![b[0]] + b.drop_first());
        }
    } else if a.len() == 0 && b.len() == 0 {
        assert(a =~= b);
    }
}

/// The order of texts is transitive.
pub proof fn lemma_text_lt_transitive(a: Seq<char>, b: Seq<char>, c: Seq<char>)
    requires
        text_lt(a, b),
        text_lt(b, c),
    ensures
        text_lt(a, c),
    decreases a.len(),
{
    if a.len() > 0 && b.len() > 0 && c.len() > 0 && a[0] == b[0] && b[0] == c[0] {
        lemma_text_lt_transitive(a.drop_first(), b.drop_first(), c.drop_first());
    }
}

/// `a` comes before `b` by series name, then season, then episode.
pub open spec fn episode_lt(a: EpisodeView, b: EpisodeView) -> bool {
    ||| text_lt(a.series_name, b.series_name)
    ||| a.series_name == b.series_name && a.season_number < b.season_number
    ||| a.series_name == b.series_name && a.season_number == b.season_number && a.episode_number
        < b.episode_number
}

/// `a` ranks before `b`: both have metadata and `a`'s comes first, or only
/// `a` has metadata.
pub open spec fn ranks_before(a: Option<EpisodeView>, b: Option<EpisodeView>) -> bool {
    match (a, b) {
        (Some(x), Some(y)) => episode_lt(x, y),
        (Some(_), None) => true,
        (None, _) => false,
    }
}

/// Neither ranks before the other.
pub open spec fn same_rank(a: Option<EpisodeView>, b: Option<EpisodeView>) -> bool {
    !ranks_before(a, b) && !ranks_before(b, a)
}

/// Candidate `i` of a listing is tried before candidate `j`: it ranks before
/// it, or the two are level and `i` was listed first.
pub open spec fn tried_before(keys: Seq<Option<EpisodeView>>, i: int, j: int) -> bool {
    ranks_before(keys[i], keys[j]) || (same_rank(keys[i], keys[j]) && i < j)
}

/// `order` lists each candidate of `keys` once, by position in the listing,
/// each before all those that are tried after it.
pub open spec fn is_priority_order(keys: Seq<Option<EpisodeView>>, order: Seq<usize>) -> bool {
    &&& order.len() == keys.len()
    &&& forall|i: int| 0 <= i < order.len() ==> (#[trigger] order[i]) < keys.len()
    &&& forall|i: int, j: int|
        0 <= i < j < order.len() ==> tried_before(keys, #[trigger] order[i] as int, #[trigger] order[j] as int)
}

/// Ranking is a strict order that treats level candidates alike: it is
/// transitive, and whatever is level with one side of a ranking can stand in
/// its place.
pub proof fn lemma_rank_order(
    a: Option<EpisodeView>,
    b: Option<EpisodeView>,
    c: Option<EpisodeView>,
)
    ensures
        !ranks_before(a, a),
        !(ranks_before(a, b) && ranks_before(b, a)),
        ranks_before(a, b) && ranks_before(b, c) ==> ranks_before(a, c),
        same_rank(a, b) && ranks_before(b, c) ==> ranks_before(a, c),
        ranks_before(a, b) && same_rank(b, c) ==> ranks_before(a, c),
        same_rank(a, b) && same_rank(b, c) ==> same_rank(a, c),
{
    match (a, b, c) {
        (Some(x), Some(y), Some(z)) => {
            lemma_episode_order(x, y, z);
        },
        (Some(x), Some(y), None) => {
            lemma_episode_order(x, y, y);
        },
        (Some(x), None, Some(z)) => {
            lemma_episode_order(x, z, z);
        },
        (None, Some(y), Some(z)) => {
            lemma_episode_order(y, z, z);
        },
        (Some(x), None, None) => {
            lemma_episode_order(x, x, x);
        },
        _ => {},
    }
}

proof fn lemma_episode_order(x: EpisodeView, y: EpisodeView, z: EpisodeView)
    ensures
        !episode_lt(x, x),
        !(episode_lt(x, y) && episode_lt(y, x)),
        episode_lt(x, y) && episode_lt(y, z) ==> episode_lt(x, z),
        !episode_lt(x, y) && !episode_lt(y, x) && episode_lt(y, z) ==> episode_lt(x, z),
        episode_lt(x, y) && !episode_lt(y, z) && !episode_lt(z, y) ==> episode_lt(x, z),
        !episode_lt(x, y) && !episode_lt(y, x) && !episode_lt(y, z) && !episode_lt(z, y) ==> (
        !episode_lt(x, z) && !episode_lt(z, x)),
{
    let (a, b, c) = (x.series_name, y.series_name, z.series_name);
    lemma_text_lt_asymmetric(a, a);
    lemma_text_lt_asymmetric(a, b);
    lemma_text_lt_asymmetric(b, c);
    lemma_text_lt_asymmetric(a, c);
    lemma_text_lt_total(a, b);
    lemma_text_lt_total(b, c);
    lemma_text_lt_total(a, c);
    if text_lt(a, b) && text_lt(b, c) {
        lemma_text_lt_transitive(a, b, c);
    }
    if text_lt(c, b) && text_lt(b, a) {
        lemma_text_lt_transitive(c, b, a);
    }
}

/// The order in which candidates are tried is transitive.
pub proof fn lemma_tried_before_transitive(
    keys: Seq<Option<EpisodeView>>,
    i: int,
    j: int,
    k: int,
)
    requires
        tried_before(keys, i, j),
        tried_before(keys, j, k),
    ensures
        tried_before(keys, i, k),
{
    lemma_rank_order(keys[i], keys[j], keys[k]);
}

/// Of two candidates exactly one is tried before the other, so that a
/// listing has exactly one priority order.
pub proof fn lemma_tried_before_total(keys: Seq<Option<EpisodeView>>, i: int, j: int)
    ensures
        !tried_before(keys, i, i),
        i != j ==> (tried_before(keys, i, j) <==> !tried_before(keys, j, i)),
{
    lemma_rank_order(keys[i], keys[j], keys[i]);
}

/// What a priority order means for any two of its places: a candidate
/// without metadata never comes before one with metadata; of two with
/// metadata the later does not come first by series, season and episode;
/// two without metadata come as they were listed; and no candidate comes
/// twice.
pub proof fn lemma_priority_order_reading(
    keys: Seq<Option<EpisodeView>>,
    order: Seq<usize>,
    i: int,
    j: int,
)
    requires
        is_priority_order(keys, order),
        0 <= i < j < order.len(),
    ensures
        order[i] != order[j],
        keys[order[j] as int] is Some ==> keys[order[i] as int] is Some,
        keys[order[i] as int] is Some && keys[order[j] as int] is Some ==> !episode_lt(
            keys[order[j] as int]->Some_0,
            keys[order[i] as int]->Some_0,
        ),
        keys[order[i] as int] is None && keys[order[j] as int] is None ==> order[i] < order[j],
        same_rank(keys[order[i] as int], keys[order[j] as int]) ==> order[i] < order[j],
{
    assert(tried_before(keys, order[i] as int, order[j] as int));
    lemma_rank_order(keys[order[i] as int], keys[order[j] as int], keys[order[i] as int]);
}

/// Every candidate of the listing has its place in a priority order.
pub proof fn lemma_priority_order_complete(
    keys: Seq<Option<EpisodeView>>,
    order: Seq<usize>,
    k: int,
)
    requires
        is_priority_order(keys, order),
        0 <= k < keys.len(),
    ensures
        exists|i: int| 0 <= i < order.len() && #[trigger] order[i] == k,
{
    broadcast use vstd::seq_lib::seq_to_set_is_finite;

    let n = keys.len() as int;
    let places = order.map_values(|x: usize| x as int);
    assert forall|i: int, j: int| 0 <= i < places.len() && 0 <= j < places.len() && i
        != j implies places[i] != places[j] by {
        if i < j {
            lemma_priority_order_reading(keys, order, i, j);
        } else {
            lemma_priority_order_reading(keys, order, j, i);
        }
    }
    places.unique_seq_to_set();
    vstd::set_lib::lemma_int_range(0, n);
    let all = vstd::set_lib::set_int_range(0, n);
    assert forall|x: int| places.to_set().contains(x) implies all.contains(x) by {
        let i = choose|i: int| 0 <= i < places.len() && places[i] == x;
        assert(order[i] < keys.len());
    }
    vstd::set_lib::lemma_subset_equality(places.to_set(), all);
    assert(all.contains(k));
    assert(places.to_set().contains(k));
    let i = choose|i: int| 0 <= i < places.len() && places[i] == k;
    assert(order[i] == k);
}

proof fn lemma_orders_agree(
    keys: Seq<Option<EpisodeView>>,
    a: Seq<usize>,
    b: Seq<usize>,
    upto: int,
)
    requires
        is_priority_order(keys, a),
        is_priority_order(keys, b),
        0 <= upto <= keys.len(),
    ensures
        forall|k: int| 0 <= k < upto ==> a[k] == b[k],
    decreases upto,
{
    if upto > 0 {
        lemma_orders_agree(keys, a, b, upto - 1);
        let i = upto - 1;
        lemma_priority_order_complete(keys, b, a[i] as int);
        lemma_priority_order_complete(keys, a, b[i] as int);
        let j = choose|j: int| 0 <= j < b.len() && #[trigger] b[j] == a[i];
        let k = choose|k: int| 0 <= k < a.len() && #[trigger] a[k] == b[i];
        if j < i {
            lemma_priority_order_reading(keys, a, j, i);
        }
        if k < i {
            lemma_priority_order_reading(keys, b, k, i);
        }
        if j > i && k > i {
            assert(tried_before(keys, b[i] as int, b[j] as int));
            assert(tried_before(keys, a[i] as int, a[k] as int));
            lemma_tried_before_total(keys, a[i] as int, b[i] as int);
        }
    }
}

/// A listing has exactly one priority order.
pub proof fn lemma_priority_order_unique(
    keys: Seq<Option<EpisodeView>>,
    a: Seq<usize>,
    b: Seq<usize>,
)
    requires
        is_priority_order(keys, a),
        is_priority_order(keys, b),
    ensures
        a == b,
{
    lemma_orders_agree(keys, a, b, keys.len() as int);
    assert(a =~= b);
}

/// Computes `text_lt`.
pub fn text_less(a: &str, b: &str) -> (r: bool)
    ensures
        r == text_lt(a@, b@),
{
    let x = chars_of(a);
    let y = chars_of(b);
    let mut i: usize = 0;
    assert(x@.skip(0) == x@ && y@.skip(0) == y@);
    while i < x.len() && i < y.len()
        invariant
            x@ == a@,
            y@ == b@,
            i <= x@.len(),
            i <= y@.len(),
            text_lt(x@, y@) == text_lt(x@.skip(i as int), y@.skip(i as int)),
        decreases x@.len() - i,
    {
        let ghost xs = x@.skip(i as int);
        let ghost ys = y@.skip(i as int);
        assert(xs[0] == x@[i as int] && ys[0] == y@[i as int]);
        if x[i] != y[i] {
            return x[i] < y[i];
        }
        assert(xs.drop_first() == x@.skip(i + 1));
        assert(ys.drop_first() == y@.skip(i + 1));
        i += 1;
    }
    i < y.len()
}

/// Computes `ranks_before`.
pub fn ranks_first(a: &Option<EpisodeMetadata>, b: &Option<EpisodeMetadata>) -> (r: bool)
    ensures
        r == ranks_before(opt_episode_view(*a), opt_episode_view(*b)),
{
    match (a, b) {
        (Some(x), Some(y)) => {
            if text_less(x.series_name.as_str(), y.series_name.as_str()) {
                true
            } else if x.series_name == y.series_name {
                x.season_number < y.season_number || (x.season_number == y.season_number
                    && x.episode_number < y.episode_number)
            } else {
                false
            }
        },
        (Some(_), None) => true,
        (None, _) => false,
    }
}

/// The metadata of a listing's candidates as plain values.
pub open spec fn keys_view(keys: Vec<Option<EpisodeMetadata>>) -> Seq<Option<EpisodeView>> {
    keys@.map_values(|k: Option<EpisodeMetadata>| opt_episode_view(k))
}

/// The order in which to try the candidates of a listing, given the metadata
/// of each: the positions in the listing, first to try first.
pub fn priority_order(keys: &Vec<Option<EpisodeMetadata>>) -> (order: Vec<usize>)
    ensures
        is_priority_order(keys_view(*keys), order@),
{
    let ghost kv = keys_view(*keys);
    let n = keys.len();
    let mut order: Vec<usize> = Vec::new();
    let mut k: usize = 0;
    while k < n
        invariant
            k <= n,
            n == keys@.len(),
            kv == keys_view(*keys),
            order@.len() == k,
            forall|i: int| 0 <= i < order@.len() ==> (#[trigger] order@[i]) < k,
            forall|i: int, j: int|
                0 <= i < j < order@.len() ==> tried_before(
                    kv,
                    #[trigger] order@[i] as int,
                    #[trigger] order@[j] as int,
                ),
        decreases n - k,
    {
        // Walk back over the candidates that the new one ranks before.
        let mut p: usize = k;
        while p > 0 && ranks_first(&keys[k], &keys[order[p - 1]])
            invariant
                p <= k,
                k < n,
                n == keys@.len(),
                kv == keys_view(*keys),
                order@.len() == k,
                forall|i: int| 0 <= i < order@.len() ==> (#[trigger] order@[i]) < k,
                forall|i: int|
                    p <= i < order@.len() ==> ranks_before(kv[k as int], kv[#[trigger] order@[i] as int]),
            decreases p,
        {
            p -= 1;
        }
        let ghost before = order@;
        order.insert(p, k);
        proof {
            assert forall|i: int, j: int| 0 <= i < j < order@.len() implies tried_before(
                kv,
                #[trigger] order@[i] as int,
                #[trigger] order@[j] as int,
            ) by {
                if j < p {
                    assert(order@[i] == before[i] && order@[j] == before[j]);
                } else if j == p {
                    // i < p: an earlier candidate that the new one does not rank before
                    assert(order@[i] == before[i]);
                    assert(tried_before(kv, before[i] as int, before[p - 1] as int) || i == p - 1);
                    lemma_rank_order(kv[before[i] as int], kv[before[p - 1] as int], kv[k as int]);
                    lemma_rank_order(kv[k as int], kv[before[p - 1] as int], kv[before[i] as int]);
                    lemma_rank_order(kv[before[i] as int], kv[k as int], kv[before[p - 1] as int]);
                } else if i == p {
                    assert(order@[j] == before[j - 1]);
                } else if i < p {
                    assert(order@[i] == before[i] && order@[j] == before[j - 1]);
                } else {
                    assert(order@[i] == before[i - 1] && order@[j] == before[j - 1]);
                }
            }
        }
        k += 1;
    }
    order
}

} // verus!
