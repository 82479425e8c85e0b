//! Ranking and grouping for the screener. Gains are ordered through integer keys that
//! preserve their order; the averaging of gains happens where floating point is available.
use vstd::prelude::*;
use crate::text::str_equal;

verus! {

broadcast use vstd::string::group_string_axioms;

/// Item `a` ranks before item `b`: a larger key, or an equal key and an earlier position.
pub open spec fn ranks_before(keys: Seq<i64>, a: int, b: int) -> bool {
    keys[a] > keys[b] || (keys[a] == keys[b] && a < b)
}

/// `order` lists positions of `keys` by descending key, equal keys keeping their positions'
/// order, and holds each position below `n` exactly once.
pub open spec fn ranked_prefix(keys: Seq<i64>, order: Seq<usize>, n: int) -> bool {
    &&& forall|p: int| 0 <= p < order.len() ==> #[trigger] order[p] < n
    &&& forall|x: usize| x < n ==> #[trigger] order.contains(x)
    &&& forall|p: int, q: int|
        0 <= p < q < order.len() ==> ranks_before(keys, #[trigger] order[p] as int, #[trigger] order[q] as int)
}

/// `order` ranks all positions of `keys`: descending by key, ties in their original order
/// (the order a stable sort by descending key gives).
pub open spec fn is_ranking(keys: Seq<i64>, order: Seq<usize>) -> bool {
    &&& order.len() == keys.len()
    &&& ranked_prefix(keys, order, keys.len() as int)
}

/// The positions of `keys` ranked by descending key; equal keys keep their order.
pub fn rank_by_key(keys: &Vec<i64>) -> (order: Vec<usize>)
    ensures
        is_ranking(keys@, order@),
{
    let mut order: Vec<usize> = Vec::new();
    let mut i: usize = 0;
    while i < keys.len()
        invariant
            i <= keys.len(),
            order.len() == i,
            ranked_prefix(keys@, order@, i as int),
        decreases keys.len() - i,
    {
        let k = keys[i];
        let mut pos: usize = 0;
        while pos < order.len() && keys[order[pos]] >= k
            invariant
                pos <= order.len(),
                order.len() == i,
                i < keys.len(),
                k == keys@[i as int],
                ranked_prefix(keys@, order@, i as int),
                forall|p: int| 0 <= p < pos ==> keys@[#[trigger] order@[p] as int] >= k,
            decreases order.len() - pos,
        {
            pos = pos + 1;
        }
        let ghost old_order = order@;
        proof {
            assert forall|q: int| pos <= q < old_order.len() implies keys@[#[trigger] old_order[q] as int] < k by {
                assert(keys@[old_order[pos as int] as int] < k);
                if q > pos {
                    assert(ranks_before(keys@, old_order[pos as int] as int, old_order[q] as int));
                }
            }
        }
        order.insert(pos, i);
        proof {
            assert forall|p: int| 0 <= p < order@.len() implies #[trigger] order@[p] < i + 1 by {
                if p < pos {
                    assert(order@[p] == old_order[p]);
                } else if p > pos {
                    assert(order@[p] == old_order[p - 1]);
                }
            }
            assert forall|x: usize| x < i + 1 implies #[trigger] order@.contains(x) by {
                if x == i {
                    assert(order@[pos as int] == i);
                } else {
                    assert(old_order.contains(x));
                    let p = choose|p: int| 0 <= p < old_order.len() && old_order[p] == x;
                    if p < pos {
                        assert(order@[p] == x);
                    } else {
                        assert(order@[p + 1] == x);
                    }
                }
            }
            assert forall|p: int, q: int| 0 <= p < q < order@.len() implies ranks_before(
                keys@,
                #[trigger] order@[p] as int,
                #[trigger] order@[q] as int,
            ) by {
                if q < pos {
                    assert(order@[p] == old_order[p] && order@[q] == old_order[q]);
                } else if q == pos {
                    assert(order@[p] == old_order[p]);
                    assert(old_order[p] < i);
                } else if p > pos {
                    assert(order@[p] == old_order[p - 1] && order@[q] == old_order[q - 1]);
                } else if p == pos {
                    assert(order@[q] == old_order[q - 1]);
                } else {
                    assert(order@[p] == old_order[p] && order@[q] == old_order[q - 1]);
                    assert(ranks_before(keys@, old_order[p] as int, old_order[q - 1] as int));
                }
            }
        }
        i = i + 1;
    }
    order
}

/// The first `min(top_n, len)` positions of the ranking of `keys`.
pub fn top_ranked(keys: &Vec<i64>, top_n: usize) -> (top: Vec<usize>)
    ensures
        exists|order: Seq<usize>| is_ranking(keys@, order) && #[trigger] top@ == order.take(
            if top_n < keys@.len() { top_n as int } else { keys@.len() as int },
        ),
{
    let mut order = rank_by_key(keys);
    let ghost full = order@;
    order.truncate(top_n);
    assert(order@ == full.take(if top_n < keys@.len() { top_n as int } else { keys@.len() as int }));
    order
}

/// The first position of a ranking holds a largest key, and its last a smallest one (a
/// ranking lists every position of `keys`).
pub proof fn lemma_ranking_extremes(keys: Seq<i64>, order: Seq<usize>)
    requires
        is_ranking(keys, order),
        keys.len() > 0,
    ensures
        forall|p: int|
            0 <= p < order.len() ==> keys[order[0] as int] >= #[trigger] keys[order[p] as int],
        forall|p: int|
            0 <= p < order.len() ==> keys[order[order.len() - 1] as int] <= #[trigger] keys[order[p] as int],
{
    assert forall|p: int| 0 <= p < order.len() implies keys[order[0] as int] >= #[trigger] keys[order[p] as int]
        && keys[order[order.len() - 1] as int] <= keys[order[p] as int] by {
        if p > 0 {
            assert(ranks_before(keys, order[0] as int, order[p] as int));
        }
        if p < order.len() - 1 {
            assert(ranks_before(keys, order[p] as int, order[order.len() - 1] as int));
        }
    }
}

/// A ranking of `keys` is unique: ties are broken by position, so two rankings agree.
pub proof fn lemma_ranking_unique(keys: Seq<i64>, a: Seq<usize>, b: Seq<usize>)
    requires
        is_ranking(keys, a),
        is_ranking(keys, b),
    ensures
        a == b,
{
    if a != b {
        assert(exists|p: int| 0 <= p < a.len() && a[p] != b[p]) by {
            if forall|p: int| 0 <= p < a.len() ==> a[p] == b[p] {
                assert(a =~= b);
            }
        }
        let p0 = choose|p: int| 0 <= p < a.len() && a[p] != b[p];
        lemma_first_difference(a, b, p0);
        let p = choose|p: int|
            0 <= p < a.len() && a[p] != b[p] && forall|r: int| 0 <= r < p ==> a[r] == b[r];
        let x = a[p];
        let y = b[p];
        assert(b.contains(x));
        let qx = choose|q: int| 0 <= q < b.len() && b[q] == x;
        if qx < p {
            assert(a[qx] == x);
        }
        assert(ranks_before(keys, y as int, x as int));
        assert(a.contains(y));
        let qy = choose|q: int| 0 <= q < a.len() && a[q] == y;
        if qy < p {
            assert(b[qy] == y);
        }
        assert(ranks_before(keys, x as int, y as int));
    }
}

proof fn lemma_first_difference(a: Seq<usize>, b: Seq<usize>, p0: int)
    requires
        0 <= p0 < a.len(),
        a.len() == b.len(),
        a[p0] != b[p0],
    ensures
        exists|p: int| 0 <= p < a.len() && a[p] != b[p] && forall|r: int| 0 <= r < p ==> a[r] == b[r],
    decreases p0,
{
    if exists|r: int| 0 <= r < p0 && a[r] != b[r] {
        let r = choose|r: int| 0 <= r < p0 && a[r] != b[r];
        lemma_first_difference(a, b, r);
    } else {
        assert(forall|r: int| 0 <= r < p0 ==> a[r] == b[r]);
    }
}

/// `ids` labels each item with a group so that items with equal names share a group,
/// distinct names get distinct groups, and groups are numbered by first appearance.
pub open spec fn is_first_appearance_grouping(
    names: Seq<Seq<char>>,
    group_names: Seq<Seq<char>>,
    ids: Seq<usize>,
) -> bool {
    &&& ids.len() == names.len()
    &&& forall|m: int| 0 <= m < ids.len() ==> #[trigger] ids[m] < group_names.len()
    &&& forall|m: int| 0 <= m < ids.len() ==> group_names[#[trigger] ids[m] as int] == names[m]
    &&& forall|g: int, h: int|
        0 <= g < h < group_names.len() ==> #[trigger] group_names[g] != #[trigger] group_names[h]
    &&& forall|g: int| 0 <= g < group_names.len() ==> #[trigger] group_used(ids, g)
    &&& forall|m: int, g: int|
        0 <= m < ids.len() && 0 <= g < ids[m] ==> #[trigger] group_seen_before(ids, m, g)
}

/// Some item before position `m` is labelled with group `g`.
pub open spec fn group_seen_before(ids: Seq<usize>, m: int, g: int) -> bool {
    exists|k: int| 0 <= k < m && #[trigger] ids[k] == g
}

/// Some item is labelled with group `g`.
pub open spec fn group_used(ids: Seq<usize>, g: int) -> bool {
    exists|m: int| 0 <= m < ids.len() && #[trigger] ids[m] == g
}

/// Items grouped by name: the group names in order of first appearance, and the group of
/// each item.
pub struct NameGroups {
    pub names: Vec<String>,
    pub group_of: Vec<usize>,
}

/// The names of a sequence of strings.
pub open spec fn strings_model(s: Seq<String>) -> Seq<Seq<char>> {
    s.map_values(|x: String| x@)
}

/// The position of the group named `name`, if there is one.
fn find_name(group_names: &Vec<String>, name: &str) -> (r: Option<usize>)
    ensures
        r matches Some(g) ==> g < group_names@.len() && strings_model(group_names@)[g as int] == name@,
        r is None ==> forall|h: int| 0 <= h < group_names@.len() ==> strings_model(group_names@)[h] != name@,
{
    let mut g: usize = 0;
    while g < group_names.len()
        invariant
            g <= group_names@.len(),
            forall|h: int| 0 <= h < g ==> strings_model(group_names@)[h] != name@,
        decreases group_names.len() - g,
    {
        if str_equal(group_names[g].as_str(), name) {
            return Some(g);
        }
        g = g + 1;
    }
    None
}

/// Groups items by name, numbering the groups in the order their names first appear.
pub fn group_by_name(names: &Vec<String>) -> (r: NameGroups)
    ensures
        is_first_appearance_grouping(strings_model(names@), strings_model(r.names@), r.group_of@),
{
    let ghost nm = strings_model(names@);
    let mut group_names: Vec<String> = Vec::new();
    let mut group_of: Vec<usize> = Vec::new();
    let ghost mut first: Seq<int> = Seq::empty();
    let mut i: usize = 0;
    while i < names.len()
        invariant
            i <= names.len(),
            nm == strings_model(names@),
            group_of@.len() == i,
            first.len() == group_names@.len(),
            forall|g: int| 0 <= g < first.len() ==> 0 <= #[trigger] first[g] < i && group_of@[first[g]] == g,
            forall|m: int| 0 <= m < i ==> #[trigger] group_of@[m] < group_names@.len(),
            forall|m: int| 0 <= m < i ==> strings_model(group_names@)[#[trigger] group_of@[m] as int] == nm[m],
            forall|g: int, h: int|
                0 <= g < h < group_names@.len() ==> #[trigger] strings_model(group_names@)[g]
                    != #[trigger] strings_model(group_names@)[h],
            forall|m: int, g: int|
                0 <= m < i && 0 <= g < #[trigger] group_of@[m] ==> #[trigger] first[g] < m,
        decreases names.len() - i,
    {
        let ghost old_ids = group_of@;
        let ghost old_first = first;
        let ghost old_gm = strings_model(group_names@);
        match find_name(&group_names, names[i].as_str()) {
            Some(g) => {
                group_of.push(g);
                proof {
                    assert(old_gm[g as int] == nm[i as int]);
                    assert forall|h: int| 0 <= h < first.len() implies 0 <= #[trigger] first[h] < i + 1 && group_of@[first[h]] == h by {
                        assert(group_of@[first[h]] == old_ids[first[h]]);
                    }
                    assert forall|m: int| 0 <= m < i + 1 implies strings_model(group_names@)[#[trigger] group_of@[m] as int] == nm[m] by {
                        if m < i {
                            assert(group_of@[m] == old_ids[m]);
                        }
                    }
                    assert forall|m: int, h: int| 0 <= m < i + 1 && 0 <= h < #[trigger] group_of@[m] implies #[trigger] first[h] < m by {
                        if m < i {
                            assert(group_of@[m] == old_ids[m]);
                        } else {
                            assert(h < old_first.len());
                            assert(old_first[h] < i);
                        }
                    }
                }
            },
            None => {
                let g = group_names.len();
                group_names.push(names[i].clone());
                group_of.push(g);
                proof {
                    first = first.push(i as int);
                    assert(strings_model(group_names@) =~= old_gm.push(nm[i as int]));
                    assert forall|h: int| 0 <= h < first.len() implies 0 <= #[trigger] first[h] < i + 1 && group_of@[first[h]] == h by {
                        if h < old_first.len() {
                            assert(group_of@[first[h]] == old_ids[first[h]]);
                        }
                    }
                    assert forall|m: int| 0 <= m < i + 1 implies strings_model(group_names@)[#[trigger] group_of@[m] as int] == nm[m] by {
                        if m < i {
                            assert(group_of@[m] == old_ids[m]);
                        }
                    }
                    assert forall|m: int, h: int| 0 <= m < i + 1 && 0 <= h < #[trigger] group_of@[m] implies #[trigger] first[h] < m by {
                        if m < i {
                            assert(group_of@[m] == old_ids[m]);
                        } else {
                            assert(old_first[h] < i);
                        }
                    }
                }
            },
        }
        i = i + 1;
    }
    proof {
        let gm = strings_model(group_names@);
        assert forall|gg: int| 0 <= gg < gm.len() implies #[trigger] group_used(group_of@, gg) by {
            assert(group_of@[first[gg]] == gg);
        }
        assert forall|m: int, gg: int| 0 <= m < group_of@.len() && 0 <= gg < group_of@[m] implies #[trigger] group_seen_before(group_of@, m, gg) by {
            assert(first[gg] < m);
            assert(group_of@[first[gg]] == gg);
        }
    }
    NameGroups { names: group_names, group_of }
}

/// The position of the last largest key, as `Iterator::max_by` picks among equal maxima.
pub fn last_max_index(keys: &Vec<i64>) -> (r: Option<usize>)
    ensures
        keys@.len() == 0 <==> r is None,
        r matches Some(g) ==> g < keys@.len() && (forall|h: int| 0 <= h < keys@.len() ==> keys@[h] <= keys@[g as int]) && (forall|h: int| g < h < keys@.len() ==> keys@[h] < keys@[g as int]),
{
    if keys.len() == 0 {
        return None;
    }
    let mut best: usize = 0;
    let mut i: usize = 1;
    while i < keys.len()
        invariant
            0 < i <= keys.len(),
            best < i,
            forall|h: int| 0 <= h < i ==> keys@[h] <= keys@[best as int],
            forall|h: int| best < h < i ==> keys@[h] < keys@[best as int],
        decreases keys.len() - i,
    {
        if keys[i] >= keys[best] {
            best = i;
        }
        i = i + 1;
    }
    Some(best)
}

/// The position of the first smallest key, as `Iterator::min_by` picks among equal minima.
pub fn first_min_index(keys: &Vec<i64>) -> (r: Option<usize>)
    ensures
        keys@.len() == 0 <==> r is None,
        r matches Some(g) ==> g < keys@.len() && (forall|h: int| 0 <= h < keys@.len() ==> keys@[g as int] <= keys@[h]) && (forall|h: int| 0 <= h < g ==> keys@[g as int] < keys@[h]),
{
    if keys.len() == 0 {
        return None;
    }
    let mut best: usize = 0;
    let mut i: usize = 1;
    while i < keys.len()
        invariant
            0 < i <= keys.len(),
            best < i,
            forall|h: int| 0 <= h < i ==> keys@[best as int] <= keys@[h],
            forall|h: int| 0 <= h < best ==> keys@[best as int] < keys@[h],
        decreases keys.len() - i,
    {
        if keys[i] < keys[best] {
            best = i;
        }
        i = i + 1;
    }
    Some(best)
}

/// The order the command line asks for before screening.
#[derive(Debug, Clone, Copy, PartialEq, Eq, Structural)]
pub enum SortKey {
    Volume,
    Price,
    AsFetched,
}

/// The requested order: `volume` or `price` sort descending by that value; anything else
/// keeps the fetched order.
pub fn sort_key_from_arg(arg: &str) -> (k: SortKey)
    ensures
        k == (if arg@ == "volume"@ {
            SortKey::Volume
        } else if arg@ == "price"@ {
            SortKey::Price
        } else {
            SortKey::AsFetched
        }),
{
    if str_equal(arg, "volume") {
        SortKey::Volume
    } else if str_equal(arg, "price") {
        SortKey::Price
    } else {
        SortKey::AsFetched
    }
}

} // verus!
