//! The index logic of polygons on the sphere: which vertices each arc
//! joins, and which of a list of distances is the nearest.
//!
//! Distances are given as keys: unsigned integers ordered as the
//! distances they stand for.
use vstd::prelude::*;

verus! {

/// The number of arcs of a polygon with `len` vertices: one per vertex when
/// it is closed, one fewer when it is open.
pub open spec fn arc_count(len: nat, is_closed: bool) -> nat {
    if is_closed {
        len
    } else {
        (len - 1) as nat
    }
}

/// The vertices that arc `i` of a polygon with `len` vertices joins: vertex
/// `i` and the one after it, the last vertex wrapping round to the first.
pub open spec fn arc_of(i: nat, len: nat) -> (usize, usize) {
    (i as usize, ((i + 1) % len) as usize)
}

/// The arcs of a polygon with `len` vertices, in order, each as the pair of
/// vertex indices that it joins. An open polygon must have a vertex.
pub fn arc_endpoints(len: usize, is_closed: bool) -> (arcs: Vec<(usize, usize)>)
    requires
        is_closed || len > 0,
    ensures
        arcs@.len() == arc_count(len as nat, is_closed),
        arcs@.len() == (if is_closed { len as int } else { len - 1 }),
        forall|i: int| 0 <= i < arcs@.len() ==> #[trigger] arcs@[i] == arc_of(i as nat, len as nat),
        forall|i: int| 0 <= i < arcs@.len() ==> arcs@[i].0 < len && arcs@[i].1 < len,
        forall|i: int|
            0 <= i < arcs@.len() ==> #[trigger] arcs@[i].0 as int == i && arcs@[i].1 as int == (i
                + 1) % (len as int),
{
    let top = if is_closed { len } else { len - 1 };
    let mut arcs: Vec<(usize, usize)> = Vec::new();
    let mut i: usize = 0;
    while i < top
        invariant
            top == arc_count(len as nat, is_closed),
            top <= len,
            i <= top,
            arcs@.len() == i,
            forall|j: int| 0 <= j < i ==> #[trigger] arcs@[j] == arc_of(j as nat, len as nat),
            forall|j: int| 0 <= j < i ==> arcs@[j].0 < len && arcs@[j].1 < len,
        decreases top - i,
    {
        arcs.push((i, (i + 1) % len));
        i = i + 1;
    }
    arcs
}

/// Arc `i` starts at vertex `i` and ends at the next vertex: vertex `i + 1`
/// while there is one, vertex 0 for the arc that closes the polygon.
pub proof fn lemma_arc_joins_next_vertex(i: nat, len: nat)
    requires
        i < len,
        len <= usize::MAX,
    ensures
        arc_of(i, len).0 as int == i,
        i + 1 < len ==> arc_of(i, len).1 as int == i + 1,
        i + 1 == len ==> arc_of(i, len).1 == 0,
        arc_of(i, len).1 as int == (i as int + 1) % (len as int),
{
    if i + 1 < len {
        vstd::arithmetic::div_mod::lemma_small_mod((i + 1) as nat, len);
    } else {
        vstd::arithmetic::div_mod::lemma_mod_self_0(len as int);
    }
}

/// `i` is where the nearest key below `limit` stands in `keys`: the first
/// position of the smallest key, which is below `limit`.
pub open spec fn is_nearest_below(keys: Seq<u64>, limit: u64, i: int) -> bool {
    &&& 0 <= i < keys.len()
    &&& keys[i] < limit
    &&& forall|j: int| 0 <= j < keys.len() ==> keys[i] <= #[trigger] keys[j]
    &&& forall|j: int| 0 <= j < i ==> keys[i] < #[trigger] keys[j]
}

/// The position of the nearest key, among those strictly below `limit`;
/// on a tie the first such position. `None` when no key is below `limit`.
pub fn index_of_nearest(keys: &[u64], limit: u64) -> (res: Option<usize>)
    ensures
        res is None <==> forall|j: int| 0 <= j < keys@.len() ==> limit <= #[trigger] keys@[j],
        res matches Some(i) ==> is_nearest_below(keys@, limit, i as int),
        res matches Some(i) ==> {
            &&& i < keys@.len()
            &&& keys@[i as int] < limit
            &&& forall|j: int| 0 <= j < keys@.len() ==> keys@[i as int] <= #[trigger] keys@[j]
            &&& forall|j: int| 0 <= j < i ==> keys@[i as int] < #[trigger] keys@[j]
        },
{
    let mut min = limit;
    let mut idx: Option<usize> = None;
    let mut i: usize = 0;
    while i < keys.len()
        invariant
            i <= keys@.len(),
            min <= limit,
            forall|j: int| 0 <= j < i ==> min <= #[trigger] keys@[j],
            idx is None ==> min == limit,
            idx matches Some(k) ==> {
                &&& k < i
                &&& keys@[k as int] == min
                &&& min < limit
                &&& forall|j: int| 0 <= j < k ==> min < #[trigger] keys@[j]
            },
        decreases keys@.len() - i,
    {
        let d = keys[i];
        if d < min {
            min = d;
            idx = Some(i);
        }
        i = i + 1;
    }
    idx
}

} // verus!
