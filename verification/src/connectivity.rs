//! Node numbering of element connectivity: CGNS numbers nodes from 1 with signed 64-bit
//! integers, the mesh model from 0 with `usize`.
use vstd::prelude::*;

verus! {

/// The 0-based node index for a 1-based CGNS node number.
pub open spec fn zero_based_index(x: i64) -> usize {
    (x - 1) as usize
}

/// The 1-based CGNS node number for a 0-based node index.
pub open spec fn one_based_index(x: usize) -> i64 {
    ((x as i64) + 1) as i64
}

/// Element-wise 1-based to 0-based conversion.
pub open spec fn zero_based(flat: Seq<i64>) -> Seq<usize> {
    flat.map_values(|x: i64| zero_based_index(x))
}

/// Element-wise 0-based to 1-based conversion.
pub open spec fn one_based(conn: Seq<usize>) -> Seq<i64> {
    conn.map_values(|x: usize| one_based_index(x))
}

/// True when no entry is `i64::MIN`, so that subtracting 1 does not overflow.
pub open spec fn can_decrement(flat: Seq<i64>) -> bool {
    forall|i: int| 0 <= i < flat.len() ==> flat[i] != i64::MIN
}

/// True when no entry turns into `i64::MAX` as an `i64`, so that adding 1 does not overflow.
pub open spec fn can_increment(conn: Seq<usize>) -> bool {
    forall|i: int| 0 <= i < conn.len() ==> (conn[i] as i64) != i64::MAX
}

/// Converts 1-based CGNS node numbers to 0-based node indices, entry by entry.
pub fn to_zero_based(flat: &Vec<i64>) -> (conn: Vec<usize>)
    requires
        can_decrement(flat@),
    ensures
        conn@ == zero_based(flat@),
{
    let mut conn: Vec<usize> = Vec::with_capacity(flat.len());
    let mut i: usize = 0;
    while i < flat.len()
        invariant
            i <= flat.len(),
            can_decrement(flat@),
            conn@ == zero_based(flat@.take(i as int)),
        decreases flat.len() - i,
    {
        let x: i64 = flat[i];
        conn.push((x - 1) as usize);
        assert(flat@.take(i + 1) == flat@.take(i as int).push(x));
        i = i + 1;
    }
    assert(flat@.take(flat.len() as int) == flat@);
    conn
}

/// Converts 0-based node indices to 1-based CGNS node numbers, entry by entry.
pub fn to_one_based(conn: &Vec<usize>) -> (flat: Vec<i64>)
    requires
        can_increment(conn@),
    ensures
        flat@ == one_based(conn@),
{
    let mut flat: Vec<i64> = Vec::with_capacity(conn.len());
    let mut i: usize = 0;
    while i < conn.len()
        invariant
            i <= conn.len(),
            can_increment(conn@),
            flat@ == one_based(conn@.take(i as int)),
        decreases conn.len() - i,
    {
        let x: usize = conn[i];
        let y: i64 = x as i64;
        flat.push(y + 1);
        assert(conn@.take(i + 1) == conn@.take(i as int).push(x));
        i = i + 1;
    }
    assert(conn@.take(conn.len() as int) == conn@);
    flat
}

/// Writing node indices as CGNS numbers and reading them back gives the indices again,
/// for every index below `i64::MAX`.
pub proof fn lemma_one_based_then_zero_based(conn: Seq<usize>)
    requires
        forall|i: int| 0 <= i < conn.len() ==> conn[i] < i64::MAX,
    ensures
        can_increment(conn),
        can_decrement(one_based(conn)),
        zero_based(one_based(conn)) == conn,
{
    assert forall|i: int| 0 <= i < conn.len() implies (conn[i] as i64) == conn[i] by {}
    assert(zero_based(one_based(conn)) =~= conn);
}

/// Reading CGNS node numbers as indices and writing them back gives the numbers again,
/// for every number from 1 up to `usize::MAX + 1`.
pub proof fn lemma_zero_based_then_one_based(flat: Seq<i64>)
    requires
        forall|i: int| 0 <= i < flat.len() ==> 1 <= flat[i] && flat[i] - 1 <= usize::MAX,
    ensures
        can_decrement(flat),
        can_increment(zero_based(flat)),
        one_based(zero_based(flat)) == flat,
{
    assert forall|i: int| 0 <= i < flat.len() implies (zero_based_index(flat[i]) as int) == flat[i] - 1
        && (zero_based_index(flat[i]) as i64) == flat[i] - 1 by {}
    assert(one_based(zero_based(flat)) =~= flat);
}

/// Reading renumbers entry by entry, in place: the result has the input's length and its
/// `i`-th entry is the `i`-th input number minus one (whenever that fits a `usize`).
pub proof fn lemma_zero_based_entrywise(flat: Seq<i64>)
    ensures
        zero_based(flat).len() == flat.len(),
        forall|i: int|
            0 <= i < flat.len() && 1 <= flat[i] && flat[i] - 1 <= usize::MAX ==> (
            #[trigger] zero_based(flat)[i]) as int == flat[i] - 1,
{
}

/// Writing renumbers entry by entry, in place: the result has the input's length and its
/// `i`-th entry is the `i`-th input index plus one (whenever that fits an `i64`).
pub proof fn lemma_one_based_entrywise(conn: Seq<usize>)
    ensures
        one_based(conn).len() == conn.len(),
        forall|i: int|
            0 <= i < conn.len() && conn[i] < i64::MAX ==> (#[trigger] one_based(conn)[i]) as int
                == conn[i] + 1,
{
}

} // verus!
