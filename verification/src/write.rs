//! Decisions of writing a mesh to a CGNS file: the zone's cell dimension and element
//! count, the coordinate array names, and one element section per block with its
//! element range and 1-based connectivity.
use vstd::prelude::*;

use crate::connectivity::{can_increment, one_based, to_one_based};
use crate::element::{cgns_type_of, mefi_to_cgns, CgnsElementType, MeshElementType, Regularity};
use crate::error::Error;

verus! {

/// One element block of the mesh to write, in the mesh's block order.
#[derive(Debug)]
pub struct MeshBlock {
    /// The block's element kind.
    pub element_type: MeshElementType,
    /// Number of elements in the block.
    pub len: usize,
    /// The block's connectivity as the mesh gives it for a regular kind: 0-based node
    /// indices, element by element; or the mesh's error message where it has none.
    pub connectivity: Result<Vec<usize>, String>,
}

/// One CGNS element section to write.
#[derive(Debug)]
pub struct SectionPlan {
    /// Section name: the element kind's name.
    pub name: String,
    pub element_type: CgnsElementType,
    /// First and last element number of the section (1-based, inclusive).
    pub start: i64,
    pub end: i64,
    /// 1-based connectivity, element by element.
    pub connectivity: Vec<i64>,
}

/// Everything that writing a mesh decides before and while its sections are written.
#[derive(Debug)]
pub struct WritePlan {
    /// Cell dimension of the CGNS base: the highest dimension among the blocks.
    pub cell_dim: u8,
    /// Element count of the zone: the number of elements of dimension `cell_dim`.
    pub num_elements: usize,
    /// The sections, in block order, that are written before writing stops.
    pub sections: Vec<SectionPlan>,
    /// Why writing stops before the last block, if it does.
    pub failure: Option<Error>,
}

/// Highest dimension among the blocks (0 when there are none).
pub open spec fn max_dim(s: Seq<MeshBlock>) -> u8
    decreases s.len(),
{
    if s.len() == 0 {
        0
    } else {
        let rest: u8 = max_dim(s.drop_last());
        let d: u8 = s.last().element_type.dim();
        if rest < d {
            d
        } else {
            rest
        }
    }
}

/// Number of elements in the first `i` blocks.
pub open spec fn elements_before(s: Seq<MeshBlock>, i: int) -> int
    decreases i,
{
    if i <= 0 {
        0
    } else {
        elements_before(s, i - 1) + s[i - 1].len
    }
}

/// Number of elements in all blocks.
pub open spec fn total_elements(s: Seq<MeshBlock>) -> int {
    elements_before(s, s.len() as int)
}

/// Number of elements of dimension `d` in the first `i` blocks.
pub open spec fn elements_of_dim_before(s: Seq<MeshBlock>, d: u8, i: int) -> int
    decreases i,
{
    if i <= 0 {
        0
    } else {
        elements_of_dim_before(s, d, i - 1) + (if s[i - 1].element_type.dim() == d {
            s[i - 1].len as int
        } else {
            0
        })
    }
}

/// Number of elements of dimension `d` in all blocks.
pub open spec fn elements_of_dim(s: Seq<MeshBlock>, d: u8) -> int {
    elements_of_dim_before(s, d, s.len() as int)
}

/// A block that is written as a section: its kind has a CGNS counterpart (so it is not
/// a poly kind) and the mesh gives its connectivity.
pub open spec fn block_writable(b: MeshBlock) -> bool {
    &&& cgns_type_of(b.element_type) is Some
    &&& b.connectivity is Ok
}

/// `e` is the error with which writing stops at block `b`: an unsupported element type,
/// named after the kind, where the kind has no CGNS counterpart; otherwise a shape error
/// with the mesh's message about the block's connectivity.
pub open spec fn block_failure(b: MeshBlock, e: Error) -> bool {
    if cgns_type_of(b.element_type) is None {
        e matches Error::UnsupportedElementType(s) && s@ == b.element_type.name_spec()
    } else {
        b.connectivity matches Err(m) && e matches Error::Shape(s) && s@ == m@
    }
}

/// `sec` is the section written for block `b` when `before` elements precede it.
pub open spec fn section_for(sec: SectionPlan, b: MeshBlock, before: int) -> bool {
    &&& sec.name@ == b.element_type.name_spec()
    &&& cgns_type_of(b.element_type) == Some(sec.element_type)
    &&& sec.start == before + 1
    &&& sec.end == before + b.len
    &&& b.connectivity matches Ok(c) && sec.connectivity@ == one_based(c@)
}

/// Conversion of a block's connectivity is only reached while all earlier blocks were
/// written; there every index must stay below `i64::MAX` once 1 is added.
pub open spec fn connectivity_convertible(s: Seq<MeshBlock>) -> bool {
    forall|i: int|
        0 <= i < s.len() && (forall|j: int| 0 <= j < i ==> block_writable(#[trigger] s[j]))
            && #[trigger] block_writable(s[i]) ==> can_increment(s[i].connectivity->Ok_0@)
}

/// Element counts fit the integer types in which they are summed and numbered.
pub open spec fn counts_fit(s: Seq<MeshBlock>) -> bool {
    &&& total_elements(s) < i64::MAX
    &&& total_elements(s) <= usize::MAX
}

/// `p` is the plan of writing `blocks`: the highest dimension, the number of elements of
/// that dimension, and the sections of the leading writable blocks, numbered
/// consecutively from 1; writing stops at the first block that is not writable, with its
/// error.
pub open spec fn plans_write_of(blocks: Seq<MeshBlock>, p: WritePlan) -> bool {
    &&& p.cell_dim == max_dim(blocks)
    &&& p.num_elements == elements_of_dim(blocks, p.cell_dim)
    &&& p.sections@.len() <= blocks.len()
    &&& forall|i: int|
        0 <= i < p.sections@.len() ==> block_writable(#[trigger] blocks[i]) && section_for(
            p.sections@[i],
            blocks[i],
            elements_before(blocks, i),
        )
    &&& p.failure is None <==> p.sections@.len() == blocks.len()
    &&& p.failure matches Some(e) ==> {
        &&& !block_writable(blocks[p.sections@.len() as int])
        &&& block_failure(blocks[p.sections@.len() as int], e)
    }
}

proof fn lemma_elements_before_monotone(s: Seq<MeshBlock>, i: int, j: int)
    requires
        0 <= i <= j <= s.len(),
    ensures
        0 <= elements_before(s, i) <= elements_before(s, j),
    decreases j,
{
    if j > 0 {
        if i < j {
            lemma_elements_before_monotone(s, i, j - 1);
        } else {
            lemma_elements_before_monotone(s, j - 1, j - 1);
        }
    }
}

proof fn lemma_elements_of_dim_bounded(s: Seq<MeshBlock>, d: u8, i: int)
    requires
        0 <= i <= s.len(),
    ensures
        0 <= elements_of_dim_before(s, d, i) <= elements_before(s, i),
    decreases i,
{
    if i > 0 {
        lemma_elements_of_dim_bounded(s, d, i - 1);
    }
}

proof fn lemma_max_dim_prefix(s: Seq<MeshBlock>, i: int)
    requires
        0 <= i < s.len(),
    ensures
        max_dim(s.take(i + 1)) == (if max_dim(s.take(i)) < s[i].element_type.dim() {
            s[i].element_type.dim()
        } else {
            max_dim(s.take(i))
        }),
{
    assert(s.take(i + 1).drop_last() == s.take(i));
}

proof fn lemma_max_dim_bounds(s: Seq<MeshBlock>, bound: u8)
    ensures
        forall|j: int| 0 <= j < s.len() ==> (#[trigger] s[j]).element_type.dim() <= max_dim(s),
        (forall|j: int| 0 <= j < s.len() ==> (#[trigger] s[j]).element_type.dim() <= bound)
            ==> max_dim(s) <= bound,
    decreases s.len(),
{
    if s.len() > 0 {
        let rest: Seq<MeshBlock> = s.drop_last();
        lemma_max_dim_bounds(rest, bound);
        assert forall|j: int| 0 <= j < s.len() - 1 implies #[trigger] s[j] == rest[j] by {}
    }
}

/// The highest dimension among the blocks is the dimension of the highest-ranked kind
/// among them: the mesh's topological dimension, as the mesh model defines it.
pub proof fn lemma_max_dim_is_dim_of_top_kind(s: Seq<MeshBlock>, i: int)
    requires
        0 <= i < s.len(),
        forall|j: int|
            0 <= j < s.len() ==> (#[trigger] s[j]).element_type.rank() <= s[i].element_type.rank(),
    ensures
        max_dim(s) == s[i].element_type.dim(),
{
    assert forall|j: int| 0 <= j < s.len() implies (#[trigger] s[j]).element_type.dim()
        <= s[i].element_type.dim() by {
        crate::element::lemma_dimension_monotone(s[j].element_type, s[i].element_type);
    }
    lemma_max_dim_bounds(s, s[i].element_type.dim());
}

proof fn lemma_elements_prefix_stable(s: Seq<MeshBlock>, t: Seq<MeshBlock>, d: u8, k: int)
    requires
        0 <= k <= s.len(),
        k <= t.len(),
        forall|j: int| 0 <= j < k ==> s[j] == t[j],
    ensures
        elements_of_dim_before(s, d, k) == elements_of_dim_before(t, d, k),
        elements_before(s, k) == elements_before(t, k),
    decreases k,
{
    if k > 0 {
        lemma_elements_prefix_stable(s, t, d, k - 1);
    }
}

/// The zone's element count is additive over blocks: appending a block adds its elements
/// when its kind has the counted dimension, and nothing otherwise. The total element
/// count grows by the block's elements in every case.
pub proof fn lemma_element_counts_append(s: Seq<MeshBlock>, b: MeshBlock, d: u8)
    ensures
        elements_of_dim(s.push(b), d) == elements_of_dim(s, d) + (if b.element_type.dim() == d {
            b.len as int
        } else {
            0
        }),
        total_elements(s.push(b)) == total_elements(s) + b.len,
{
    lemma_elements_prefix_stable(s, s.push(b), d, s.len() as int);
}

/// The element counts of a concatenation of block lists are the sums of the counts of
/// the parts; a list without blocks counts no elements.
pub proof fn lemma_element_counts_concat(s1: Seq<MeshBlock>, s2: Seq<MeshBlock>, d: u8)
    ensures
        elements_of_dim(Seq::<MeshBlock>::empty(), d) == 0,
        total_elements(Seq::<MeshBlock>::empty()) == 0,
        elements_of_dim(s1 + s2, d) == elements_of_dim(s1, d) + elements_of_dim(s2, d),
        total_elements(s1 + s2) == total_elements(s1) + total_elements(s2),
    decreases s2.len(),
{
    if s2.len() > 0 {
        let rest: Seq<MeshBlock> = s2.drop_last();
        let b: MeshBlock = s2.last();
        lemma_element_counts_concat(s1, rest, d);
        assert(s1 + s2 == (s1 + rest).push(b));
        assert(s2 == rest.push(b));
        lemma_element_counts_append(s1 + rest, b, d);
        lemma_element_counts_append(rest, b, d);
    } else {
        assert(s1 + s2 == s1);
    }
}

/// The elements of one dimension never outnumber all elements.
pub proof fn lemma_elements_of_dim_at_most_total(s: Seq<MeshBlock>, d: u8)
    ensures
        0 <= elements_of_dim(s, d) <= total_elements(s),
{
    lemma_elements_of_dim_bounded(s, d, s.len() as int);
}

/// The cell dimension is the highest dimension of any block: no block has a higher one,
/// and some block of a non-empty mesh has exactly that one.
pub proof fn lemma_max_dim_is_highest(s: Seq<MeshBlock>)
    ensures
        forall|j: int| 0 <= j < s.len() ==> (#[trigger] s[j]).element_type.dim() <= max_dim(s),
        s.len() > 0 ==> exists|j: int| 0 <= j < s.len() && (#[trigger] s[j]).element_type.dim()
            == max_dim(s),
    decreases s.len(),
{
    lemma_max_dim_bounds(s, 0);
    if s.len() > 0 {
        let rest: Seq<MeshBlock> = s.drop_last();
        lemma_max_dim_is_highest(rest);
        assert forall|j: int| 0 <= j < s.len() - 1 implies #[trigger] s[j] == rest[j] by {}
        assert(max_dim(s) == (if max_dim(rest) < s.last().element_type.dim() {
            s.last().element_type.dim()
        } else {
            max_dim(rest)
        }));
        if rest.len() == 0 {
            assert(max_dim(rest) == 0);
        }
        if rest.len() > 0 && max_dim(s) == max_dim(rest) {
            let j: int = choose|j: int| 0 <= j < rest.len() && (#[trigger] rest[j]).element_type.dim()
                == max_dim(rest);
            assert(s[j] == rest[j]);
        } else {
            assert(s[s.len() - 1].element_type.dim() == max_dim(s));
        }
    }
}

/// Highest dimension among the blocks; `None` for a mesh without blocks.
pub fn topological_dimension(blocks: &Vec<MeshBlock>) -> (d: Option<u8>)
    ensures
        d == (if blocks@.len() == 0 {
            None
        } else {
            Some(max_dim(blocks@))
        }),
{
    if blocks.len() == 0 {
        return None;
    }
    let mut best: u8 = 0;
    let mut i: usize = 0;
    while i < blocks.len()
        invariant
            i <= blocks@.len(),
            best == max_dim(blocks@.take(i as int)),
        decreases blocks.len() - i,
    {
        proof {
            lemma_max_dim_prefix(blocks@, i as int);
        }
        let d: u8 = blocks[i].element_type.dimension();
        if best < d {
            best = d;
        }
        i = i + 1;
    }
    assert(blocks@.take(blocks.len() as int) == blocks@);
    Some(best)
}

/// Number of elements of dimension `dim` over all blocks.
pub fn count_elements_of_dim(blocks: &Vec<MeshBlock>, dim: u8) -> (n: usize)
    requires
        total_elements(blocks@) <= usize::MAX,
    ensures
        n == elements_of_dim(blocks@, dim),
{
    let mut n: usize = 0;
    let mut i: usize = 0;
    while i < blocks.len()
        invariant
            i <= blocks@.len(),
            total_elements(blocks@) <= usize::MAX,
            n == elements_of_dim_before(blocks@, dim, i as int),
        decreases blocks.len() - i,
    {
        proof {
            lemma_elements_of_dim_bounded(blocks@, dim, i + 1);
            lemma_elements_before_monotone(blocks@, i + 1, blocks@.len() as int);
        }
        if blocks[i].element_type.dimension() == dim {
            n = n + blocks[i].len;
        }
        i = i + 1;
    }
    n
}

/// Name of the `col`-th coordinate array of the zone: `CoordinateX`, `CoordinateY`,
/// `CoordinateZ`.
pub fn coordinate_name(col: usize) -> (s: String)
    requires
        col < 3,
    ensures
        s@ == (if col == 0 {
            "CoordinateX"@
        } else if col == 1 {
            "CoordinateY"@
        } else {
            "CoordinateZ"@
        }),
{
    if col == 0 {
        String::from_str("CoordinateX")
    } else if col == 1 {
        String::from_str("CoordinateY")
    } else {
        String::from_str("CoordinateZ")
    }
}

/// The section for block `b` whose first element is number `start`, or the error with
/// which writing stops at `b`.
pub fn plan_section(b: &MeshBlock, start: i64) -> (r: Result<SectionPlan, Error>)
    requires
        1 <= start,
        start + b.len <= i64::MAX,
        block_writable(*b) ==> can_increment(b.connectivity->Ok_0@),
    ensures
        r is Ok <==> block_writable(*b),
        r matches Ok(sec) ==> section_for(sec, *b, start - 1),
        r matches Err(e) ==> block_failure(*b, e),
{
    if b.element_type.regularity() == Regularity::Poly {
        return Err(Error::UnsupportedElementType(b.element_type.name()));
    }
    let cgns_type = match mefi_to_cgns(b.element_type) {
        Some(t) => t,
        None => {
            return Err(Error::UnsupportedElementType(b.element_type.name()));
        },
    };
    let count: i64 = b.len as i64;
    let end: i64 = start + count - 1;
    match &b.connectivity {
        Err(m) => Err(Error::Shape(m.clone())),
        Ok(conn) => {
            let flat = to_one_based(conn);
            Ok(SectionPlan { name: b.element_type.name(), element_type: cgns_type, start, end, connectivity: flat })
        },
    }
}

/// Plans writing a mesh given by its blocks: the base's cell dimension, the zone's
/// element count and the sections in block order, each numbering its elements right
/// after the previous one. Writing stops at the first block that cannot be written (a
/// kind without a CGNS counterpart, or a block without connectivity); the sections before
/// it are still written and `failure` holds its error. A mesh without blocks is a shape
/// error ("empty mesh").
pub fn plan_write(blocks: &Vec<MeshBlock>) -> (r: Result<WritePlan, Error>)
    requires
        counts_fit(blocks@),
        connectivity_convertible(blocks@),
    ensures
        r is Err <==> blocks@.len() == 0,
        r matches Err(e) ==> (e matches Error::Shape(m) && m@ == "empty mesh"@),
        r matches Ok(p) ==> plans_write_of(blocks@, p),
{
    let cell_dim: u8 = match topological_dimension(blocks) {
        Some(d) => d,
        None => {
            return Err(Error::Shape(String::from_str("empty mesh")));
        },
    };
    proof {
        lemma_elements_before_monotone(blocks@, 0, blocks@.len() as int);
    }
    let num_elements: usize = count_elements_of_dim(blocks, cell_dim);
    let mut sections: Vec<SectionPlan> = Vec::new();
    let mut start: i64 = 1;
    let mut i: usize = 0;
    while i < blocks.len()
        invariant
            i <= blocks@.len(),
            counts_fit(blocks@),
            connectivity_convertible(blocks@),
            sections@.len() == i,
            cell_dim == max_dim(blocks@),
            num_elements == elements_of_dim(blocks@, cell_dim),
            start == elements_before(blocks@, i as int) + 1,
            forall|j: int|
                0 <= j < i ==> block_writable(#[trigger] blocks@[j]) && section_for(
                    sections@[j],
                    blocks@[j],
                    elements_before(blocks@, j),
                ),
        decreases blocks.len() - i,
    {
        proof {
            lemma_elements_before_monotone(blocks@, i + 1, blocks@.len() as int);
            lemma_elements_before_monotone(blocks@, i as int, i + 1);
            assert(forall|j: int| 0 <= j < i ==> block_writable(#[trigger] blocks@[j]));
        }
        match plan_section(&blocks[i], start) {
            Ok(sec) => {
                let end: i64 = sec.end;
                sections.push(sec);
                start = end + 1;
            },
            Err(e) => {
                return Ok(WritePlan { cell_dim, num_elements, sections, failure: Some(e) });
            },
        }
        i = i + 1;
    }
    Ok(WritePlan { cell_dim, num_elements, sections, failure: None })
}

} // verus!
